use vstd::prelude::*;
use crate::fatal::Fatal;

verus! {

/// Size of a memory page, and so of a guard page and of the alignment of
/// every stack.
pub const PAGE_SIZE: usize = 4096;

/// What may be done with a range of memory.
#[derive(Clone, Copy, Debug, PartialEq, Eq, Structural)]
pub enum Access {
    /// Nothing: every access faults.
    Nothing,
    /// Reading and writing.
    ReadWrite,
}

/// A request to change what may be done with `len` bytes from `addr` on.
#[derive(Clone, Copy, Debug, PartialEq, Eq, Structural)]
pub struct Protect {
    pub addr: u64,
    pub len: usize,
    pub access: Access,
}

/// A stack as the runtime sees it: the address of its lowest byte and its
/// size in bytes. The lowest page of the region is the guard page.
#[derive(Clone, Copy, Debug, PartialEq, Eq, Structural)]
pub struct StackRegion {
    pub base: u64,
    pub size: usize,
}

impl StackRegion {
    /// What `new` accepts: an allocation that succeeded (`base` is not null),
    /// aligned to the page size, large enough to hold the guard page, and
    /// ending within the address space.
    pub open spec fn valid(base: u64, size: usize) -> bool {
        &&& base != 0
        &&& base % 4096 == 0
        &&& size >= 4096
        &&& base + size <= u64::MAX
    }

    /// Every region that `new` hands out satisfies this.
    pub open spec fn wf(self) -> bool {
        Self::valid(self.base, self.size)
    }

    /// The address just above the region, where a fresh stack pointer starts.
    pub open spec fn spec_top(self) -> int {
        self.base + self.size
    }

    /// Describes the region of `size` bytes that an allocation gave at
    /// `base`, or reports that the allocation failed.
    pub fn new(base: u64, size: usize) -> (r: Result<StackRegion, Fatal>)
        ensures
            Self::valid(base, size) ==> r == Ok::<StackRegion, Fatal>(StackRegion { base, size }),
            !Self::valid(base, size) ==> r == Err::<StackRegion, Fatal>(Fatal::Allocation),
    {
        if base == 0 || base % 4096 != 0 || size < PAGE_SIZE {
            return Err(Fatal::Allocation);
        }
        if size as u64 > u64::MAX - base {
            return Err(Fatal::Allocation);
        }
        Ok(StackRegion { base, size })
    }

    /// The initial stack pointer of a task that runs on this stack.
    pub fn top(&self) -> (sp: u64)
        requires
            self.wf(),
        ensures
            sp == self.spec_top(),
    {
        self.base + self.size as u64
    }

    /// The request that arms the guard page: the lowest page of the region
    /// becomes inaccessible, so that a stack that overflows faults at once.
    pub fn guard(&self) -> (p: Protect)
        ensures
            p == (Protect { addr: self.base, len: PAGE_SIZE, access: Access::Nothing }),
    {
        Protect { addr: self.base, len: PAGE_SIZE, access: Access::Nothing }
    }

    /// The request that disarms the guard page, to be made before the region
    /// is released: the lowest page can be read and written again.
    pub fn unguard(&self) -> (p: Protect)
        ensures
            p == (Protect { addr: self.base, len: PAGE_SIZE, access: Access::ReadWrite }),
    {
        Protect { addr: self.base, len: PAGE_SIZE, access: Access::ReadWrite }
    }
}

} // verus!
