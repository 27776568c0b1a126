use vstd::prelude::*;

verus! {

/// The CPU state that is enough to resume an execution later: the
/// callee-saved floating-point registers `d8`..`d15`, the callee-saved
/// general-purpose registers `x19`..`x28`, the link register `x30`, and the
/// stack pointer.
#[derive(Clone, Copy, Debug, PartialEq, Eq, Structural)]
pub struct Registers {
    pub d8: u64,
    pub d9: u64,
    pub d10: u64,
    pub d11: u64,
    pub d12: u64,
    pub d13: u64,
    pub d14: u64,
    pub d15: u64,
    pub x19: u64,
    pub x20: u64,
    pub x21: u64,
    pub x22: u64,
    pub x23: u64,
    pub x24: u64,
    pub x25: u64,
    pub x26: u64,
    pub x27: u64,
    pub x28: u64,
    /// Link register: the address at which execution resumes.
    pub x30: u64,
    /// Stack pointer.
    pub sp: u64,
}

impl Registers {
    /// The register context of an execution that has not run yet: it resumes
    /// at `resume` with the stack pointer at `sp`; every other register is
    /// zero, since nothing at the resume address depends on them.
    pub open spec fn fresh(sp: u64, resume: u64) -> Registers {
        Registers {
            d8: 0,
            d9: 0,
            d10: 0,
            d11: 0,
            d12: 0,
            d13: 0,
            d14: 0,
            d15: 0,
            x19: 0,
            x20: 0,
            x21: 0,
            x22: 0,
            x23: 0,
            x24: 0,
            x25: 0,
            x26: 0,
            x27: 0,
            x28: 0,
            x30: resume,
            sp: sp,
        }
    }

    /// Builds the register context of a fresh execution.
    pub fn new(sp: u64, resume: u64) -> (regs: Registers)
        ensures
            regs == Registers::fresh(sp, resume),
    {
        Registers {
            d8: 0,
            d9: 0,
            d10: 0,
            d11: 0,
            d12: 0,
            d13: 0,
            d14: 0,
            d15: 0,
            x19: 0,
            x20: 0,
            x21: 0,
            x22: 0,
            x23: 0,
            x24: 0,
            x25: 0,
            x26: 0,
            x27: 0,
            x28: 0,
            x30: resume,
            sp: sp,
        }
    }
}

} // verus!
