use vstd::prelude::*;
use crate::registers::Registers;
use crate::stack::StackRegion;

verus! {

/// A task: its saved register context, its stack, the procedure it runs, and
/// its id. `E` is whatever the embedding program invokes as the task's body.
pub struct Context<E> {
    pub regs: Registers,
    pub stack: StackRegion,
    pub entry: E,
    pub id: u64,
}

impl<E> Context<E> {
    /// The task as it is before it has run: it will resume at `resume` with
    /// an empty stack.
    pub open spec fn fresh(func: E, stack: StackRegion, id: u64, resume: u64) -> Context<E> {
        Context {
            regs: Registers::fresh(stack.spec_top() as u64, resume),
            stack: stack,
            entry: func,
            id: id,
        }
    }

    /// The same task with another saved register context.
    pub open spec fn with_regs(self, regs: Registers) -> Context<E> {
        Context { regs: regs, stack: self.stack, entry: self.entry, id: self.id }
    }

    /// Builds a task that runs `func` on `stack` and first resumes at
    /// `resume`, the address of the procedure that every fresh task starts in.
    pub fn new(func: E, stack: StackRegion, id: u64, resume: u64) -> (ctx: Context<E>)
        requires
            stack.wf(),
        ensures
            ctx == Context::fresh(func, stack, id, resume),
    {
        let regs = Registers::new(stack.top(), resume);
        Context { regs: regs, stack: stack, entry: func, id: id }
    }

    /// The saved register context, for writing.
    pub fn get_regs_mut(&mut self) -> (regs: &mut Registers)
        ensures
            *regs == old(self).regs,
            *final(self) == old(self).with_regs(*final(regs)),
    {
        &mut self.regs
    }

    /// The saved register context, for reading.
    pub fn get_regs(&self) -> (regs: &Registers)
        ensures
            *regs == self.regs,
    {
        &self.regs
    }
}

} // verus!
