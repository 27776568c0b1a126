use vstd::prelude::*;

verus! {

/// The conditions that end the process: each is a broken contract of the
/// embedding program, and none can be recovered from.
#[derive(Clone, Copy, Debug, PartialEq, Eq, Structural)]
pub enum Fatal {
    /// The runtime was activated while an activation was in progress.
    Reentered,
    /// The only ready task waits for a message that nobody is left to send.
    Deadlock,
    /// No page-aligned stack of the requested size could be had.
    Allocation,
}

impl Fatal {
    /// The words to end the process with.
    pub fn message(&self) -> (msg: &'static str)
        ensures
            *self == Fatal::Reentered ==> msg@ == "spawn_from_main is called twice"@,
            *self == Fatal::Deadlock ==> msg@ == "waiting never delivered messages"@,
            *self == Fatal::Allocation ==> msg@ == "stack allocation failed"@,
    {
        match self {
            Fatal::Reentered => "spawn_from_main is called twice",
            Fatal::Deadlock => "waiting never delivered messages",
            Fatal::Allocation => "stack allocation failed",
        }
    }
}

} // verus!
