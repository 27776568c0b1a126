//! A cooperative multitasking runtime for one OS thread, written as a
//! verified state machine.
//!
//! The runtime owns the run queue, the registry of blocked tasks, the pending
//! messages and the stacks that wait to be released. Every operation takes the
//! register context that the caller has just captured, updates the state, and
//! answers with the register context that has to be resumed next. Capturing
//! and resuming contexts, and allocating and protecting stack memory, are the
//! embedding program's business.

pub mod fatal;
pub mod registers;
pub mod stack;
pub mod context;
pub mod mapped_list;
pub mod state;
pub mod preserved;
pub mod green;
pub mod laws;



