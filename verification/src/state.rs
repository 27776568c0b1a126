use vstd::prelude::*;
use crate::registers::Registers;
use crate::stack::StackRegion;
use crate::context::Context;
use crate::fatal::Fatal;
use crate::mapped_list::{queue_of, pushed, popped, no_empty_queue, holds_at};

verus! {

/// What the caller of a yielding operation has to do next.
#[derive(Clone, Copy, Debug, PartialEq, Eq, Structural)]
pub enum Switch {
    /// Nothing to hand off to: go on in the calling task.
    Stay,
    /// Resume this register context; the calling task stays suspended
    /// in the context it captured until somebody resumes it.
    Resume(Registers),
}

/// How a receive that did not fail went.
#[derive(Clone, Copy, Debug, PartialEq, Eq, Structural)]
pub enum Received {
    /// A message was pending and is handed over without a switch.
    Message(u64),
    /// The calling task is blocked now: resume this register context. The
    /// message is taken once the task has been resumed.
    Blocked(Registers),
}

/// The runtime as a mathematical value.
pub struct State<E> {
    /// The host's captured context, present exactly during an activation.
    pub main: Option<Registers>,
    /// The id handed out last.
    pub last_id: u64,
    /// The ready tasks; the head is the one that runs.
    pub ready: Seq<Context<E>>,
    /// The blocked tasks, by the key they wait on.
    pub waiting: Map<u64, Seq<Context<E>>>,
    /// The undelivered messages, by key.
    pub messages: Map<u64, Seq<u64>>,
    /// The stacks of finished tasks that are not released yet, oldest first.
    pub unused: Seq<StackRegion>,
}

impl<E> State<E> {
    /// The state before the first activation.
    pub open spec fn initial() -> State<E> {
        State {
            main: None,
            last_id: 0,
            ready: Seq::empty(),
            waiting: Map::empty(),
            messages: Map::empty(),
            unused: Seq::empty(),
        }
    }

    /// No task, ready or blocked, has an id above the last one handed out.
    pub open spec fn ids_issued(self) -> bool {
        &&& forall|r: int|
            0 <= r < self.ready.len() ==> (#[trigger] self.ready[r]).id <= self.last_id
        &&& forall|k: u64, i: int| #[trigger]
            holds_at(self.waiting, k, i) ==> self.waiting[k][i].id <= self.last_id
    }

    /// No two tasks share an id, be they ready or blocked. So no task is in
    /// two places at once: not twice among the ready tasks, not twice among
    /// the blocked ones, and not ready and blocked at the same time.
    pub open spec fn ids_distinct(self) -> bool {
        &&& forall|r: int, q: int|
            0 <= r < q < self.ready.len() ==> (#[trigger] self.ready[r]).id != (
            #[trigger] self.ready[q]).id
        &&& forall|k: u64, i: int, l: u64, j: int|
            #[trigger] holds_at(self.waiting, k, i) && #[trigger] holds_at(self.waiting, l, j) && (k
                != l || i != j) ==> self.waiting[k][i].id != self.waiting[l][j].id
        &&& forall|r: int, k: u64, i: int|
            0 <= r < self.ready.len() && #[trigger] holds_at(self.waiting, k, i) ==> (
            #[trigger] self.ready[r]).id != self.waiting[k][i].id
    }

    /// Outside an activation there are no tasks and no messages.
    pub open spec fn quiet_when_idle(self) -> bool {
        self.main is None ==> self.ready.len() == 0 && self.waiting =~= Map::empty()
            && self.messages =~= Map::empty()
    }

    /// The invariant of the runtime.
    pub open spec fn wf(self) -> bool {
        &&& no_empty_queue(self.waiting)
        &&& no_empty_queue(self.messages)
        &&& self.ids_issued()
        &&& self.ids_distinct()
        &&& self.quiet_when_idle()
    }

    /// The ids of the ready tasks, in queue order.
    pub open spec fn ready_ids(self) -> Seq<u64> {
        Seq::new(self.ready.len(), |i: int| self.ready[i].id)
    }

    /// The state after the running task has yielded with its context
    /// captured as `here`: it goes to the tail, unless it is alone.
    pub open spec fn yielded(self, here: Registers) -> State<E> {
        if self.ready.len() <= 1 {
            self
        } else {
            State { ready: self.ready.drop_first().push(self.ready[0].with_regs(here)), ..self }
        }
    }

    /// What a yield in this state answers: the context of the second task
    /// in line, where there is one.
    pub open spec fn yield_switch(self) -> Switch {
        if self.ready.len() <= 1 {
            Switch::Stay
        } else {
            Switch::Resume(self.ready[1].regs)
        }
    }

    /// The state with one more task at the tail, under the next id.
    pub open spec fn enrolled(self, func: E, stack: StackRegion, resume: u64) -> State<E> {
        let id = (self.last_id + 1) as u64;
        State { last_id: id, ready: self.ready.push(Context::fresh(func, stack, id, resume)), ..self }
    }

    /// The state after `msg` has been queued under `key`: the task that has
    /// waited longest on `key`, if any, joins the tail of the ready tasks.
    pub open spec fn posted(self, key: u64, msg: u64) -> State<E> {
        if queue_of(self.waiting, key).len() > 0 {
            State {
                messages: pushed(self.messages, key, msg),
                ready: self.ready.push(self.waiting[key][0]),
                waiting: popped(self.waiting, key),
                ..self
            }
        } else {
            State { messages: pushed(self.messages, key, msg), ..self }
        }
    }

    /// The id of the running task, which is the key of its own mailbox.
    pub open spec fn own_key(self) -> u64 {
        self.ready[0].id
    }

    /// A message is pending under `key`.
    pub open spec fn has_mail(self, key: u64) -> bool {
        queue_of(self.messages, key).len() > 0
    }

    /// The oldest message pending under `key`.
    pub open spec fn mail(self, key: u64) -> u64 {
        self.messages[key][0]
    }

    /// The state after the oldest message under `key` has been taken, if
    /// there was one.
    pub open spec fn taken(self, key: u64) -> State<E> {
        State { messages: popped(self.messages, key), ..self }
    }

    /// The state after the running task, captured as `here`, has left the
    /// ready tasks to wait on `key`, behind those that wait there already.
    pub open spec fn blocked(self, key: u64, here: Registers) -> State<E> {
        State {
            ready: self.ready.drop_first(),
            waiting: pushed(self.waiting, key, self.ready[0].with_regs(here)),
            ..self
        }
    }

    /// The state after a receive on `key` by the running task.
    pub open spec fn received(self, key: u64, here: Registers) -> State<E> {
        if self.has_mail(key) {
            self.taken(key)
        } else if self.ready.len() == 1 {
            self
        } else {
            self.blocked(key, here)
        }
    }

    /// What a receive on `key` by the running task answers.
    pub open spec fn receive_result(self, key: u64) -> Result<Received, Fatal> {
        if self.has_mail(key) {
            Ok(Received::Message(self.mail(key)))
        } else if self.ready.len() == 1 {
            Err(Fatal::Deadlock)
        } else {
            Ok(Received::Blocked(self.ready[1].regs))
        }
    }

    /// The state after the running task has finished: it leaves the ready
    /// tasks for good, and its stack waits to be released.
    pub open spec fn retired(self) -> State<E> {
        State {
            ready: self.ready.drop_first(),
            unused: self.unused.push(self.ready[0].stack),
            ..self
        }
    }

    /// The context to resume when the running task has finished: the next
    /// ready task's, or the host's when no task is ready.
    pub open spec fn after_retiring(self) -> Option<Registers> {
        if self.ready.len() >= 2 {
            Some(self.ready[1].regs)
        } else {
            self.main
        }
    }

    /// The state at the start of an activation from the host context `here`:
    /// fresh registries and the first task, which takes the id handed out
    /// last.
    pub open spec fn activated(
        self,
        func: E,
        stack: StackRegion,
        resume: u64,
        here: Registers,
    ) -> State<E> {
        State {
            main: Some(here),
            ready: self.ready.push(Context::fresh(func, stack, self.last_id, resume)),
            waiting: Map::empty(),
            messages: Map::empty(),
            ..self
        }
    }

    /// The state with no stack left to release.
    pub open spec fn reclaimed(self) -> State<E> {
        State { unused: Seq::empty(), ..self }
    }

    /// The state after an activation: everything is empty, and only the id
    /// counter goes on.
    pub open spec fn idle(self) -> State<E> {
        State {
            main: None,
            last_id: self.last_id,
            ready: Seq::empty(),
            waiting: Map::empty(),
            messages: Map::empty(),
            unused: Seq::empty(),
        }
    }
}

} // verus!
