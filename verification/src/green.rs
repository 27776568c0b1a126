use vstd::prelude::*;
use std::collections::VecDeque;
use crate::registers::Registers;
use crate::stack::StackRegion;
use crate::context::Context;
use crate::mapped_list::MappedList;
use crate::fatal::Fatal;
use crate::state::{State, Switch, Received};
use crate::preserved::{
    lemma_yielded_wf,
    lemma_enrolled_wf,
    lemma_posted_wf,
    lemma_taken_wf,
    lemma_blocked_wf,
    lemma_retired_wf,
    lemma_activated_wf,
};

verus! {

/// The runtime: everything that the tasks of one OS thread share.
pub struct Runtime<E> {
    main: Option<Registers>,
    last_id: u64,
    ready: VecDeque<Context<E>>,
    waiting: MappedList<Context<E>>,
    messages: MappedList<u64>,
    unused: Vec<StackRegion>,
}

impl<E> View for Runtime<E> {
    type V = State<E>;

    closed spec fn view(&self) -> State<E> {
        State {
            main: self.main,
            last_id: self.last_id,
            ready: self.ready@,
            waiting: self.waiting@,
            messages: self.messages@,
            unused: self.unused@,
        }
    }
}

impl<E> Runtime<E> {
    /// The invariant that every operation keeps.
    pub open spec fn wf(&self) -> bool {
        self@.wf()
    }

    /// A runtime that has not been activated yet.
    pub fn new() -> (rt: Runtime<E>)
        ensures
            rt@ == State::<E>::initial(),
            rt.wf(),
    {
        Runtime {
            main: None,
            last_id: 0,
            ready: VecDeque::new(),
            waiting: MappedList::new(),
            messages: MappedList::new(),
            unused: Vec::new(),
        }
    }

    /// Whether an activation is in progress.
    pub fn is_active(&self) -> (b: bool)
        ensures
            b == (self@.main is Some),
    {
        self.main.is_some()
    }

    /// The id handed out last.
    pub fn last_id(&self) -> (id: u64)
        ensures
            id == self@.last_id,
    {
        self.last_id
    }

    /// The id of the running task: none while no task is ready.
    pub fn current_id(&self) -> (id: Option<u64>)
        ensures
            self@.ready.len() == 0 ==> id is None,
            self@.ready.len() > 0 ==> id == Some(self@.own_key()),
    {
        if self.ready.len() == 0 {
            None
        } else {
            Some(self.ready[0].id)
        }
    }

    /// The ids of the ready tasks in queue order, the running one first.
    pub fn ready_ids(&self) -> (ids: Vec<u64>)
        ensures
            ids@ == self@.ready_ids(),
    {
        let mut ids: Vec<u64> = Vec::new();
        let mut i: usize = 0;
        while i < self.ready.len()
            invariant
                i <= self.ready.len(),
                ids@ == Seq::new(i as nat, |j: int| self.ready@[j].id),
            decreases self.ready.len() - i,
        {
            ids.push(self.ready[i].id);
            i += 1;
            assert(ids@ =~= Seq::new(i as nat, |j: int| self.ready@[j].id));
        }
        ids
    }

    /// The number of tasks blocked on `key`.
    pub fn blocked_on(&self, key: u64) -> (n: usize)
        ensures
            n == crate::mapped_list::queue_of(self@.waiting, key).len(),
    {
        self.waiting.len(key)
    }

    /// The number of messages pending under `key`.
    pub fn pending(&self, key: u64) -> (n: usize)
        ensures
            n == crate::mapped_list::queue_of(self@.messages, key).len(),
    {
        self.messages.len(key)
    }

    /// The number of stacks that wait to be released.
    pub fn unreleased(&self) -> (n: usize)
        ensures
            n == self@.unused.len(),
    {
        self.unused.len()
    }
}

/// Starts an activation from the host, whose context was captured as `here`:
/// the first task runs `func` on `stack` and is the one to resume. Refused
/// while an activation is in progress.
pub fn spawn_from_main<E>(
    rt: &mut Runtime<E>,
    func: E,
    stack: StackRegion,
    resume: u64,
    here: Registers,
) -> (r: Result<Registers, Fatal>)
    requires
        old(rt).wf(),
        stack.wf(),
    ensures
        final(rt).wf(),
        old(rt)@.main is Some ==> r == Err::<Registers, Fatal>(Fatal::Reentered) && final(rt)@
            == old(rt)@,
        old(rt)@.main is None ==> final(rt)@ == old(rt)@.activated(func, stack, resume, here) && r
            == Ok::<Registers, Fatal>(Registers::fresh(stack.spec_top() as u64, resume)),
{
    if rt.main.is_some() {
        return Err(Fatal::Reentered);
    }
    proof {
        lemma_activated_wf(rt@, func, stack, resume, here);
    }
    rt.main = Some(here);
    rt.messages = MappedList::new();
    rt.waiting = MappedList::new();
    let first = Context::new(func, stack, rt.last_id, resume);
    rt.ready.push_back(first);
    let regs = *rt.ready[0].get_regs();
    assert(rt@ =~= old(rt)@.activated(func, stack, resume, here));
    Ok(regs)
}

/// Ends an activation, once the host context has been resumed: hands out
/// the stacks that are still to be released and empties the runtime, so that
/// it can be activated again.
pub fn deactivate<E>(rt: &mut Runtime<E>) -> (stacks: Vec<StackRegion>)
    ensures
        stacks@ == old(rt)@.unused,
        final(rt)@ == old(rt)@.idle(),
        final(rt).wf(),
{
    let mut stacks: Vec<StackRegion> = Vec::new();
    core::mem::swap(&mut rt.unused, &mut stacks);
    rt.main = None;
    rt.ready.clear();
    rt.messages.clear();
    rt.waiting.clear();
    assert(rt@ =~= old(rt)@.idle());
    stacks
}

/// Creates a task that runs `func` on `stack`, puts it at the tail of the
/// ready tasks, and yields. Answers the new task's id and what to do next.
pub fn spawn<E>(
    rt: &mut Runtime<E>,
    func: E,
    stack: StackRegion,
    resume: u64,
    here: Registers,
) -> (r: (u64, Switch))
    requires
        old(rt).wf(),
        old(rt)@.ready.len() >= 1,
        old(rt)@.last_id < u64::MAX,
        stack.wf(),
    ensures
        final(rt).wf(),
        r.0 == old(rt)@.last_id + 1,
        r.1 == old(rt)@.enrolled(func, stack, resume).yield_switch(),
        final(rt)@ == old(rt)@.enrolled(func, stack, resume).yielded(here),
{
    proof {
        lemma_enrolled_wf(rt@, func, stack, resume);
    }
    rt.last_id += 1;
    let id = rt.last_id;
    let task = Context::new(func, stack, id, resume);
    rt.ready.push_back(task);
    assert(rt@ =~= old(rt)@.enrolled(func, stack, resume));
    let switch = schedule(rt, here);
    (id, switch)
}

/// Queues `msg` under `key`, makes the task that has waited on `key`
/// longest ready again, and yields, whether or not a task was waiting.
pub fn send<E>(rt: &mut Runtime<E>, key: u64, msg: u64, here: Registers) -> (s: Switch)
    requires
        old(rt).wf(),
        old(rt)@.ready.len() >= 1,
    ensures
        final(rt).wf(),
        s == old(rt)@.posted(key, msg).yield_switch(),
        final(rt)@ == old(rt)@.posted(key, msg).yielded(here),
{
    proof {
        lemma_posted_wf(rt@, key, msg);
    }
    rt.messages.push_back(key, msg);
    if let Some(ctx) = rt.waiting.pop_front(key) {
        rt.ready.push_back(ctx);
    }
    assert(rt@.waiting =~= old(rt)@.posted(key, msg).waiting);
    assert(rt@.ready =~= old(rt)@.posted(key, msg).ready);
    assert(rt@ =~= old(rt)@.posted(key, msg));
    schedule(rt, here)
}

/// Receives on `key`. A pending message is handed over at once. With none
/// pending, the running task blocks behind those that wait on `key`
/// already, and another task is to be resumed; if it is the only ready task,
/// nobody could ever send, and the receive fails without changing anything.
pub fn recv_on<E>(rt: &mut Runtime<E>, key: u64, here: Registers) -> (r: Result<Received, Fatal>)
    requires
        old(rt).wf(),
        old(rt)@.ready.len() >= 1,
    ensures
        final(rt).wf(),
        r == old(rt)@.receive_result(key),
        final(rt)@ == old(rt)@.received(key, here),
        r is Err <==> old(rt)@.ready.len() == 1 && !old(rt)@.has_mail(key),
{
    proof {
        lemma_taken_wf(rt@, key);
        lemma_blocked_wf(rt@, key, here);
    }
    if let Some(msg) = rt.messages.pop_front(key) {
        assert(rt@ =~= old(rt)@.taken(key));
        return Ok(Received::Message(msg));
    }
    assert(rt@.messages =~= old(rt)@.messages);
    assert(rt@ =~= old(rt)@);
    if rt.ready.len() == 1 {
        return Err(Fatal::Deadlock);
    }
    let mut ctx = rt.ready.pop_front().unwrap();
    *ctx.get_regs_mut() = here;
    rt.waiting.push_back(key, ctx);
    let next = *rt.ready[0].get_regs();
    assert(rt@ =~= old(rt)@.blocked(key, here));
    Ok(Received::Blocked(next))
}

/// Receives from the running task's own mailbox: the key is its id.
pub fn recv<E>(rt: &mut Runtime<E>, here: Registers) -> (r: Result<Received, Fatal>)
    requires
        old(rt).wf(),
        old(rt)@.ready.len() >= 1,
    ensures
        final(rt).wf(),
        r == old(rt)@.receive_result(old(rt)@.own_key()),
        final(rt)@ == old(rt)@.received(old(rt)@.own_key(), here),
        r is Err <==> old(rt)@.ready.len() == 1 && !old(rt)@.has_mail(old(rt)@.own_key()),
{
    let key = rt.ready[0].id;
    recv_on(rt, key, here)
}

/// Takes the oldest message pending under `key`. This is how a task that
/// blocked in a receive on `key` gets its message after it was resumed.
pub fn take_message<E>(rt: &mut Runtime<E>, key: u64) -> (msg: Option<u64>)
    requires
        old(rt).wf(),
    ensures
        final(rt).wf(),
        msg == (if old(rt)@.has_mail(key) {
            Some(old(rt)@.mail(key))
        } else {
            None
        }),
        final(rt)@ == old(rt)@.taken(key),
{
    proof {
        lemma_taken_wf(rt@, key);
    }
    let msg = rt.messages.pop_front(key);
    assert(rt@.messages =~= old(rt)@.taken(key).messages);
    assert(rt@ =~= old(rt)@.taken(key));
    msg
}

/// The cooperative yield. A task that is alone goes on. Otherwise it moves
/// to the tail with its context captured as `here`, and the new head is to
/// be resumed.
pub fn schedule<E>(rt: &mut Runtime<E>, here: Registers) -> (s: Switch)
    requires
        old(rt).wf(),
        old(rt)@.ready.len() >= 1,
    ensures
        final(rt).wf(),
        s == old(rt)@.yield_switch(),
        final(rt)@ == old(rt)@.yielded(here),
{
    if rt.ready.len() == 1 {
        return Switch::Stay;
    }
    proof {
        lemma_yielded_wf(rt@, here);
    }
    let mut ctx = rt.ready.pop_front().unwrap();
    *ctx.get_regs_mut() = here;
    rt.ready.push_back(ctx);
    let next = *rt.ready[0].get_regs();
    assert(rt@ =~= old(rt)@.yielded(here));
    Switch::Resume(next)
}

/// The procedure that the running task is to run.
pub fn current_entry<E>(rt: &Runtime<E>) -> (entry: &E)
    requires
        rt@.ready.len() >= 1,
    ensures
        *entry == rt@.ready[0].entry,
{
    &rt.ready[0].entry
}

/// The end of the running task, once its procedure has returned. The task
/// leaves the runtime, its stack is kept until it is safe to release, and the
/// answer is the context to resume: the next ready task's, or the host's when
/// none is left.
pub fn retire<E>(rt: &mut Runtime<E>) -> (next: Option<Registers>)
    requires
        old(rt).wf(),
        old(rt)@.ready.len() >= 1,
    ensures
        final(rt).wf(),
        next == old(rt)@.after_retiring(),
        next is Some,
        final(rt)@ == old(rt)@.retired(),
{
    proof {
        lemma_retired_wf(rt@);
    }
    let ctx = rt.ready.pop_front().unwrap();
    rt.unused.push(ctx.stack);
    assert(rt@ =~= old(rt)@.retired());
    if rt.ready.len() > 0 {
        Some(*rt.ready[0].get_regs())
    } else {
        rt.main
    }
}

/// Hands out the stacks of finished tasks, oldest first, for release. To
/// be called by whatever has just been resumed, before anything else: none of
/// these stacks is the one in use then.
pub fn rm_unused_stack<E>(rt: &mut Runtime<E>) -> (stacks: Vec<StackRegion>)
    ensures
        stacks@ == old(rt)@.unused,
        final(rt)@ == old(rt)@.reclaimed(),
        old(rt).wf() ==> final(rt).wf(),
{
    let mut stacks: Vec<StackRegion> = Vec::new();
    core::mem::swap(&mut rt.unused, &mut stacks);
    assert(rt@ =~= old(rt)@.reclaimed());
    stacks
}

} // verus!
