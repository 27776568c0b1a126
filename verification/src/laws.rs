use vstd::prelude::*;
use vstd::arithmetic::div_mod::{lemma_add_mod_noop, lemma_small_mod, lemma_mod_self_0};
use crate::fatal::Fatal;
use crate::registers::Registers;
use crate::stack::StackRegion;
use crate::mapped_list::{queue_of, pushed, popped};
use crate::state::{State, Received};

verus! {

/// The state after one yield for each captured context in `heres`, each by
/// the task that runs at that moment.
pub open spec fn yields<E>(s: State<E>, heres: Seq<Registers>) -> State<E>
    decreases heres.len(),
{
    if heres.len() == 0 {
        s
    } else {
        yields(s.yielded(heres[0]), heres.drop_first())
    }
}

/// Round-robin fairness. Yields only rotate the ready tasks: after `k`
/// yields the task at place `i` is the one that stood at place `i + k`,
/// counted round the queue. So the tasks run in the order in which they
/// joined the queue, again and again, and after as many yields as there are
/// tasks the order is the first one again. Nothing else changes.
pub proof fn lemma_round_robin<E>(s: State<E>, heres: Seq<Registers>)
    requires
        s.ready.len() >= 1,
    ensures
        yields(s, heres).ready.len() == s.ready.len(),
        forall|i: int|
            0 <= i < s.ready.len() ==> #[trigger] yields(s, heres).ready_ids()[i]
                == s.ready_ids()[(i + heres.len()) % (s.ready.len() as int)],
        yields(s, heres).ready_ids()[0] == s.ready_ids()[(heres.len() as int) % (
        s.ready.len() as int)],
        yields(s, heres).main == s.main,
        yields(s, heres).last_id == s.last_id,
        yields(s, heres).waiting == s.waiting,
        yields(s, heres).messages == s.messages,
        yields(s, heres).unused == s.unused,
    decreases heres.len(),
{
    let n = s.ready.len() as int;
    let k = heres.len() as int;
    if k == 0 {
        assert forall|i: int| 0 <= i < n implies #[trigger] yields(s, heres).ready_ids()[i]
            == s.ready_ids()[(i + k) % n] by {
            lemma_small_mod(i as nat, n as nat);
        }
    } else {
        let t = s.yielded(heres[0]);
        let rest = heres.drop_first();
        lemma_round_robin(t, rest);
        assert forall|i: int| 0 <= i < n implies #[trigger] yields(s, heres).ready_ids()[i]
            == s.ready_ids()[(i + k) % n] by {
            let a = (i + k - 1) % n;
            assert(0 <= a < n) by (nonlinear_arith)
                requires
                    a == (i + k - 1) % n,
                    n > 0,
            ;
            assert(yields(t, rest).ready_ids()[i] == t.ready_ids()[a]);
            lemma_add_mod_noop(i + k - 1, 1, n);
            if n == 1 {
                assert((i + k) % n == 0) by (nonlinear_arith)
                    requires
                        n == 1,
                ;
            } else {
                lemma_small_mod(1, n as nat);
                if a < n - 1 {
                    lemma_small_mod((a + 1) as nat, n as nat);
                    assert(t.ready[a] == s.ready[a + 1]);
                } else {
                    lemma_mod_self_0(n);
                    assert(t.ready[a].id == s.ready[0].id);
                }
            }
        }
        lemma_small_mod(0, n as nat);
    }
}

/// The queue under `key` after a push is the old one with the value at its
/// tail, and no other queue changes.
pub proof fn lemma_pushed_queue<T>(m: Map<u64, Seq<T>>, key: u64, val: T, other: u64)
    ensures
        queue_of(pushed(m, key, val), key) == queue_of(m, key).push(val),
        other != key ==> queue_of(pushed(m, key, val), other) == queue_of(m, other),
{
}

/// The queue under `key` after a pop is the old one without its head, and
/// no other queue changes.
pub proof fn lemma_popped_queue<T>(m: Map<u64, Seq<T>>, key: u64, other: u64)
    requires
        queue_of(m, key).len() > 0,
    ensures
        queue_of(popped(m, key), key) == queue_of(m, key).drop_first(),
        other != key ==> queue_of(popped(m, key), other) == queue_of(m, other),
{
    assert(queue_of(popped(m, key), key) =~= queue_of(m, key).drop_first());
}

/// Messages are delivered in the order in which they were sent. After two
/// sends under `key`, the queue under `key` is the old one with the first
/// message and then the second at its tail, whatever else the sends did.
/// Where nothing was pending before, a receive on `key` then answers the
/// first message, the next one the second, and after that nothing is left.
pub proof fn lemma_message_fifo<E>(
    s: State<E>,
    key: u64,
    first: u64,
    second: u64,
    here: Registers,
)
    ensures
        ({
            let t = s.posted(key, first).yielded(here).posted(key, second).yielded(here);
            let u = t.received(key, here);
            let v = u.received(key, here);
            &&& queue_of(t.messages, key) == queue_of(s.messages, key).push(first).push(second)
            &&& queue_of(s.messages, key).len() == 0 ==> {
                &&& t.receive_result(key) == Ok::<Received, Fatal>(Received::Message(first))
                &&& u.receive_result(key) == Ok::<Received, Fatal>(Received::Message(second))
                &&& !v.has_mail(key)
            }
        }),
{
    let t = s.posted(key, first).yielded(here).posted(key, second).yielded(here);
    assert(t.messages == pushed(pushed(s.messages, key, first), key, second));
    lemma_pushed_queue(s.messages, key, first, key);
    lemma_pushed_queue(pushed(s.messages, key, first), key, second, key);
    if queue_of(s.messages, key).len() == 0 {
        lemma_popped_queue(t.messages, key, key);
        let u = t.received(key, here);
        assert(u.messages == popped(t.messages, key));
        lemma_popped_queue(u.messages, key, key);
    }
}

/// Blocking rendezvous. A task that receives on a key while nothing is
/// pending under it, and while another task is ready, blocks: it leaves the
/// ready tasks and waits under the key, behind those that wait there
/// already, with the context it captured. Where nobody waited before it, a
/// send to the key then puts it at the tail of the ready tasks with that
/// same context, leaves nobody waiting under the key, and leaves the value
/// as the only pending message, which is what the task takes when its turn
/// comes.
pub proof fn lemma_rendezvous<E>(s: State<E>, key: u64, here: Registers, value: u64)
    requires
        s.wf(),
        s.ready.len() >= 2,
        !s.has_mail(key),
    ensures
        s.receive_result(key) == Ok::<Received, Fatal>(Received::Blocked(s.ready[1].regs)),
        s.received(key, here) == s.blocked(key, here),
        s.blocked(key, here).ready == s.ready.drop_first(),
        queue_of(s.blocked(key, here).waiting, key) == queue_of(s.waiting, key).push(
            s.ready[0].with_regs(here),
        ),
        queue_of(s.waiting, key).len() == 0 ==> ({
            let t = s.blocked(key, here).posted(key, value);
            &&& t.ready == s.ready.drop_first().push(s.ready[0].with_regs(here))
            &&& !t.waiting.contains_key(key)
            &&& queue_of(t.messages, key) == seq![value]
            &&& t.has_mail(key)
            &&& t.mail(key) == value
        }),
{
    let b = s.blocked(key, here);
    if queue_of(s.waiting, key).len() == 0 {
        assert(queue_of(b.waiting, key) =~= seq![s.ready[0].with_regs(here)]);
        let t = b.posted(key, value);
        assert(queue_of(t.messages, key) =~= seq![value]);
    }
}

/// Tasks that wait on one key are woken in the order in which they blocked:
/// a send wakes the one at the head of the queue and leaves the others
/// waiting in their order.
pub proof fn lemma_wake_order<E>(s: State<E>, key: u64, msg: u64)
    requires
        queue_of(s.waiting, key).len() > 0,
    ensures
        s.posted(key, msg).ready == s.ready.push(queue_of(s.waiting, key)[0]),
        queue_of(s.posted(key, msg).waiting, key) == queue_of(s.waiting, key).drop_first(),
{
    assert(queue_of(s.posted(key, msg).waiting, key) =~= queue_of(s.waiting, key).drop_first());
}

/// A pending message waits for its receiver: no yield, send to another
/// key, receive on another key or end of a task changes what is pending
/// under `key`.
pub proof fn lemma_mail_kept<E>(s: State<E>, key: u64, here: Registers, other: u64, msg: u64)
    requires
        other != key,
    ensures
        queue_of(s.yielded(here).messages, key) == queue_of(s.messages, key),
        queue_of(s.posted(other, msg).messages, key) == queue_of(s.messages, key),
        queue_of(s.received(other, here).messages, key) == queue_of(s.messages, key),
        queue_of(s.retired().messages, key) == queue_of(s.messages, key),
{
}

/// Deadlock is reported exactly when the running task is the only ready
/// one and nothing is pending under the key; the state is then left as it
/// was.
pub proof fn lemma_deadlock<E>(s: State<E>, key: u64, here: Registers)
    requires
        s.ready.len() >= 1,
    ensures
        s.receive_result(key) is Err <==> s.ready.len() == 1 && !s.has_mail(key),
        s.receive_result(key) is Err ==> s.received(key, here) == s,
{
}

/// The host gets control back when the last task ends, and not before:
/// while another task is ready, the end of the running task resumes that
/// one; when none is, it resumes the host's context. Nothing that a task
/// does changes the host's context in between.
pub proof fn lemma_host_resumed<E>(
    s: State<E>,
    key: u64,
    msg: u64,
    here: Registers,
    func: E,
    stack: StackRegion,
    resume: u64,
)
    requires
        s.wf(),
        s.ready.len() >= 1,
    ensures
        s.main is Some,
        s.ready.len() == 1 ==> s.after_retiring() == s.main && s.retired().ready.len() == 0,
        s.ready.len() >= 2 ==> s.after_retiring() == Some(s.ready[1].regs),
        s.yielded(here).main == s.main,
        s.enrolled(func, stack, resume).main == s.main,
        s.posted(key, msg).main == s.main,
        s.received(key, here).main == s.main,
        s.retired().main == s.main,
        s.reclaimed().main == s.main,
{
}

/// After an activation has ended the runtime is empty and can be activated
/// again: nothing is ready, blocked, pending or waiting for release, and
/// the invariant holds.
pub proof fn lemma_reactivation<E>(s: State<E>)
    ensures
        s.idle().wf(),
        s.idle().main is None,
        s.idle().ready.len() == 0,
        s.idle().waiting.dom().is_empty(),
        s.idle().messages.dom().is_empty(),
        s.idle().unused.len() == 0,
{
}

} // verus!
