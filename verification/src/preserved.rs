use vstd::prelude::*;
use crate::registers::Registers;
use crate::stack::StackRegion;
use crate::mapped_list::{queue_of, holds_at};
use crate::state::State;

verus! {

/// A yield keeps the invariant.
pub proof fn lemma_yielded_wf<E>(s: State<E>, here: Registers)
    requires
        s.wf(),
    ensures
        s.yielded(here).wf(),
{
    let t = s.yielded(here);
    if s.ready.len() > 1 {
        let n = s.ready.len() as int;
        assert forall|r: int| 0 <= r < n implies (#[trigger] t.ready[r]).id == s.ready[if r < n
            - 1 {
            r + 1
        } else {
            0
        }].id by {}
        assert forall|r: int, q: int| 0 <= r < q < t.ready.len() implies (#[trigger] t.ready[r]).id
            != (#[trigger] t.ready[q]).id by {
            assert(t.ready[r] == s.ready[r + 1]);
            if q < n - 1 {
                assert(t.ready[q] == s.ready[q + 1]);
            } else {
                assert(t.ready[q].id == s.ready[0].id);
            }
        }
        assert forall|r: int| 0 <= r < t.ready.len() implies (#[trigger] t.ready[r]).id
            <= t.last_id by {
            if r < n - 1 {
                assert(t.ready[r] == s.ready[r + 1]);
            } else {
                assert(t.ready[r].id == s.ready[0].id);
            }
        }
        assert forall|r: int, k: u64, i: int|
            0 <= r < t.ready.len() && #[trigger] holds_at(t.waiting, k, i) implies (
        #[trigger] t.ready[r]).id != t.waiting[k][i].id by {
            if r < n - 1 {
                assert(t.ready[r] == s.ready[r + 1]);
            } else {
                assert(t.ready[r].id == s.ready[0].id);
            }
        }
    }
}

/// A new task under the next id keeps the invariant.
pub proof fn lemma_enrolled_wf<E>(s: State<E>, func: E, stack: StackRegion, resume: u64)
    requires
        s.wf(),
        s.main is Some,
        s.last_id < u64::MAX,
    ensures
        s.enrolled(func, stack, resume).wf(),
{
    let t = s.enrolled(func, stack, resume);
    let n = s.ready.len() as int;
    assert forall|r: int| 0 <= r < t.ready.len() implies (#[trigger] t.ready[r]).id
        <= t.last_id by {
        if r < n {
            assert(t.ready[r] == s.ready[r]);
        }
    }
    assert forall|r: int, q: int| 0 <= r < q < t.ready.len() implies (#[trigger] t.ready[r]).id
        != (#[trigger] t.ready[q]).id by {
        assert(t.ready[r] == s.ready[r]);
        if q < n {
            assert(t.ready[q] == s.ready[q]);
        }
    }
    assert forall|r: int, k: u64, i: int|
        0 <= r < t.ready.len() && #[trigger] holds_at(t.waiting, k, i) implies (
    #[trigger] t.ready[r]).id != t.waiting[k][i].id by {
        if r < n {
            assert(t.ready[r] == s.ready[r]);
        }
    }
}

/// Queuing a message, and waking the task that has waited for it longest,
/// keeps the invariant.
pub proof fn lemma_posted_wf<E>(s: State<E>, key: u64, msg: u64)
    requires
        s.wf(),
        s.main is Some,
    ensures
        s.posted(key, msg).wf(),
{
    let t = s.posted(key, msg);
    if s.waiting.contains_key(key) {
        let n = s.ready.len() as int;
        let moved = s.waiting[key][0];
        assert(holds_at(s.waiting, key, 0));
        assert(t.ready[n] == moved);
        // every place of the new registry is a place of the old one
        assert forall|k: u64, i: int| #[trigger] holds_at(t.waiting, k, i) implies holds_at(
            s.waiting,
            k,
            if k == key {
                i + 1
            } else {
                i
            },
        ) && t.waiting[k][i] == s.waiting[k][if k == key {
            i + 1
        } else {
            i
        }] by {}
        assert forall|r: int| 0 <= r < t.ready.len() implies (#[trigger] t.ready[r]).id
            <= t.last_id by {
            if r < n {
                assert(t.ready[r] == s.ready[r]);
            }
        }
        assert forall|r: int, q: int| 0 <= r < q < t.ready.len() implies (#[trigger] t.ready[r]).id
            != (#[trigger] t.ready[q]).id by {
            assert(t.ready[r] == s.ready[r]);
            if q < n {
                assert(t.ready[q] == s.ready[q]);
            }
        }
        assert forall|k: u64, i: int| #[trigger] holds_at(t.waiting, k, i) implies t.waiting[k][i].id
            <= t.last_id by {
            let i0 = if k == key {
                i + 1
            } else {
                i
            };
            assert(holds_at(s.waiting, k, i0));
        }
        assert forall|k: u64, i: int, l: u64, j: int|
            #[trigger] holds_at(t.waiting, k, i) && #[trigger] holds_at(t.waiting, l, j) && (k != l
                || i != j) implies t.waiting[k][i].id != t.waiting[l][j].id by {
            let i0 = if k == key {
                i + 1
            } else {
                i
            };
            let j0 = if l == key {
                j + 1
            } else {
                j
            };
            assert(holds_at(s.waiting, k, i0));
            assert(holds_at(s.waiting, l, j0));
        }
        assert forall|r: int, k: u64, i: int|
            0 <= r < t.ready.len() && #[trigger] holds_at(t.waiting, k, i) implies (
        #[trigger] t.ready[r]).id != t.waiting[k][i].id by {
            let i0 = if k == key {
                i + 1
            } else {
                i
            };
            assert(holds_at(s.waiting, k, i0));
            if r < n {
                assert(t.ready[r] == s.ready[r]);
            }
        }
    }
}

/// Taking a message keeps the invariant.
pub proof fn lemma_taken_wf<E>(s: State<E>, key: u64)
    requires
        s.wf(),
    ensures
        s.taken(key).wf(),
{
}

/// Blocking the running task keeps the invariant.
pub proof fn lemma_blocked_wf<E>(s: State<E>, key: u64, here: Registers)
    requires
        s.wf(),
        s.ready.len() >= 1,
    ensures
        s.blocked(key, here).wf(),
{
    let t = s.blocked(key, here);
    let last = queue_of(s.waiting, key).len() as int;
    // every place of the new registry but the last under `key` is a place
    // of the old one, and that last place is the task that blocked
    assert forall|k: u64, i: int| #[trigger] holds_at(t.waiting, k, i) implies if k == key && i
        == last {
        t.waiting[k][i].id == s.ready[0].id
    } else {
        holds_at(s.waiting, k, i) && t.waiting[k][i] == s.waiting[k][i]
    } by {}
    assert forall|r: int| 0 <= r < t.ready.len() implies (#[trigger] t.ready[r]).id
        <= t.last_id by {
        assert(t.ready[r] == s.ready[r + 1]);
    }
    assert forall|r: int, q: int| 0 <= r < q < t.ready.len() implies (#[trigger] t.ready[r]).id
        != (#[trigger] t.ready[q]).id by {
        assert(t.ready[r] == s.ready[r + 1]);
        assert(t.ready[q] == s.ready[q + 1]);
    }
    assert forall|k: u64, i: int| #[trigger] holds_at(t.waiting, k, i) implies t.waiting[k][i].id
        <= t.last_id by {
        if !(k == key && i == last) {
            assert(holds_at(s.waiting, k, i));
        }
    }
    assert forall|k: u64, i: int, l: u64, j: int|
        #[trigger] holds_at(t.waiting, k, i) && #[trigger] holds_at(t.waiting, l, j) && (k != l || i
            != j) implies t.waiting[k][i].id != t.waiting[l][j].id by {
        if !(k == key && i == last) {
            assert(holds_at(s.waiting, k, i));
        }
        if !(l == key && j == last) {
            assert(holds_at(s.waiting, l, j));
        }
    }
    assert forall|r: int, k: u64, i: int|
        0 <= r < t.ready.len() && #[trigger] holds_at(t.waiting, k, i) implies (
    #[trigger] t.ready[r]).id != t.waiting[k][i].id by {
        assert(t.ready[r] == s.ready[r + 1]);
        if !(k == key && i == last) {
            assert(holds_at(s.waiting, k, i));
        }
    }
}

/// The end of the running task keeps the invariant.
pub proof fn lemma_retired_wf<E>(s: State<E>)
    requires
        s.wf(),
        s.ready.len() >= 1,
    ensures
        s.retired().wf(),
{
    let t = s.retired();
    assert forall|r: int| 0 <= r < t.ready.len() implies (#[trigger] t.ready[r]).id
        <= t.last_id by {
        assert(t.ready[r] == s.ready[r + 1]);
    }
    assert forall|r: int, q: int| 0 <= r < q < t.ready.len() implies (#[trigger] t.ready[r]).id
        != (#[trigger] t.ready[q]).id by {
        assert(t.ready[r] == s.ready[r + 1]);
        assert(t.ready[q] == s.ready[q + 1]);
    }
    assert forall|r: int, k: u64, i: int|
        0 <= r < t.ready.len() && #[trigger] holds_at(t.waiting, k, i) implies (
    #[trigger] t.ready[r]).id != t.waiting[k][i].id by {
        assert(t.ready[r] == s.ready[r + 1]);
    }
}

/// An activation from the idle state establishes the invariant.
pub proof fn lemma_activated_wf<E>(
    s: State<E>,
    func: E,
    stack: StackRegion,
    resume: u64,
    here: Registers,
)
    requires
        s.wf(),
        s.main is None,
    ensures
        s.activated(func, stack, resume, here).wf(),
{
}

} // verus!
