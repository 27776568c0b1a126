use vstd::prelude::*;
use std::collections::HashMap;
use std::collections::VecDeque;

verus! {

broadcast use vstd::std_specs::hash::group_hash_axioms;

/// The queue that `m` holds under `key`: empty where `m` has no such key.
pub open spec fn queue_of<T>(m: Map<u64, Seq<T>>, key: u64) -> Seq<T> {
    if m.contains_key(key) {
        m[key]
    } else {
        Seq::empty()
    }
}

/// Place `i` of the queue under `key` is taken in `m`.
pub open spec fn holds_at<T>(m: Map<u64, Seq<T>>, key: u64, i: int) -> bool {
    m.contains_key(key) && 0 <= i < m[key].len()
}

/// `m` after `val` has joined the tail of the queue under `key`.
pub open spec fn pushed<T>(m: Map<u64, Seq<T>>, key: u64, val: T) -> Map<u64, Seq<T>> {
    m.insert(key, queue_of(m, key).push(val))
}

/// `m` after the head of the queue under `key` has left: a queue that
/// becomes empty leaves the map, and a missing queue changes nothing.
pub open spec fn popped<T>(m: Map<u64, Seq<T>>, key: u64) -> Map<u64, Seq<T>> {
    if queue_of(m, key).len() <= 1 {
        m.remove(key)
    } else {
        m.insert(key, m[key].drop_first())
    }
}

/// No key of `m` holds an empty queue.
pub open spec fn no_empty_queue<T>(m: Map<u64, Seq<T>>) -> bool {
    forall|k: u64| m.contains_key(k) ==> (#[trigger] m[k]).len() > 0
}

/// First-in, first-out queues, one per key. A key is present exactly while
/// its queue holds something.
pub struct MappedList<T> {
    map: HashMap<u64, VecDeque<T>>,
}

impl<T> View for MappedList<T> {
    type V = Map<u64, Seq<T>>;

    closed spec fn view(&self) -> Map<u64, Seq<T>> {
        Map::new(|k: u64| self.map@.contains_key(k), |k: u64| self.map@[k]@)
    }
}

impl<T> MappedList<T> {
    /// The invariant: no key holds an empty queue.
    pub open spec fn wf(&self) -> bool {
        no_empty_queue(self@)
    }

    /// The queue under `key`, empty where there is none.
    pub open spec fn queue(&self, key: u64) -> Seq<T> {
        queue_of(self@, key)
    }

    /// No queues at all.
    pub fn new() -> (list: MappedList<T>)
        ensures
            list@ == Map::<u64, Seq<T>>::empty(),
            list.wf(),
    {
        let list = MappedList { map: HashMap::new() };
        assert(list@ =~= Map::<u64, Seq<T>>::empty());
        list
    }

    /// Appends `val` to the queue under `key`, which is made if it is missing.
    pub fn push_back(&mut self, key: u64, val: T)
        requires
            old(self).wf(),
        ensures
            final(self).wf(),
            final(self)@ == pushed(old(self)@, key, val),
    {
        let mut list = match self.map.remove(&key) {
            Some(list) => list,
            None => VecDeque::new(),
        };
        assert(list@ == queue_of(old(self)@, key));
        list.push_back(val);
        self.map.insert(key, list);
        assert(self@ =~= pushed(old(self)@, key, val));
    }

    /// Takes the head of the queue under `key`, if there is one.
    pub fn pop_front(&mut self, key: u64) -> (val: Option<T>)
        requires
            old(self).wf(),
        ensures
            final(self).wf(),
            final(self)@ == popped(old(self)@, key),
            old(self).queue(key).len() == 0 ==> val is None,
            old(self).queue(key).len() > 0 ==> val == Some(old(self).queue(key)[0]),
    {
        match self.map.remove(&key) {
            Some(mut list) => {
                assert(list@ == old(self)@[key]);
                let val = list.pop_front();
                if list.len() != 0 {
                    self.map.insert(key, list);
                }
                assert(self@ =~= popped(old(self)@, key));
                val
            },
            None => {
                assert(self@ =~= popped(old(self)@, key));
                None
            },
        }
    }

    /// Number of values queued under `key`.
    pub fn len(&self, key: u64) -> (n: usize)
        ensures
            n == self.queue(key).len(),
    {
        match self.map.get(&key) {
            Some(list) => list.len(),
            None => 0,
        }
    }

    /// Drops every queue.
    pub fn clear(&mut self)
        ensures
            final(self)@ == Map::<u64, Seq<T>>::empty(),
            final(self).wf(),
    {
        self.map.clear();
        assert(self@ =~= Map::<u64, Seq<T>>::empty());
    }
}

} // verus!
