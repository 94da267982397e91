//! The observer registry: a mapping from generated identifiers to consumer
//! handles, kept in registration order. Identifiers are fresh for the
//! registry's lifetime and never reused; a fan-out pass walks the entries
//! by index over a snapshot its owner holds stable for the pass.

use vstd::prelude::*;

verus! {

/// Registered consumers in registration order, each under a unique
/// identifier drawn from a monotone counter.
pub struct ObserverRegistry<T> {
    entries: Vec<(u64, T)>,
    next_id: u64,
}

impl<T> ObserverRegistry<T> {
    /// The registered entries, in registration order.
    pub closed spec fn entries_seq(&self) -> Seq<(u64, T)> {
        self.entries@
    }

    /// The identifier the next added observer will receive.
    pub closed spec fn spec_next_id(&self) -> u64 {
        self.next_id
    }

    /// The registered identifiers, in registration order.
    pub open spec fn ids(&self) -> Seq<u64> {
        Seq::new(self.entries_seq().len(), |i: int| self.entries_seq()[i].0)
    }

    /// Identifiers are strictly increasing in registration order and all
    /// below the counter, so every identifier is unique and never reused.
    pub open spec fn wf(&self) -> bool {
        &&& forall|i: int, j: int|
            #![trigger self.entries_seq()[i], self.entries_seq()[j]]
            0 <= i < j < self.entries_seq().len() ==> self.entries_seq()[i].0
                < self.entries_seq()[j].0
        &&& forall|i: int|
            0 <= i < self.entries_seq().len() ==> (#[trigger] self.entries_seq()[i]).0
                < self.spec_next_id()
    }

    /// Creates an empty registry.
    pub fn new() -> (r: ObserverRegistry<T>)
        ensures
            r.wf(),
            r.entries_seq().len() == 0,
            r.spec_next_id() == 0,
    {
        ObserverRegistry { entries: Vec::new(), next_id: 0 }
    }

    /// The number of registered observers.
    pub fn len(&self) -> (n: usize)
        ensures
            n == self.entries_seq().len(),
    {
        self.entries.len()
    }

    /// The identifier the next added observer will receive.
    pub fn next_id(&self) -> (id: u64)
        ensures
            id == self.spec_next_id(),
    {
        self.next_id
    }

    /// The entry at an index of the registration order.
    pub fn get(&self, i: usize) -> (r: &(u64, T))
        requires
            i < self.entries_seq().len(),
        ensures
            *r == self.entries_seq()[i as int],
    {
        &self.entries[i]
    }

    /// Registers an observer under a fresh identifier: the identifier is
    /// returned, was never in the registry before, and will never be
    /// handed out again.
    pub fn add(&mut self, observer: T) -> (id: u64)
        requires
            old(self).wf(),
            old(self).spec_next_id() < u64::MAX,
        ensures
            final(self).wf(),
            id == old(self).spec_next_id(),
            !old(self).ids().contains(id),
            final(self).entries_seq() == old(self).entries_seq().push((id, observer)),
            final(self).spec_next_id() == id + 1,
    {
        let id = self.next_id;
        self.entries.push((id, observer));
        self.next_id = self.next_id + 1;
        proof {
            assert(!old(self).ids().contains(id)) by {
                if old(self).ids().contains(id) {
                    let k = choose|k: int|
                        0 <= k < old(self).ids().len() && old(self).ids()[k] == id;
                    assert(old(self).entries_seq()[k].0 < id);
                }
            }
        }
        id
    }

    /// Removes the observer with the given identifier. Returns whether one
    /// was present: exactly that entry leaves and the others keep their
    /// order, so a present identifier shrinks the registry by one, and an
    /// unknown identifier changes nothing.
    pub fn remove(&mut self, id: u64) -> (found: bool)
        requires
            old(self).wf(),
        ensures
            final(self).wf(),
            found == old(self).ids().contains(id),
            final(self).spec_next_id() == old(self).spec_next_id(),
            !found ==> final(self).entries_seq() == old(self).entries_seq(),
            found ==> exists|k: int|
                0 <= k < old(self).entries_seq().len() && (#[trigger] old(
                    self,
                ).entries_seq()[k]).0 == id && final(self).entries_seq() == old(
                    self,
                ).entries_seq().remove(k),
            found ==> final(self).entries_seq().len() == old(self).entries_seq().len() - 1,
            !final(self).ids().contains(id),
    {
        let n = self.entries.len();
        let mut i: usize = 0;
        while i < n
            invariant
                n == self.entries_seq().len(),
                i <= n,
                *self == *old(self),
                old(self).wf(),
                forall|k: int| 0 <= k < i ==> (#[trigger] self.entries_seq()[k]).0 != id,
            decreases n - i,
        {
            if self.entries[i].0 == id {
                self.entries.remove(i);
                proof {
                    let pre = old(self).entries_seq();
                    let s = self.entries_seq();
                    assert(s == pre.remove(i as int));
                    assert(forall|k: int| 0 <= k < i ==> #[trigger] s[k] == pre[k]);
                    assert(forall|k: int| i <= k < s.len() ==> #[trigger] s[k] == pre[k + 1]);
                    assert(old(self).ids().contains(id)) by {
                        assert(old(self).ids()[i as int] == id);
                    }
                    assert forall|a: int, b: int|
                        #![trigger s[a], s[b]]
                        0 <= a < b < s.len() implies s[a].0 < s[b].0 by {
                        if a < i {
                            assert(s[a] == pre[a]);
                        } else {
                            assert(s[a] == pre[a + 1]);
                        }
                        if b < i {
                            assert(s[b] == pre[b]);
                            assert(pre[if a < i { a } else { a + 1 }].0 < pre[b].0);
                        } else {
                            assert(s[b] == pre[b + 1]);
                            assert(pre[if a < i { a } else { a + 1 }].0 < pre[b + 1].0);
                        }
                    }
                    assert forall|k: int| 0 <= k < s.len() implies (#[trigger] s[k]).0 < old(
                        self,
                    ).spec_next_id() by {
                        if k < i {
                            assert(pre[k].0 < old(self).spec_next_id());
                        } else {
                            assert(pre[k + 1].0 < old(self).spec_next_id());
                        }
                    }
                    assert(!self.ids().contains(id)) by {
                        if self.ids().contains(id) {
                            let k = choose|k: int|
                                0 <= k < self.ids().len() && self.ids()[k] == id;
                            if k < i {
                                assert(s[k] == pre[k]);
                                assert(pre[k].0 != id);
                            } else {
                                assert(s[k] == pre[k + 1]);
                                assert(pre[i as int].0 < pre[k + 1].0);
                            }
                        }
                    }
                }
                return true;
            }
            i = i + 1;
        }
        proof {
            assert(!self.ids().contains(id)) by {
                if self.ids().contains(id) {
                    let k = choose|k: int| 0 <= k < self.ids().len() && self.ids()[k] == id;
                    assert(self.entries_seq()[k].0 != id);
                }
            }
        }
        false
    }

    /// Whether an observer with the given identifier is registered.
    pub fn contains(&self, id: u64) -> (found: bool)
        ensures
            found == self.ids().contains(id),
    {
        let n = self.entries.len();
        let mut i: usize = 0;
        while i < n
            invariant
                n == self.entries_seq().len(),
                i <= n,
                forall|k: int| 0 <= k < i ==> (#[trigger] self.entries_seq()[k]).0 != id,
            decreases n - i,
        {
            if self.entries[i].0 == id {
                proof {
                    assert(self.ids()[i as int] == id);
                }
                return true;
            }
            i = i + 1;
        }
        proof {
            assert(!self.ids().contains(id)) by {
                if self.ids().contains(id) {
                    let k = choose|k: int| 0 <= k < self.ids().len() && self.ids()[k] == id;
                    assert(self.entries_seq()[k].0 != id);
                }
            }
        }
        false
    }
}

} // verus!
