//! The tracker of references that could not be resolved locally.

use crate::ids::{NoteId, Pubkey};
use vstd::prelude::*;

verus! {

/// Something that a note refers to and that is not held locally.
#[derive(Clone, Copy, Debug, PartialEq, Eq, Hash)]
pub enum UnknownId {
    Pubkey(Pubkey),
    Id(NoteId),
}

impl UnknownId {
    /// Whether `other` is the same reference.
    pub fn same(&self, other: &UnknownId) -> (same: bool)
        ensures
            same == (*self == *other),
    {
        match (self, other) {
            (UnknownId::Pubkey(a), UnknownId::Pubkey(b)) => a.same(b),
            (UnknownId::Id(a), UnknownId::Id(b)) => a.same(b),
            _ => false,
        }
    }
}

/// The references seen in content and not resolved yet. Each is held once.
pub struct UnknownIds {
    ids: Vec<UnknownId>,
}

impl View for UnknownIds {
    type V = Set<UnknownId>;

    closed spec fn view(&self) -> Set<UnknownId> {
        self.ids@.to_set()
    }
}

impl UnknownIds {
    #[verifier::type_invariant]
    spec fn held_once(&self) -> bool {
        self.ids@.no_duplicates()
    }

    /// A tracker that holds nothing.
    pub fn new() -> (tracker: UnknownIds)
        ensures
            tracker@ == Set::<UnknownId>::empty(),
    {
        let tracker = UnknownIds { ids: Vec::new() };
        assert(tracker.ids@.to_set() =~= Set::<UnknownId>::empty());
        tracker
    }

    /// Whether `id` is being tracked.
    pub fn contains(&self, id: &UnknownId) -> (held: bool)
        ensures
            held == self@.contains(*id),
    {
        let mut i: usize = 0;
        while i < self.ids.len()
            invariant
                i <= self.ids.len(),
                forall|j: int| 0 <= j < i ==> self.ids@[j] != *id,
            decreases self.ids.len() - i,
        {
            if self.ids[i].same(id) {
                assert(self.ids@.contains(*id));
                return true;
            }
            i = i + 1;
        }
        assert(!self.ids@.contains(*id));
        false
    }

    /// How many references are being tracked.
    pub fn len(&self) -> (n: usize)
        ensures
            self@.finite(),
            n == self@.len(),
    {
        proof {
            use_type_invariant(self);
            self.ids@.unique_seq_to_set();
        }
        self.ids.len()
    }

    /// Tracks `id`, unless it is tracked already.
    pub fn add(&mut self, id: UnknownId)
        ensures
            final(self)@ == old(self)@.insert(id),
    {
        proof {
            use_type_invariant(&*self);
        }
        if !self.contains(&id) {
            let mut ids: Vec<UnknownId> = Vec::new();
            core::mem::swap(&mut self.ids, &mut ids);
            ids.push(id);
            self.ids = ids;
            assert(self.ids@.to_set() =~= old(self).ids@.to_set().insert(id)) by {
                assert forall|x: UnknownId| self.ids@.contains(x) <==> (old(self).ids@.contains(x)
                    || x == id) by {
                    if self.ids@.contains(x) {
                        let j = choose|j: int| 0 <= j < self.ids@.len() && self.ids@[j] == x;
                        if j < old(self).ids@.len() {
                            assert(old(self).ids@[j] == x);
                        }
                    }
                    if old(self).ids@.contains(x) {
                        let j = choose|j: int| 0 <= j < old(self).ids@.len() && old(self).ids@[j] == x;
                        assert(self.ids@[j] == x);
                    }
                    if x == id {
                        assert(self.ids@[self.ids@.len() - 1] == x);
                    }
                }
            }
        } else {
            assert(old(self).ids@.to_set().insert(id) =~= old(self).ids@.to_set());
        }
    }

    /// Tracks every reference of `ids` that is not tracked already.
    pub fn add_all(&mut self, ids: &Vec<UnknownId>)
        ensures
            final(self)@ == old(self)@.union(ids@.to_set()),
    {
        let mut i: usize = 0;
        assert(ids@.take(0).to_set() =~= Set::<UnknownId>::empty());
        assert(self@.union(Set::<UnknownId>::empty()) =~= self@);
        while i < ids.len()
            invariant
                i <= ids.len(),
                self@ == old(self)@.union(ids@.take(i as int).to_set()),
            decreases ids.len() - i,
        {
            self.add(ids[i]);
            proof {
                let before = ids@.take(i as int);
                let after = ids@.take(i + 1);
                assert(after =~= before.push(ids@[i as int]));
                assert(after.to_set() =~= before.to_set().insert(ids@[i as int])) by {
                    assert forall|x: UnknownId| after.contains(x) <==> (before.contains(x) || x
                        == ids@[i as int]) by {
                        if after.contains(x) {
                            let j = choose|j: int| 0 <= j < after.len() && after[j] == x;
                            if j < before.len() {
                                assert(before[j] == x);
                            }
                        }
                        if before.contains(x) {
                            let j = choose|j: int| 0 <= j < before.len() && before[j] == x;
                            assert(after[j] == x);
                        }
                        if x == ids@[i as int] {
                            assert(after[after.len() - 1] == x);
                        }
                    }
                }
                assert(self@ =~= old(self)@.union(after.to_set()));
            }
            i = i + 1;
        }
        assert(ids@.take(ids@.len() as int) =~= ids@);
    }
}

} // verus!
