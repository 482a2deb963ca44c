//! Per-resource state kept beside the resource table: one value for each
//! resource id that has one.
use vstd::prelude::*;

use crate::resource::XResourceId;

verus! {

/// Values filed under resource ids, at most one per id.
#[derive(Debug)]
pub struct XResourceSlots<V> {
    entries: Vec<(XResourceId, V)>,
}

pub open spec fn slot_present<V>(s: Seq<(XResourceId, V)>, id: XResourceId) -> bool {
    exists|i: int| 0 <= i < s.len() && s[i].0 == id
}

/// The index in `s` of the entry for `id`, where there is one.
pub open spec fn slot_index<V>(s: Seq<(XResourceId, V)>, id: XResourceId) -> int {
    choose|i: int| 0 <= i < s.len() && s[i].0 == id
}

/// No two entries share an id.
pub open spec fn slot_ids_unique<V>(s: Seq<(XResourceId, V)>) -> bool {
    forall|i: int, j: int| 0 <= i < s.len() && 0 <= j < s.len() && i != j ==> s[i].0 != s[j].0
}

/// The map from id to value that a sequence of entries with unique ids
/// stands for.
pub open spec fn slot_map<V>(s: Seq<(XResourceId, V)>) -> Map<XResourceId, V> {
    Map::new(|id: XResourceId| slot_present(s, id), |id: XResourceId| s[slot_index(s, id)].1)
}

proof fn lemma_slot_index_unique<V>(s: Seq<(XResourceId, V)>, i: int)
    requires
        slot_ids_unique(s),
        0 <= i < s.len(),
    ensures
        slot_present(s, s[i].0),
        slot_index(s, s[i].0) == i,
{
}

proof fn lemma_slot_map_update<V>(s: Seq<(XResourceId, V)>, i: int, id: XResourceId, v: V)
    requires
        slot_ids_unique(s),
        0 <= i < s.len(),
        s[i].0 == id,
    ensures
        slot_ids_unique(s.update(i, (id, v))),
        slot_map(s.update(i, (id, v))) == slot_map(s).insert(id, v),
{
    let t = s.update(i, (id, v));
    assert forall|k: XResourceId| #[trigger] slot_present(t, k) == slot_present(s, k) by {
        if slot_present(s, k) {
            let j = slot_index(s, k);
            assert(t[j].0 == k);
        }
        if slot_present(t, k) {
            let j = slot_index(t, k);
            assert(s[j].0 == k);
        }
    }
    assert forall|k: XResourceId| slot_present(t, k) implies #[trigger] t[slot_index(t, k)].1
        == (if k == id { v } else { s[slot_index(s, k)].1 }) by {
        let j = slot_index(t, k);
        if k == id {
            assert(j == i);
        } else {
            let m = slot_index(s, k);
            assert(t[m].0 == k);
            assert(j == m);
        }
    }
    assert(slot_map(t) =~= slot_map(s).insert(id, v));
}

proof fn lemma_slot_map_push<V>(s: Seq<(XResourceId, V)>, id: XResourceId, v: V)
    requires
        slot_ids_unique(s),
        !slot_present(s, id),
    ensures
        slot_ids_unique(s.push((id, v))),
        slot_map(s.push((id, v))) == slot_map(s).insert(id, v),
{
    let t = s.push((id, v));
    assert(t[s.len() as int].0 == id);
    assert forall|k: XResourceId| #[trigger] slot_present(t, k) == (slot_present(s, k) || k == id) by {
        if slot_present(s, k) {
            let j = slot_index(s, k);
            assert(t[j].0 == k);
        }
        if slot_present(t, k) && k != id {
            let j = slot_index(t, k);
            assert(s[j].0 == k);
        }
    }
    assert forall|k: XResourceId| slot_present(t, k) implies #[trigger] t[slot_index(t, k)].1
        == (if k == id { v } else { s[slot_index(s, k)].1 }) by {
        let j = slot_index(t, k);
        if k == id {
            assert(j == s.len());
        } else {
            let m = slot_index(s, k);
            assert(t[m].0 == k);
            assert(j == m);
        }
    }
    assert(slot_map(t) =~= slot_map(s).insert(id, v));
}

proof fn lemma_slot_map_remove<V>(s: Seq<(XResourceId, V)>, i: int)
    requires
        slot_ids_unique(s),
        0 <= i < s.len(),
    ensures
        slot_ids_unique(s.remove(i)),
        slot_map(s.remove(i)) == slot_map(s).remove(s[i].0),
{
    let t = s.remove(i);
    let id0 = s[i].0;
    assert forall|a: int, b: int| 0 <= a < t.len() && 0 <= b < t.len() && a != b implies t[a].0
        != t[b].0 by {
        let a2 = if a < i { a } else { a + 1 };
        let b2 = if b < i { b } else { b + 1 };
        assert(t[a] == s[a2]);
        assert(t[b] == s[b2]);
    }
    assert forall|k: XResourceId| #[trigger] slot_present(t, k) == (slot_present(s, k) && k != id0) by {
        if slot_present(s, k) && k != id0 {
            let j = slot_index(s, k);
            let j2 = if j < i { j } else { j - 1 };
            assert(t[j2] == s[j]);
        }
        if slot_present(t, k) {
            let j = slot_index(t, k);
            let j2 = if j < i { j } else { j + 1 };
            assert(s[j2] == t[j]);
        }
    }
    assert forall|k: XResourceId| slot_present(t, k) implies #[trigger] t[slot_index(t, k)].1
        == s[slot_index(s, k)].1 by {
        let j = slot_index(t, k);
        let j2 = if j < i { j } else { j + 1 };
        assert(s[j2] == t[j]);
        assert(slot_index(s, k) == j2);
    }
    assert(slot_map(t) =~= slot_map(s).remove(id0));
}

impl<V> View for XResourceSlots<V> {
    type V = Map<XResourceId, V>;

    closed spec fn view(&self) -> Map<XResourceId, V> {
        slot_map(self.entries@)
    }
}

impl<V> XResourceSlots<V> {
    #[verifier::type_invariant]
    closed spec fn wf(self) -> bool {
        slot_ids_unique(self.entries@)
    }

    pub fn new() -> (slots: Self)
        ensures
            slots@ == Map::<XResourceId, V>::empty(),
    {
        let slots = XResourceSlots { entries: Vec::new() };
        assert(slots@ =~= Map::<XResourceId, V>::empty());
        slots
    }

    fn find(&self, id: XResourceId) -> (found: Option<usize>)
        ensures
            match found {
                Some(i) => i < self.entries@.len() && self.entries@[i as int].0 == id,
                None => !slot_present(self.entries@, id),
            },
    {
        let mut i: usize = 0;
        while i < self.entries.len()
            invariant
                i <= self.entries@.len(),
                forall|j: int| 0 <= j < i ==> self.entries@[j].0 != id,
            decreases self.entries@.len() - i,
        {
            if self.entries[i].0 == id {
                return Some(i);
            }
            i = i + 1;
        }
        None
    }

    /// The value filed under `id`.
    pub fn get(&self, id: XResourceId) -> (value: Option<&V>)
        ensures
            match value {
                Some(v) => self@.contains_key(id) && *v == self@[id],
                None => !self@.contains_key(id),
            },
    {
        match self.find(id) {
            Some(i) => {
                proof {
                    use_type_invariant(self);
                    lemma_slot_index_unique(self.entries@, i as int);
                }
                Some(&self.entries[i].1)
            },
            None => None,
        }
    }

    /// Files `value` under `id`, replacing any value already there.
    pub fn insert(&mut self, id: XResourceId, value: V)
        ensures
            final(self)@ == old(self)@.insert(id, value),
    {
        proof {
            use_type_invariant(&*self);
        }
        let found = self.find(id);
        let mut entries: Vec<(XResourceId, V)> = Vec::new();
        std::mem::swap(&mut entries, &mut self.entries);
        match found {
            Some(i) => {
                proof {
                    lemma_slot_map_update(entries@, i as int, id, value);
                }
                entries.set(i, (id, value));
            },
            None => {
                proof {
                    lemma_slot_map_push(entries@, id, value);
                }
                entries.push((id, value));
            },
        }
        self.entries = entries;
    }

    /// Takes the value filed under `id` out.
    pub fn remove(&mut self, id: XResourceId) -> (removed: Option<V>)
        ensures
            match removed {
                Some(v) => old(self)@.contains_key(id) && v == old(self)@[id],
                None => !old(self)@.contains_key(id),
            },
            final(self)@ == old(self)@.remove(id),
    {
        proof {
            use_type_invariant(&*self);
        }
        match self.find(id) {
            Some(i) => {
                let mut entries: Vec<(XResourceId, V)> = Vec::new();
                std::mem::swap(&mut entries, &mut self.entries);
                proof {
                    lemma_slot_index_unique(entries@, i as int);
                    lemma_slot_map_remove(entries@, i as int);
                }
                let (_, value) = entries.remove(i);
                self.entries = entries;
                Some(value)
            },
            None => {
                proof {
                    assert(self@ =~= old(self)@.remove(id));
                }
                None
            },
        }
    }
}

} // verus!
