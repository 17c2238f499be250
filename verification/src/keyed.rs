//! Small maps keyed by addresses and by storage slots, as lists.
//!
//! [`AddressMap`] keeps one entry per address; [`SlotMap`] keeps every write
//! and reads the latest one.

use crate::address::Address;
use crate::uint::U256;
use vstd::prelude::*;

verus! {

/// The map an association list denotes (later entries win).
pub open spec fn map_of<V>(s: Seq<(Address, V)>) -> Map<Address, V>
    decreases s.len(),
{
    if s.len() == 0 {
        Map::empty()
    } else {
        map_of(s.drop_last()).insert(s.last().0, s.last().1)
    }
}

/// No address occurs twice.
pub open spec fn keys_distinct<V>(s: Seq<(Address, V)>) -> bool {
    forall|i: int, j: int| 0 <= i < j < s.len() ==> #[trigger] s[i].0 != #[trigger] s[j].0
}

/// An address absent from the list has no entry.
proof fn lemma_map_of_absent<V>(s: Seq<(Address, V)>, a: Address)
    requires
        forall|j: int| 0 <= j < s.len() ==> s[j].0 != a,
    ensures
        !map_of(s).contains_key(a),
    decreases s.len(),
{
    if s.len() > 0 {
        lemma_map_of_absent(s.drop_last(), a);
    }
}

/// The entry at `i` of a list without repeats is the map's value.
proof fn lemma_map_of_at<V>(s: Seq<(Address, V)>, i: int)
    requires
        keys_distinct(s),
        0 <= i < s.len(),
    ensures
        map_of(s).contains_key(s[i].0),
        map_of(s)[s[i].0] == s[i].1,
    decreases s.len(),
{
    if i < s.len() - 1 {
        assert(keys_distinct(s.drop_last()));
        assert(s.drop_last()[i] == s[i]);
        lemma_map_of_at(s.drop_last(), i);
    }
}

/// Removing the entry at `i` removes its key from the map.
proof fn lemma_map_of_remove<V>(s: Seq<(Address, V)>, i: int)
    requires
        keys_distinct(s),
        0 <= i < s.len(),
    ensures
        keys_distinct(s.remove(i)),
        map_of(s.remove(i)) == map_of(s).remove(s[i].0),
    decreases s.len(),
{
    let t = s.remove(i);
    assert(keys_distinct(t)) by {
        assert forall|a: int, b: int| 0 <= a < b < t.len() implies #[trigger] t[a].0 != #[trigger] t[b].0 by {
            let a2 = if a < i { a } else { a + 1 };
            let b2 = if b < i { b } else { b + 1 };
            assert(t[a] == s[a2]);
            assert(t[b] == s[b2]);
        }
    }
    assert(keys_distinct(s.drop_last()));
    if i == s.len() - 1 {
        assert(t =~= s.drop_last());
        assert forall|j: int| 0 <= j < s.drop_last().len() implies s.drop_last()[j].0 != s[i].0 by {
            assert(s.drop_last()[j] == s[j]);
        }
        lemma_map_of_absent(s.drop_last(), s[i].0);
        assert(map_of(t) =~= map_of(s).remove(s[i].0));
    } else {
        lemma_map_of_remove(s.drop_last(), i);
        assert(t.drop_last() =~= s.drop_last().remove(i));
        assert(t.last() == s.last());
        assert(s.last().0 != s[i].0);
        assert(map_of(t) =~= map_of(s).remove(s[i].0));
    }
}

/// The index of `a` in the list, if any.
fn position<V>(v: &Vec<(Address, V)>, a: Address) -> (r: Option<usize>)
    ensures
        match r {
            Some(i) => i < v@.len() && v@[i as int].0 == a,
            None => forall|j: int| 0 <= j < v@.len() ==> v@[j].0 != a,
        },
{
    let mut i: usize = 0;
    while i < v.len()
        invariant
            i <= v@.len(),
            forall|j: int| 0 <= j < i ==> v@[j].0 != a,
        decreases v@.len() - i,
    {
        if v[i].0 == a {
            return Some(i);
        }
        i = i + 1;
    }
    None
}

/// A map from addresses to values, one entry per address.
#[derive(Debug, Clone)]
pub struct AddressMap<V> {
    entries: Vec<(Address, V)>,
}

impl<V> AddressMap<V> {
    /// The map's content.
    pub closed spec fn view(&self) -> Map<Address, V> {
        map_of(self.entries@)
    }

    /// Each address has one entry.
    pub closed spec fn wf(&self) -> bool {
        keys_distinct(self.entries@)
    }

    /// The number of entries.
    pub closed spec fn size(&self) -> nat {
        self.entries@.len()
    }

    /// The empty map.
    pub fn new() -> (r: Self)
        ensures
            r.wf(),
            r.view() == Map::<Address, V>::empty(),
            r.size() == 0,
    {
        AddressMap { entries: Vec::new() }
    }

    /// The value at `a`, if any.
    pub fn get(&self, a: Address) -> (r: Option<&V>)
        requires
            self.wf(),
        ensures
            match r {
                Some(v) => self.view().contains_key(a) && self.view()[a] == *v,
                None => !self.view().contains_key(a),
            },
    {
        match position(&self.entries, a) {
            Some(i) => {
                proof {
                    lemma_map_of_at(self.entries@, i as int);
                }
                Some(&self.entries[i].1)
            },
            None => {
                proof {
                    lemma_map_of_absent(self.entries@, a);
                }
                None
            },
        }
    }

    /// True if `a` has an entry.
    pub fn contains_key(&self, a: Address) -> (r: bool)
        requires
            self.wf(),
        ensures
            r == self.view().contains_key(a),
    {
        self.get(a).is_some()
    }

    /// Removes the entry of `a` and returns its value, if any.
    pub fn take(&mut self, a: Address) -> (r: Option<V>)
        requires
            old(self).wf(),
        ensures
            final(self).wf(),
            final(self).view() == old(self).view().remove(a),
            match r {
                Some(v) => old(self).view().contains_key(a) && old(self).view()[a] == v
                    && final(self).size() + 1 == old(self).size(),
                None => !old(self).view().contains_key(a) && final(self).size() == old(self).size(),
            },
    {
        match position(&self.entries, a) {
            Some(i) => {
                proof {
                    lemma_map_of_at(self.entries@, i as int);
                    lemma_map_of_remove(self.entries@, i as int);
                }
                let (_, v) = self.entries.remove(i);
                Some(v)
            },
            None => {
                proof {
                    lemma_map_of_absent(self.entries@, a);
                    assert(map_of(self.entries@) =~= map_of(self.entries@).remove(a));
                }
                None
            },
        }
    }

    /// Sets the value at `a`, replacing any previous one.
    pub fn insert(&mut self, a: Address, v: V)
        requires
            old(self).wf(),
        ensures
            final(self).wf(),
            final(self).view() == old(self).view().insert(a, v),
            final(self).size() == old(self).size() + if old(self).view().contains_key(a) {
                0int
            } else {
                1int
            },
    {
        let _ = self.take(a);
        let ghost before = self.entries@;
        proof {
            assert forall|j: int| 0 <= j < before.len() implies before[j].0 != a by {
                if before[j].0 == a {
                    lemma_map_of_at(before, j);
                }
            }
        }
        self.entries.push((a, v));
        proof {
            assert(self.entries@.drop_last() =~= before);
            assert(keys_distinct(self.entries@)) by {
                assert forall|x: int, y: int| 0 <= x < y < self.entries@.len() implies #[trigger] self.entries@[x].0 != #[trigger] self.entries@[y].0 by {
                    assert(self.entries@[x] == before[x]);
                    if y < before.len() {
                        assert(self.entries@[y] == before[y]);
                    }
                }
            }
            assert(map_of(self.entries@) =~= map_of(before).insert(a, v));
            assert(map_of(old(self).entries@).remove(a).insert(a, v) =~= map_of(old(self).entries@).insert(a, v));
        }
    }

    /// The number of entries.
    pub fn len(&self) -> (r: usize)
        ensures
            r == self.size(),
    {
        self.entries.len()
    }
}

/// The latest write of each slot in a list of writes.
pub open spec fn slots_of<V>(s: Seq<(U256, V)>) -> Map<nat, V>
    decreases s.len(),
{
    if s.len() == 0 {
        Map::empty()
    } else {
        slots_of(s.drop_last()).insert(s.last().0@, s.last().1)
    }
}

/// A map from storage slots to values: every write is kept and the latest
/// one counts.
#[derive(Debug, Clone)]
pub struct SlotMap<V> {
    writes: Vec<(U256, V)>,
}

impl<V> SlotMap<V> {
    /// The map's content.
    pub closed spec fn view(&self) -> Map<nat, V> {
        slots_of(self.writes@)
    }

    /// The empty map.
    pub fn new() -> (r: Self)
        ensures
            r.view() == Map::<nat, V>::empty(),
    {
        SlotMap { writes: Vec::new() }
    }

    /// Sets the value of `slot`.
    pub fn insert(&mut self, slot: U256, v: V)
        ensures
            final(self).view() == old(self).view().insert(slot@, v),
    {
        self.writes.push((slot, v));
        assert(self.writes@.drop_last() =~= old(self).writes@);
    }

    /// The value of `slot`, if it was written.
    pub fn get(&self, slot: U256) -> (r: Option<&V>)
        ensures
            match r {
                Some(v) => self.view().contains_key(slot@) && self.view()[slot@] == *v,
                None => !self.view().contains_key(slot@),
            },
    {
        let mut i = self.writes.len();
        assert(self.writes@.take(i as int) =~= self.writes@);
        while i > 0
            invariant
                i <= self.writes@.len(),
                slots_of(self.writes@).contains_key(slot@) == slots_of(self.writes@.take(i as int)).contains_key(slot@),
                slots_of(self.writes@).contains_key(slot@) ==> slots_of(self.writes@)[slot@]
                    == slots_of(self.writes@.take(i as int))[slot@],
            decreases i,
        {
            assert(self.writes@.take(i as int).drop_last() =~= self.writes@.take(i - 1));
            if self.writes[i - 1].0.eq_word(&slot) {
                return Some(&self.writes[i - 1].1);
            }
            i = i - 1;
        }
        None
    }

    /// True if no slot was written.
    pub fn is_empty(&self) -> (r: bool)
        ensures
            r == (self.view() == Map::<nat, V>::empty()),
    {
        if self.writes.len() == 0 {
            true
        } else {
            let ghost s = self.writes@;
            assert(slots_of(s).contains_key(s.last().0@));
            false
        }
    }
}

} // verus!
