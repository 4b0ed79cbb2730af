use vstd::prelude::*;
use crate::value::ReflectValue;
use crate::value::ReflectValueSpec;

verus! {

/// A type-erased view of a repeated field's backing storage: a sequence of
/// erased scalar values, supporting the generic length / item / append /
/// clear operations that schema-agnostic algorithms need.
#[derive(Debug, Clone, PartialEq)]
pub struct ReflectRepeated {
    pub items: Vec<ReflectValue>,
}

impl View for ReflectRepeated {
    type V = Seq<ReflectValueSpec>;

    open spec fn view(&self) -> Seq<ReflectValueSpec> {
        self.items@.map_values(|v: ReflectValue| v@)
    }
}

impl ReflectRepeated {
    pub fn new() -> (r: ReflectRepeated)
        ensures
            r@ == Seq::<ReflectValueSpec>::empty(),
    {
        let r = ReflectRepeated { items: Vec::new() };
        proof {
            assert(r@ =~= Seq::<ReflectValueSpec>::empty());
        }
        r
    }

    pub fn len(&self) -> (r: usize)
        ensures
            r == self@.len(),
    {
        self.items.len()
    }

    pub fn get(&self, index: usize) -> (r: &ReflectValue)
        requires
            index < self@.len(),
        ensures
            r@ == self@[index as int],
    {
        &self.items[index]
    }

    pub fn push(&mut self, value: ReflectValue)
        ensures
            final(self)@ == old(self)@.push(value@),
    {
        self.items.push(value);
        proof {
            assert(self@ =~= old(self)@.push(value@));
        }
    }

    pub fn clear(&mut self)
        ensures
            final(self)@ == Seq::<ReflectValueSpec>::empty(),
    {
        self.items.clear();
        proof {
            assert(self@ =~= Seq::<ReflectValueSpec>::empty());
        }
    }
}

/// The finite map held by an entry sequence: each entry's key maps to its
/// value, a later entry winning over an earlier one with the same key.
pub open spec fn map_of(s: Seq<(ReflectValue, ReflectValue)>) -> Map<
    ReflectValueSpec,
    ReflectValueSpec,
>
    decreases s.len(),
{
    if s.len() == 0 {
        Map::empty()
    } else {
        map_of(s.drop_last()).insert(s.last().0@, s.last().1@)
    }
}

/// No two entries of the sequence share a key.
pub open spec fn unique_keys(s: Seq<(ReflectValue, ReflectValue)>) -> bool {
    forall|i: int, j: int| 0 <= i < j < s.len() ==> s[i].0@ != s[j].0@
}

/// A key stands in the map of an entry sequence exactly when some entry
/// holds it.
pub proof fn lemma_map_of_contains(s: Seq<(ReflectValue, ReflectValue)>, k: ReflectValueSpec)
    ensures
        map_of(s).contains_key(k) <==> exists|i: int| 0 <= i < s.len() && s[i].0@ == k,
    decreases s.len(),
{
    if s.len() == 0 {
    } else {
        let t = s.drop_last();
        lemma_map_of_contains(t, k);
        if s.last().0@ == k {
            assert(s[s.len() - 1].0@ == k);
        } else {
            if exists|i: int| 0 <= i < s.len() && s[i].0@ == k {
                let i = choose|i: int| 0 <= i < s.len() && s[i].0@ == k;
                assert(i < s.len() - 1);
                assert(t[i] == s[i]);
            }
            if exists|i: int| 0 <= i < t.len() && t[i].0@ == k {
                let i = choose|i: int| 0 <= i < t.len() && t[i].0@ == k;
                assert(s[i] == t[i]);
            }
        }
    }
}

/// Under key uniqueness, the map of an entry sequence sends each entry's key
/// to that entry's value.
pub proof fn lemma_map_of_index(s: Seq<(ReflectValue, ReflectValue)>, i: int)
    requires
        unique_keys(s),
        0 <= i < s.len(),
    ensures
        map_of(s).contains_key(s[i].0@),
        map_of(s)[s[i].0@] == s[i].1@,
    decreases s.len(),
{
    let t = s.drop_last();
    if i == s.len() - 1 {
    } else {
        assert(forall|a: int, b: int| 0 <= a < b < t.len() ==> t[a] == s[a] && t[b] == s[b]);
        lemma_map_of_index(t, i);
        assert(s[i].0@ != s.last().0@) by {
            assert(s.last() == s[s.len() - 1]);
        }
    }
}

/// Under key uniqueness, removing the entry at one index removes exactly its
/// key from the map of the sequence.
pub proof fn lemma_map_of_remove(s: Seq<(ReflectValue, ReflectValue)>, i: int)
    requires
        unique_keys(s),
        0 <= i < s.len(),
    ensures
        map_of(s.remove(i)) == map_of(s).remove(s[i].0@),
    decreases s.len(),
{
    let k = s[i].0@;
    let t = s.drop_last();
    if i == s.len() - 1 {
        assert(s.remove(i) =~= t);
        lemma_map_of_contains(t, k);
        assert(forall|j: int| 0 <= j < t.len() ==> t[j] == s[j]);
        assert(!map_of(t).contains_key(k));
        assert(map_of(t) =~= map_of(t).insert(k, s[i].1@).remove(k));
    } else {
        let r = s.remove(i);
        assert(r.last() == s.last()) by {
            assert(r[r.len() - 1] == s[s.len() - 1]);
        }
        assert(r.drop_last() =~= t.remove(i));
        assert(forall|a: int, b: int| 0 <= a < b < t.len() ==> t[a] == s[a] && t[b] == s[b]);
        assert(t[i] == s[i]);
        lemma_map_of_remove(t, i);
        assert(s[i].0@ != s.last().0@) by {
            assert(s.last() == s[s.len() - 1]);
        }
        assert(map_of(t).remove(k).insert(s.last().0@, s.last().1@) =~= map_of(t).insert(
            s.last().0@,
            s.last().1@,
        ).remove(k));
        assert(map_of(s.remove(i)) =~= map_of(s).remove(k));
    }
}

/// A type-erased view of a map field's backing storage: an association
/// sequence of erased key/value pairs whose keys are pairwise distinct,
/// abstracted in contracts as the finite map it holds.
#[derive(Debug, Clone, PartialEq)]
pub struct ReflectMap {
    pub entries: Vec<(ReflectValue, ReflectValue)>,
}

impl View for ReflectMap {
    type V = Map<ReflectValueSpec, ReflectValueSpec>;

    open spec fn view(&self) -> Map<ReflectValueSpec, ReflectValueSpec> {
        map_of(self.entries@)
    }
}

impl ReflectMap {
    /// Key uniqueness: established by `new`, preserved by every operation.
    pub open spec fn well_formed(&self) -> bool {
        unique_keys(self.entries@)
    }

    pub fn new() -> (r: ReflectMap)
        ensures
            r.well_formed(),
            r@ == Map::<ReflectValueSpec, ReflectValueSpec>::empty(),
    {
        ReflectMap { entries: Vec::new() }
    }

    pub fn len(&self) -> (r: usize)
        requires
            self.well_formed(),
        ensures
            r == self@.dom().len(),
    {
        proof {
            lemma_entry_count(self.entries@);
        }
        self.entries.len()
    }

    /// The index of the entry holding the given key, if any entry does.
    fn find_index(&self, key: &ReflectValue) -> (r: Option<usize>)
        ensures
            match r {
                Some(i) => i < self.entries@.len() && self.entries@[i as int].0@ == key@,
                None => forall|i: int|
                    0 <= i < self.entries@.len() ==> self.entries@[i].0@ != key@,
            },
    {
        let mut i: usize = 0;
        while i < self.entries.len()
            invariant
                i <= self.entries@.len(),
                forall|j: int| 0 <= j < i ==> self.entries@[j].0@ != key@,
            decreases self.entries@.len() - i,
        {
            let pair = &self.entries[i];
            if pair.0.value_eq(key) {
                return Some(i);
            }
            i += 1;
        }
        None
    }

    /// The value bound to the given key, if the map holds the key.
    pub fn get(&self, key: &ReflectValue) -> (r: Option<&ReflectValue>)
        requires
            self.well_formed(),
        ensures
            match r {
                Some(v) => self@.contains_key(key@) && v@ == self@[key@],
                None => !self@.contains_key(key@),
            },
    {
        proof {
            lemma_map_of_contains(self.entries@, key@);
        }
        match self.find_index(key) {
            Some(i) => {
                proof {
                    lemma_map_of_index(self.entries@, i as int);
                }
                let pair = &self.entries[i];
                Some(&pair.1)
            },
            None => None,
        }
    }

    /// Binds the key to the value, replacing any earlier binding.
    pub fn insert(&mut self, key: ReflectValue, value: ReflectValue)
        requires
            old(self).well_formed(),
        ensures
            final(self).well_formed(),
            final(self)@ == old(self)@.insert(key@, value@),
    {
        self.remove(&key);
        let ghost pre = self.entries@;
        proof {
            lemma_map_of_contains(pre, key@);
        }
        self.entries.push((key, value));
        proof {
            assert(self.entries@.drop_last() =~= pre);
            assert(forall|j: int| 0 <= j < pre.len() ==> self.entries@[j] == pre[j]);
            assert(forall|j: int| 0 <= j < pre.len() ==> pre[j].0@ != key@);
            assert(self.entries@[pre.len() as int] == (key, value));
            assert(unique_keys(self.entries@));
            assert(self@ =~= old(self)@.insert(key@, value@));
        }
    }

    /// Drops the binding of the given key, returning the value it was bound
    /// to, if the map held the key.
    pub fn remove(&mut self, key: &ReflectValue) -> (r: Option<ReflectValue>)
        requires
            old(self).well_formed(),
        ensures
            final(self).well_formed(),
            final(self)@ == old(self)@.remove(key@),
            match r {
                Some(v) => old(self)@.contains_key(key@) && v@ == old(self)@[key@],
                None => !old(self)@.contains_key(key@),
            },
    {
        proof {
            lemma_map_of_contains(self.entries@, key@);
        }
        match self.find_index(key) {
            Some(i) => {
                proof {
                    lemma_map_of_index(self.entries@, i as int);
                    lemma_map_of_remove(self.entries@, i as int);
                    self.entries@.remove_ensures(i as int);
                }
                let pair = self.entries.remove(i);
                Some(pair.1)
            },
            None => {
                proof {
                    assert(self@ =~= self@.remove(key@));
                }
                None
            },
        }
    }

    /// Drops every binding.
    pub fn clear(&mut self)
        ensures
            final(self).well_formed(),
            final(self)@ == Map::<ReflectValueSpec, ReflectValueSpec>::empty(),
    {
        self.entries.clear();
    }
}

/// Under key uniqueness, the map of an entry sequence has exactly one key
/// per entry.
pub proof fn lemma_entry_count(s: Seq<(ReflectValue, ReflectValue)>)
    requires
        unique_keys(s),
    ensures
        map_of(s).dom().finite(),
        map_of(s).dom().len() == s.len(),
    decreases s.len(),
{
    if s.len() == 0 {
        assert(map_of(s).dom() =~= Set::<ReflectValueSpec>::empty());
    } else {
        let t = s.drop_last();
        assert(forall|a: int, b: int| 0 <= a < b < t.len() ==> t[a] == s[a] && t[b] == s[b]);
        lemma_entry_count(t);
        lemma_map_of_contains(t, s.last().0@);
        assert(forall|j: int| 0 <= j < t.len() ==> t[j] == s[j]);
        assert(!map_of(t).contains_key(s.last().0@)) by {
            assert(s.last() == s[s.len() - 1]);
        }
        assert(map_of(s).dom() =~= map_of(t).dom().insert(s.last().0@));
    }
}

} // verus!
