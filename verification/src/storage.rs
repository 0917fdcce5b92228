use vstd::prelude::*;

verus! {

/// The mathematical contents of an entry sequence: each entry binds the view
/// of its key to the deep view of its value, later entries winning. Under
/// [`distinct_keys`] there is at most one entry per key, so the order of the
/// entries does not matter.
spec fn map_of<V: DeepView>(s: Seq<(String, V)>) -> Map<Seq<char>, V::V>
    decreases s.len(),
{
    if s.len() == 0 {
        Map::empty()
    } else {
        map_of(s.drop_last()).insert(s.last().0@, s.last().1.deep_view())
    }
}

/// No two entries bind the same key.
spec fn distinct_keys<V>(s: Seq<(String, V)>) -> bool {
    forall|i: int, j: int| 0 <= i < j < s.len() ==> s[i].0@ != s[j].0@
}

/// A key is in the contents exactly when some entry binds it.
proof fn lemma_map_of_contains<V: DeepView>(s: Seq<(String, V)>, k: Seq<char>)
    ensures
        map_of(s).contains_key(k) <==> (exists|i: int| 0 <= i < s.len() && s[i].0@ == k),
    decreases s.len(),
{
    if s.len() > 0 {
        let t = s.drop_last();
        lemma_map_of_contains(t, k);
        if map_of(s).contains_key(k) {
            if k == s.last().0@ {
                assert(s[s.len() - 1].0@ == k);
            } else {
                let i = choose|i: int| 0 <= i < t.len() && t[i].0@ == k;
                assert(s[i].0@ == k);
            }
        }
        if exists|i: int| 0 <= i < s.len() && s[i].0@ == k {
            let i = choose|i: int| 0 <= i < s.len() && s[i].0@ == k;
            if i < s.len() - 1 {
                assert(t[i].0@ == k);
            }
        }
    }
}

/// Each entry of a well-formed sequence is bound in the contents.
proof fn lemma_map_of_index<V: DeepView>(s: Seq<(String, V)>, i: int)
    requires
        distinct_keys(s),
        0 <= i < s.len(),
    ensures
        map_of(s).contains_key(s[i].0@),
        map_of(s)[s[i].0@] == s[i].1.deep_view(),
    decreases s.len(),
{
    if i < s.len() - 1 {
        let t = s.drop_last();
        assert(distinct_keys(t));
        lemma_map_of_index(t, i);
        assert(s[i].0@ != s[s.len() - 1].0@);
    }
}

/// The contents of any entry sequence form a finite map.
proof fn lemma_map_of_finite<V: DeepView>(s: Seq<(String, V)>)
    ensures
        map_of(s).dom().finite(),
    decreases s.len(),
{
    if s.len() > 0 {
        lemma_map_of_finite(s.drop_last());
    }
}

/// Removing one entry removes exactly its key from the contents.
proof fn lemma_map_of_remove<V: DeepView>(s: Seq<(String, V)>, i: int)
    requires
        distinct_keys(s),
        0 <= i < s.len(),
    ensures
        map_of(s.remove(i)) == map_of(s).remove(s[i].0@),
    decreases s.len(),
{
    s.remove_ensures(i);
    if i == s.len() - 1 {
        let t = s.drop_last();
        assert(s.remove(i) =~= t);
        lemma_map_of_contains(t, s[i].0@);
        assert(forall|j: int| 0 <= j < t.len() ==> s[j].0@ != s[i].0@);
        assert(map_of(s).remove(s[i].0@) =~= map_of(t));
    } else {
        let t = s.drop_last();
        assert(distinct_keys(t));
        lemma_map_of_remove(t, i);
        assert(s.remove(i).drop_last() =~= t.remove(i));
        assert(s.remove(i).last() == s.last());
        assert(s[i].0@ != s.last().0@);
        assert(map_of(t).remove(s[i].0@).insert(s.last().0@, s.last().1.deep_view()) =~= map_of(
            t,
        ).insert(s.last().0@, s.last().1.deep_view()).remove(s[i].0@));
    }
}

/// Removing an entry keeps the remaining keys distinct.
proof fn lemma_distinct_remove<V>(s: Seq<(String, V)>, i: int)
    requires
        distinct_keys(s),
        0 <= i < s.len(),
    ensures
        distinct_keys(s.remove(i)),
{
    s.remove_ensures(i);
}

/// An in-memory key-value store: account identifiers to ledger values. Its
/// abstraction is the finite map from key views to deep views of the stored
/// values; the entry order underneath is not observable.
#[derive(Debug)]
pub struct StorageMap<V> {
    entries: Vec<(String, V)>,
}

impl<V: DeepView> View for StorageMap<V> {
    type V = Map<Seq<char>, V::V>;

    closed spec fn view(&self) -> Map<Seq<char>, V::V> {
        map_of(self.entries@)
    }
}

impl<V> StorageMap<V> {
    #[verifier::type_invariant]
    spec fn wf(self) -> bool {
        distinct_keys(self.entries@)
    }
}

impl<V: DeepView> StorageMap<V> {
    /// The abstraction of every store is a finite map, whatever was done to it.
    pub proof fn lemma_view_finite(&self)
        ensures
            self@.dom().finite(),
    {
        lemma_map_of_finite(self.entries@);
    }

    pub fn new() -> (r: Self)
        ensures
            r@ == Map::<Seq<char>, V::V>::empty(),
    {
        StorageMap { entries: Vec::new() }
    }

    /// The index of the entry binding `key`, if there is one.
    fn find_index(&self, key: &String) -> (r: Option<usize>)
        ensures
            match r {
                Some(i) => i < self.entries@.len() && self.entries@[i as int].0@ == key@,
                None => forall|j: int| 0 <= j < self.entries@.len() ==> self.entries@[j].0@ != key@,
            },
    {
        let mut i: usize = 0;
        while i < self.entries.len()
            invariant
                i <= self.entries@.len(),
                forall|j: int| 0 <= j < i ==> self.entries@[j].0@ != key@,
            decreases self.entries@.len() - i,
        {
            if self.entries[i].0 == *key {
                return Some(i);
            }
            i = i + 1;
        }
        None
    }

    pub fn get<'a>(&'a self, key: &String) -> (r: Option<&'a V>)
        ensures
            match r {
                Some(v) => self@.contains_key(key@) && v.deep_view() == self@[key@],
                None => !self@.contains_key(key@),
            },
    {
        proof {
            use_type_invariant(&*self);
        }
        match self.find_index(key) {
            Some(i) => {
                proof {
                    lemma_map_of_index(self.entries@, i as int);
                }
                Some(&self.entries[i].1)
            },
            None => {
                proof {
                    lemma_map_of_contains(self.entries@, key@);
                }
                None
            },
        }
    }

    pub fn insert(&mut self, key: &String, value: V)
        ensures
            final(self)@ == old(self)@.insert(key@, value.deep_view()),
    {
        proof {
            use_type_invariant(&*self);
        }
        let ghost s0 = self.entries@;
        let idx = self.find_index(key);
        let mut entries: Vec<(String, V)> = Vec::new();
        std::mem::swap(&mut entries, &mut self.entries);
        if let Some(i) = idx {
            entries.remove(i);
            proof {
                lemma_distinct_remove(s0, i as int);
                lemma_map_of_remove(s0, i as int);
                assert(forall|j: int|
                    0 <= j < s0.len() && j != i ==> s0[j].0@ != key@);
            }
        }
        let ghost s1 = entries@;
        entries.push((key.clone(), value));
        proof {
            assert(forall|j: int| 0 <= j < s1.len() ==> s1[j].0@ != key@);
            assert(entries@.drop_last() =~= s1);
            assert(map_of(entries@) == map_of(s1).insert(key@, value.deep_view()));
            if idx is Some {
                assert(map_of(s1) == map_of(s0).remove(key@));
            } else {
                lemma_map_of_contains(s0, key@);
            }
            assert(map_of(entries@) =~= map_of(s0).insert(key@, value.deep_view()));
        }
        self.entries = entries;
    }

    pub fn remove(&mut self, key: &String)
        ensures
            final(self)@ == old(self)@.remove(key@),
    {
        proof {
            use_type_invariant(&*self);
        }
        let ghost s0 = self.entries@;
        match self.find_index(key) {
            Some(i) => {
                let mut entries: Vec<(String, V)> = Vec::new();
                std::mem::swap(&mut entries, &mut self.entries);
                entries.remove(i);
                proof {
                    lemma_distinct_remove(s0, i as int);
                    lemma_map_of_remove(s0, i as int);
                }
                self.entries = entries;
            },
            None => {
                proof {
                    lemma_map_of_contains(s0, key@);
                    assert(map_of(s0).remove(key@) =~= map_of(s0));
                }
            },
        }
    }
}

} // verus!
