//! A small map keyed by strings, kept as a list of entries with distinct keys.
use vstd::prelude::*;
use vstd::string::*;
use crate::text::str_eq;

verus! {

/// The keys of a list of entries.
pub open spec fn keys_of<V>(s: Seq<(String, V)>) -> Seq<Seq<char>> {
    s.map_values(|e: (String, V)| e.0@)
}

/// The map that a list of entries denotes (later entries win, which only matters
/// when keys repeat).
pub open spec fn to_map<V>(s: Seq<(String, V)>) -> Map<Seq<char>, V>
    decreases s.len(),
{
    if s.len() == 0 {
        Map::empty()
    } else {
        to_map(s.drop_last()).insert(s.last().0@, s.last().1)
    }
}

/// With distinct keys, a key is in the map exactly when some entry has it, and its
/// value is that entry's value.
pub proof fn lemma_to_map_lookup<V>(s: Seq<(String, V)>, k: Seq<char>)
    requires
        keys_of(s).no_duplicates(),
    ensures
        to_map(s).contains_key(k) <==> exists|i: int| 0 <= i < s.len() && (#[trigger] s[i]).0@ == k,
        forall|i: int| 0 <= i < s.len() && (#[trigger] s[i]).0@ == k ==> to_map(s)[k] == s[i].1,
    decreases s.len(),
{
    if s.len() > 0 {
        let t = s.drop_last();
        assert(keys_of(t) =~= keys_of(s).drop_last());
        lemma_to_map_lookup(t, k);
        if s.last().0@ != k {
            assert forall|i: int| 0 <= i < t.len() && (#[trigger] s[i]).0@ == k implies t[i] == s[i] by {}
            if exists|i: int| 0 <= i < s.len() && (#[trigger] s[i]).0@ == k {
                let i = choose|i: int| 0 <= i < s.len() && (#[trigger] s[i]).0@ == k;
                assert(t[i] == s[i]);
            }
        } else {
            assert forall|i: int| 0 <= i < s.len() && (#[trigger] s[i]).0@ == k implies i == s.len()
                - 1 by {
                if i != s.len() - 1 {
                    assert(keys_of(s)[i] == keys_of(s)[s.len() - 1]);
                }
            }
        }
    }
}

/// The domain of the map is finite and is the set of keys.
pub proof fn lemma_to_map_dom<V>(s: Seq<(String, V)>)
    ensures
        to_map(s).dom() == keys_of(s).to_set(),
        to_map(s).dom().finite(),
    decreases s.len(),
{
    if s.len() > 0 {
        let t = s.drop_last();
        lemma_to_map_dom(t);
        assert(keys_of(t) =~= keys_of(s).drop_last());
        assert(keys_of(s) =~= keys_of(t).push(s.last().0@));
        assert forall|k: Seq<char>| to_map(s).dom().contains(k) implies keys_of(
            s,
        ).to_set().contains(k) by {
            if k == s.last().0@ {
                assert(keys_of(s)[s.len() - 1] == k);
            } else {
                assert(keys_of(t).to_set().contains(k));
                let i = choose|i: int| 0 <= i < keys_of(t).len() && keys_of(t)[i] == k;
                assert(keys_of(s)[i] == k);
            }
        }
        assert forall|k: Seq<char>| keys_of(s).to_set().contains(k) implies to_map(
            s,
        ).dom().contains(k) by {
            let i = choose|i: int| 0 <= i < keys_of(s).len() && keys_of(s)[i] == k;
            if i < t.len() {
                assert(keys_of(t)[i] == k);
                assert(keys_of(t).to_set().contains(k));
            }
        }
        assert(to_map(s).dom() =~= keys_of(s).to_set());
    } else {
        assert(keys_of(s).to_set() =~= Set::empty());
    }
}

/// A map from strings to values; each key occurs in one entry only. It stands where a
/// `HashMap<String, V>` would: vstd specifies `HashMap` lookups only for keys whose
/// hashing it models (`obeys_key_model`: integers, `bool`), not for `String`, so the
/// entries are kept in a list instead, with the same contents as a map.
pub struct StrMap<V> {
    entries: Vec<(String, V)>,
}

impl<V> StrMap<V> {
    #[verifier::type_invariant]
    spec fn distinct_keys(self) -> bool {
        keys_of(self.entries@).no_duplicates()
    }

    /// The map from key to value.
    pub closed spec fn view(self) -> Map<Seq<char>, V> {
        to_map(self.entries@)
    }

    /// The keys in the order the entries are kept.
    pub closed spec fn spec_keys(self) -> Seq<Seq<char>> {
        keys_of(self.entries@)
    }

    /// An empty map.
    pub fn new() -> (m: Self)
        ensures
            m.view() == Map::<Seq<char>, V>::empty(),
            m.spec_keys().len() == 0,
    {
        let m = StrMap { entries: Vec::new() };
        assert(keys_of(m.entries@) =~= Seq::<Seq<char>>::empty());
        m
    }

    /// Number of keys.
    pub fn len(&self) -> (r: usize)
        ensures
            r == self.spec_keys().len(),
            r == self.view().dom().len(),
            self.view().dom().finite(),
    {
        proof {
            use_type_invariant(self);
            lemma_to_map_dom(self.entries@);
            keys_of(self.entries@).unique_seq_to_set();
        }
        self.entries.len()
    }

    /// Whether the map has no keys.
    pub fn is_empty(&self) -> (r: bool)
        ensures
            r == (self.view().dom().len() == 0),
            r == (self.spec_keys().len() == 0),
            self.view().dom().finite(),
    {
        proof {
            use_type_invariant(self);
            lemma_to_map_dom(self.entries@);
            if self.entries@.len() > 0 {
                assert(keys_of(self.entries@).to_set().contains(keys_of(self.entries@)[0]));
            } else {
                assert(keys_of(self.entries@).to_set() =~= Set::empty());
            }
        }
        self.entries.len() == 0
    }

    /// Position of `key` among the entries.
    fn find(&self, key: &str) -> (r: Option<usize>)
        ensures
            match r {
                Some(i) => i < self.entries@.len() && self.entries@[i as int].0@ == key@,
                None => forall|i: int|
                    0 <= i < self.entries@.len() ==> (#[trigger] self.entries@[i]).0@ != key@,
            },
    {
        let mut i: usize = 0;
        while i < self.entries.len()
            invariant
                i <= self.entries@.len(),
                forall|j: int| 0 <= j < i ==> (#[trigger] self.entries@[j]).0@ != key@,
            decreases self.entries.len() - i,
        {
            if str_eq(self.entries[i].0.as_str(), key) {
                return Some(i);
            }
            i = i + 1;
        }
        None
    }

    /// Whether `key` has a value.
    pub fn contains_key(&self, key: &str) -> (r: bool)
        ensures
            r == self.view().contains_key(key@),
    {
        proof {
            use_type_invariant(self);
            lemma_to_map_lookup(self.entries@, key@);
        }
        self.find(key).is_some()
    }

    /// The value of `key`, if any.
    pub fn get(&self, key: &str) -> (r: Option<&V>)
        ensures
            self.view().contains_key(key@) ==> r == Some(&self.view()[key@]),
            !self.view().contains_key(key@) ==> r is None,
    {
        proof {
            use_type_invariant(self);
            lemma_to_map_lookup(self.entries@, key@);
        }
        match self.find(key) {
            Some(i) => Some(&self.entries[i].1),
            None => None,
        }
    }

    /// Sets the value of `key` (a new key goes after the existing ones).
    pub fn insert(&mut self, key: String, value: V)
        ensures
            final(self).view() == old(self).view().insert(key@, value),
            old(self).view().contains_key(key@) ==> final(self).spec_keys() == old(self).spec_keys(),
            !old(self).view().contains_key(key@) ==> final(self).spec_keys() == old(
                self,
            ).spec_keys().push(key@),
    {
        proof {
            use_type_invariant(&*self);
            lemma_to_map_lookup(self.entries@, key@);
        }
        let ghost old_entries = self.entries@;
        match self.find(key.as_str()) {
            Some(i) => {
                let ghost k = key@;
                let ghost new_entries = old_entries.update(i as int, (key, value));
                proof {
                    assert(keys_of(new_entries) =~= keys_of(old_entries));
                }
                let mut entries: Vec<(String, V)> = Vec::new();
                std::mem::swap(&mut entries, &mut self.entries);
                entries.set(i, (key, value));
                self.entries = entries;
                proof {
                    assert(self.entries@ == new_entries);
                    lemma_to_map_lookup(new_entries, k);
                    assert(to_map(new_entries) =~= to_map(old_entries).insert(k, value)) by {
                        assert forall|k2: Seq<char>| #[trigger]
                            to_map(new_entries).contains_key(k2) == to_map(old_entries).insert(
                                k,
                                value,
                            ).contains_key(k2) by {
                            lemma_to_map_lookup(new_entries, k2);
                            lemma_to_map_lookup(old_entries, k2);
                            if k2 != k {
                                if exists|j: int|
                                    0 <= j < new_entries.len() && (#[trigger] new_entries[j]).0@
                                        == k2 {
                                    let j = choose|j: int|
                                        0 <= j < new_entries.len() && (#[trigger] new_entries[j]).0@
                                            == k2;
                                    assert(old_entries[j] == new_entries[j]);
                                }
                                if exists|j: int|
                                    0 <= j < old_entries.len() && (#[trigger] old_entries[j]).0@
                                        == k2 {
                                    let j = choose|j: int|
                                        0 <= j < old_entries.len() && (#[trigger] old_entries[j]).0@
                                            == k2;
                                    assert(old_entries[j] == new_entries[j]);
                                }
                            } else {
                                assert(new_entries[i as int].0@ == k);
                            }
                        }
                        assert forall|k2: Seq<char>| #[trigger]
                            to_map(new_entries).contains_key(k2) implies to_map(new_entries)[k2]
                            == to_map(old_entries).insert(k, value)[k2] by {
                            lemma_to_map_lookup(new_entries, k2);
                            lemma_to_map_lookup(old_entries, k2);
                            let j = choose|j: int|
                                0 <= j < new_entries.len() && (#[trigger] new_entries[j]).0@ == k2;
                            if k2 != k {
                                assert(old_entries[j] == new_entries[j]);
                            } else {
                                assert(new_entries[i as int].0@ == k);
                            }
                        }
                    }
                }
            },
            None => {
                let ghost k = key@;
                proof {
                    assert(keys_of(old_entries.push((key, value))) =~= keys_of(old_entries).push(
                        k,
                    ));
                    assert(old_entries.push((key, value)).drop_last() =~= old_entries);
                    assert forall|a: int, b: int|
                        0 <= a < b < keys_of(old_entries).push(k).len() implies keys_of(
                        old_entries,
                    ).push(k)[a] != keys_of(old_entries).push(k)[b] by {
                        if b == keys_of(old_entries).len() {
                            assert(old_entries[a].0@ != k);
                        }
                    }
                }
                let mut entries: Vec<(String, V)> = Vec::new();
                std::mem::swap(&mut entries, &mut self.entries);
                entries.push((key, value));
                self.entries = entries;
            },
        }
    }

    /// Removes `key`, returning its value if it had one.
    pub fn remove(&mut self, key: &str) -> (r: Option<V>)
        ensures
            final(self).view() == old(self).view().remove(key@),
            old(self).view().contains_key(key@) ==> r == Some(old(self).view()[key@]),
            !old(self).view().contains_key(key@) ==> r is None,
            final(self).spec_keys().to_set() == old(self).spec_keys().to_set().remove(key@),
    {
        proof {
            use_type_invariant(&*self);
            lemma_to_map_lookup(self.entries@, key@);
            lemma_to_map_dom(self.entries@);
        }
        let ghost old_entries = self.entries@;
        match self.find(key) {
            Some(i) => {
                let ghost new_entries = old_entries.remove(i as int);
                proof {
                    assert(keys_of(new_entries) =~= keys_of(old_entries).remove(i as int));
                    assert forall|a: int, b: int|
                        0 <= a < keys_of(new_entries).len() && 0 <= b < keys_of(new_entries).len()
                            && a != b implies keys_of(new_entries)[a] != keys_of(new_entries)[b] by {
                        let oa = if a < i { a } else { a + 1 };
                        let ob = if b < i { b } else { b + 1 };
                        assert(keys_of(new_entries)[a] == keys_of(old_entries)[oa]);
                        assert(keys_of(new_entries)[b] == keys_of(old_entries)[ob]);
                    }
                }
                let mut entries: Vec<(String, V)> = Vec::new();
                std::mem::swap(&mut entries, &mut self.entries);
                let e = entries.remove(i);
                self.entries = entries;
                proof {
                    assert(self.entries@ == new_entries);
                    lemma_to_map_dom(new_entries);
                    assert forall|k2: Seq<char>| #[trigger]
                        to_map(new_entries).contains_key(k2) == to_map(old_entries).remove(
                            key@,
                        ).contains_key(k2) by {
                        lemma_to_map_lookup(new_entries, k2);
                        lemma_to_map_lookup(old_entries, k2);
                        if exists|j: int|
                            0 <= j < new_entries.len() && (#[trigger] new_entries[j]).0@ == k2 {
                            let j = choose|j: int|
                                0 <= j < new_entries.len() && (#[trigger] new_entries[j]).0@ == k2;
                            let oj = if j < i { j } else { j + 1 };
                            assert(new_entries[j] == old_entries[oj]);
                            if k2 == key@ {
                                assert(keys_of(old_entries)[oj] == keys_of(old_entries)[i as int]);
                            }
                        }
                        if k2 != key@ && exists|j: int|
                            0 <= j < old_entries.len() && (#[trigger] old_entries[j]).0@ == k2 {
                            let j = choose|j: int|
                                0 <= j < old_entries.len() && (#[trigger] old_entries[j]).0@ == k2;
                            let nj = if j < i { j } else { j - 1 };
                            assert(new_entries[nj] == old_entries[j]);
                        }
                    }
                    assert forall|k2: Seq<char>| #[trigger]
                        to_map(new_entries).contains_key(k2) implies to_map(new_entries)[k2]
                        == to_map(old_entries)[k2] by {
                        lemma_to_map_lookup(new_entries, k2);
                        lemma_to_map_lookup(old_entries, k2);
                        let j = choose|j: int|
                            0 <= j < new_entries.len() && (#[trigger] new_entries[j]).0@ == k2;
                        let oj = if j < i { j } else { j + 1 };
                        assert(new_entries[j] == old_entries[oj]);
                    }
                    assert(to_map(new_entries) =~= to_map(old_entries).remove(key@));
                    assert(keys_of(new_entries).to_set() =~= keys_of(old_entries).to_set().remove(
                        key@,
                    )) by {
                        assert(to_map(new_entries).dom() =~= to_map(old_entries).dom().remove(
                            key@,
                        ));
                    }
                }
                Some(e.1)
            },
            None => {
                proof {
                    assert(to_map(old_entries) =~= to_map(old_entries).remove(key@));
                    assert(keys_of(old_entries).to_set() =~= keys_of(old_entries).to_set().remove(
                        key@,
                    ));
                }
                None
            },
        }
    }

    /// The key of the entry at position `i`.
    pub fn key_at(&self, i: usize) -> (r: &String)
        requires
            i < self.spec_keys().len(),
        ensures
            r@ == self.spec_keys()[i as int],
    {
        &self.entries[i].0
    }

    /// The value of the entry at position `i`, which is the value of its key.
    pub fn value_at(&self, i: usize) -> (r: &V)
        requires
            i < self.spec_keys().len(),
        ensures
            self.view().contains_key(self.spec_keys()[i as int]),
            *r == self.view()[self.spec_keys()[i as int]],
    {
        proof {
            use_type_invariant(self);
            lemma_to_map_lookup(self.entries@, self.entries@[i as int].0@);
        }
        &self.entries[i].1
    }

    /// The keys in entry order.
    pub fn keys(&self) -> (r: Vec<String>)
        ensures
            r@.map_values(|s: String| s@) == self.spec_keys(),
            self.spec_keys().no_duplicates(),
            self.view().dom() == self.spec_keys().to_set(),
            self.view().dom().finite(),
    {
        proof {
            use_type_invariant(self);
            lemma_to_map_dom(self.entries@);
        }
        let mut r: Vec<String> = Vec::new();
        let mut i: usize = 0;
        while i < self.entries.len()
            invariant
                i <= self.entries@.len(),
                r@.len() == i,
                forall|j: int| 0 <= j < i ==> (#[trigger] r@[j])@ == self.entries@[j].0@,
            decreases self.entries.len() - i,
        {
            r.push(self.entries[i].0.clone());
            i = i + 1;
        }
        assert(r@.map_values(|s: String| s@) =~= keys_of(self.entries@));
        r
    }
}

/// A set of strings, standing where a `HashSet<String>` would (see `StrMap`).
pub struct StrSet {
    map: StrMap<()>,
}

impl StrSet {
    /// The strings in the set.
    pub closed spec fn view(self) -> Set<Seq<char>> {
        self.map.view().dom()
    }

    /// An empty set.
    pub fn new() -> (s: Self)
        ensures
            s.view() == Set::<Seq<char>>::empty(),
    {
        let s = StrSet { map: StrMap::new() };
        assert(s.view() =~= Set::<Seq<char>>::empty());
        s
    }

    /// Adds `value`; true when it was not present before.
    pub fn insert(&mut self, value: String) -> (r: bool)
        ensures
            final(self).view() == old(self).view().insert(value@),
            r == !old(self).view().contains(value@),
    {
        let present = self.map.contains_key(value.as_str());
        self.map.insert(value, ());
        proof {
            assert(self.map.view().dom() =~= old(self).map.view().dom().insert(value@));
        }
        !present
    }

    /// Removes `value`; true when it was present.
    pub fn remove(&mut self, value: &str) -> (r: bool)
        ensures
            final(self).view() == old(self).view().remove(value@),
            r == old(self).view().contains(value@),
    {
        let r = self.map.remove(value);
        proof {
            assert(self.map.view().dom() =~= old(self).map.view().dom().remove(value@));
        }
        r.is_some()
    }

    /// Whether `value` is in the set.
    pub fn contains(&self, value: &str) -> (r: bool)
        ensures
            r == self.view().contains(value@),
    {
        self.map.contains_key(value)
    }

    /// Whether the set is empty.
    pub fn is_empty(&self) -> (r: bool)
        ensures
            r == (self.view().len() == 0),
    {
        self.map.is_empty()
    }

    /// The members, each once, in insertion order.
    pub fn members(&self) -> (r: Vec<String>)
        ensures
            r@.map_values(|s: String| s@).no_duplicates(),
            r@.map_values(|s: String| s@).to_set() == self.view(),
    {
        self.map.keys()
    }
}

} // verus!
