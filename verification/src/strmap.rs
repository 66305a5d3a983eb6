use vstd::prelude::*;

verus! {

/// Character-for-character string comparison, proved against the views.
pub fn str_eq(a: &str, b: &str) -> (r: bool)
    ensures
        r == (a@ == b@),
{
    let alen = a.unicode_len();
    let blen = b.unicode_len();
    if alen != blen {
        return false;
    }
    for i in 0..alen
        invariant
            alen == a@.len(),
            blen == b@.len(),
            alen == blen,
            forall|j: int| 0 <= j < i ==> a@[j] == b@[j],
    {
        if a.get_char(i) != b.get_char(i) {
            return false;
        }
    }
    proof {
        assert(a@ =~= b@);
    }
    true
}

/// A string-keyed map held as a list of entries with pairwise distinct keys.
/// Contracts speak of it through its view, a `Map` from key characters to
/// values; `take` hands an entry out by value, which lets callers edit a
/// subtree in place and put it back without cloning it.
#[derive(Debug)]
pub struct StrMap<V> {
    entries: Vec<(String, V)>,
}

/// The map described by an entry list: later bindings win, though the type
/// invariant keeps keys distinct so the order never matters.
pub open spec fn entry_list_map<V>(s: Seq<(String, V)>) -> Map<Seq<char>, V>
    decreases s.len(),
{
    if s.len() == 0 {
        Map::empty()
    } else {
        entry_list_map(s.drop_last()).insert(s.last().0@, s.last().1)
    }
}

pub open spec fn distinct_keys<V>(s: Seq<(String, V)>) -> bool {
    forall|i: int, j: int| 0 <= i < j < s.len() ==> s[i].0@ != s[j].0@
}

impl<V> View for StrMap<V> {
    type V = Map<Seq<char>, V>;

    closed spec fn view(&self) -> Map<Seq<char>, V> {
        entry_list_map(self.entries@)
    }
}

proof fn lemma_entry_list_map_domain<V>(s: Seq<(String, V)>)
    ensures
        forall|k: Seq<char>| #[trigger] entry_list_map(s).dom().contains(k)
            <==> exists|i: int| 0 <= i < s.len() && s[i].0@ == k,
    decreases s.len(),
{
    if s.len() > 0 {
        lemma_entry_list_map_domain(s.drop_last());
        let m0 = entry_list_map(s.drop_last());
        assert(entry_list_map(s) == m0.insert(s.last().0@, s.last().1));
        assert forall|k: Seq<char>| #[trigger] entry_list_map(s).dom().contains(k)
            implies exists|i: int| 0 <= i < s.len() && s[i].0@ == k by {
            if k == s.last().0@ {
                assert(s[s.len() - 1].0@ == k);
            } else {
                assert(m0.dom().contains(k));
                let i = choose|i: int| 0 <= i < s.drop_last().len() && s.drop_last()[i].0@ == k;
                assert(s.drop_last()[i] == s[i]);
                assert(s[i].0@ == k);
            }
        }
        assert forall|k: Seq<char>| (exists|i: int| 0 <= i < s.len() && s[i].0@ == k)
            implies #[trigger] entry_list_map(s).dom().contains(k) by {
            let i = choose|i: int| 0 <= i < s.len() && s[i].0@ == k;
            if i < s.len() - 1 {
                assert(s.drop_last()[i] == s[i]);
                assert(s.drop_last()[i].0@ == k);
                assert(m0.dom().contains(k));
            }
        }
    }
}

/// With distinct keys, the entry at any index is the map's binding for its key.
proof fn lemma_entry_list_map_index<V>(s: Seq<(String, V)>, i: int)
    requires
        distinct_keys(s),
        0 <= i < s.len(),
    ensures
        entry_list_map(s).dom().contains(s[i].0@),
        entry_list_map(s)[s[i].0@] == s[i].1,
    decreases s.len(),
{
    if i == s.len() - 1 {
    } else {
        lemma_entry_list_map_index(s.drop_last(), i);
        assert(s.drop_last()[i] == s[i]);
        assert(s[i].0@ != s.last().0@);
    }
}

/// Dropping one entry keeps the remaining keys pairwise distinct.
proof fn lemma_distinct_keys_remove<V>(s: Seq<(String, V)>, i: int)
    requires
        distinct_keys(s),
        0 <= i < s.len(),
    ensures
        distinct_keys(s.remove(i)),
{
    assert forall|a: int, b: int| 0 <= a < b < s.remove(i).len()
        implies s.remove(i)[a].0@ != s.remove(i)[b].0@ by {
        let aa = if a < i { a } else { a + 1 };
        let bb = if b < i { b } else { b + 1 };
        assert(s.remove(i)[a] == s[aa]);
        assert(s.remove(i)[b] == s[bb]);
    }
}

/// Removing the entry at an index removes exactly its key from the map.
proof fn lemma_entry_list_map_remove<V>(s: Seq<(String, V)>, i: int)
    requires
        distinct_keys(s),
        0 <= i < s.len(),
    ensures
        entry_list_map(s.remove(i)) == entry_list_map(s).remove(s[i].0@),
    decreases s.len(),
{
    lemma_entry_list_map_domain(s);
    lemma_entry_list_map_domain(s.remove(i));
    if i == s.len() - 1 {
        assert(s.remove(i) =~= s.drop_last());
        assert(!entry_list_map(s.drop_last()).dom().contains(s.last().0@)) by {
            lemma_entry_list_map_domain(s.drop_last());
            assert forall|j: int| 0 <= j < s.drop_last().len()
                implies s.drop_last()[j].0@ != s.last().0@ by {}
        }
        assert(entry_list_map(s.drop_last())
            =~= entry_list_map(s.drop_last()).insert(s.last().0@, s.last().1).remove(s.last().0@));
    } else {
        lemma_entry_list_map_remove(s.drop_last(), i);
        assert(s.remove(i).drop_last() =~= s.drop_last().remove(i));
        assert(s.remove(i).last() == s.last());
        assert(entry_list_map(s.remove(i))
            == entry_list_map(s.drop_last().remove(i)).insert(s.last().0@, s.last().1));
        assert(entry_list_map(s).remove(s[i].0@)
            =~= entry_list_map(s.drop_last()).remove(s[i].0@).insert(s.last().0@, s.last().1)) by {
            assert(s[i].0@ != s.last().0@);
        }
    }
}

impl<V> StrMap<V> {
    #[verifier::type_invariant]
    spec fn inv(self) -> bool {
        distinct_keys(self.entries@)
    }

    pub fn new() -> (r: Self)
        ensures
            r@ == Map::<Seq<char>, V>::empty(),
    {
        StrMap { entries: Vec::new() }
    }

    pub fn len(&self) -> (r: usize)
        ensures
            r == self@.dom().len(),
    {
        proof {
            use_type_invariant(self);
            lemma_entry_list_map_len(self.entries@);
        }
        self.entries.len()
    }

    pub fn is_empty(&self) -> (r: bool)
        ensures
            r == (self@ == Map::<Seq<char>, V>::empty()),
    {
        proof {
            use_type_invariant(self);
            lemma_entry_list_map_len(self.entries@);
            if self.entries@.len() == 0 {
                assert(self@ =~= Map::<Seq<char>, V>::empty());
            } else {
                assert(self@.dom().len() != 0);
                assert(Map::<Seq<char>, V>::empty().dom().len() == 0);
            }
        }
        self.entries.len() == 0
    }

    /// The index holding `key`, if any.
    fn find(&self, key: &str) -> (r: Option<usize>)
        ensures
            match r {
                Some(i) => i < self.entries@.len() && self.entries@[i as int].0@ == key@,
                None => !self@.dom().contains(key@),
            },
    {
        proof {
            use_type_invariant(self);
            lemma_entry_list_map_domain(self.entries@);
        }
        let n = self.entries.len();
        for i in 0..n
            invariant
                n == self.entries@.len(),
                forall|j: int| 0 <= j < i ==> self.entries@[j].0@ != key@,
        {
            if str_eq(self.entries[i].0.as_str(), key) {
                return Some(i);
            }
        }
        proof {
            lemma_entry_list_map_domain(self.entries@);
        }
        None
    }

    pub fn contains_key(&self, key: &str) -> (r: bool)
        ensures
            r == self@.dom().contains(key@),
    {
        proof {
            use_type_invariant(self);
        }
        match self.find(key) {
            Some(i) => {
                proof {
                    use_type_invariant(self);
                    lemma_entry_list_map_index(self.entries@, i as int);
                }
                true
            },
            None => false,
        }
    }

    pub fn get<'a>(&'a self, key: &str) -> (r: Option<&'a V>)
        ensures
            match r {
                Some(v) => self@.dom().contains(key@) && *v == self@[key@],
                None => !self@.dom().contains(key@),
            },
    {
        proof {
            use_type_invariant(self);
        }
        match self.find(key) {
            Some(i) => {
                proof {
                    use_type_invariant(self);
                    lemma_entry_list_map_index(self.entries@, i as int);
                }
                Some(&self.entries[i].1)
            },
            None => None,
        }
    }

    /// Binds `key` to `v`, replacing any earlier binding.
    pub fn insert(&mut self, key: String, v: V)
        ensures
            final(self)@ == old(self)@.insert(key@, v),
    {
        proof {
            use_type_invariant(&*self);
        }
        let ghost old_entries = self.entries@;
        let found = self.find(key.as_str());
        let mut entries: Vec<(String, V)> = Vec::new();
        std::mem::swap(&mut entries, &mut self.entries);
        match found {
            Some(i) => {
                proof {
                    lemma_entry_list_map_remove(old_entries, i as int);
                    lemma_entry_list_map_index(old_entries, i as int);
                }
                let _ = entries.remove(i);
                entries.push((key, v));
                proof {
                    lemma_distinct_keys_remove(old_entries, i as int);
                    assert(entries@.drop_last() =~= old_entries.remove(i as int));
                    assert(distinct_keys(entries@)) by {
                        assert forall|a: int, b: int|
                            0 <= a < b < entries@.len()
                            implies entries@[a].0@ != entries@[b].0@ by {
                            if b == entries@.len() - 1 {
                                let aa = if a < i as int { a } else { a + 1 };
                                assert(entries@[a] == old_entries.remove(i as int)[a]);
                                assert(old_entries.remove(i as int)[a] == old_entries[aa]);
                                assert(old_entries[aa].0@ != old_entries[i as int].0@);
                            } else {
                                assert(entries@[a] == old_entries.remove(i as int)[a]);
                                assert(entries@[b] == old_entries.remove(i as int)[b]);
                            }
                        }
                    }
                }
            },
            None => {
                proof {
                    lemma_entry_list_map_domain(old_entries);
                }
                entries.push((key, v));
                proof {
                    assert(entries@.drop_last() =~= old_entries);
                    assert(distinct_keys(entries@)) by {
                        assert forall|a: int, b: int|
                            0 <= a < b < entries@.len()
                            implies entries@[a].0@ != entries@[b].0@ by {}
                    }
                }
            },
        }
        self.entries = entries;
        proof {
            assert(self@ =~= old(self)@.insert(key@, v));
        }
    }

    /// Moves the binding for `key` out of the map, if there is one.
    pub fn take(&mut self, key: &str) -> (r: Option<V>)
        ensures
            match r {
                Some(v) => old(self)@.dom().contains(key@) && v == old(self)@[key@]
                    && final(self)@ == old(self)@.remove(key@),
                None => !old(self)@.dom().contains(key@) && final(self)@ == old(self)@,
            },
    {
        proof {
            use_type_invariant(&*self);
        }
        let ghost old_entries = self.entries@;
        let found = self.find(key);
        match found {
            Some(i) => {
                proof {
                    lemma_entry_list_map_index(old_entries, i as int);
                    lemma_entry_list_map_remove(old_entries, i as int);
                    lemma_distinct_keys_remove(old_entries, i as int);
                }
                let mut entries: Vec<(String, V)> = Vec::new();
                std::mem::swap(&mut entries, &mut self.entries);
                let (_, v) = entries.remove(i);
                self.entries = entries;
                Some(v)
            },
            None => None,
        }
    }

    /// The entries themselves, for callers that walk the whole map.
    pub fn entries(&self) -> (r: &Vec<(String, V)>)
        ensures
            r@.len() == self@.dom().len(),
            distinct_keys(r@),
            forall|i: int| 0 <= i < r@.len()
                ==> self@.dom().contains(#[trigger] r@[i].0@) && self@[r@[i].0@] == r@[i].1,
    {
        proof {
            use_type_invariant(self);
            lemma_entry_list_map_len(self.entries@);
            assert forall|i: int| 0 <= i < self.entries@.len()
                implies self@.dom().contains(#[trigger] self.entries@[i].0@)
                    && self@[self.entries@[i].0@] == self.entries@[i].1 by {
                lemma_entry_list_map_index(self.entries@, i);
            }
        }
        &self.entries
    }
}

/// With distinct keys the map has exactly one binding per entry.
proof fn lemma_entry_list_map_len<V>(s: Seq<(String, V)>)
    requires
        distinct_keys(s),
    ensures
        entry_list_map(s).dom().len() == s.len(),
        entry_list_map(s).dom().finite(),
    decreases s.len(),
{
    if s.len() > 0 {
        lemma_entry_list_map_len(s.drop_last());
        lemma_entry_list_map_domain(s.drop_last());
        assert(!entry_list_map(s.drop_last()).dom().contains(s.last().0@));
        assert(entry_list_map(s).dom()
            =~= entry_list_map(s.drop_last()).dom().insert(s.last().0@));
    }
}

} // verus!
