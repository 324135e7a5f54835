//! The storage primitives every cache table is built from: an association
//! table whose abstract value is a `Map` from keys to the views of the stored
//! values, and a duplicate-free set of keys whose abstract value is a `Set`.
//! Per-key get/insert/remove and get-or-insert-default at the call sites are
//! the whole contract the cache needs from its store.

use crate::ids::CacheKey;
use vstd::prelude::*;

verus! {

/// The map described by a sequence of key/value pairs; a later pair wins
/// over an earlier pair with the same key.
pub open spec fn pair_map<K, V: View>(s: Seq<(K, V)>) -> Map<K, V::V>
    decreases s.len(),
{
    if s.len() == 0 {
        Map::empty()
    } else {
        pair_map(s.drop_last()).insert(s.last().0, s.last().1@)
    }
}

/// No key occurs twice in the sequence.
pub open spec fn distinct_keys<K, V>(s: Seq<(K, V)>) -> bool {
    forall|i: int, j: int| 0 <= i < j < s.len() ==> s[i].0 != s[j].0
}

proof fn lemma_pair_map_contains<K, V: View>(s: Seq<(K, V)>, k: K)
    ensures
        pair_map(s).contains_key(k) <==> exists|i: int| 0 <= i < s.len() && s[i].0 == k,
    decreases s.len(),
{
    if s.len() > 0 {
        lemma_pair_map_contains(s.drop_last(), k);
        if s.last().0 == k {
            assert(s[s.len() - 1].0 == k);
        } else {
            if exists|i: int| 0 <= i < s.len() && s[i].0 == k {
                let i = choose|i: int| 0 <= i < s.len() && s[i].0 == k;
                assert(s.drop_last()[i].0 == k);
            }
        }
    }
}

proof fn lemma_pair_map_index<K, V: View>(s: Seq<(K, V)>, i: int)
    requires
        distinct_keys(s),
        0 <= i < s.len(),
    ensures
        pair_map(s).contains_key(s[i].0),
        pair_map(s)[s[i].0] == s[i].1@,
    decreases s.len(),
{
    if i < s.len() - 1 {
        assert(s.drop_last()[i] == s[i]);
        lemma_pair_map_index(s.drop_last(), i);
    }
}

proof fn lemma_pair_map_len<K, V: View>(s: Seq<(K, V)>)
    requires
        distinct_keys(s),
    ensures
        pair_map(s).dom().finite(),
        pair_map(s).dom().len() == s.len(),
    decreases s.len(),
{
    if s.len() > 0 {
        lemma_pair_map_len(s.drop_last());
        lemma_pair_map_contains(s.drop_last(), s.last().0);
        assert(forall|i: int| 0 <= i < s.len() - 1 ==> s.drop_last()[i] == s[i]);
        assert(!pair_map(s.drop_last()).contains_key(s.last().0));
        assert(pair_map(s).dom() =~= pair_map(s.drop_last()).dom().insert(s.last().0));
    }
}

proof fn lemma_pair_map_push<K, V: View>(s: Seq<(K, V)>, k: K, v: V)
    ensures
        pair_map(s.push((k, v))) == pair_map(s).insert(k, v@),
{
    assert(s.push((k, v)).drop_last() =~= s);
    assert(s.push((k, v)).last() == (k, v));
}

proof fn lemma_pair_map_remove<K, V: View>(s: Seq<(K, V)>, i: int)
    requires
        distinct_keys(s),
        0 <= i < s.len(),
    ensures
        distinct_keys(s.remove(i)),
        forall|j: int| 0 <= j < s.len() - 1 ==> s.remove(i)[j].0 != s[i].0,
        pair_map(s.remove(i)) == pair_map(s).remove(s[i].0),
    decreases s.len(),
{
    let r = s.remove(i);
    assert(forall|j: int| 0 <= j < i ==> r[j] == s[j]);
    assert(forall|j: int| i <= j < s.len() - 1 ==> r[j] == s[j + 1]);
    if i == s.len() - 1 {
        assert(r =~= s.drop_last());
        lemma_pair_map_contains(s.drop_last(), s[i].0);
        assert(!pair_map(s.drop_last()).contains_key(s[i].0));
        assert(pair_map(s) == pair_map(s.drop_last()).insert(s.last().0, s.last().1@));
        assert(pair_map(s).remove(s[i].0) =~= pair_map(s.drop_last()));
    } else {
        lemma_pair_map_remove(s.drop_last(), i);
        assert(r.drop_last() =~= s.drop_last().remove(i));
        assert(r.last() == s.last());
        assert(pair_map(r) == pair_map(s.drop_last().remove(i)).insert(s.last().0, s.last().1@));
        assert(pair_map(s.drop_last().remove(i)) == pair_map(s.drop_last()).remove(s[i].0));
        assert(s.last().0 != s[i].0);
        assert(pair_map(s.drop_last()).remove(s[i].0).insert(s.last().0, s.last().1@) =~= pair_map(
            s.drop_last(),
        ).insert(s.last().0, s.last().1@).remove(s[i].0));
    }
}

/// An association table from keys to values, looked up by key. Its abstract
/// value is the finite map from each stored key to the view of its value.
pub struct Table<K, V> {
    pairs: Vec<(K, V)>,
}

impl<K, V: View> View for Table<K, V> {
    type V = Map<K, V::V>;

    closed spec fn view(&self) -> Map<K, V::V> {
        pair_map(self.pairs@)
    }
}

impl<K, V> Table<K, V> {
    #[verifier::type_invariant]
    spec fn wf(self) -> bool {
        distinct_keys(self.pairs@)
    }
}

impl<K: CacheKey, V: View> Table<K, V> {
    /// An empty table.
    pub fn new() -> (t: Self)
        ensures
            t@ == Map::<K, V::V>::empty(),
    {
        Table { pairs: Vec::new() }
    }

    fn find_index(pairs: &Vec<(K, V)>, k: &K) -> (r: Option<usize>)
        ensures
            match r {
                Some(i) => i < pairs@.len() && pairs@[i as int].0 == *k,
                None => forall|i: int| 0 <= i < pairs@.len() ==> pairs@[i].0 != *k,
            },
    {
        let mut i: usize = 0;
        while i < pairs.len()
            invariant
                i <= pairs@.len(),
                forall|j: int| 0 <= j < i ==> pairs@[j].0 != *k,
            decreases pairs@.len() - i,
        {
            if pairs[i].0.key_eq(k) {
                return Some(i);
            }
            i += 1;
        }
        None
    }

    /// Whether a value is stored under the key.
    pub fn contains_key(&self, k: &K) -> (r: bool)
        ensures
            r == self@.contains_key(*k),
    {
        proof {
            use_type_invariant(self);
            lemma_pair_map_contains(self.pairs@, *k);
        }
        Self::find_index(&self.pairs, k).is_some()
    }

    /// The value stored under the key, if any.
    pub fn get(&self, k: &K) -> (r: Option<&V>)
        ensures
            match r {
                Some(v) => self@.contains_key(*k) && v@ == self@[*k],
                None => !self@.contains_key(*k),
            },
    {
        proof {
            use_type_invariant(self);
            lemma_pair_map_contains(self.pairs@, *k);
        }
        match Self::find_index(&self.pairs, k) {
            Some(i) => {
                proof {
                    lemma_pair_map_index(self.pairs@, i as int);
                }
                Some(&self.pairs[i].1)
            },
            None => None,
        }
    }

    /// Store a value under the key, replacing any previous value.
    pub fn insert(&mut self, k: K, v: V)
        ensures
            final(self)@ == old(self)@.insert(k, v@),
    {
        proof {
            use_type_invariant(&*self);
        }
        let mut pairs: Vec<(K, V)> = Vec::new();
        std::mem::swap(&mut pairs, &mut self.pairs);
        let ghost s0 = pairs@;
        match Self::find_index(&pairs, &k) {
            Some(i) => {
                proof {
                    lemma_pair_map_remove(s0, i as int);
                }
                let _replaced = pairs.remove(i);
                proof {
                    lemma_pair_map_push(pairs@, k, v);
                    assert(pair_map(s0.remove(i as int)).insert(k, v@) =~= pair_map(s0).insert(
                        k,
                        v@,
                    ));
                }
                pairs.push((k, v));
            },
            None => {
                proof {
                    lemma_pair_map_push(pairs@, k, v);
                }
                pairs.push((k, v));
            },
        }
        self.pairs = pairs;
    }

    /// Remove and return the value stored under the key, if any.
    pub fn remove(&mut self, k: &K) -> (r: Option<V>)
        ensures
            final(self)@ == old(self)@.remove(*k),
            match r {
                Some(v) => old(self)@.contains_key(*k) && v@ == old(self)@[*k],
                None => !old(self)@.contains_key(*k) && final(self)@ == old(self)@,
            },
    {
        proof {
            use_type_invariant(&*self);
            lemma_pair_map_contains(self.pairs@, *k);
        }
        let mut pairs: Vec<(K, V)> = Vec::new();
        std::mem::swap(&mut pairs, &mut self.pairs);
        let ghost s0 = pairs@;
        let r = match Self::find_index(&pairs, k) {
            Some(i) => {
                proof {
                    lemma_pair_map_index(s0, i as int);
                    lemma_pair_map_remove(s0, i as int);
                }
                let pair = pairs.remove(i);
                Some(pair.1)
            },
            None => {
                proof {
                    assert(pair_map(s0).remove(*k) =~= pair_map(s0));
                }
                None
            },
        };
        self.pairs = pairs;
        r
    }

    /// The number of stored entries.
    pub fn len(&self) -> (n: usize)
        ensures
            n == self@.dom().len(),
            self@.dom().finite(),
    {
        proof {
            use_type_invariant(self);
            lemma_pair_map_len(self.pairs@);
        }
        self.pairs.len()
    }

    /// Whether the table stores no entry at all.
    pub fn is_empty(&self) -> (r: bool)
        ensures
            r == (self@ =~= Map::<K, V::V>::empty()),
    {
        proof {
            use_type_invariant(self);
            lemma_pair_map_len(self.pairs@);
            if self.pairs@.len() == 0 {
                assert(self@ =~= Map::<K, V::V>::empty());
            } else {
                lemma_pair_map_index(self.pairs@, 0);
            }
        }
        self.pairs.is_empty()
    }

    /// Drop every entry.
    pub fn clear(&mut self)
        ensures
            final(self)@ == Map::<K, V::V>::empty(),
    {
        self.pairs = Vec::new();
    }
}

/// A set of keys with no duplicates; the membership index of the cache. Its
/// abstract value is the finite set of stored keys.
pub struct IdSet<K> {
    elems: Vec<K>,
}

impl<K> View for IdSet<K> {
    type V = Set<K>;

    closed spec fn view(&self) -> Set<K> {
        self.elems@.to_set()
    }
}

impl<K> IdSet<K> {
    #[verifier::type_invariant]
    spec fn wf(self) -> bool {
        self.elems@.no_duplicates()
    }
}

proof fn lemma_seq_remove_to_set<K>(s: Seq<K>, i: int)
    requires
        s.no_duplicates(),
        0 <= i < s.len(),
    ensures
        s.remove(i).no_duplicates(),
        s.remove(i).to_set() =~= s.to_set().remove(s[i]),
{
    let r = s.remove(i);
    assert(forall|j: int| 0 <= j < i ==> r[j] == s[j]);
    assert(forall|j: int| i <= j < s.len() - 1 ==> r[j] == s[j + 1]);
    assert forall|x: K| r.to_set().contains(x) implies s.to_set().remove(s[i]).contains(x) by {
        let j = choose|j: int| 0 <= j < r.len() && r[j] == x;
        if j < i {
            assert(s[j] == x);
        } else {
            assert(s[j + 1] == x);
        }
    }
    assert forall|x: K| s.to_set().remove(s[i]).contains(x) implies r.to_set().contains(x) by {
        let j = choose|j: int| 0 <= j < s.len() && s[j] == x;
        if j < i {
            assert(r[j] == x);
        } else {
            assert(j != i);
            assert(r[j - 1] == x);
        }
    }
}

impl<K: CacheKey> IdSet<K> {
    /// An empty set.
    pub fn new() -> (s: Self)
        ensures
            s@ == Set::<K>::empty(),
    {
        proof {
            assert(Seq::<K>::empty().to_set() =~= Set::<K>::empty());
        }
        IdSet { elems: Vec::new() }
    }

    fn find_index(elems: &Vec<K>, k: &K) -> (r: Option<usize>)
        ensures
            match r {
                Some(i) => i < elems@.len() && elems@[i as int] == *k,
                None => forall|i: int| 0 <= i < elems@.len() ==> elems@[i] != *k,
            },
    {
        let mut i: usize = 0;
        while i < elems.len()
            invariant
                i <= elems@.len(),
                forall|j: int| 0 <= j < i ==> elems@[j] != *k,
            decreases elems@.len() - i,
        {
            if elems[i].key_eq(k) {
                return Some(i);
            }
            i += 1;
        }
        None
    }

    /// Whether the key is in the set.
    pub fn contains(&self, k: &K) -> (r: bool)
        ensures
            r == self@.contains(*k),
    {
        Self::find_index(&self.elems, k).is_some()
    }

    /// Add the key to the set.
    pub fn insert(&mut self, k: K)
        ensures
            final(self)@ == old(self)@.insert(k),
    {
        proof {
            use_type_invariant(&*self);
        }
        let mut elems: Vec<K> = Vec::new();
        std::mem::swap(&mut elems, &mut self.elems);
        let ghost s0 = elems@;
        match Self::find_index(&elems, &k) {
            Some(_) => {
                proof {
                    assert(s0.to_set().insert(k) =~= s0.to_set());
                }
            },
            None => {
                proof {
                    s0.lemma_push_to_set_commute(k);
                }
                elems.push(k);
            },
        }
        self.elems = elems;
    }

    /// Take the key out of the set.
    pub fn remove(&mut self, k: &K)
        ensures
            final(self)@ == old(self)@.remove(*k),
    {
        proof {
            use_type_invariant(&*self);
        }
        let mut elems: Vec<K> = Vec::new();
        std::mem::swap(&mut elems, &mut self.elems);
        let ghost s0 = elems@;
        match Self::find_index(&elems, k) {
            Some(i) => {
                proof {
                    lemma_seq_remove_to_set(s0, i as int);
                }
                let _removed = elems.remove(i);
            },
            None => {
                proof {
                    assert(s0.to_set().remove(*k) =~= s0.to_set());
                }
            },
        }
        self.elems = elems;
    }

    /// The number of keys in the set.
    pub fn len(&self) -> (n: usize)
        ensures
            n == self@.len(),
            self@.finite(),
    {
        proof {
            use_type_invariant(self);
            self.elems@.unique_seq_to_set();
            broadcast use vstd::seq_lib::seq_to_set_is_finite;

        }
        self.elems.len()
    }

    /// Whether the set has no keys at all.
    pub fn is_empty(&self) -> (r: bool)
        ensures
            r == (self@ =~= Set::<K>::empty()),
    {
        proof {
            use_type_invariant(self);
            if self.elems@.len() == 0 {
                assert(self@ =~= Set::<K>::empty());
            } else {
                assert(self@.contains(self.elems@[0]));
            }
        }
        self.elems.is_empty()
    }

    /// Drop every key.
    pub fn clear(&mut self)
        ensures
            final(self)@ == Set::<K>::empty(),
    {
        self.elems = Vec::new();
        proof {
            assert(Seq::<K>::empty().to_set() =~= Set::<K>::empty());
        }
    }

    /// The keys of the set, as a vector without duplicates.
    pub fn to_vec(&self) -> (r: Vec<K>)
        ensures
            r@.no_duplicates(),
            r@.to_set() == self@,
            r@.len() == self@.len(),
    {
        proof {
            use_type_invariant(self);
            self.elems@.unique_seq_to_set();
        }
        let mut out: Vec<K> = Vec::new();
        let mut i: usize = 0;
        while i < self.elems.len()
            invariant
                i <= self.elems@.len(),
                out@ == self.elems@.subrange(0, i as int),
            decreases self.elems@.len() - i,
        {
            out.push(self.elems[i]);
            proof {
                assert(out@ =~= self.elems@.subrange(0, i + 1));
            }
            i += 1;
        }
        proof {
            assert(out@ =~= self.elems@);
        }
        out
    }
}

} // verus!
