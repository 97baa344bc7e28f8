//! The per-category table: an insertion-ordered mapping from entity keys to
//! records with last-write-wins inserts, viewed as a `Map<Seq<char>, T>`.

use vstd::prelude::*;

use crate::text::str_eq;

verus! {

/// Unique keys: no two entries share a key.
spec fn unique_keys<T>(s: Seq<(String, T)>) -> bool {
    forall|i: int, j: int| 0 <= i < j < s.len() ==> (#[trigger] s[i]).0@ != (#[trigger] s[j]).0@
}

/// The mapping an entry sequence denotes, later entries overwriting earlier
/// ones.
spec fn assoc_map<T>(s: Seq<(String, T)>) -> Map<Seq<char>, T>
    decreases s.len(),
{
    if s.len() == 0 {
        Map::empty()
    } else {
        assoc_map(s.drop_last()).insert(s.last().0@, s.last().1)
    }
}

proof fn lemma_assoc_contains<T>(s: Seq<(String, T)>, k: Seq<char>)
    ensures
        assoc_map(s).contains_key(k) <==> exists|i: int|
            0 <= i < s.len() && (#[trigger] s[i]).0@ == k,
    decreases s.len(),
{
    if s.len() > 0 {
        lemma_assoc_contains(s.drop_last(), k);
        if s.last().0@ == k {
            assert(s[s.len() - 1].0@ == k);
        } else {
            if assoc_map(s).contains_key(k) {
                let i = choose|i: int| 0 <= i < s.len() - 1 && (#[trigger] s.drop_last()[i]).0@
                    == k;
                assert(s[i].0@ == k);
            }
            if exists|i: int| 0 <= i < s.len() && (#[trigger] s[i]).0@ == k {
                let i = choose|i: int| 0 <= i < s.len() && (#[trigger] s[i]).0@ == k;
                assert(i < s.len() - 1);
                assert(s.drop_last()[i].0@ == k);
            }
        }
    }
}

proof fn lemma_assoc_get<T>(s: Seq<(String, T)>, i: int)
    requires
        unique_keys(s),
        0 <= i < s.len(),
    ensures
        assoc_map(s).contains_key(s[i].0@),
        assoc_map(s)[s[i].0@] == s[i].1,
    decreases s.len(),
{
    if i == s.len() - 1 {
    } else {
        assert(unique_keys(s.drop_last())) by {
            assert(forall|x: int| 0 <= x < s.len() - 1 ==> s.drop_last()[x] == s[x]);
        }
        lemma_assoc_get(s.drop_last(), i);
        assert(s[i].0@ != s.last().0@);
    }
}

proof fn lemma_assoc_dom_len<T>(s: Seq<(String, T)>)
    requires
        unique_keys(s),
    ensures
        assoc_map(s).dom().finite(),
        assoc_map(s).dom().len() == s.len(),
    decreases s.len(),
{
    broadcast use vstd::set::group_set_axioms;

    if s.len() > 0 {
        assert(unique_keys(s.drop_last())) by {
            assert(forall|x: int| 0 <= x < s.len() - 1 ==> s.drop_last()[x] == s[x]);
        }
        lemma_assoc_dom_len(s.drop_last());
        lemma_assoc_contains(s.drop_last(), s.last().0@);
        assert(!assoc_map(s.drop_last()).contains_key(s.last().0@)) by {
            if exists|i: int| 0 <= i < s.len() - 1 && (#[trigger] s.drop_last()[i]).0@ == s.last().0@ {
                let i = choose|i: int|
                    0 <= i < s.len() - 1 && (#[trigger] s.drop_last()[i]).0@ == s.last().0@;
                assert(s[i].0@ == s[s.len() - 1].0@);
                assert(false);
            }
        }
        assert(assoc_map(s).dom() =~= assoc_map(s.drop_last()).dom().insert(s.last().0@));
    } else {
        assert(assoc_map(s).dom() =~= Set::<Seq<char>>::empty());
    }
}

/// A table of one category's records, keyed by entity key. Inserts overwrite
/// any earlier record under the same key.
pub struct StatTable<T> {
    pairs: Vec<(String, T)>,
}

impl<T> View for StatTable<T> {
    type V = Map<Seq<char>, T>;

    closed spec fn view(&self) -> Map<Seq<char>, T> {
        assoc_map(self.pairs@)
    }
}

impl<T> StatTable<T> {
    /// Well-formed: no key occurs twice.
    pub closed spec fn wf(self) -> bool {
        unique_keys(self.pairs@)
    }

    pub fn new() -> (r: Self)
        ensures
            r.wf(),
            r@ == Map::<Seq<char>, T>::empty(),
    {
        let r = StatTable { pairs: Vec::new() };
        proof {
            assert(r@ =~= Map::<Seq<char>, T>::empty());
        }
        r
    }

    fn find_idx(&self, key: &str) -> (r: Option<usize>)
        ensures
            match r {
                Some(i) => i < self.pairs@.len() && self.pairs@[i as int].0@ == key@,
                None => forall|i: int|
                    0 <= i < self.pairs@.len() ==> (#[trigger] self.pairs@[i]).0@ != key@,
            },
    {
        let n = self.pairs.len();
        let mut i: usize = 0;
        while i < n
            invariant
                n == self.pairs@.len(),
                0 <= i <= n,
                forall|j: int| 0 <= j < i ==> (#[trigger] self.pairs@[j]).0@ != key@,
            decreases n - i,
        {
            if str_eq(self.pairs[i].0.as_str(), key) {
                return Some(i);
            }
            i += 1;
        }
        None
    }

    /// Looks the key up; `Some` exactly when a record is present.
    pub fn get(&self, key: &str) -> (r: Option<&T>)
        requires
            self.wf(),
        ensures
            match r {
                Some(v) => self@.contains_key(key@) && *v == self@[key@],
                None => !self@.contains_key(key@),
            },
    {
        match self.find_idx(key) {
            Some(i) => {
                proof {
                    lemma_assoc_get(self.pairs@, i as int);
                }
                Some(&self.pairs[i].1)
            },
            None => {
                proof {
                    lemma_assoc_contains(self.pairs@, key@);
                }
                None
            },
        }
    }

    /// Inserts, overwriting any record already under the key.
    pub fn insert(&mut self, key: String, value: T)
        requires
            old(self).wf(),
        ensures
            final(self).wf(),
            final(self)@ == old(self)@.insert(key@, value),
    {
        let ghost s0 = self.pairs@;
        match self.find_idx(key.as_str()) {
            Some(i) => {
                self.pairs.set(i, (key, value));
                proof {
                    lemma_assoc_update(s0, i as int, self.pairs@[i as int]);
                    assert(unique_keys(self.pairs@)) by {
                        assert(forall|x: int|
                            0 <= x < s0.len() && x != i ==> self.pairs@[x] == s0[x]);
                    }
                }
            },
            None => {
                self.pairs.push((key, value));
                proof {
                    assert(self.pairs@.drop_last() =~= s0);
                    assert(unique_keys(self.pairs@)) by {
                        assert(forall|x: int| 0 <= x < s0.len() ==> self.pairs@[x] == s0[x]);
                    }
                }
            },
        }
    }

    /// The number of distinct keys.
    pub fn len(&self) -> (r: usize)
        requires
            self.wf(),
        ensures
            self@.dom().finite(),
            r == self@.dom().len(),
    {
        proof {
            lemma_assoc_dom_len(self.pairs@);
        }
        self.pairs.len()
    }

    /// The keys, each exactly once, in insertion order.
    pub fn keys(&self) -> (r: Vec<String>)
        requires
            self.wf(),
        ensures
            forall|i: int| 0 <= i < r@.len() ==> self@.contains_key((#[trigger] r@[i])@),
            forall|k: Seq<char>| self@.contains_key(k) ==> exists|i: int|
                0 <= i < r@.len() && (#[trigger] r@[i])@ == k,
            forall|i: int, j: int| 0 <= i < j < r@.len() ==> (#[trigger] r@[i])@ != (
            #[trigger] r@[j])@,
    {
        let n = self.pairs.len();
        let mut r: Vec<String> = Vec::new();
        let mut i: usize = 0;
        while i < n
            invariant
                self.wf(),
                n == self.pairs@.len(),
                0 <= i <= n,
                r@.len() == i,
                forall|j: int| 0 <= j < i ==> (#[trigger] r@[j])@ == self.pairs@[j].0@,
            decreases n - i,
        {
            r.push(self.pairs[i].0.clone());
            i += 1;
        }
        proof {
            assert forall|i2: int| 0 <= i2 < r@.len() implies self@.contains_key(
                (#[trigger] r@[i2])@,
            ) by {
                lemma_assoc_get(self.pairs@, i2);
            }
            assert forall|k: Seq<char>| self@.contains_key(k) implies exists|i2: int|
                0 <= i2 < r@.len() && (#[trigger] r@[i2])@ == k by {
                lemma_assoc_contains(self.pairs@, k);
                let i2 = choose|i2: int|
                    0 <= i2 < self.pairs@.len() && (#[trigger] self.pairs@[i2]).0@ == k;
                assert(r@[i2]@ == k);
            }
        }
        r
    }
}

proof fn lemma_assoc_update<T>(s: Seq<(String, T)>, i: int, p: (String, T))
    requires
        unique_keys(s),
        0 <= i < s.len(),
        p.0@ == s[i].0@,
    ensures
        assoc_map(s.update(i, p)) == assoc_map(s).insert(p.0@, p.1),
    decreases s.len(),
{
    if i == s.len() - 1 {
        assert(s.update(i, p).drop_last() =~= s.drop_last());
        assert(s.update(i, p).last() == p);
        assert(assoc_map(s.update(i, p)) =~= assoc_map(s).insert(p.0@, p.1));
    } else {
        assert(unique_keys(s.drop_last())) by {
            assert(forall|x: int| 0 <= x < s.len() - 1 ==> s.drop_last()[x] == s[x]);
        }
        assert(s.drop_last()[i] == s[i]);
        lemma_assoc_update(s.drop_last(), i, p);
        assert(s.update(i, p).drop_last() =~= s.drop_last().update(i, p));
        assert(s.update(i, p).last() == s.last());
        // the two inserts commute because the keys differ
        assert(s.last().0@ != p.0@);
        assert(assoc_map(s.update(i, p)) =~= assoc_map(s).insert(p.0@, p.1)) by {
            assert(assoc_map(s.update(i, p)) == assoc_map(s.drop_last()).insert(
                p.0@,
                p.1,
            ).insert(s.last().0@, s.last().1));
            assert(assoc_map(s).insert(p.0@, p.1) == assoc_map(s.drop_last()).insert(
                s.last().0@,
                s.last().1,
            ).insert(p.0@, p.1));
        }
    }
}

} // verus!
