//! Helpers for the multi-category join: collecting the union of the entity
//! keys seen across category tables, and reading a category's record for a
//! key with the category default substituted where the entity is absent.

use vstd::prelude::*;

use crate::decode::RowDecode;
use crate::table::StatTable;
use crate::text::str_eq;

verus! {

/// The key set a vector of keys denotes.
pub open spec fn key_set(ks: Seq<String>) -> Set<Seq<char>> {
    Set::new(|k: Seq<char>| exists|i: int| 0 <= i < ks.len() && (#[trigger] ks[i])@ == k)
}

/// No key occurs twice.
pub open spec fn distinct_keys(ks: Seq<String>) -> bool {
    forall|i: int, j: int| 0 <= i < j < ks.len() ==> (#[trigger] ks[i])@ != (#[trigger] ks[j])@
}

/// The record the join places in a category slot: the category's record for
/// the key, or the category's zero default when the entity is absent from
/// that category's table.
pub open spec fn slot_or_zero<T: RowDecode>(m: Map<Seq<char>, T>, k: Seq<char>) -> T {
    if m.contains_key(k) {
        m[k]
    } else {
        T::spec_zero()
    }
}

/// Reads a category's record for a key, substituting the category default
/// when the entity is absent.
pub fn get_or_zero<T: RowDecode + Copy>(t: &StatTable<T>, k: &str) -> (r: T)
    requires
        t.wf(),
    ensures
        r == slot_or_zero(t@, k@),
{
    match t.get(k) {
        Some(v) => *v,
        None => T::zero(),
    }
}

fn vec_has_key(keys: &Vec<String>, k: &str) -> (r: bool)
    ensures
        r == key_set(keys@).contains(k@),
{
    let n = keys.len();
    let mut i: usize = 0;
    while i < n
        invariant
            n == keys@.len(),
            0 <= i <= n,
            forall|j: int| 0 <= j < i ==> (#[trigger] keys@[j])@ != k@,
        decreases n - i,
    {
        if str_eq(keys[i].as_str(), k) {
            proof {
                assert(keys@[i as int]@ == k@);
            }
            return true;
        }
        i += 1;
    }
    proof {
        if key_set(keys@).contains(k@) {
            let j = choose|j: int| 0 <= j < keys@.len() && (#[trigger] keys@[j])@ == k@;
            assert(false);
        }
    }
    false
}

/// Adds every key of the table that the list does not hold yet, keeping the
/// list free of duplicates: afterwards the list denotes the union of what it
/// denoted and the table's key set.
pub fn add_keys<T>(keys: &mut Vec<String>, t: &StatTable<T>)
    requires
        distinct_keys(old(keys)@),
        t.wf(),
    ensures
        distinct_keys(final(keys)@),
        key_set(final(keys)@) == key_set(old(keys)@) + t@.dom(),
{
    let tks = t.keys();
    let n = tks.len();
    let mut i: usize = 0;
    while i < n
        invariant
            n == tks@.len(),
            0 <= i <= n,
            distinct_keys(keys@),
            forall|j: int| 0 <= j < tks@.len() ==> t@.contains_key((#[trigger] tks@[j])@),
            forall|k: Seq<char>| t@.contains_key(k) ==> exists|j: int|
                0 <= j < tks@.len() && (#[trigger] tks@[j])@ == k,
            key_set(keys@) =~= key_set(old(keys)@) + key_set(tks@.take(i as int)),
        decreases n - i,
    {
        let ghost ks_prev = keys@;
        if !vec_has_key(keys, tks[i].as_str()) {
            let kk = tks[i].clone();
            keys.push(kk);
            proof {
                assert(forall|j: int| 0 <= j < ks_prev.len() ==> keys@[j] == ks_prev[j]);
                assert(keys@[ks_prev.len() as int]@ == tks@[i as int]@);
                assert(distinct_keys(keys@)) by {
                    assert(!key_set(ks_prev).contains(tks@[i as int]@));
                    assert forall|a: int, b: int| 0 <= a < b < keys@.len() implies (
                    #[trigger] keys@[a])@ != (#[trigger] keys@[b])@ by {
                        if b == keys@.len() - 1 {
                            assert(keys@[a] == ks_prev[a]);
                            if keys@[a]@ == tks@[i as int]@ {
                                assert(key_set(ks_prev).contains(keys@[a]@));
                                assert(false);
                            }
                        }
                    }
                }
            }
        }
        proof {
            assert(tks@.take(i as int + 1).drop_last() =~= tks@.take(i as int));
            assert(tks@.take(i as int + 1).last() == tks@[i as int]);
            assert(key_set(keys@) =~= key_set(old(keys)@) + key_set(tks@.take(i as int + 1)))
                by {
                assert forall|k: Seq<char>| key_set(tks@.take(i as int + 1)).contains(k)
                    implies (key_set(tks@.take(i as int)).contains(k) || tks@[i as int]@
                    == k) by {
                    let j = choose|j: int|
                        0 <= j < tks@.take(i as int + 1).len() && (#[trigger] tks@.take(
                            i as int + 1,
                        )[j])@ == k;
                    if j < i {
                        assert(tks@.take(i as int)[j]@ == k);
                    }
                }
                assert forall|k: Seq<char>| key_set(keys@).contains(k) implies (key_set(
                    old(keys)@,
                ) + key_set(tks@.take(i as int + 1))).contains(k) by {
                    let j = choose|j: int|
                        0 <= j < keys@.len() && (#[trigger] keys@[j])@ == k;
                    if j < ks_prev.len() {
                        assert(ks_prev[j]@ == k);
                        assert(key_set(ks_prev).contains(k));
                    } else {
                        assert(keys@[j]@ == tks@[i as int]@);
                        assert(tks@.take(i as int + 1)[i as int]@ == k);
                    }
                }
                assert forall|k: Seq<char>| (key_set(old(keys)@) + key_set(
                    tks@.take(i as int + 1),
                )).contains(k) implies key_set(keys@).contains(k) by {
                    if key_set(old(keys)@).contains(k) || key_set(tks@.take(i as int)).contains(
                        k,
                    ) {
                        assert(key_set(ks_prev).contains(k));
                        let j = choose|j: int|
                            0 <= j < ks_prev.len() && (#[trigger] ks_prev[j])@ == k;
                        assert(keys@[j]@ == k);
                    } else {
                        let j = choose|j: int|
                            0 <= j < tks@.take(i as int + 1).len() && (#[trigger] tks@.take(
                                i as int + 1,
                            )[j])@ == k;
                        assert(j == i);
                        assert(key_set(keys@).contains(tks@[i as int]@)) by {
                            if vec_has_key_ghost(ks_prev, tks@[i as int]@) {
                                let j2 = choose|j2: int|
                                    0 <= j2 < ks_prev.len() && (#[trigger] ks_prev[j2])@
                                        == tks@[i as int]@;
                                assert(keys@[j2]@ == tks@[i as int]@);
                            } else {
                                assert(keys@[keys@.len() - 1]@ == tks@[i as int]@);
                            }
                        }
                    }
                }
            }
        }
        i += 1;
    }
    proof {
        assert(tks@.take(n as int) =~= tks@);
        assert(key_set(tks@) =~= t@.dom()) by {
            assert forall|k: Seq<char>| key_set(tks@).contains(k) implies t@.dom().contains(
                k,
            ) by {
                let j = choose|j: int| 0 <= j < tks@.len() && (#[trigger] tks@[j])@ == k;
            }
        }
        assert(key_set(keys@) == key_set(old(keys)@) + t@.dom());
    }
}

// a ghost mirror of the membership test, for the proof above
spec fn vec_has_key_ghost(ks: Seq<String>, k: Seq<char>) -> bool {
    key_set(ks).contains(k)
}

/// An empty key list denotes the empty key set.
pub proof fn lemma_key_set_take_zero(ks: Seq<String>)
    ensures
        key_set(ks.take(0)) == Set::<Seq<char>>::empty(),
{
    assert(key_set(ks.take(0)) =~= Set::<Seq<char>>::empty()) by {
        assert forall|k: Seq<char>| !key_set(ks.take(0)).contains(k) by {
            if key_set(ks.take(0)).contains(k) {
                let j = choose|j: int|
                    0 <= j < ks.take(0).len() && (#[trigger] ks.take(0)[j])@ == k;
                assert(false);
            }
        }
    }
}

/// Taking one more key extends the denoted key set by exactly that key.
pub proof fn lemma_key_set_take_step(ks: Seq<String>, i: int)
    requires
        0 <= i < ks.len(),
    ensures
        key_set(ks.take(i + 1)) == key_set(ks.take(i)).insert(ks[i]@),
{
    assert(key_set(ks.take(i + 1)) =~= key_set(ks.take(i)).insert(ks[i]@)) by {
        assert forall|k: Seq<char>| key_set(ks.take(i + 1)).contains(k) implies key_set(
            ks.take(i),
        ).insert(ks[i]@).contains(k) by {
            let j = choose|j: int|
                0 <= j < ks.take(i + 1).len() && (#[trigger] ks.take(i + 1)[j])@ == k;
            if j < i {
                assert(ks.take(i)[j]@ == k);
            }
        }
        assert forall|k: Seq<char>| key_set(ks.take(i)).insert(ks[i]@).contains(k) implies
            key_set(ks.take(i + 1)).contains(k) by {
            if key_set(ks.take(i)).contains(k) {
                let j = choose|j: int|
                    0 <= j < ks.take(i).len() && (#[trigger] ks.take(i)[j])@ == k;
                assert(ks.take(i + 1)[j]@ == k);
            } else {
                assert(ks.take(i + 1)[i]@ == k);
            }
        }
    }
}

} // verus!
