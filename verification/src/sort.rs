//! A stable insertion sort over a total preorder, used for every
//! deterministic ordering of the application projection.

use vstd::prelude::*;

verus! {

broadcast use vstd::seq_lib::group_to_multiset_ensures;

/// A total preorder on a type: the projection's sort keys.
pub trait SortKey: Sized {
    spec fn key_le(&self, other: &Self) -> bool;

    fn le(&self, other: &Self) -> (r: bool)
        ensures
            r == self.key_le(other),
    ;

    proof fn lemma_key_le_total(a: &Self, b: &Self)
        ensures
            a.key_le(b) || b.key_le(a),
    ;

    proof fn lemma_key_le_transitive(a: &Self, b: &Self, c: &Self)
        requires
            a.key_le(b),
            b.key_le(c),
        ensures
            a.key_le(c),
    ;
}

/// Every earlier element is ordered before every later one.
pub open spec fn sorted_by_key<T: SortKey>(s: Seq<T>) -> bool {
    forall|i: int, j: int| #![trigger s[i], s[j]] 0 <= i < j < s.len() ==> s[i].key_le(&s[j])
}

/// `perm` maps each position of `r` to the position of `v` holding the same
/// element, one to one and onto.
pub open spec fn permutes<T>(r: Seq<T>, v: Seq<T>, perm: Seq<int>) -> bool {
    &&& perm.len() == r.len()
    &&& r.len() == v.len()
    &&& forall|k: int| 0 <= k < perm.len() ==> 0 <= #[trigger] perm[k] < v.len() && r[k] == v[perm[k]]
    &&& forall|i: int, j: int| #![trigger perm[i], perm[j]] 0 <= i < j < perm.len() ==> perm[i] != perm[j]
    &&& forall|m: int| 0 <= m < v.len() ==> #[trigger] position_covered(perm, m)
}

/// Some position of `perm` maps to `m`.
pub open spec fn position_covered(perm: Seq<int>, m: int) -> bool {
    exists|k: int| 0 <= k < perm.len() && #[trigger] perm[k] == m
}

/// `r` holds the elements of `v` in another order.
pub open spec fn is_permutation<T>(r: Seq<T>, v: Seq<T>) -> bool {
    exists|perm: Seq<int>| permutes(r, v, perm)
}

/// A permutation has the length of the sequence it permutes, and each of its
/// elements is an element of that sequence.
pub proof fn lemma_permutation_elements<T>(r: Seq<T>, v: Seq<T>)
    requires
        is_permutation(r, v),
    ensures
        r.len() == v.len(),
        forall|k: int| 0 <= k < r.len() ==> v.contains(#[trigger] r[k]),
{
    let perm = choose|perm: Seq<int>| permutes(r, v, perm);
    assert forall|k: int| 0 <= k < r.len() implies v.contains(#[trigger] r[k]) by {
        assert(0 <= perm[k] < v.len());
        assert(v[perm[k]] == r[k]);
    }
}

/// Every element of the permuted sequence is an element of the permutation.
pub proof fn lemma_permutation_covers<T>(r: Seq<T>, v: Seq<T>)
    requires
        is_permutation(r, v),
    ensures
        forall|i: int| 0 <= i < v.len() ==> r.contains(#[trigger] v[i]),
{
    let perm = choose|perm: Seq<int>| permutes(r, v, perm);
    assert forall|i: int| 0 <= i < v.len() implies r.contains(#[trigger] v[i]) by {
        assert(position_covered(perm, i));
        let k = choose|k: int| 0 <= k < perm.len() && #[trigger] perm[k] == i;
        assert(r[k] == v[i]);
    }
}

/// `x` placed into `s` after the leading elements ordered before it.
pub open spec fn insert_sorted<T: SortKey>(x: T, s: Seq<T>) -> Seq<T>
    decreases s.len(),
{
    if s.len() == 0 {
        seq![x]
    } else if s[0].key_le(&x) {
        seq![s[0]] + insert_sorted(x, s.drop_first())
    } else {
        seq![x] + s
    }
}

/// The insertion sort of `s`: each element in turn placed after every
/// element before it whose key is not greater.
pub open spec fn insertion_sorted<T: SortKey>(s: Seq<T>) -> Seq<T>
    decreases s.len(),
{
    if s.len() == 0 {
        Seq::empty()
    } else {
        insert_sorted(s.last(), insertion_sorted(s.drop_last()))
    }
}

proof fn lemma_insert_sorted_at<T: SortKey>(x: T, s: Seq<T>, p: int)
    requires
        0 <= p <= s.len(),
        forall|i: int| 0 <= i < p ==> (#[trigger] s[i]).key_le(&x),
        p < s.len() ==> !s[p].key_le(&x),
    ensures
        insert_sorted(x, s) == s.insert(p, x),
    decreases s.len(),
{
    if s.len() == 0 {
        assert(s.insert(p, x) =~= seq![x]);
    } else if p == 0 {
        assert(s.insert(p, x) =~= seq![x] + s);
    } else {
        let t = s.drop_first();
        assert forall|i: int| 0 <= i < p - 1 implies (#[trigger] t[i]).key_le(&x) by {
            assert(t[i] == s[i + 1]);
        }
        if p - 1 < t.len() {
            assert(t[p - 1] == s[p]);
        }
        assert(s[0].key_le(&x));
        lemma_insert_sorted_at(x, t, p - 1);
        assert(seq![s[0]] + t.insert(p - 1, x) =~= s.insert(p, x));
    }
}

/// The elements of `v` in key order; elements with equal keys keep their order.
pub fn sort_by_key<T: SortKey>(v: Vec<T>) -> (r: Vec<T>)
    ensures
        r@.to_multiset() == v@.to_multiset(),
        sorted_by_key(r@),
        r@.len() == v@.len(),
        is_permutation(r@, v@),
        r@ == insertion_sorted(v@),
{
    let ghost given = v@;
    let mut rest = v;
    let mut result: Vec<T> = Vec::new();
    let n = rest.len();
    let mut k: usize = 0;
    let ghost mut perm: Seq<int> = Seq::empty();
    while k < n
        invariant
            n == given.len(),
            permutes(result@, given.subrange(0, k as int), perm),
            k <= n,
            rest@ == given.subrange(k as int, n as int),
            result@.to_multiset() == given.subrange(0, k as int).to_multiset(),
            result@.len() == k,
            sorted_by_key(result@),
            result@ == insertion_sorted(given.subrange(0, k as int)),
        decreases n - k,
    {
        let x = rest.remove(0);
        let mut p: usize = 0;
        while p < result.len() && result[p].le(&x)
            invariant
                p <= result.len(),
                forall|i: int| 0 <= i < p ==> (#[trigger] result@[i]).key_le(&x),
            decreases result.len() - p,
        {
            p = p + 1;
        }
        let ghost before = result@;
        proof {
            lemma_insert_sorted_at(x, before, p as int);
            let next = given.subrange(0, k + 1);
            assert(next.drop_last() =~= given.subrange(0, k as int));
            assert(next.last() == x);
            if p < before.len() {
                T::lemma_key_le_total(&before[p as int], &x);
            }
        }
        result.insert(p, x);
        proof {
            let old_perm = perm;
            perm = old_perm.insert(p as int, k as int);
            let prefix = given.subrange(0, k + 1);
            assert forall|kk: int| 0 <= kk < perm.len() implies 0 <= #[trigger] perm[kk] < prefix.len()
                && result@[kk] == prefix[perm[kk]] by {
                if kk < p {
                    assert(perm[kk] == old_perm[kk]);
                } else if kk > p {
                    assert(perm[kk] == old_perm[kk - 1]);
                }
            }
            assert forall|i: int, j: int| #![trigger perm[i], perm[j]] 0 <= i < j < perm.len() implies perm[i]
                != perm[j] by {
                if i < p && j < p {
                    assert(perm[i] == old_perm[i] && perm[j] == old_perm[j]);
                } else if i < p && j > p {
                    assert(perm[i] == old_perm[i] && perm[j] == old_perm[j - 1]);
                } else if i > p && j > p {
                    assert(perm[i] == old_perm[i - 1] && perm[j] == old_perm[j - 1]);
                } else if i == p {
                    if j > p {
                        assert(perm[j] == old_perm[j - 1]);
                    }
                } else {
                    assert(perm[i] == old_perm[i]);
                }
            }
            assert forall|m: int| 0 <= m < prefix.len() implies #[trigger] position_covered(perm, m) by {
                if m == k {
                    assert(perm[p as int] == m);
                } else {
                    assert(position_covered(old_perm, m));
                    let kk0 = choose|kk0: int| 0 <= kk0 < old_perm.len() && #[trigger] old_perm[kk0] == m;
                    if kk0 < p {
                        assert(perm[kk0] == m);
                    } else {
                        assert(perm[kk0 + 1] == m);
                    }
                }
            }
            let after = result@;
            assert forall|i: int, j: int| #![trigger after[i], after[j]] 0 <= i < j < after.len() implies after[i].key_le(
                &after[j],
            ) by {
                if i < p && j == p {
                } else if i < p && j > p {
                    assert(after[j] == before[j - 1]);
                } else if i == p && j > p {
                    assert(after[j] == before[j - 1]);
                    if j - 1 > p {
                        T::lemma_key_le_transitive(&x, &before[p as int], &before[j - 1]);
                    }
                } else if i > p {
                    assert(after[i] == before[i - 1]);
                    assert(after[j] == before[j - 1]);
                } else {
                    assert(after[i] == before[i]);
                    assert(after[j] == before[j]);
                }
            }
            assert(given.subrange(0, k + 1) =~= given.subrange(0, k as int).push(x));
        }
        k = k + 1;
    }
    proof {
        assert(given.subrange(0, n as int) =~= given);
        assert(permutes(result@, given, perm));
    }
    result
}

} // verus!
