use vstd::prelude::*;
use vstd::relations::*;
use vstd::multiset::Multiset;

verus! {

broadcast use vstd::seq_lib::group_to_multiset_ensures, vstd::multiset::group_multiset_axioms;

/// The sequence `0, 1, ..., n - 1`.
pub open spec fn index_seq(n: nat) -> Seq<usize> {
    Seq::new(n, |i: int| i as usize)
}

/// `r` lists the indices `0..n`, each exactly once, in some order.
pub open spec fn is_index_permutation(r: Seq<usize>, n: nat) -> bool {
    r.to_multiset() == index_seq(n).to_multiset()
}

/// The comparator `le` decides `leq` on all pairs of indices below `n`.
pub open spec fn decides_order<F: Fn(usize, usize) -> bool>(
    le: F,
    leq: spec_fn(usize, usize) -> bool,
    n: usize,
) -> bool {
    &&& forall|i: usize, j: usize| i < n && j < n ==> #[trigger] le.requires((i, j))
    &&& forall|i: usize, j: usize, b: bool|
        i < n && j < n && #[trigger] le.ensures((i, j), b) ==> b == leq(i, j)
}

fn merge<F: Fn(usize, usize) -> bool>(
    a: Vec<usize>,
    b: Vec<usize>,
    le: &F,
    Ghost(leq): Ghost<spec_fn(usize, usize) -> bool>,
    Ghost(n): Ghost<usize>,
) -> (r: Vec<usize>)
    requires
        total_ordering(leq),
        decides_order(*le, leq, n),
        forall|k: int| 0 <= k < a.len() ==> a[k] < n,
        forall|k: int| 0 <= k < b.len() ==> b[k] < n,
        sorted_by(a@, leq),
        sorted_by(b@, leq),
    ensures
        r@.to_multiset() == a@.to_multiset().add(b@.to_multiset()),
        sorted_by(r@, leq),
        forall|k: int| 0 <= k < r.len() ==> r[k] < n,
        r.len() == a.len() + b.len(),
{
    broadcast use vstd::seq_lib::lemma_multiset_commutative;

    let mut r: Vec<usize> = Vec::new();
    let mut i: usize = 0;
    let mut j: usize = 0;
    assert(a@.subrange(0, a.len() as int) == a@);
    assert(b@.subrange(0, b.len() as int) == b@);
    while i < a.len() || j < b.len()
        invariant
            total_ordering(leq),
            decides_order(*le, leq, n),
            forall|k: int| 0 <= k < a.len() ==> a[k] < n,
            forall|k: int| 0 <= k < b.len() ==> b[k] < n,
            sorted_by(a@, leq),
            sorted_by(b@, leq),
            i <= a.len(),
            j <= b.len(),
            r.len() == i + j,
            forall|k: int| 0 <= k < r.len() ==> r[k] < n,
            sorted_by(r@, leq),
            forall|k: int, x: int| 0 <= k < r.len() && i <= x < a.len() ==> leq(r[k], a[x]),
            forall|k: int, y: int| 0 <= k < r.len() && j <= y < b.len() ==> leq(r[k], b[y]),
            r@.to_multiset().add(a@.subrange(i as int, a.len() as int).to_multiset()).add(
                b@.subrange(j as int, b.len() as int).to_multiset(),
            ) == a@.to_multiset().add(b@.to_multiset()),
        decreases a.len() + b.len() - i - j,
    {
        let take_a = if i >= a.len() {
            false
        } else if j >= b.len() {
            true
        } else {
            (*le)(a[i], b[j])
        };
        let ghost old_r = r@;
        if take_a {
            let x = a[i];
            let ghost rest = a@.subrange(i + 1, a.len() as int);
            assert(a@.subrange(i as int, a.len() as int) == seq![x] + rest);
            proof {
                vstd::seq_lib::lemma_multiset_commutative(seq![x], rest);
            }
            assert(old_r.push(x).to_multiset() =~= old_r.to_multiset().insert(x));
            let ghost old_i = i;
            r.push(x);
            i = i + 1;
            assert(r@ == old_r.push(x));
            assert(seq![x].to_multiset() =~= Multiset::singleton(x)) by {
                assert(seq![x] == Seq::<usize>::empty().push(x));
            }
            assert(a@.subrange(i as int, a.len() as int) == rest);
            assert(r@.to_multiset().add(rest.to_multiset()) =~=
                old_r.to_multiset().add(a@.subrange(old_i as int, a.len() as int).to_multiset()));
            assert forall|k: int, y: int| 0 <= k < r.len() && j <= y < b.len() implies leq(
                r[k],
                b[y],
            ) by {
                if k == r.len() - 1 {
                    assert(leq(x, b[j as int]));
                    assert(leq(b[j as int], b[y]) || j == y);
                }
            }
            assert forall|k: int, z: int| 0 <= k < r.len() && i <= z < a.len() implies leq(
                r[k],
                a[z],
            ) by {
                if k == r.len() - 1 {
                    assert(leq(a[i - 1], a[z]));
                }
            }
        } else {
            let x = b[j];
            let ghost rest = b@.subrange(j + 1, b.len() as int);
            assert(b@.subrange(j as int, b.len() as int) == seq![x] + rest);
            proof {
                vstd::seq_lib::lemma_multiset_commutative(seq![x], rest);
            }
            assert(old_r.push(x).to_multiset() =~= old_r.to_multiset().insert(x));
            if i < a.len() {
                assert(!leq(a[i as int], x));
                assert(leq(x, a[i as int]));
            }
            let ghost old_j = j;
            r.push(x);
            j = j + 1;
            assert(r@ == old_r.push(x));
            assert(seq![x].to_multiset() =~= Multiset::singleton(x)) by {
                assert(seq![x] == Seq::<usize>::empty().push(x));
            }
            assert(b@.subrange(j as int, b.len() as int) == rest);
            assert(r@.to_multiset().add(rest.to_multiset()) =~=
                old_r.to_multiset().add(b@.subrange(old_j as int, b.len() as int).to_multiset()));
            assert forall|k: int, z: int| 0 <= k < r.len() && i <= z < a.len() implies leq(
                r[k],
                a[z],
            ) by {
                if k == r.len() - 1 {
                    assert(leq(x, a[i as int]));
                    assert(leq(a[i as int], a[z]) || i == z);
                }
            }
            assert forall|k: int, y: int| 0 <= k < r.len() && j <= y < b.len() implies leq(
                r[k],
                b[y],
            ) by {
                if k == r.len() - 1 {
                    assert(leq(b[j - 1], b[y]));
                }
            }
        }
    }
    assert(a@.subrange(i as int, a.len() as int) =~= Seq::<usize>::empty());
    assert(b@.subrange(j as int, b.len() as int) =~= Seq::<usize>::empty());
    r
}

fn merge_sort<F: Fn(usize, usize) -> bool>(
    v: Vec<usize>,
    le: &F,
    Ghost(leq): Ghost<spec_fn(usize, usize) -> bool>,
    Ghost(n): Ghost<usize>,
) -> (r: Vec<usize>)
    requires
        total_ordering(leq),
        decides_order(*le, leq, n),
        forall|k: int| 0 <= k < v.len() ==> v[k] < n,
    ensures
        r@.to_multiset() == v@.to_multiset(),
        sorted_by(r@, leq),
        forall|k: int| 0 <= k < r.len() ==> r[k] < n,
        r.len() == v.len(),
    decreases v.len(),
{
    broadcast use vstd::seq_lib::lemma_multiset_commutative;

    if v.len() <= 1 {
        return v;
    }
    let mut left = v;
    let ghost whole = left@;
    let mid = left.len() / 2;
    let right = left.split_off(mid);
    assert(whole == left@ + right@);
    let sl = merge_sort(left, le, Ghost(leq), Ghost(n));
    let sr = merge_sort(right, le, Ghost(leq), Ghost(n));
    merge(sl, sr, le, Ghost(leq), Ghost(n))
}

/// Orders the indices `0..n` by the total order `leq`, which `le` decides.
pub fn sort_indices<F: Fn(usize, usize) -> bool>(
    n: usize,
    le: &F,
    Ghost(leq): Ghost<spec_fn(usize, usize) -> bool>,
) -> (r: Vec<usize>)
    requires
        total_ordering(leq),
        decides_order(*le, leq, n),
    ensures
        is_index_permutation(r@, n as nat),
        sorted_by(r@, leq),
        r.len() == n,
        forall|k: int| 0 <= k < r.len() ==> r[k] < n,
{
    let mut v: Vec<usize> = Vec::new();
    let mut i: usize = 0;
    while i < n
        invariant
            i <= n,
            v@ == index_seq(i as nat),
        decreases n - i,
    {
        v.push(i);
        i = i + 1;
        assert(v@ =~= index_seq(i as nat));
    }
    merge_sort(v, le, Ghost(leq), Ghost(n))
}

} // verus!
verus! {

/// `r` is `v` rearranged so that positions follow the total order `leq` on
/// the indices of `v`.
pub open spec fn arranged<T>(v: Seq<T>, leq: spec_fn(usize, usize) -> bool, r: Seq<T>) -> bool {
    exists|perm: Seq<usize>|
        #![trigger is_index_permutation(perm, v.len())]
        is_index_permutation(perm, v.len()) && sorted_by(perm, leq) && perm.len() == v.len() && r
            == perm.map_values(|i: usize| v[i as int])
}

} // verus!
verus! {

/// Two arrangements of the same list by the same total order are equal.
pub proof fn lemma_arranged_unique<T>(
    v: Seq<T>,
    leq: spec_fn(usize, usize) -> bool,
    r1: Seq<T>,
    r2: Seq<T>,
)
    requires
        total_ordering(leq),
        arranged(v, leq, r1),
        arranged(v, leq, r2),
    ensures
        r1 == r2,
{
    let p1 = choose|perm: Seq<usize>|
        #![trigger is_index_permutation(perm, v.len())]
        is_index_permutation(perm, v.len()) && sorted_by(perm, leq) && perm.len() == v.len() && r1
            == perm.map_values(|i: usize| v[i as int]);
    let p2 = choose|perm: Seq<usize>|
        #![trigger is_index_permutation(perm, v.len())]
        is_index_permutation(perm, v.len()) && sorted_by(perm, leq) && perm.len() == v.len() && r2
            == perm.map_values(|i: usize| v[i as int]);
    vstd::seq_lib::lemma_sorted_unique(p1, p2, leq);
    assert(p1 == p2);
}

/// The arrangement of `v` by `leq`.
pub open spec fn arrangement<T>(v: Seq<T>, leq: spec_fn(usize, usize) -> bool) -> Seq<T> {
    choose|r: Seq<T>| arranged(v, leq, r)
}

/// Any arrangement of `v` by a total order is the arrangement.
pub proof fn lemma_arrangement<T>(v: Seq<T>, leq: spec_fn(usize, usize) -> bool, r: Seq<T>)
    requires
        total_ordering(leq),
        arranged(v, leq, r),
    ensures
        arrangement(v, leq) == r,
{
    lemma_arranged_unique(v, leq, arrangement(v, leq), r);
}

} // verus!

verus! {

/// Positions ordered by their scores, best first; equal scores keep their order.
pub open spec fn by_score(h: Seq<u32>) -> spec_fn(usize, usize) -> bool {
    |i: usize, j: usize| h[i as int] > h[j as int] || (h[i as int] == h[j as int] && i <= j)
}

/// Positions in score order come best score first, and among equal scores
/// in their original order.
pub proof fn lemma_by_score_best_first(h: Seq<u32>, perm: Seq<usize>)
    requires
        sorted_by(perm, by_score(h)),
    ensures
        forall|k: int, l: int|
            0 <= k < l < perm.len() ==> h[#[trigger] perm[k] as int] >= h[#[trigger] perm[l] as int]
                && (h[perm[k] as int] == h[perm[l] as int] ==> perm[k] <= perm[l]),
{
    assert forall|k: int, l: int| 0 <= k < l < perm.len() implies h[#[trigger] perm[k] as int] >= h[#[trigger] perm[l] as int]
        && (h[perm[k] as int] == h[perm[l] as int] ==> perm[k] <= perm[l]) by {
        assert(by_score(h)(perm[k], perm[l]));
    }
}

/// The positions `0..scores.len()` ordered best score first, ties in place.
pub fn order_by_score(scores: &Vec<u32>) -> (perm: Vec<usize>)
    ensures
        is_index_permutation(perm@, scores.len() as nat),
        sorted_by(perm@, by_score(scores@)),
        perm.len() == scores.len(),
        forall|k: int| 0 <= k < perm.len() ==> perm[k] < scores.len(),
        forall|k: int, l: int|
            0 <= k < l < perm.len() ==> scores[#[trigger] perm[k] as int] >= scores[#[trigger] perm[l] as int],
{
    let le = |a: usize, b: usize| -> (res: bool)
        requires
            a < scores.len(),
            b < scores.len(),
        ensures
            res == by_score(scores@)(a, b),
        { scores[a] > scores[b] || (scores[a] == scores[b] && a <= b) };
    assert(total_ordering(by_score(scores@)));
    let perm = sort_indices(scores.len(), &le, Ghost(by_score(scores@)));
    proof {
        lemma_by_score_best_first(scores@, perm@);
    }
    perm
}

} // verus!

verus! {

/// Positions ordered by their keys, largest first; equal keys keep their order.
pub open spec fn by_key_desc(h: Seq<u64>) -> spec_fn(usize, usize) -> bool {
    |i: usize, j: usize| h[i as int] > h[j as int] || (h[i as int] == h[j as int] && i <= j)
}

/// The positions `0..keys.len()` ordered largest key first, ties in place.
pub fn order_by_key_desc(keys: &Vec<u64>) -> (perm: Vec<usize>)
    ensures
        is_index_permutation(perm@, keys.len() as nat),
        sorted_by(perm@, by_key_desc(keys@)),
        perm.len() == keys.len(),
        forall|k: int| 0 <= k < perm.len() ==> perm[k] < keys.len(),
{
    let le = |a: usize, b: usize| -> (res: bool)
        requires
            a < keys.len(),
            b < keys.len(),
        ensures
            res == by_key_desc(keys@)(a, b),
        { keys[a] > keys[b] || (keys[a] == keys[b] && a <= b) };
    assert(total_ordering(by_key_desc(keys@)));
    sort_indices(keys.len(), &le, Ghost(by_key_desc(keys@)))
}

} // verus!
