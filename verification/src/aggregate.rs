//! The aggregator's ordering: dependency rows sorted descending by unique
//! used line count, equal counts keeping their manifest order.
//!
//! Rows are ordered through (count, original index) pairs. The sort is a
//! functionally specified insertion sort, so the sorted order is a
//! function of the counts alone: analysis results are reproducible.

use vstd::prelude::*;

verus! {

/// Strict order of the report: higher count first, and the earlier
/// manifest entry first among equals.
pub open spec fn precedes(a: (u64, usize), b: (u64, usize)) -> bool {
    a.0 > b.0 || (a.0 == b.0 && a.1 < b.1)
}

/// Insert a pair behind every pair that precedes it.
pub open spec fn spec_insert_pair(s: Seq<(u64, usize)>, x: (u64, usize)) -> Seq<(u64, usize)>
    decreases s.len(),
{
    if s.len() == 0 {
        seq![x]
    } else if precedes(s[0], x) {
        seq![s[0]] + spec_insert_pair(s.drop_first(), x)
    } else {
        seq![x] + s
    }
}

/// The first `i` pairs, sorted by repeated insertion.
pub open spec fn spec_sort_pairs(pairs: Seq<(u64, usize)>, i: int) -> Seq<(u64, usize)>
    decreases i,
{
    if i <= 0 {
        Seq::empty()
    } else {
        spec_insert_pair(spec_sort_pairs(pairs, i - 1), pairs[i - 1])
    }
}

/// What insertion does: length, order, and membership.
pub proof fn lemma_insert_pair_props(s: Seq<(u64, usize)>, x: (u64, usize))
    requires
        forall|a: int, b: int| 0 <= a < b < s.len() ==> precedes(s[a], s[b]),
        forall|k: int| 0 <= k < s.len() ==> (#[trigger] s[k]).1 != x.1,
    ensures
        spec_insert_pair(s, x).len() == s.len() + 1,
        forall|a: int, b: int|
            #![trigger spec_insert_pair(s, x)[a], spec_insert_pair(s, x)[b]]
            0 <= a < b < spec_insert_pair(s, x).len() ==> precedes(
                spec_insert_pair(s, x)[a],
                spec_insert_pair(s, x)[b],
            ),
        forall|k: int|
            #![trigger s[k]]
            0 <= k < s.len() ==> exists|m: int|
                0 <= m < spec_insert_pair(s, x).len() && #[trigger] spec_insert_pair(s, x)[m]
                    == s[k],
        exists|m: int|
            0 <= m < spec_insert_pair(s, x).len() && #[trigger] spec_insert_pair(s, x)[m] == x,
        forall|m: int|
            0 <= m < spec_insert_pair(s, x).len() ==> (#[trigger] spec_insert_pair(s, x)[m]) == x
                || exists|k: int| 0 <= k < s.len() && spec_insert_pair(s, x)[m] == s[k],
    decreases s.len(),
{
    let r = spec_insert_pair(s, x);
    if s.len() == 0 {
        assert(r =~= seq![x]);
        assert(r[0] == x);
    } else if precedes(s[0], x) {
        let tail = s.drop_first();
        lemma_insert_pair_props(tail, x);
        let rt = spec_insert_pair(tail, x);
        assert(r =~= seq![s[0]] + rt);
        assert(r[0] == s[0]);
        assert forall|m: int| 1 <= m < r.len() implies precedes(s[0], r[m]) by {
            assert(r[m] == rt[m - 1]);
            if rt[m - 1] == x {
            } else {
                let k = choose|k: int| 0 <= k < tail.len() && rt[m - 1] == tail[k];
                assert(tail[k] == s[k + 1]);
                assert(precedes(s[0], s[k + 1]));
            }
        }
        assert forall|a: int, b: int| 0 <= a < b < r.len() implies precedes(r[a], r[b]) by {
            if a == 0 {
                assert(precedes(s[0], r[b]));
            } else {
                assert(r[a] == rt[a - 1] && r[b] == rt[b - 1]);
            }
        }
        assert forall|k: int| #![trigger s[k]] 0 <= k < s.len() implies exists|m: int|
            0 <= m < r.len() && #[trigger] r[m] == s[k] by {
            if k == 0 {
                assert(r[0] == s[0]);
            } else {
                assert(tail[k - 1] == s[k]);
                let m = choose|m: int| 0 <= m < rt.len() && rt[m] == tail[k - 1];
                assert(r[m + 1] == s[k]);
            }
        }
        let mx = choose|m: int| 0 <= m < rt.len() && rt[m] == x;
        assert(r[mx + 1] == x);
        assert forall|m: int| 0 <= m < r.len() implies (#[trigger] r[m]) == x || exists|k: int|
            0 <= k < s.len() && r[m] == s[k] by {
            if m == 0 {
                assert(r[0] == s[0]);
            } else {
                assert(r[m] == rt[m - 1]);
                if rt[m - 1] != x {
                    let k = choose|k: int| 0 <= k < tail.len() && rt[m - 1] == tail[k];
                    assert(r[m] == s[k + 1]);
                }
            }
        }
    } else {
        assert(r =~= seq![x] + s);
        assert(r[0] == x);
        assert(s[0].1 != x.1);
        assert(precedes(x, s[0]));
        assert forall|a: int, b: int| 0 <= a < b < r.len() implies precedes(r[a], r[b]) by {
            if a == 0 {
                assert(r[b] == s[b - 1]);
                if b > 1 {
                    assert(precedes(s[0], s[b - 1]));
                }
            } else {
                assert(r[a] == s[a - 1] && r[b] == s[b - 1]);
            }
        }
        assert forall|k: int| #![trigger s[k]] 0 <= k < s.len() implies exists|m: int|
            0 <= m < r.len() && #[trigger] r[m] == s[k] by {
            assert(r[k + 1] == s[k]);
        }
    }
}

/// What the sort of a prefix yields: length, order, membership both ways.
pub proof fn lemma_sort_pairs_props(pairs: Seq<(u64, usize)>, i: int)
    requires
        0 <= i <= pairs.len(),
        forall|k: int| 0 <= k < pairs.len() ==> (#[trigger] pairs[k]).1 == k,
    ensures
        spec_sort_pairs(pairs, i).len() == i,
        forall|a: int, b: int|
            0 <= a < b < i ==> precedes(
                #[trigger] spec_sort_pairs(pairs, i)[a],
                #[trigger] spec_sort_pairs(pairs, i)[b],
            ),
        forall|k: int|
            #![trigger pairs[k]]
            0 <= k < i ==> exists|m: int|
                0 <= m < i && #[trigger] spec_sort_pairs(pairs, i)[m] == pairs[k],
        forall|m: int|
            #![trigger spec_sort_pairs(pairs, i)[m]]
            0 <= m < i ==> exists|k: int|
                0 <= k < i && #[trigger] pairs[k] == spec_sort_pairs(pairs, i)[m],
    decreases i,
{
    if i > 0 {
        lemma_sort_pairs_props(pairs, i - 1);
        let prev = spec_sort_pairs(pairs, i - 1);
        let x = pairs[i - 1];
        assert forall|k: int| 0 <= k < prev.len() implies (#[trigger] prev[k]).1 != x.1 by {
            let k2 = choose|k2: int| 0 <= k2 < i - 1 && prev[k] == pairs[k2];
            assert(prev[k].1 == k2);
        }
        lemma_insert_pair_props(prev, x);
        let cur = spec_sort_pairs(pairs, i);
        assert forall|k: int| #![trigger pairs[k]] 0 <= k < i implies exists|m: int|
            0 <= m < i && #[trigger] cur[m] == pairs[k] by {
            if k == i - 1 {
                let m = choose|m: int| 0 <= m < cur.len() && cur[m] == x;
                assert(cur[m] == pairs[k]);
            } else {
                let m0 = choose|m0: int| 0 <= m0 < prev.len() && prev[m0] == pairs[k];
                let m = choose|m: int| 0 <= m < cur.len() && cur[m] == prev[m0];
                assert(cur[m] == pairs[k]);
            }
        }
        assert forall|m: int| #![trigger cur[m]] 0 <= m < i implies exists|k: int|
            0 <= k < i && #[trigger] pairs[k] == cur[m] by {
            if cur[m] == x {
                assert(cur[m] == pairs[i - 1]);
            } else {
                let k0 = choose|k0: int| 0 <= k0 < prev.len() && cur[m] == prev[k0];
                let k = choose|k: int| 0 <= k < i - 1 && prev[k0] == pairs[k];
                assert(cur[m] == pairs[k]);
            }
        }
    }
}

/// Insert a pair into an already-sorted vector at its place.
fn insert_pair(v: &mut Vec<(u64, usize)>, x: (u64, usize))
    ensures
        final(v)@ == spec_insert_pair(old(v)@, x),
{
    let ghost s = v@;
    let mut p: usize = 0;
    while p < v.len() && (v[p].0 > x.0 || (v[p].0 == x.0 && v[p].1 < x.1))
        invariant
            v@ == s,
            p <= s.len(),
            forall|k: int| 0 <= k < p ==> precedes(s[k], x),
        decreases v.len() - p,
    {
        p += 1;
    }
    proof {
        lemma_insert_split(s, x, p as int);
    }
    v.insert(p, x);
    assert(v@ =~= s.subrange(0, p as int) + seq![x] + s.subrange(p as int, s.len() as int));
}

/// Insertion splits around the pairs that precede `x`.
proof fn lemma_insert_split(s: Seq<(u64, usize)>, x: (u64, usize), p: int)
    requires
        0 <= p <= s.len(),
        forall|k: int| 0 <= k < p ==> precedes(s[k], x),
        p < s.len() ==> !precedes(s[p], x),
    ensures
        spec_insert_pair(s, x) == s.subrange(0, p) + seq![x] + s.subrange(p, s.len() as int),
    decreases p,
{
    if p == 0 {
        if s.len() == 0 {
            assert(spec_insert_pair(s, x) =~= s.subrange(0, 0) + seq![x] + s.subrange(
                0,
                s.len() as int,
            ));
        } else {
            assert(!precedes(s[0], x));
            assert(spec_insert_pair(s, x) =~= s.subrange(0, 0) + seq![x] + s.subrange(
                0,
                s.len() as int,
            ));
        }
    } else {
        assert(precedes(s[0], x));
        let tail = s.drop_first();
        assert(forall|k: int| 0 <= k < p - 1 ==> precedes(tail[k], x));
        lemma_insert_split(tail, x, p - 1);
        assert(spec_insert_pair(s, x) =~= s.subrange(0, p) + seq![x] + s.subrange(
            p,
            s.len() as int,
        )) by {
            assert(spec_insert_pair(s, x) == seq![s[0]] + spec_insert_pair(tail, x));
            assert(spec_insert_pair(tail, x) == tail.subrange(0, p - 1) + seq![x] + tail.subrange(
                p - 1,
                tail.len() as int,
            ));
            assert(tail.subrange(0, p - 1) =~= s.subrange(1, p));
            assert(tail.subrange(p - 1, tail.len() as int) =~= s.subrange(p, s.len() as int));
        }
    }
}

/// Sort (count, index) pairs: descending by count, stable by index.
pub fn sort_pairs(pairs: &Vec<(u64, usize)>) -> (r: Vec<(u64, usize)>)
    ensures
        r@ == spec_sort_pairs(pairs@, pairs@.len() as int),
{
    let mut out: Vec<(u64, usize)> = Vec::new();
    let mut i: usize = 0;
    while i < pairs.len()
        invariant
            i <= pairs@.len(),
            out@ == spec_sort_pairs(pairs@, i as int),
        decreases pairs.len() - i,
    {
        insert_pair(&mut out, pairs[i]);
        i += 1;
    }
    out
}

} // verus!
