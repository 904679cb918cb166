//! Fuzzy ranking of stored texts against a query: texts that match at all
//! and score at least half of the best score, best first.
use vstd::prelude::*;

verus! {

/// The score that skim's fuzzy matcher gives `pattern` against `choice`,
/// or `None` where `pattern` is not a subsequence of `choice`.
pub uninterp spec fn skim_score(choice: Seq<char>, pattern: Seq<char>) -> Option<i64>;

/// Relies on fuzzy_matcher::skim::fuzzy_match: scores `pattern` as a fuzzy
/// subsequence of `choice`; an empty pattern scores 0.
#[verifier::external_body]
pub(crate) fn fuzzy_score(choice: &str, pattern: &str) -> (r: Option<i64>)
    ensures
        r == skim_score(choice@, pattern@),
        pattern@.len() == 0 ==> r == Some(0i64),
{
    fuzzy_matcher::skim::fuzzy_match(choice, pattern)
}

/// The highest score in `s`, if any entry has one.
pub open spec fn best_score(s: Seq<Option<i64>>) -> Option<i64>
    decreases s.len(),
{
    if s.len() == 0 {
        None
    } else {
        let rest = best_score(s.drop_last());
        match s.last() {
            None => rest,
            Some(x) => match rest {
                None => Some(x),
                Some(y) => Some(if x > y { x } else { y }),
            },
        }
    }
}

/// Half of `b`, truncated toward zero.
pub open spec fn half_toward_zero(b: int) -> int {
    if b >= 0 {
        b / 2
    } else {
        -((-b) / 2)
    }
}

/// Entry `p` matched and scores at least half of the best score.
pub open spec fn kept(s: Seq<Option<i64>>, p: int) -> bool {
    &&& 0 <= p < s.len()
    &&& s[p] is Some
    &&& best_score(s) is Some
    &&& s[p]->0 >= half_toward_zero(best_score(s)->0 as int)
}

/// Entry `p` comes before entry `q`: a higher score, or the same score and
/// an earlier position.
pub open spec fn ranks_before(s: Seq<Option<i64>>, p: int, q: int) -> bool {
    s[p]->0 > s[q]->0 || (s[p]->0 == s[q]->0 && p < q)
}

/// `r` lists exactly the kept entries of `s`, best first, ties in their
/// input order.
pub open spec fn ranked(s: Seq<Option<i64>>, r: Seq<usize>) -> bool {
    &&& forall|k: int| 0 <= k < r.len() ==> kept(s, #[trigger] r[k] as int)
    &&& forall|p: int| kept(s, p) ==> exists|k: int| 0 <= k < r.len() && r[k] == p
    &&& forall|k: int, l: int|
        0 <= k < l < r.len() ==> ranks_before(s, #[trigger] r[k] as int, #[trigger] r[l] as int)
}

/// Only one order meets `ranked`: the kept entries, best first, ties in
/// their input order, determine the result.
pub proof fn lemma_ranked_unique(s: Seq<Option<i64>>, r1: Seq<usize>, r2: Seq<usize>)
    requires
        ranked(s, r1),
        ranked(s, r2),
    ensures
        r1 == r2,
{
    assert forall|k: int| 0 <= k < r1.len() && k < r2.len() implies r1[k] == r2[k] by {
        lemma_ranked_prefix(s, r1, r2, k);
    }
    lemma_ranked_no_extra(s, r1, r2);
    lemma_ranked_no_extra(s, r2, r1);
    assert(r1 =~= r2);
}

proof fn lemma_ranked_prefix(s: Seq<Option<i64>>, r1: Seq<usize>, r2: Seq<usize>, k: int)
    requires
        ranked(s, r1),
        ranked(s, r2),
        0 <= k < r1.len(),
        k < r2.len(),
    ensures
        r1[k] == r2[k],
    decreases k,
{
    if k > 0 {
        lemma_ranked_prefix(s, r1, r2, k - 1);
    }
    assert forall|j: int| 0 <= j < k implies r1[j] == r2[j] by {
        lemma_ranked_prefix(s, r1, r2, j);
    }
    let a = r1[k] as int;
    let b = r2[k] as int;
    if a != b {
        assert(kept(s, a));
        assert(kept(s, b));
        let j2 = choose|j: int| 0 <= j < r2.len() && r2[j] == a;
        let j1 = choose|j: int| 0 <= j < r1.len() && r1[j] == b;
        if j2 < k {
            assert(r1[j2] == a);
            assert(ranks_before(s, r1[j2] as int, r1[k] as int));
        } else if j1 < k {
            assert(r2[j1] == b);
            assert(ranks_before(s, r2[j1] as int, r2[k] as int));
        } else {
            assert(j2 > k && j1 > k);
            assert(ranks_before(s, r2[k] as int, r2[j2] as int));
            assert(ranks_before(s, r1[k] as int, r1[j1] as int));
        }
    }
}

/// Where two rankings agree as far as both go, the first is no shorter
/// than the second.
proof fn lemma_ranked_no_extra(s: Seq<Option<i64>>, short: Seq<usize>, long: Seq<usize>)
    requires
        ranked(s, short),
        ranked(s, long),
        forall|k: int| 0 <= k < short.len() && k < long.len() ==> short[k] == long[k],
    ensures
        short.len() >= long.len(),
{
    if short.len() < long.len() {
        let x = long[short.len() as int] as int;
        assert(kept(s, x));
        let j = choose|j: int| 0 <= j < short.len() && short[j] == x;
        assert(long[j] == x);
        assert(ranks_before(s, long[j] as int, long[short.len() as int] as int));
    }
}

/// Of three matches scoring 100, 60 and 40, in whatever positions, the
/// ranking holds the first two, best first: 60 reaches half of 100, 40
/// does not.
pub proof fn lemma_half_of_best_example(s: Seq<Option<i64>>, a: int, b: int, c: int, r: Seq<usize>)
    requires
        s.len() == 3,
        0 <= a < 3,
        0 <= b < 3,
        0 <= c < 3,
        a != b,
        b != c,
        a != c,
        s[a] == Some(100i64),
        s[b] == Some(60i64),
        s[c] == Some(40i64),
        ranked(s, r),
    ensures
        r == seq![a as usize, b as usize],
{
    reveal_with_fuel(best_score, 4);
    assert(s.drop_last().drop_last().drop_last().len() == 0);
    assert(best_score(s) == Some(100i64));
    let e = seq![a as usize, b as usize];
    assert forall|p: int| kept(s, p) implies exists|k: int| 0 <= k < e.len() && e[k] == p by {
        if p == a {
            assert(e[0] == p);
        } else {
            assert(e[1] == p);
        }
    }
    assert(ranked(s, e));
    lemma_ranked_unique(s, r, e);
}

/// Half of `b`, truncated toward zero.
fn half(b: i64) -> (r: i64)
    ensures
        r == half_toward_zero(b as int),
{
    if b >= 0 {
        b / 2
    } else {
        let m: i64 = -(b + 1);
        let h: i64 = m / 2 + m % 2;
        assert(h == (-(b as int)) / 2) by (nonlinear_arith)
            requires
                m == -(b + 1),
                m >= 0,
                h == m / 2 + m % 2,
        ;
        -h
    }
}

/// The positions of the kept entries of `scores`, best first, ties in their
/// input order.
pub fn select_matches(scores: &Vec<Option<i64>>) -> (r: Vec<usize>)
    ensures
        ranked(scores@, r@),
{
    let n = scores.len();
    let mut best: Option<i64> = None;
    let mut i: usize = 0;
    while i < n
        invariant
            n == scores@.len(),
            i <= n,
            best == best_score(scores@.subrange(0, i as int)),
        decreases n - i,
    {
        assert(scores@.subrange(0, i + 1).drop_last() =~= scores@.subrange(0, i as int));
        match scores[i] {
            Some(x) => {
                best = match best {
                    None => Some(x),
                    Some(y) => Some(if x > y { x } else { y }),
                };
            },
            None => {},
        }
        i = i + 1;
    }
    assert(scores@.subrange(0, n as int) =~= scores@);
    let mut out: Vec<usize> = Vec::new();
    let b = match best {
        Some(b) => b,
        None => {
            assert forall|p: int| !kept(scores@, p) by {}
            return out;
        },
    };
    let threshold = half(b);
    let mut p: usize = 0;
    while p < n
        invariant
            n == scores@.len(),
            p <= n,
            best_score(scores@) == Some(b),
            threshold == half_toward_zero(b as int),
            forall|k: int| 0 <= k < out@.len() ==> kept(scores@, #[trigger] out@[k] as int),
            forall|k: int| 0 <= k < out@.len() ==> (#[trigger] out@[k]) < p,
            forall|q: int| 0 <= q < p && kept(scores@, q) ==> exists|k: int| 0 <= k < out@.len() && out@[k] == q,
            forall|k: int, l: int|
                0 <= k < l < out@.len() ==> ranks_before(
                    scores@,
                    #[trigger] out@[k] as int,
                    #[trigger] out@[l] as int,
                ),
        decreases n - p,
    {
        match scores[p] {
            Some(x) => {
                if x >= threshold {
                    let mut j: usize = 0;
                    let mut stop = false;
                    while j < out.len() && !stop
                        invariant
                            n == scores@.len(),
                            j <= out@.len(),
                            scores@[p as int] == Some(x),
                            forall|k: int| 0 <= k < out@.len() ==> kept(scores@, #[trigger] out@[k] as int),
                            forall|k: int| 0 <= k < j ==> (#[trigger] scores@[out@[k] as int])->0 >= x,
                            stop ==> j < out@.len() && scores@[out@[j as int] as int]->0 < x,
                        decreases out@.len() - j + (if stop { 0int } else { 1int }),
                    {
                        let q = out[j];
                        match scores[q] {
                            Some(y) => {
                                if y < x {
                                    stop = true;
                                } else {
                                    j = j + 1;
                                }
                            },
                            None => {
                                assert(kept(scores@, out@[j as int] as int));
                                j = j + 1;
                            },
                        }
                    }
                    let ghost before = out@;
                    proof {
                        assert(kept(scores@, p as int));
                        if stop {
                            assert(kept(scores@, before[j as int] as int));
                            assert forall|l: int| j <= l < before.len() implies (#[trigger] scores@[before[l] as int])->0 < x by {
                                if l > j {
                                    assert(ranks_before(scores@, before[j as int] as int, before[l] as int));
                                }
                            }
                        }
                    }
                    out.insert(j, p);
                    proof {
                        assert forall|k: int, l: int|
                            0 <= k < l < out@.len() implies ranks_before(
                            scores@,
                            #[trigger] out@[k] as int,
                            #[trigger] out@[l] as int,
                        ) by {
                            if k < j && l == j {
                                assert(out@[k] == before[k]);
                            } else if k == j {
                                assert(out@[l] == before[l - 1]);
                            } else if k < j && l < j {
                                assert(out@[k] == before[k]);
                                assert(out@[l] == before[l]);
                            } else if k < j {
                                assert(out@[k] == before[k]);
                                assert(out@[l] == before[l - 1]);
                            } else {
                                assert(out@[k] == before[k - 1]);
                                assert(out@[l] == before[l - 1]);
                            }
                        }
                        assert forall|q: int| 0 <= q < p + 1 && kept(scores@, q) implies exists|k: int|
                            0 <= k < out@.len() && out@[k] == q by {
                            if q == p {
                                assert(out@[j as int] == p);
                            } else {
                                let k = choose|k: int| 0 <= k < before.len() && before[k] == q;
                                if k < j {
                                    assert(out@[k] == q);
                                } else {
                                    assert(out@[k + 1] == q);
                                }
                            }
                        }
                        assert forall|k: int| 0 <= k < out@.len() implies kept(scores@, #[trigger] out@[k] as int) && out@[k] < p + 1 by {
                            if k < j {
                                assert(out@[k] == before[k]);
                            } else if k > j {
                                assert(out@[k] == before[k - 1]);
                            }
                        }
                    }
                } else {
                    proof {
                        assert(!kept(scores@, p as int));
                    }
                }
            },
            None => {},
        }
        p = p + 1;
    }
    out
}

} // verus!
