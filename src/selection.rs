//! Filtered selection lists: an ordered view over a backing collection,
//! ranked by a fuzzy-match score, and the resolution of a visible position
//! back to a backing index.
use fuzzy_matcher::skim::SkimMatcherV2;
use fuzzy_matcher::FuzzyMatcher;
use vstd::prelude::*;

verus! {

/// The score that the skim fuzzy matcher gives `choice` for `pattern`
/// (`None` when it does not match at all).
pub uninterp spec fn skim_score(choice: Seq<char>, pattern: Seq<char>) -> Option<i64>;

/// Relies on `fuzzy_matcher::skim::SkimMatcherV2::fuzzy_match` with the default
/// configuration: its score depends on the two strings alone, and the empty
/// pattern scores 0.
#[verifier::external_body]
fn fuzzy_score(choice: &str, pattern: &str) -> (r: Option<i64>)
    ensures
        r == skim_score(choice@, pattern@),
        pattern@.len() == 0 ==> r == Some(0i64),
{
    SkimMatcherV2::default().fuzzy_match(choice, pattern)
}

/// The score of every label for `query`.
pub open spec fn scores_of(labels: Seq<Seq<char>>, query: Seq<char>) -> Seq<Option<i64>> {
    Seq::new(labels.len(), |i: int| skim_score(labels[i], query))
}

/// Backing index `a` ranks strictly before `b`: a higher score, or an equal
/// score and an earlier position.
pub open spec fn ranks_before(scores: Seq<Option<i64>>, a: int, b: int) -> bool {
    scores[a].unwrap() > scores[b].unwrap() || (scores[a].unwrap() == scores[b].unwrap() && a < b)
}

/// `r` lists exactly the matching backing indices, best score first, ties in
/// backing order.
pub open spec fn is_ranking(scores: Seq<Option<i64>>, r: Seq<usize>) -> bool {
    &&& forall|k: int| 0 <= k < r.len() ==> (#[trigger] r[k]) < scores.len() && scores[r[k] as int].is_some()
    &&& forall|j: int| 0 <= j < scores.len() && (#[trigger] scores[j]).is_some() ==> r.contains(j as usize)
    &&& forall|a: int, b: int| 0 <= a < b < r.len() ==> ranks_before(scores, #[trigger] r[a] as int, #[trigger] r[b] as int)
}

/// The indices `0, 1, ..., n - 1` in order.
pub open spec fn identity(n: nat) -> Seq<usize> {
    Seq::new(n, |i: int| i as usize)
}

/// `r` is the mapping that the filter produces for `labels` and `query`.
pub open spec fn filtered(labels: Seq<Seq<char>>, query: Seq<char>, r: Seq<usize>) -> bool {
    if query.len() == 0 {
        r == identity(labels.len())
    } else {
        is_ranking(scores_of(labels, query), r)
    }
}

/// The identity mapping over `n` items.
pub fn identity_indices(n: usize) -> (r: Vec<usize>)
    ensures
        r@ == identity(n as nat),
{
    let mut r: Vec<usize> = Vec::new();
    let mut i: usize = 0;
    while i < n
        invariant
            i <= n,
            r@ == identity(i as nat),
        decreases n - i,
    {
        r.push(i);
        i = i + 1;
        assert(r@ =~= identity(i as nat));
    }
    r
}

/// Ranks the backing indices by their scores: the ones with a score, best
/// first, ties in backing order.
pub fn rank_indices(scores: &Vec<Option<i64>>) -> (r: Vec<usize>)
    ensures
        is_ranking(scores@, r@),
        r@.no_duplicates(),
        r@.len() <= scores@.len(),
{
    let ghost sc = scores@;
    let mut r: Vec<usize> = Vec::new();
    let mut rs: Vec<i64> = Vec::new();
    let mut i: usize = 0;
    while i < scores.len()
        invariant
            sc == scores@,
            i <= scores.len(),
            r@.len() <= i,
            rs@.len() == r@.len(),
            forall|k: int| 0 <= k < r@.len() ==> (#[trigger] r@[k]) < i && sc[r@[k] as int] == Some(rs@[k]),
            forall|j: int| 0 <= j < i && (#[trigger] sc[j]).is_some() ==> r@.contains(j as usize),
            forall|a: int, b: int| 0 <= a < b < r@.len() ==> ranks_before(sc, #[trigger] r@[a] as int, #[trigger] r@[b] as int),
        decreases scores.len() - i,
    {
        if let Some(v) = scores[i] {
            // insert after every entry whose score is at least `v`
            let mut p: usize = 0;
            while p < r.len() && rs[p] >= v
                invariant
                    rs@.len() == r@.len(),
                    p <= r@.len(),
                    forall|k: int| 0 <= k < p ==> rs@[k] >= v,
                    forall|a: int, b: int| 0 <= a < b < r@.len() ==> ranks_before(sc, #[trigger] r@[a] as int, #[trigger] r@[b] as int),
                    forall|k: int| 0 <= k < r@.len() ==> (#[trigger] r@[k]) < i && sc[r@[k] as int] == Some(rs@[k]),
                decreases r@.len() - p,
            {
                p = p + 1;
            }
            let ghost old_r = r@;
            r.insert(p, i);
            rs.insert(p, v);
            assert forall|a: int, b: int| 0 <= a < b < r@.len() implies ranks_before(sc, #[trigger] r@[a] as int, #[trigger] r@[b] as int) by {
                if a < p && b > p {
                    assert(r@[a] == old_r[a] && r@[b] == old_r[b - 1]);
                    if b - 1 > a {
                        assert(ranks_before(sc, old_r[a] as int, old_r[b - 1] as int));
                    }
                } else if a == p {
                    // the new index is larger than every earlier one; the later
                    // entries score strictly less than `v`
                    let c = b - 1;
                    assert(rs@[b] == rs@[b]);
                    assert(r@[b] == old_r[c]);
                    if p < old_r.len() {
                        assert(rs@[p + 1] < v);
                        if c > p {
                            assert(ranks_before(sc, old_r[p as int] as int, old_r[c] as int));
                        }
                    }
                } else if b == p {
                    assert(r@[a] == old_r[a]);
                } else if b < p {
                    assert(r@[a] == old_r[a] && r@[b] == old_r[b]);
                } else {
                    assert(r@[a] == old_r[a - 1] && r@[b] == old_r[b - 1]);
                }
            }
            assert forall|j: int| 0 <= j < i + 1 && (#[trigger] sc[j]).is_some() implies r@.contains(j as usize) by {
                if j < i {
                    let k = choose|k: int| 0 <= k < old_r.len() && old_r[k] == j as usize;
                    if k < p {
                        assert(r@[k] == j as usize);
                    } else {
                        assert(r@[k + 1] == j as usize);
                    }
                } else {
                    assert(r@[p as int] == j as usize);
                }
            }
        } else {
            assert forall|j: int| 0 <= j < i + 1 && (#[trigger] sc[j]).is_some() implies r@.contains(j as usize) by {
                if j == i {
                    assert(sc[j].is_none());
                }
            }
        }
        i = i + 1;
    }
    proof {
        assert forall|a: int, b: int| 0 <= a < b < r@.len() implies r@[a] != r@[b] by {
            assert(ranks_before(sc, r@[a] as int, r@[b] as int));
        }
    }
    r
}



/// Maps visible positions to backing indices: all indices for an empty query,
/// else the matching ones ranked by descending score, ties kept in backing order.
pub fn filter_indices(labels: &Vec<String>, query: &str) -> (r: Vec<usize>)
    ensures
        filtered(labels.deep_view(), query@, r@),
        r@.no_duplicates(),
        forall|k: int| 0 <= k < r@.len() ==> r@[k] < labels@.len(),
        r@.len() <= labels@.len(),
{
    let ghost dv = labels.deep_view();
    if query.is_empty() {
        let r = identity_indices(labels.len());
        assert forall|a: int, b: int| 0 <= a < b < r@.len() implies r@[a] != r@[b] by {}
        return r;
    }
    let mut scores: Vec<Option<i64>> = Vec::new();
    let mut i: usize = 0;
    while i < labels.len()
        invariant
            dv == labels.deep_view(),
            i <= labels.len(),
            scores@ == scores_of(dv, query@).subrange(0, i as int),
        decreases labels.len() - i,
    {
        let s = fuzzy_score(labels[i].as_str(), query);
        assert(labels[i as int]@ == dv[i as int]);
        scores.push(s);
        i = i + 1;
        assert(scores@ =~= scores_of(dv, query@).subrange(0, i as int));
    }
    assert(scores@ =~= scores_of(dv, query@));
    rank_indices(&scores)
}

proof fn lemma_sorted_unique(scores: Seq<Option<i64>>, r1: Seq<usize>, r2: Seq<usize>)
    requires
        forall|k: int| 0 <= k < r1.len() ==> (#[trigger] r1[k]) < scores.len(),
        forall|k: int| 0 <= k < r2.len() ==> (#[trigger] r2[k]) < scores.len(),
        forall|a: int, b: int| 0 <= a < b < r1.len() ==> ranks_before(scores, #[trigger] r1[a] as int, #[trigger] r1[b] as int),
        forall|a: int, b: int| 0 <= a < b < r2.len() ==> ranks_before(scores, #[trigger] r2[a] as int, #[trigger] r2[b] as int),
        forall|x: usize| r1.contains(x) <==> r2.contains(x),
    ensures
        r1 == r2,
    decreases r1.len(),
{
    if r1.len() == 0 {
        if r2.len() > 0 {
            assert(r2.contains(r2[0]));
        }
        assert(r1 =~= r2);
    } else {
        assert(r1.contains(r1[0]));
        let k = choose|k: int| 0 <= k < r2.len() && r2[k] == r1[0];
        assert(r2.contains(r2[0]));
        let m = choose|m: int| 0 <= m < r1.len() && r1[m] == r2[0];
        if k > 0 {
            assert(ranks_before(scores, r2[0] as int, r2[k] as int));
            if m > 0 {
                assert(ranks_before(scores, r1[0] as int, r1[m] as int));
            }
        }
        let t1 = r1.drop_first();
        let t2 = r2.drop_first();
        assert forall|x: usize| t1.contains(x) implies t2.contains(x) by {
            let i = choose|i: int| 0 <= i < t1.len() && t1[i] == x;
            assert(ranks_before(scores, r1[0] as int, r1[i + 1] as int));
            assert(r1.contains(x));
            let j = choose|j: int| 0 <= j < r2.len() && r2[j] == x;
            assert(j != 0);
            assert(t2[j - 1] == x);
        }
        assert forall|x: usize| t2.contains(x) implies t1.contains(x) by {
            let i = choose|i: int| 0 <= i < t2.len() && t2[i] == x;
            assert(ranks_before(scores, r2[0] as int, r2[i + 1] as int));
            assert(r2.contains(x));
            let j = choose|j: int| 0 <= j < r1.len() && r1[j] == x;
            assert(j != 0);
            assert(t1[j - 1] == x);
        }
        assert forall|a: int, b: int| 0 <= a < b < t1.len() implies ranks_before(scores, #[trigger] t1[a] as int, #[trigger] t1[b] as int) by {
            assert(ranks_before(scores, r1[a + 1] as int, r1[b + 1] as int));
        }
        assert forall|a: int, b: int| 0 <= a < b < t2.len() implies ranks_before(scores, #[trigger] t2[a] as int, #[trigger] t2[b] as int) by {
            assert(ranks_before(scores, r2[a + 1] as int, r2[b + 1] as int));
        }
        lemma_sorted_unique(scores, t1, t2);
        assert(r1 =~= seq![r1[0]] + t1);
        assert(r2 =~= seq![r2[0]] + t2);
    }
}

/// The filter's mapping is a function of the backing labels and the query:
/// applying an unchanged query again yields an identical mapping.
pub proof fn lemma_filter_deterministic(labels: Seq<Seq<char>>, query: Seq<char>, r1: Seq<usize>, r2: Seq<usize>)
    requires
        filtered(labels, query, r1),
        filtered(labels, query, r2),
    ensures
        r1 == r2,
{
    if query.len() > 0 {
        let scores = scores_of(labels, query);
        assert forall|x: usize| r1.contains(x) <==> r2.contains(x) by {
            if r1.contains(x) {
                let k = choose|k: int| 0 <= k < r1.len() && r1[k] == x;
                assert(scores[r1[k] as int].is_some());
            }
            if r2.contains(x) {
                let k = choose|k: int| 0 <= k < r2.len() && r2[k] == x;
                assert(scores[r2[k] as int].is_some());
            }
        }
        lemma_sorted_unique(scores, r1, r2);
    }
}

/// The backing index that visible position `sel` stands for, if the position
/// is set, lies within the mapping, and the mapped index lies within the
/// backing collection of `len` items.
pub open spec fn resolved(sel: Option<usize>, map: Seq<usize>, len: nat) -> Option<usize> {
    match sel {
        Some(p) => if p < map.len() && map[p as int] < len {
            Some(map[p as int])
        } else {
            None
        },
        None => None,
    }
}

/// Two-step lookup from a visible position to a backing index; a missing or
/// stale position gives no selection.
pub fn resolve_selection(sel: Option<usize>, map: &Vec<usize>, len: usize) -> (r: Option<usize>)
    ensures
        r == resolved(sel, map@, len as nat),
        r is Some ==> r->0 < len,
        map@.len() == 0 ==> r is None,
{
    match sel {
        Some(p) => {
            if p < map.len() && map[p] < len {
                Some(map[p])
            } else {
                None
            }
        },
        None => None,
    }
}

/// The position after `sel` in a list of `len` items, wrapping to the start;
/// unchanged when the list is empty.
pub open spec fn next_position(sel: Option<usize>, len: nat) -> Option<usize> {
    if len == 0 {
        sel
    } else {
        match sel {
            Some(i) => Some(((i + 1) % (len as int)) as usize),
            None => Some(0usize),
        }
    }
}

/// The position before `sel` in a list of `len` items, wrapping to the end
/// (and from a stale position past the end, to the last item); unchanged
/// when the list is empty.
pub open spec fn previous_position(sel: Option<usize>, len: nat) -> Option<usize> {
    if len == 0 {
        sel
    } else {
        match sel {
            Some(i) => if i == 0 || i >= len {
                Some((len - 1) as usize)
            } else {
                Some((i - 1) as usize)
            },
            None => Some(0usize),
        }
    }
}

/// Moves the selection one item down, wrapping around.
pub fn select_next(sel: Option<usize>, len: usize) -> (r: Option<usize>)
    ensures
        r == next_position(sel, len as nat),
        len > 0 ==> r is Some && r->0 < len,
{
    if len == 0 {
        return sel;
    }
    match sel {
        Some(i) => {
            let j = i % len;
            assert((j + 1) % (len as int) == (i + 1) % (len as int)) by (nonlinear_arith)
                requires j == i % len, len > 0;
            Some((j + 1) % len)
        },
        None => Some(0),
    }
}

/// Moves the selection one item up, wrapping around.
pub fn select_previous(sel: Option<usize>, len: usize) -> (r: Option<usize>)
    ensures
        r == previous_position(sel, len as nat),
        len > 0 ==> r is Some && r->0 < len,
{
    if len == 0 {
        return sel;
    }
    match sel {
        Some(i) => if i == 0 || i >= len {
            Some(len - 1)
        } else {
            Some(i - 1)
        },
        None => Some(0),
    }
}

} // verus!
