//! Candidate ranking: the granted venues of one availability request,
//! ordered by descending reliability score and, among equal scores, by
//! ascending venue id.
use vstd::prelude::*;

verus! {

broadcast use vstd::seq_lib::group_seq_properties;

/// One granted venue together with the reliability score it is ranked by.
#[derive(Clone, Copy, Debug, PartialEq, Eq, Structural)]
pub struct ScoredVenue {
    pub id: i32,
    pub score: i32,
}

/// The ranking policy: a higher score comes first; equal scores are broken
/// by the smaller venue id.
pub open spec fn ranked_before(a: ScoredVenue, b: ScoredVenue) -> bool {
    a.score > b.score || (a.score == b.score && a.id <= b.id)
}

/// The sequence is sorted by the ranking policy.
pub open spec fn ranked(s: Seq<ScoredVenue>) -> bool {
    forall|i: int, j: int| 0 <= i < j < s.len() ==> ranked_before(s[i], s[j])
}

fn ranks_before(a: &ScoredVenue, b: &ScoredVenue) -> (r: bool)
    ensures
        r == ranked_before(*a, *b),
{
    a.score > b.score || (a.score == b.score && a.id <= b.id)
}

/// The position of a venue that every other one ranks at or below.
fn top_index(v: &Vec<ScoredVenue>) -> (r: usize)
    requires
        v@.len() > 0,
    ensures
        r < v@.len(),
        forall|k: int| 0 <= k < v@.len() ==> ranked_before(v@[r as int], v@[k]),
{
    let mut best: usize = 0;
    let mut j: usize = 1;
    while j < v.len()
        invariant
            best < j <= v@.len(),
            forall|k: int| 0 <= k < j ==> ranked_before(v@[best as int], v@[k]),
        decreases v@.len() - j,
    {
        if !ranks_before(&v[best], &v[j]) {
            best = j;
        }
        j = j + 1;
    }
    best
}

/// The final ordering step of one availability request: sorts the granted
/// venues by descending score, then ascending id. The result is exactly the
/// input re-ordered (the same multiset of entries) and obeys the policy.
pub fn rank_venues(venues: Vec<ScoredVenue>) -> (r: Vec<ScoredVenue>)
    ensures
        ranked(r@),
        r@.to_multiset() == venues@.to_multiset(),
        r@.len() == venues@.len(),
{
    let mut rest = venues;
    let mut out: Vec<ScoredVenue> = Vec::new();
    while rest.len() > 0
        invariant
            ranked(out@),
            forall|i: int, j: int|
                0 <= i < out@.len() && 0 <= j < rest@.len() ==> ranked_before(out@[i], rest@[j]),
            out@.to_multiset().add(rest@.to_multiset()) == venues@.to_multiset(),
            out@.len() + rest@.len() == venues@.len(),
        decreases rest@.len(),
    {
        let m = top_index(&rest);
        let ghost rest0 = rest@;
        let x = rest.remove(m);
        proof {
            rest0.remove_ensures(m as int);
            assert(out@.push(x).to_multiset().add(rest@.to_multiset()) =~= out@.to_multiset().add(
                rest0.to_multiset(),
            ));
        }
        out.push(x);
    }
    proof {
        assert(out@.to_multiset().add(rest@.to_multiset()) =~= out@.to_multiset());
    }
    out
}

/// The terminal answer of one availability request: the granted venues,
/// ranked.
pub struct AvailabilityResult {
    pub granted_venues: Vec<i32>,
}

/// Builds the terminal result from the recorded granted venues and their
/// scores: the ids come out ranked by descending score, then ascending id.
pub fn finalize_result(venues: Vec<ScoredVenue>) -> (r: AvailabilityResult)
    ensures
        exists|sorted: Seq<ScoredVenue>|
            {
                &&& ranked(sorted)
                &&& sorted.to_multiset() == venues@.to_multiset()
                &&& r.granted_venues@ == sorted.map_values(|v: ScoredVenue| v.id)
            },
{
    let sorted = rank_venues(venues);
    let mut ids: Vec<i32> = Vec::new();
    let mut j: usize = 0;
    while j < sorted.len()
        invariant
            j <= sorted@.len(),
            ids@ == sorted@.take(j as int).map_values(|v: ScoredVenue| v.id),
        decreases sorted@.len() - j,
    {
        proof {
            assert(sorted@.take(j + 1) =~= sorted@.take(j as int).push(sorted@[j as int]));
            assert(sorted@.take(j + 1).map_values(|v: ScoredVenue| v.id) =~= sorted@.take(
                j as int,
            ).map_values(|v: ScoredVenue| v.id).push(sorted@[j as int].id));
        }
        ids.push(sorted[j].id);
        j = j + 1;
    }
    proof {
        assert(sorted@.take(sorted@.len() as int) =~= sorted@);
    }
    AvailabilityResult { granted_venues: ids }
}

} // verus!
