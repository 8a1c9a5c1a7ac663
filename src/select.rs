//! Choice of the lag order: the candidate with the least information
//! criterion, the first one among equals.
//!
//! Each candidate's criterion is given as an order key (see
//! [`crate::order`]), or `None` where that candidate gave no regression.
use vstd::prelude::*;

verus! {

/// The order key of positive infinity: the score that the search starts
/// from. A candidate is taken only when its score is below the best so far,
/// so one scored at or above this key is never taken.
pub const UNBEATEN_SCORE: i64 = 0x7ff0_0000_0000_0000;

/// Whether a candidate's score can be taken: it exists and is below
/// [`UNBEATEN_SCORE`].
pub open spec fn admissible(score: Option<i64>) -> bool {
    score.is_some() && score.unwrap() < UNBEATEN_SCORE
}

/// Whether candidate `i` is the first of the least scores: admissible, no
/// greater than any score, and below the score of every candidate before it.
pub open spec fn is_first_minimum(scores: Seq<Option<i64>>, i: int) -> bool {
    &&& 0 <= i < scores.len()
    &&& admissible(scores[i])
    &&& forall|j: int|
        0 <= j < scores.len() && (#[trigger] scores[j]).is_some() ==> scores[i].unwrap()
            <= scores[j].unwrap()
    &&& forall|j: int|
        0 <= j < i && (#[trigger] scores[j]).is_some() ==> scores[i].unwrap()
            < scores[j].unwrap()
}

/// Whether any candidate's score can be taken.
pub open spec fn any_admissible(scores: Seq<Option<i64>>) -> bool {
    exists|j: int| 0 <= j < scores.len() && admissible(#[trigger] scores[j])
}

/// The index of the candidate to keep, scanning in order and taking a score
/// only when it is strictly below the best so far; `None` where no score can
/// be taken.
pub fn select_lag_index(scores: &Vec<Option<i64>>) -> (r: Option<usize>)
    ensures
        r.is_none() <==> !any_admissible(scores@),
        r.is_some() ==> is_first_minimum(scores@, r.unwrap() as int),
{
    let mut best: Option<usize> = None;
    let mut best_score: i64 = UNBEATEN_SCORE;
    let mut i: usize = 0;
    while i < scores.len()
        invariant
            0 <= i <= scores@.len(),
            best.is_none() ==> best_score == UNBEATEN_SCORE,
            best.is_none() ==> forall|j: int| 0 <= j < i ==> !admissible(#[trigger] scores@[j]),
            best.is_some() ==> best.unwrap() < i && scores@[best.unwrap() as int] == Some(
                best_score,
            ) && best_score < UNBEATEN_SCORE,
            forall|j: int|
                0 <= j < i && (#[trigger] scores@[j]).is_some() ==> best_score
                    <= scores@[j].unwrap(),
            best.is_some() ==> forall|j: int|
                0 <= j < best.unwrap() && (#[trigger] scores@[j]).is_some() ==> best_score
                    < scores@[j].unwrap(),
        decreases scores@.len() - i,
    {
        match scores[i] {
            Some(score) => {
                if score < best_score {
                    best = Some(i);
                    best_score = score;
                }
            },
            None => {},
        }
        i = i + 1;
    }
    proof {
        if best.is_none() {
            assert(!any_admissible(scores@));
        } else {
            assert(any_admissible(scores@)) by {
                assert(admissible(scores@[best.unwrap() as int]));
            }
        }
    }
    best
}

/// Among candidate scores there is at most one first minimum: the kept lag
/// has a criterion no greater than any other candidate's, and among equal
/// criteria it is the one of lowest index.
pub proof fn lemma_first_minimum_unique(scores: Seq<Option<i64>>, i: int, k: int)
    requires
        is_first_minimum(scores, i),
        is_first_minimum(scores, k),
    ensures
        i == k,
{
    if i < k {
        assert(scores[i].is_some());
    } else if k < i {
        assert(scores[k].is_some());
    }
}

} // verus!
