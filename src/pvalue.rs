//! Where a test statistic falls in the p-value table.
//!
//! The table's statistics are given as order keys (see [`crate::order`]),
//! sorted strictly ascending. A statistic at or beyond either end takes the
//! p-value of that end; one equal to a table statistic takes its p-value;
//! any other falls strictly between two neighbours, whose p-values are then
//! interpolated linearly.
use vstd::prelude::*;

verus! {

/// The table entry or entries that give a statistic its p-value.
#[derive(PartialEq, Eq, Structural, Clone, Copy, Debug)]
pub enum Bracket {
    /// The p-value of this entry, taken as it is.
    At(usize),
    /// Interpolation between this entry and the next.
    Between(usize),
}

/// Whether the keys are sorted strictly ascending.
pub open spec fn strictly_increasing(keys: Seq<i64>) -> bool {
    forall|i: int, j: int| 0 <= i < j < keys.len() ==> keys[i] < keys[j]
}

/// Finds the table entries that give `stat` its p-value.
pub fn locate_statistic(keys: &Vec<i64>, stat: i64) -> (r: Bracket)
    requires
        keys@.len() >= 1,
        strictly_increasing(keys@),
    ensures
        stat <= keys@[0] ==> r == Bracket::At(0),
        stat >= keys@.last() ==> r == Bracket::At((keys@.len() - 1) as usize),
        forall|i: int| 0 <= i < keys@.len() && keys@[i] == stat ==> r == Bracket::At(i as usize),
        match r {
            Bracket::At(i) => i < keys@.len() && (keys@[i as int] == stat || (i == 0 && stat
                <= keys@[0]) || (i == keys@.len() - 1 && stat >= keys@.last())),
            Bracket::Between(i) => i + 1 < keys@.len() && keys@[i as int] < stat < keys@[i + 1],
        },
{
    let last = keys.len() - 1;
    if stat <= keys[0] {
        return Bracket::At(0);
    }
    if stat >= keys[last] {
        return Bracket::At(last);
    }
    let mut lo: usize = 0;
    let mut hi: usize = last;
    while hi - lo > 1
        invariant
            last == keys@.len() - 1,
            strictly_increasing(keys@),
            0 <= lo < hi <= last,
            keys@[lo as int] < stat < keys@[hi as int],
        decreases hi - lo,
    {
        let mid = lo + (hi - lo) / 2;
        if keys[mid] == stat {
            return Bracket::At(mid);
        } else if keys[mid] < stat {
            lo = mid;
        } else {
            hi = mid;
        }
    }
    proof {
        assert forall|i: int| 0 <= i < keys@.len() implies keys@[i] != stat by {
            if i < lo {
                assert(keys@[i] < keys@[lo as int]);
            } else if i > hi {
                assert(keys@[hi as int] < keys@[i]);
            }
        }
    }
    Bracket::Between(lo)
}

} // verus!
