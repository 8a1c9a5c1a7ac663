//! The range of lag orders that the search tries.
use vstd::prelude::*;

verus! {

/// The largest lag order ever tried.
pub const LAG_CAP: u32 = 12;

/// The fewest observations on which a lag search is made at all.
pub const MIN_SERIES_LEN: usize = 5;

/// The tag of the full model, whose lag range grows with the series.
pub open spec fn ols_tag() -> Seq<char> {
    seq!['o', 'l', 's']
}

/// The largest lag order of the full model on a series of `n` values:
/// `min(12, floor((n - 3) / 2))`, and 0 where `n < 3`.
pub open spec fn ols_max_lag(n: nat) -> nat {
    let half: nat = if n >= 3 {
        ((n - 3) as nat) / 2
    } else {
        0
    };
    if half < LAG_CAP {
        half
    } else {
        LAG_CAP as nat
    }
}

/// The lag range `(min, max)` for a series of `n` values and a model tag:
/// `(0, ols_max_lag(n))` for the full model, `(0, 1)` for any other tag.
pub open spec fn lag_range(n: nat, tag: Seq<char>) -> (nat, nat) {
    if tag == ols_tag() {
        (0, ols_max_lag(n))
    } else {
        (0, 1)
    }
}

/// Whether `model_type` is the tag of the full model.
pub fn is_ols_tag(model_type: &str) -> (r: bool)
    ensures
        r == (model_type@ == ols_tag()),
{
    let len = model_type.unicode_len();
    if len != 3 {
        return false;
    }
    let r = model_type.get_char(0) == 'o' && model_type.get_char(1) == 'l' && model_type.get_char(
        2,
    ) == 's';
    proof {
        if r {
            assert(model_type@ =~= ols_tag());
        } else {
            assert(model_type@ != ols_tag()) by {
                if model_type@ == ols_tag() {
                    assert(model_type@[0] == 'o');
                    assert(model_type@[1] == 'l');
                    assert(model_type@[2] == 's');
                }
            }
        }
    }
    r
}

/// The lag orders `(min, max)` to try on a series of `n` values for the
/// model named by `model_type`.
pub fn determine_lag_range(n: usize, model_type: &str) -> (r: (u32, u32))
    ensures
        (r.0 as nat, r.1 as nat) == lag_range(n as nat, model_type@),
{
    if is_ols_tag(model_type) {
        let half: usize = if n >= 3 {
            (n - 3) / 2
        } else {
            0
        };
        let max_lag: u32 = if half < LAG_CAP as usize {
            half as u32
        } else {
            LAG_CAP
        };
        (0, max_lag)
    } else {
        (0, 1)
    }
}

/// The lag range to search, or `None` where the series is too short to be
/// searched and the degenerate outcome stands.
pub fn search_range(n: usize, model_type: &str) -> (r: Option<(u32, u32)>)
    ensures
        r.is_none() <==> n < MIN_SERIES_LEN,
        r.is_some() ==> (r.unwrap().0 as nat, r.unwrap().1 as nat) == lag_range(
            n as nat,
            model_type@,
        ),
{
    if n < MIN_SERIES_LEN {
        None
    } else {
        Some(determine_lag_range(n, model_type))
    }
}

/// Every lag range starts at 0 and is not empty; for the full model its end
/// is at most 12, and 0 on a series of fewer than 3 values.
pub proof fn lemma_lag_range_valid(n: nat, tag: Seq<char>)
    ensures
        lag_range(n, tag).0 == 0,
        lag_range(n, tag).0 <= lag_range(n, tag).1,
        tag == ols_tag() ==> lag_range(n, tag).1 <= 12,
        tag == ols_tag() && n < 3 ==> lag_range(n, tag).1 == 0,
{
}

} // verus!
