//! Layout of the regression for one candidate lag order.
//!
//! For a series `y` with first differences `d` (`d[i] = y[i+1] - y[i]`) and a
//! lag order `p`, the response is `d[p..]` and row `i` of the design matrix
//! is `[1, y[p+i], d[p+i-1], ..., d[p+i-p]]`, where a difference whose index
//! would fall below zero is written as zero.
use vstd::prelude::*;

verus! {

/// The number of observations of the regression with lag order `lag` on a
/// series of `n` values.
pub open spec fn obs_count(n: nat, lag: nat) -> int {
    n - 1 - lag
}

/// The number of parameters of that regression: a constant, the lagged
/// level and `lag` lagged differences.
pub open spec fn param_count(lag: nat) -> int {
    lag + 2int
}

/// Whether a series of `n` values admits the regression with lag order `lag`:
/// the response is not empty and has no fewer entries than there are
/// parameters.
pub open spec fn feasible(n: nat, lag: nat) -> bool {
    obs_count(n, lag) > 0 && obs_count(n, lag) >= param_count(lag)
}

/// The entry in row `i` and column `j` of the design matrix.
pub open spec fn design_cell<T>(
    series: Seq<T>,
    diffs: Seq<T>,
    lag: nat,
    i: int,
    j: int,
    one: T,
    zero: T,
) -> T {
    let at = lag + i;
    if j == 0 {
        one
    } else if j == 1 {
        series[at]
    } else if at >= j - 1 {
        diffs[at - (j - 1)]
    } else {
        zero
    }
}

/// The shape of a regression: observations and parameters.
pub struct Shape {
    pub n_obs: usize,
    pub n_params: usize,
}

/// The shape of the regression with lag order `lag` on a series of `n`
/// values, or `None` where that regression is infeasible.
pub fn regression_shape(n: usize, lag: u32) -> (r: Option<Shape>)
    ensures
        r.is_some() <==> feasible(n as nat, lag as nat),
        r.is_some() ==> r.unwrap().n_obs == obs_count(n as nat, lag as nat)
            && r.unwrap().n_params == param_count(lag as nat),
{
    let lag = lag as usize;
    if n == 0 || n - 1 <= lag {
        return None;
    }
    let n_obs = n - 1 - lag;
    if n_obs < lag || n_obs - lag < 2 {
        return None;
    }
    Some(Shape { n_obs, n_params: lag + 2 })
}

/// A design matrix, one row per observation, and its response vector.
pub struct Design<T> {
    pub rows: Vec<Vec<T>>,
    pub response: Vec<T>,
}

/// Whether `design` is the regression of lag order `lag` on `series`, whose
/// first differences are `diffs`.
pub open spec fn is_design_of<T>(
    design: Design<T>,
    series: Seq<T>,
    diffs: Seq<T>,
    lag: nat,
    one: T,
    zero: T,
) -> bool {
    let n_obs = obs_count(series.len(), lag);
    let n_params = param_count(lag);
    &&& design.response@ == diffs.subrange(lag as int, diffs.len() as int)
    &&& design.rows@.len() == n_obs
    &&& forall|i: int|
        0 <= i < n_obs ==> #[trigger] design.rows@[i]@.len() == n_params
    &&& forall|i: int, j: int|
        0 <= i < n_obs && 0 <= j < n_params ==> #[trigger] design.rows@[i]@[j]
            == design_cell(series, diffs, lag, i, j, one, zero)
}

/// Builds the regression of lag order `lag` on `series`, given its first
/// differences `diffs`, with `one` and `zero` as the constant entries.
/// Returns `None` where the regression is infeasible.
pub fn build_design<T: Copy>(series: &Vec<T>, diffs: &Vec<T>, lag: u32, one: T, zero: T) -> (r:
    Option<Design<T>>)
    requires
        diffs@.len() + 1 == series@.len(),
    ensures
        r.is_some() <==> feasible(series@.len(), lag as nat),
        r.is_some() ==> is_design_of(r.unwrap(), series@, diffs@, lag as nat, one, zero),
{
    let n = series.len();
    let shape = match regression_shape(n, lag) {
        Some(s) => s,
        None => return None,
    };
    let lag = lag as usize;
    let n_obs = shape.n_obs;
    let n_params = shape.n_params;
    let ghost s = series@;
    let ghost d = diffs@;
    let mut rows: Vec<Vec<T>> = Vec::new();
    let mut response: Vec<T> = Vec::new();
    let mut i: usize = 0;
    while i < n_obs
        invariant
            s == series@,
            d == diffs@,
            d.len() + 1 == s.len(),
            n == s.len(),
            n_obs + lag + 1 == n,
            n_params == lag + 2,
            0 <= i <= n_obs,
            rows@.len() == i,
            response@ == d.subrange(lag as int, (lag + i) as int),
            forall|a: int| 0 <= a < i ==> #[trigger] rows@[a]@.len() == n_params,
            forall|a: int, b: int|
                0 <= a < i && 0 <= b < n_params ==> #[trigger] rows@[a]@[b]
                    == design_cell(s, d, lag as nat, a, b, one, zero),
        decreases n_obs - i,
    {
        let at = lag + i;
        let mut row: Vec<T> = Vec::new();
        row.push(one);
        row.push(series[at]);
        let mut j: usize = 1;
        while j <= lag
            invariant
                s == series@,
                d == diffs@,
                d.len() + 1 == s.len(),
                at == lag + i,
                at < d.len(),
                lag < d.len(),
                n == s.len(),
                1 <= j <= lag + 1,
                row@.len() == j + 1,
                forall|b: int|
                    0 <= b < j + 1 ==> #[trigger] row@[b] == design_cell(
                        s,
                        d,
                        lag as nat,
                        i as int,
                        b,
                        one,
                        zero,
                    ),
            decreases lag + 1 - j,
        {
            if at >= j {
                row.push(diffs[at - j]);
            } else {
                row.push(zero);
            }
            j = j + 1;
        }
        response.push(diffs[at]);
        rows.push(row);
        proof {
            assert(response@ =~= d.subrange(lag as int, (lag + i + 1) as int));
        }
        i = i + 1;
    }
    Some(Design { rows, response })
}

} // verus!
