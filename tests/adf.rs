use adf_test::classify::{determine_stationarity, CRITICAL_5_PERCENT_KEY, SIGNIFICANCE_KEY};
use adf_test::design::{build_design, regression_shape};
use adf_test::lags::{determine_lag_range, is_ols_tag, search_range};
use adf_test::order::order_key;
use adf_test::pvalue::{locate_statistic, Bracket};
use adf_test::select::{select_lag_index, UNBEATEN_SCORE};

fn key(x: f64) -> i64 {
    order_key(x.to_bits())
}

#[test]
fn order_key_follows_real_order() {
    let values = [f64::NEG_INFINITY, -4.98, -2.86, -0.5, 0.0, 1e-300, 0.05, 2.34, f64::INFINITY];
    for w in values.windows(2) {
        assert!(key(w[0]) < key(w[1]), "{} < {}", w[0], w[1]);
    }
    assert_eq!(key(0.0), 0);
    assert_eq!(key(-0.0), 0);
    assert_eq!(key(1.5), 0x3ff8_0000_0000_0000);
    assert_eq!(key(-1.5), -0x3ff8_0000_0000_0000);
}

#[test]
fn threshold_keys_match_their_values() {
    assert_eq!(key(-2.86), CRITICAL_5_PERCENT_KEY);
    assert_eq!(key(0.05), SIGNIFICANCE_KEY);
    assert_eq!(key(f64::INFINITY), UNBEATEN_SCORE);
}

#[test]
fn classifier_boundary_is_not_stationary() {
    assert!(!determine_stationarity(key(-2.86), key(0.05)));
}

#[test]
fn classifier_cases() {
    assert!(determine_stationarity(key(-2.87), key(0.05)));
    assert!(determine_stationarity(key(-4.0), key(0.001)));
    assert!(!determine_stationarity(key(-4.0), key(0.0500001)));
    assert!(!determine_stationarity(key(-1.0), key(0.01)));
    assert!(!determine_stationarity(key(0.0), key(1.0)));
}

#[test]
fn ols_tag_recognised() {
    assert!(is_ols_tag("ols"));
    assert!(!is_ols_tag("OLS"));
    assert!(!is_ols_tag("ol"));
    assert!(!is_ols_tag("olss"));
    assert!(!is_ols_tag(""));
}

#[test]
fn lag_range_ols() {
    assert_eq!(determine_lag_range(8, "ols"), (0, 2));
    assert_eq!(determine_lag_range(9, "ols"), (0, 3));
    assert_eq!(determine_lag_range(27, "ols"), (0, 12));
    assert_eq!(determine_lag_range(28, "ols"), (0, 12));
    assert_eq!(determine_lag_range(1000, "ols"), (0, 12));
    assert_eq!(determine_lag_range(3, "ols"), (0, 0));
    assert_eq!(determine_lag_range(4, "ols"), (0, 0));
}

#[test]
fn lag_range_short_series() {
    assert_eq!(determine_lag_range(0, "ols"), (0, 0));
    assert_eq!(determine_lag_range(2, "ols"), (0, 0));
}

#[test]
fn lag_range_other_tags() {
    assert_eq!(determine_lag_range(100, "ct"), (0, 1));
    assert_eq!(determine_lag_range(2, ""), (0, 1));
}

#[test]
fn degenerate_series_is_not_searched() {
    assert_eq!(search_range(4, "ols"), None);
    assert_eq!(search_range(0, "ols"), None);
    assert_eq!(search_range(5, "ols"), Some((0, 1)));
}

#[test]
fn regression_shapes() {
    let s = regression_shape(8, 2).unwrap();
    assert_eq!((s.n_obs, s.n_params), (5, 4));
    let s = regression_shape(8, 0).unwrap();
    assert_eq!((s.n_obs, s.n_params), (7, 2));
    assert!(regression_shape(8, 3).is_none());
    assert!(regression_shape(3, 0).is_some());
    assert!(regression_shape(2, 0).is_none());
    assert!(regression_shape(0, 0).is_none());
    assert!(regression_shape(5, 4).is_none());
}

fn diffs_of(series: &[f64]) -> Vec<f64> {
    series.windows(2).map(|w| w[1] - w[0]).collect()
}

#[test]
fn alternating_series_candidates() {
    let series = vec![1.0, 2.0, 1.0, 2.0, 1.0, 2.0, 1.0, 2.0];
    let diffs = diffs_of(&series);
    let (lo, hi) = search_range(series.len(), "ols").unwrap();
    assert_eq!((lo, hi), (0, 2));
    let feasible: Vec<u32> = (lo..=hi)
        .filter(|&lag| build_design(&series, &diffs, lag, 1.0, 0.0).is_some())
        .collect();
    assert_eq!(feasible, vec![0, 1, 2]);

    let d = build_design(&series, &diffs, 2, 1.0, 0.0).unwrap();
    assert_eq!(d.response, vec![1.0, -1.0, 1.0, -1.0, 1.0]);
    assert_eq!(d.rows.len(), 5);
    assert_eq!(d.rows[0], vec![1.0, 1.0, -1.0, 1.0]);
    assert_eq!(d.rows[1], vec![1.0, 2.0, 1.0, -1.0]);
    assert_eq!(d.rows[4], vec![1.0, 1.0, -1.0, 1.0]);
}

#[test]
fn design_without_lags() {
    let series = vec![3.0, 5.0, 4.0, 8.0];
    let diffs = diffs_of(&series);
    let d = build_design(&series, &diffs, 0, 1.0, 0.0).unwrap();
    assert_eq!(d.response, vec![2.0, -1.0, 4.0]);
    assert_eq!(d.rows, vec![vec![1.0, 3.0], vec![1.0, 5.0], vec![1.0, 4.0]]);
}

#[test]
fn design_with_one_lag() {
    let series = vec![3.0, 5.0, 4.0, 8.0, 7.0];
    let diffs = diffs_of(&series);
    let d = build_design(&series, &diffs, 1, 1.0, 0.0).unwrap();
    assert_eq!(d.response, vec![-1.0, 4.0, -1.0]);
    assert_eq!(
        d.rows,
        vec![vec![1.0, 5.0, 2.0], vec![1.0, 4.0, -1.0], vec![1.0, 8.0, 4.0]]
    );
    assert!(build_design(&series, &diffs, 2, 1.0, 0.0).is_none());
}

#[test]
fn selection_takes_first_minimum() {
    assert_eq!(select_lag_index(&vec![Some(5), Some(3), Some(3), None]), Some(1));
    assert_eq!(select_lag_index(&vec![None, Some(-10), Some(-20)]), Some(2));
    assert_eq!(select_lag_index(&vec![Some(7)]), Some(0));
}

#[test]
fn selection_with_reals() {
    let aics = vec![Some(key(12.5)), Some(key(-3.25)), Some(key(-3.25)), Some(key(-1.0))];
    assert_eq!(select_lag_index(&aics), Some(1));
    let aics = vec![Some(key(f64::NEG_INFINITY)), Some(key(-3.25))];
    assert_eq!(select_lag_index(&aics), Some(0));
}

#[test]
fn selection_without_usable_candidate() {
    assert_eq!(select_lag_index(&vec![]), None);
    assert_eq!(select_lag_index(&vec![None, None]), None);
    assert_eq!(select_lag_index(&vec![Some(UNBEATEN_SCORE), None]), None);
    assert_eq!(select_lag_index(&vec![Some(UNBEATEN_SCORE), Some(4)]), Some(1));
}

#[test]
fn bracket_exact_keys() {
    let keys = vec![10, 20, 30, 40];
    assert_eq!(locate_statistic(&keys, 10), Bracket::At(0));
    assert_eq!(locate_statistic(&keys, 20), Bracket::At(1));
    assert_eq!(locate_statistic(&keys, 30), Bracket::At(2));
    assert_eq!(locate_statistic(&keys, 40), Bracket::At(3));
}

#[test]
fn bracket_clamps() {
    let keys = vec![10, 20, 30, 40];
    assert_eq!(locate_statistic(&keys, i64::MIN), Bracket::At(0));
    assert_eq!(locate_statistic(&keys, 9), Bracket::At(0));
    assert_eq!(locate_statistic(&keys, 41), Bracket::At(3));
    assert_eq!(locate_statistic(&keys, i64::MAX), Bracket::At(3));
    assert_eq!(locate_statistic(&vec![5], 5), Bracket::At(0));
    assert_eq!(locate_statistic(&vec![5], 6), Bracket::At(0));
}

#[test]
fn bracket_between() {
    let keys = vec![10, 20, 30, 40, 50];
    assert_eq!(locate_statistic(&keys, 11), Bracket::Between(0));
    assert_eq!(locate_statistic(&keys, 25), Bracket::Between(1));
    assert_eq!(locate_statistic(&keys, 39), Bracket::Between(2));
    assert_eq!(locate_statistic(&keys, 45), Bracket::Between(3));
}

#[test]
fn bracket_on_real_table() {
    let table = [-4.98402287309096, -4.95836394213414, 2.34198462884487];
    let keys: Vec<i64> = table.iter().map(|&x| key(x)).collect();
    assert_eq!(locate_statistic(&keys, key(-100.0)), Bracket::At(0));
    assert_eq!(locate_statistic(&keys, key(-4.98402287309096)), Bracket::At(0));
    assert_eq!(locate_statistic(&keys, key(-4.95836394213414)), Bracket::At(1));
    assert_eq!(locate_statistic(&keys, key(-4.97)), Bracket::Between(0));
    assert_eq!(locate_statistic(&keys, key(0.0)), Bracket::Between(1));
    assert_eq!(locate_statistic(&keys, key(100.0)), Bracket::At(2));
}
