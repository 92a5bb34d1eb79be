use xpy_engine::error::{XPyError, XPyResult};
use xpy_engine::path::{displacement_ends, terminal_value, window_ends};
use xpy_engine::samples::settle_samples;

fn value_error(detail: &str) -> XPyError {
    XPyError::ValueError(String::from(detail))
}

#[test]
fn terminal_value_is_the_last_value_of_the_path() {
    assert_eq!(terminal_value(&vec![0.0f64, 0.5, -1.25]), Ok(-1.25));
    assert_eq!(terminal_value(&vec![7.0f64]), Ok(7.0));
}

#[test]
fn terminal_value_of_an_empty_path_is_a_value_error() {
    assert_eq!(
        terminal_value(&Vec::<f64>::new()),
        Err(value_error("Failed to get last element"))
    );
}

#[test]
fn displacement_ends_start_at_the_paths_own_origin() {
    assert_eq!(displacement_ends(&vec![3.0f64, 4.0, 8.5]), Ok((3.0, 8.5)));
    assert_eq!(displacement_ends(&vec![3.0f64]), Ok((3.0, 3.0)));
    assert_eq!(
        displacement_ends(&Vec::<f64>::new()),
        Err(value_error("Failed to get last element"))
    );
}

#[test]
fn window_ends_reach_back_the_lag_from_the_end() {
    let path = vec![0.0f64, 1.0, 4.0, 9.0, 16.0];
    assert_eq!(window_ends(&path, 2), Ok((4.0, 16.0)));
    assert_eq!(window_ends(&path, 4), Ok((0.0, 16.0)));
    assert_eq!(window_ends(&path, 0), Ok((16.0, 16.0)));
}

#[test]
fn window_ends_of_a_short_path_are_a_value_error() {
    let path = vec![0.0f64, 1.0, 4.0];
    let short = Err(value_error("Failed to get last element or slag position"));
    assert_eq!(window_ends(&path, 3), short);
    assert_eq!(window_ends(&path, usize::MAX), short);
    assert_eq!(window_ends(&Vec::<f64>::new(), 0), short);
}

#[test]
fn squared_window_displacement_of_a_straight_path() {
    let path: Vec<f64> = (0..=1000).map(|k| 0.01 * k as f64).collect();
    let (from, to) = window_ends(&path, 100).unwrap();
    assert!(((to - from) * (to - from) - 1.0).abs() < 1e-9);
}

#[test]
fn settled_samples_keep_every_sample_in_order() {
    let outcomes: Vec<XPyResult<f64>> = vec![Ok(1.5), Ok(-2.0), Ok(0.25), Ok(8.0)];
    assert_eq!(settle_samples(outcomes), Ok(vec![1.5, -2.0, 0.25, 8.0]));
}

#[test]
fn settled_samples_of_no_draws_are_empty() {
    let outcomes: Vec<XPyResult<f64>> = Vec::new();
    assert_eq!(settle_samples(outcomes), Ok(Vec::new()));
}

#[test]
fn one_failed_draw_fails_the_whole_estimate() {
    let outcomes: Vec<XPyResult<f64>> = vec![Ok(1.0), Ok(2.0), Err(value_error("boom")), Ok(4.0)];
    assert_eq!(settle_samples(outcomes), Err(value_error("boom")));
}

#[test]
fn the_first_failed_draw_is_the_one_reported() {
    let outcomes: Vec<XPyResult<u8>> = vec![
        Ok(1),
        Err(value_error("first")),
        Ok(3),
        Err(XPyError::GaussLegendreError(String::from("second"))),
        Err(value_error("third")),
    ];
    assert_eq!(settle_samples(outcomes), Err(value_error("first")));
    let outcomes: Vec<XPyResult<u8>> = vec![Err(value_error("only"))];
    assert_eq!(settle_samples(outcomes), Err(value_error("only")));
}

#[test]
fn settled_samples_give_the_same_mean_on_every_run() {
    let average = |outcomes: Vec<XPyResult<f64>>| -> f64 {
        let samples = settle_samples(outcomes).unwrap();
        samples.iter().sum::<f64>() / samples.len() as f64
    };
    let first = average(vec![Ok(0.1), Ok(0.2), Ok(0.3)]);
    let again = average(vec![Ok(0.1), Ok(0.2), Ok(0.3)]);
    assert_eq!(first.to_bits(), again.to_bits());
}
