use strategy_core::error::InvalidArgument;
use strategy_core::moving_average::moving_average_window;

/// The mean as a caller takes it from the window: the sum over the period.
fn mean_of_window(prices: &[f64], period: usize) -> Result<Option<f64>, InvalidArgument> {
    let window = moving_average_window(prices, period)?;
    Ok(window.map(|samples| samples.iter().sum::<f64>() / period as f64))
}

#[test]
fn moving_average_of_five_over_three() {
    let prices = [1.0, 2.0, 3.0, 4.0, 5.0];
    assert_eq!(
        moving_average_window(&prices, 3),
        Ok(Some(&[3.0, 4.0, 5.0][..]))
    );
    assert_eq!(mean_of_window(&prices, 3), Ok(Some(4.0)));
}

#[test]
fn moving_average_of_two_over_three_is_undefined() {
    assert_eq!(moving_average_window(&[1.0, 2.0], 3), Ok(None));
    assert_eq!(mean_of_window(&[1.0, 2.0], 3), Ok(None));
}

#[test]
fn moving_average_ignores_older_history() {
    let longer = [0.0, 1.0, 2.0, 3.0, 4.0, 5.0];
    let shorter = [1.0, 2.0, 3.0, 4.0, 5.0];
    assert_eq!(
        moving_average_window(&longer, 3),
        moving_average_window(&shorter, 3)
    );
    assert_eq!(mean_of_window(&longer, 3), mean_of_window(&shorter, 3));
    assert_eq!(mean_of_window(&longer, 3), Ok(Some(4.0)));
}

#[test]
fn moving_average_refuses_zero_period_whatever_the_data() {
    let none: [f64; 0] = [];
    assert_eq!(
        moving_average_window(&none, 0),
        Err(InvalidArgument::ZeroPeriod)
    );
    assert_eq!(
        moving_average_window(&[1.0], 0),
        Err(InvalidArgument::ZeroPeriod)
    );
    assert_eq!(
        moving_average_window(&[1.0, 2.0, 3.0], 0),
        Err(InvalidArgument::ZeroPeriod)
    );
}

#[test]
fn moving_average_over_the_whole_series() {
    let prices = [2.0, 4.0, 9.0];
    assert_eq!(moving_average_window(&prices, 3), Ok(Some(&prices[..])));
    assert_eq!(mean_of_window(&prices, 3), Ok(Some(5.0)));
}

#[test]
fn moving_average_over_one_sample_is_the_last_sample() {
    let prices = [2.0, 4.0, 9.0];
    assert_eq!(moving_average_window(&prices, 1), Ok(Some(&[9.0][..])));
    assert_eq!(mean_of_window(&prices, 1), Ok(Some(9.0)));
}

#[test]
fn moving_average_of_nothing_is_undefined() {
    let none: [f64; 0] = [];
    assert_eq!(moving_average_window(&none, 1), Ok(None));
}

#[test]
fn moving_average_one_sample_short_is_undefined() {
    assert_eq!(moving_average_window(&[1.0, 2.0, 3.0], 4), Ok(None));
    assert_eq!(moving_average_window(&[1.0, 2.0, 3.0], usize::MAX), Ok(None));
}

#[test]
fn moving_average_window_keeps_the_order_of_the_samples() {
    let prices = [5, 1, 4, 2, 3];
    assert_eq!(moving_average_window(&prices, 4), Ok(Some(&[1, 4, 2, 3][..])));
}

#[test]
fn moving_average_window_is_the_same_on_every_call() {
    let prices = [1.5, 2.5, 3.5, 4.5];
    assert_eq!(
        moving_average_window(&prices, 2),
        moving_average_window(&prices, 2)
    );
    assert_eq!(mean_of_window(&prices, 2), Ok(Some(4.0)));
    assert_eq!(mean_of_window(&prices, 2), mean_of_window(&prices, 2));
}
