use pixootop::average::{ratio_progress, Averaged, ConfigError, PROGRESS_RANGE, PROGRESS_STEPS};

#[test]
fn constants_describe_fifteen_columns_of_three_shades() {
    assert_eq!(PROGRESS_STEPS, 3);
    assert_eq!(PROGRESS_RANGE, 45);
    assert_eq!(PROGRESS_RANGE, 15 * PROGRESS_STEPS);
}

#[test]
fn new_window_is_filled_with_the_initial_value() {
    let mut full = Averaged::<4>::new(8);
    // Three of the four entries still hold 8, so the mean equals the scale.
    assert_eq!(full.next(8, 8), Ok(45));
    let mut empty = Averaged::<4>::new(0);
    // 8 / 4 = 2 of 8: a quarter of 45 is 11.25.
    assert_eq!(empty.next(8, 8), Ok(11));
}

#[test]
fn next_averages_over_the_whole_window() {
    let mut gpu = Averaged::<25>::new(0);
    // 100 / 25 = 4 percent: 1.8 rounds to 2.
    assert_eq!(gpu.next(100, 100), Ok(2));
    // 200 / 25 = 8 percent: 3.6 rounds to 4.
    assert_eq!(gpu.next(100, 100), Ok(4));
    for _ in 0..22 {
        assert!(gpu.next(100, 100).is_ok());
    }
    assert_eq!(gpu.next(100, 100), Ok(45));
    assert_eq!(gpu.next(100, 100), Ok(45));
    // One zero among 25 readings: 24 / 25 of 45 is 43.2.
    assert_eq!(gpu.next(0, 100), Ok(43));
}

#[test]
fn next_overwrites_the_oldest_reading() {
    let mut pair = Averaged::<2>::new(0);
    assert_eq!(pair.next(10, 10), Ok(23));
    assert_eq!(pair.next(10, 10), Ok(45));
    assert_eq!(pair.next(0, 10), Ok(23));
    assert_eq!(pair.next(0, 10), Ok(0));
    assert_eq!(pair.next(4, 10), Ok(9));
}

#[test]
fn window_of_one_follows_the_last_reading() {
    let mut single = Averaged::<1>::new(7);
    assert_eq!(single.next(50, 100), Ok(23));
    assert_eq!(single.next(0, 100), Ok(0));
    assert_eq!(single.next(100, 100), Ok(45));
}

#[test]
fn output_equals_the_rounded_mean_of_the_last_readings() {
    let readings: [u64; 9] = [3, 14, 15, 92, 65, 35, 89, 79, 32];
    let scale: u64 = 100;
    let mut smoother = Averaged::<3>::new(0);
    let mut window: Vec<u64> = vec![0, 0, 0];
    for reading in readings {
        window.remove(0);
        window.push(reading);
        let sum: u64 = window.iter().sum();
        let expected = ((sum as f64 / 3.0 / scale as f64) * 45.0).round() as u8;
        assert_eq!(smoother.next(reading, scale), Ok(expected));
    }
}

#[test]
fn output_never_exceeds_the_range() {
    let mut smoother = Averaged::<3>::new(0);
    for reading in [0u64, 1, 99, 100, 101, 1_000, u64::MAX, u64::MAX, u64::MAX, 0] {
        let progress = smoother.next(reading, 100).unwrap();
        assert!(progress <= 45);
    }
    assert_eq!(Averaged::<3>::new(u64::MAX).next(u64::MAX, 1), Ok(45));
}

#[test]
fn zero_scale_is_refused_and_changes_nothing() {
    let mut pair = Averaged::<2>::new(0);
    assert_eq!(pair.next(10, 10), Ok(23));
    assert_eq!(pair.next(10, 0), Err(ConfigError::ZeroScale));
    // The refused reading did not enter the window: it now holds 10 and 0.
    assert_eq!(pair.next(0, 10), Ok(23));
    assert_eq!(pair.next(0, 10), Ok(0));
}

#[test]
fn empty_window_is_refused() {
    let mut none = Averaged::<0>::new(5);
    assert_eq!(none.next(10, 10), Err(ConfigError::EmptyWindow));
    assert_eq!(none.next(10, 0), Err(ConfigError::ZeroScale));
}

#[test]
fn ratio_progress_rounds_half_up() {
    assert_eq!(ratio_progress(0, 100), Ok(0));
    assert_eq!(ratio_progress(1, 100), Ok(0));
    assert_eq!(ratio_progress(1, 90), Ok(1));
    assert_eq!(ratio_progress(1, 91), Ok(0));
    assert_eq!(ratio_progress(50, 100), Ok(23));
    assert_eq!(ratio_progress(49, 100), Ok(22));
    assert_eq!(ratio_progress(33, 100), Ok(15));
    assert_eq!(ratio_progress(99, 100), Ok(45));
    assert_eq!(ratio_progress(98, 100), Ok(44));
    assert_eq!(ratio_progress(100, 100), Ok(45));
}

#[test]
fn ratio_progress_caps_at_the_range() {
    assert_eq!(ratio_progress(101, 100), Ok(45));
    assert_eq!(ratio_progress(u64::MAX, 1), Ok(45));
    assert_eq!(ratio_progress(u64::MAX, u64::MAX), Ok(45));
}

#[test]
fn ratio_progress_is_exact_for_large_numbers() {
    assert_eq!(ratio_progress(u64::MAX - 1, u64::MAX), Ok(45));
    assert_eq!(ratio_progress(u64::MAX / 2, u64::MAX), Ok(22));
    assert_eq!(ratio_progress(u64::MAX / 2 + 1, u64::MAX), Ok(23));
    assert_eq!(ratio_progress(u64::MAX / 90, u64::MAX), Ok(0));
    assert_eq!(ratio_progress(u64::MAX / 90 + 1, u64::MAX), Ok(1));
}

#[test]
fn ratio_progress_refuses_a_zero_scale() {
    assert_eq!(ratio_progress(0, 0), Err(ConfigError::ZeroScale));
    assert_eq!(ratio_progress(7, 0), Err(ConfigError::ZeroScale));
}
