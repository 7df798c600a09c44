use froggi_ocr::cadence::{cycle_period, remaining, NANOS_PER_SECOND};

#[test]
fn period_of_five_per_second_is_200_ms() {
    assert_eq!(cycle_period(5), Some(200_000_000));
}

#[test]
fn period_of_one_per_second_is_one_second() {
    assert_eq!(cycle_period(1), Some(NANOS_PER_SECOND));
}

#[test]
fn period_rounds_up_to_a_whole_nanosecond() {
    assert_eq!(cycle_period(3), Some(333_333_334));
    assert_eq!(cycle_period(255), Some(3_921_569));
}

#[test]
fn rate_zero_has_no_period() {
    assert_eq!(cycle_period(0), None);
}

#[test]
fn short_cycle_sleeps_the_rest_of_the_period() {
    assert_eq!(remaining(200_000_000, 50_000_000), Some(150_000_000));
    assert_eq!(remaining(200_000_000, 0), Some(200_000_000));
    assert_eq!(remaining(200_000_000, 199_999_999), Some(1));
}

#[test]
fn cycle_that_uses_the_period_up_does_not_sleep() {
    assert_eq!(remaining(200_000_000, 200_000_000), None);
    assert_eq!(remaining(200_000_000, 350_000_000), None);
    assert_eq!(remaining(200_000_000, u128::MAX), None);
    assert_eq!(remaining(0, 0), None);
}

#[test]
fn cycle_and_sleep_last_at_least_one_period_at_every_rate() {
    let second = u128::from(NANOS_PER_SECOND);
    for rate in 1..=255u8 {
        let period = cycle_period(rate).unwrap();
        assert!(u128::from(period) * u128::from(rate) >= second);
        assert!(u128::from(period - 1) * u128::from(rate) < second);
        for elapsed in [0u128, 1, 1_000, u128::from(period) / 2, u128::from(period) - 1] {
            let sleep = remaining(period, elapsed).unwrap();
            assert!((elapsed + u128::from(sleep)) * u128::from(rate) >= second);
        }
        for elapsed in [u128::from(period), u128::from(period) + 1, 10 * second] {
            assert_eq!(remaining(period, elapsed), None);
        }
    }
}
