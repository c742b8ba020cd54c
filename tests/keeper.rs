use jarl::{delay_text, ConfigError, Keeper};

fn keeper(limit: u32, period: u32) -> Keeper {
    Keeper::new(limit, period).unwrap()
}

#[test]
fn base_delay_values() {
    let keeper_1 = keeper(1, 1);
    assert_eq!(keeper_1.base_delay_millis(), 1000);

    let keeper_2 = keeper(10, 1);
    assert_eq!(keeper_2.base_delay_millis(), 100);

    let keeper_3 = keeper(10000, 1);
    assert_eq!(keeper_3.base_delay_millis(), 10);
}

#[test]
fn reject_period_of_zero() {
    assert!(matches!(Keeper::new(1, 0), Err(ConfigError::ZeroPeriod)));
}

#[test]
fn reject_max_zero_requests() {
    assert!(matches!(Keeper::new(0, 1), Err(ConfigError::ZeroLimit)));
}

#[test]
fn zero_limit_reported_before_zero_period() {
    assert!(matches!(Keeper::new(0, 0), Err(ConfigError::ZeroLimit)));
    assert!(matches!(Keeper::new(0, 5), Err(ConfigError::ZeroLimit)));
    assert!(matches!(Keeper::new(3, 0), Err(ConfigError::ZeroPeriod)));
}

#[test]
fn minimum_rate() {
    let mut keeper = keeper(1, 1);
    let t: u64 = 1_700_000_000_000;

    keeper.record_attempt_at(t);
    // A second request within a second gets some delay.
    let delay_1 = keeper.record_attempt_at(t);
    assert!(delay_1 > 0, "Delay should be greater than 0.");

    // After waiting the delay, the keeper resets.
    let delay_2 = keeper.record_attempt_at(t + delay_1 as u64);
    assert!(keeper.backoff_count() == 0, "Backoff count should have reset.");
    assert!(delay_2 == 0, "Delay should be 0 after a reset.");
}

#[test]
fn normal_rate() {
    let mut keeper = keeper(100, 5);
    let t: u64 = 1_700_000_000_000;

    for _ in 0..100 {
        assert!(keeper.record_attempt_at(t) == 0, "Delay for requests within rate limit should be 0.");
    }
    // The 101st request within the period gets some delay.
    let delay_1 = keeper.record_attempt_at(t);
    assert!(delay_1 > 0, "Delay should be greater than 0.");

    // After waiting the delay, the keeper resets.
    let delay_2 = keeper.record_attempt_at(t + delay_1 as u64);
    assert!(keeper.backoff_count() == 0, "Backoff count should have reset.");
    assert!(delay_2 == 0, "Delay should be 0 after a reset.");
}

#[test]
fn delay_formula_exact() {
    // limit 1, period 1 s: base delay 1000 ms.
    let mut keeper = keeper(1, 1);
    assert_eq!(keeper.record_attempt_at(5000), 0);
    // diff 100 ms: 1000 * 1 + (1000 - 100)
    assert_eq!(keeper.record_attempt_at(5100), 1900);
    assert_eq!(keeper.backoff_count(), 1);
    // diff 100 ms again: 1000 * 2 + 900
    assert_eq!(keeper.record_attempt_at(5200), 2900);
    assert_eq!(keeper.backoff_count(), 2);
}

#[test]
fn escalation_is_strict() {
    let mut keeper = keeper(2, 1);
    assert_eq!(keeper.record_attempt_at(0), 0);
    assert_eq!(keeper.record_attempt_at(0), 0);
    // base delay 500 ms; the oldest entry is 0, diff 10.
    assert_eq!(keeper.record_attempt_at(10), 500 + 990);
    let first = keeper.backoff_count();
    // The oldest entry is now 0 again, diff 20.
    assert_eq!(keeper.record_attempt_at(20), 1000 + 980);
    let second = keeper.backoff_count();
    assert!(second > first);
}

#[test]
fn within_rate_resets_any_backoff() {
    let mut keeper = keeper(1, 2);
    keeper.record_attempt_at(0);
    for i in 1..6u64 {
        assert!(keeper.record_attempt_at(i) > 0);
    }
    assert_eq!(keeper.backoff_count(), 5);
    // Exactly one period after the oldest entry is within the rate.
    assert_eq!(keeper.record_attempt_at(2005), 0);
    assert_eq!(keeper.backoff_count(), 0);
}

#[test]
fn window_never_exceeds_capacity() {
    let mut keeper = keeper(3, 1);
    assert_eq!(keeper.window_size(), 0);
    keeper.record_attempt_at(1);
    assert_eq!(keeper.window_size(), 1);
    keeper.record_attempt_at(2);
    assert_eq!(keeper.window_size(), 2);
    for i in 3..50u64 {
        keeper.record_attempt_at(i * 7);
        assert!(keeper.window_size() <= 4);
    }
    assert_eq!(keeper.window_size(), 3);
}

#[test]
fn clock_going_back_lengthens_the_delay() {
    let mut keeper = keeper(1, 1);
    keeper.record_attempt_at(10_000);
    // diff is -500 ms: adjustment 1500 ms.
    assert_eq!(keeper.record_attempt_at(9_500), 1000 + 1500);
}

#[test]
fn getters_report_configuration() {
    let keeper = keeper(7, 3);
    assert_eq!(keeper.limit(), 7);
    assert_eq!(keeper.period_millis(), 3000);
    assert_eq!(keeper.base_delay_millis(), 428);
    assert_eq!(keeper.backoff_count(), 0);
}

#[test]
fn first_clock_attempt_is_free() {
    let mut keeper = keeper(2, 1);
    assert_eq!(keeper.get_delay(), Some(0));
    assert_eq!(keeper.window_size(), 1);
}

#[test]
fn backoff_term_rounds_once() {
    // limit 7, period 3 s: the even spacing is 3000/7 ms.
    let mut keeper = keeper(7, 3);
    for _ in 0..7 {
        assert_eq!(keeper.record_attempt_at(0), 0);
    }
    // backoff 1: 3000/7 = 428, plus 3000 - 0
    assert_eq!(keeper.record_attempt_at(0), 428 + 3000);
    // backoff 2: 6000/7 = 857, not 2 * 428
    assert_eq!(keeper.record_attempt_at(0), 857 + 3000);
}

#[test]
fn floor_term_scales_with_backoff() {
    // limit 10000, period 1 s: the 10 ms floor applies at every backoff.
    let mut keeper = keeper(10000, 1);
    for _ in 0..10000 {
        assert_eq!(keeper.record_attempt_at(0), 0);
    }
    assert_eq!(keeper.record_attempt_at(0), 10 + 1000);
    assert_eq!(keeper.record_attempt_at(0), 20 + 1000);
}

#[test]
fn millis_beyond_u64_are_refused() {
    let mut keeper = keeper(1, 1);
    assert_eq!(keeper.record_attempt_at_millis(u64::MAX as u128 + 1), None);
    assert_eq!(keeper.window_size(), 0);
    assert_eq!(keeper.record_attempt_at_millis(5000), Some(0));
    assert_eq!(keeper.record_attempt_at_millis(5100), Some(1900));
    assert_eq!(keeper.window_size(), 1);
}

#[test]
fn delay_text_has_three_decimals() {
    assert_eq!(delay_text(0), b"0.000".to_vec());
    assert_eq!(delay_text(1234), b"1.234".to_vec());
    assert_eq!(delay_text(7), b"0.007".to_vec());
    assert_eq!(delay_text(90), b"0.090".to_vec());
    assert_eq!(delay_text(1_000_000), b"1000.000".to_vec());
    assert_eq!(delay_text(12_345_678), b"12345.678".to_vec());
}
