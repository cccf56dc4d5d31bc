use atb::backoff::{
    backoff_with_jitter, exponential_backoff_ms, pow2_u64, ReconnectState, RetryState, RetryStep,
    DEFAULT_MAX_BACKOFF_MS,
};

#[test]
fn backoff_values() {
    assert_eq!(pow2_u64(0), 1);
    assert_eq!(pow2_u64(10), 1024);
    assert_eq!(pow2_u64(63), 1u64 << 63);
    assert_eq!(backoff_with_jitter(3, 32000, 500), 508);
    assert_eq!(backoff_with_jitter(20, 32000, 0), 32000);
    assert_eq!(backoff_with_jitter(63, u64::MAX, 999), (1u64 << 63) + 999);
    assert_eq!(DEFAULT_MAX_BACKOFF_MS, 32000);
}

#[test]
fn backoff_with_random_jitter_is_bounded() {
    for count in 0..20u64 {
        let b = exponential_backoff_ms(count, DEFAULT_MAX_BACKOFF_MS);
        let base = 1u64 << count;
        assert!(b <= DEFAULT_MAX_BACKOFF_MS);
        assert!(b == DEFAULT_MAX_BACKOFF_MS || (base <= b && b < base + 1000));
    }
}

#[test]
fn retries_stop_at_the_budget() {
    let mut s = RetryState::new(2);
    assert_eq!(s.on_error(true), RetryStep::Retry { attempt: 1 });
    assert_eq!(s.on_error(true), RetryStep::Retry { attempt: 2 });
    assert_eq!(s.on_error(true), RetryStep::GiveUp);
    assert_eq!(s.attempts(), 2);
}

#[test]
fn non_retryable_error_gives_up_at_once() {
    let mut s = RetryState::new(5);
    assert_eq!(s.on_error(false), RetryStep::GiveUp);
    assert_eq!(s.attempts(), 0);
}

#[test]
fn zero_budget_never_retries() {
    let mut s = RetryState::new(0);
    assert_eq!(s.on_error(true), RetryStep::GiveUp);
}

#[test]
fn reconnect_counts_failures_and_resets() {
    let mut r = ReconnectState::new();
    assert_eq!(r.on_connect_error(), 0);
    assert_eq!(r.on_connect_error(), 1);
    assert_eq!(r.connection_attempts, 2);
    r.on_connected();
    assert_eq!(r.connection_attempts, 0);
}

#[test]
fn backoff_exponent_is_the_count_as_u32() {
    let b = exponential_backoff_ms((1u64 << 32) + 3, u64::MAX);
    assert!((8..8 + 1000).contains(&b));
}
