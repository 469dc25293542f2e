use twitch_discord_bot::backoff::BackoffPolicy;

#[test]
fn delay_doubles_and_clamps() {
    let mut p = BackoffPolicy::new(1000, 5000);
    assert_eq!(p.current_delay_ms, 1000);
    p.record_failure(0);
    assert_eq!(p.current_delay_ms, 2000);
    p.record_failure(0);
    assert_eq!(p.current_delay_ms, 4000);
    p.record_failure(0);
    assert_eq!(p.current_delay_ms, 5000);
    p.record_failure(0);
    assert_eq!(p.current_delay_ms, 5000);
    p.record_success();
    assert_eq!(p.current_delay_ms, 1000);
    assert_eq!(p.last_attempt_ms, None);
}

#[test]
fn fresh_policy_is_immediately_due() {
    let p = BackoffPolicy::new(2000, 120000);
    assert!(p.is_due(0));
    assert!(p.is_due(123456));
}

#[test]
fn due_only_after_delay_elapsed() {
    let mut p = BackoffPolicy::new(2000, 120000);
    p.record_failure(10_000);
    assert_eq!(p.current_delay_ms, 4000);
    assert!(!p.is_due(10_000));
    assert!(!p.is_due(13_999));
    assert!(p.is_due(14_000));
}

#[test]
fn three_failures_then_success() {
    // Delays in force at the three failed attempts: 2s, 4s, 8s; the
    // fourth attempt succeeds and the delay is back at 2s.
    let mut p = BackoffPolicy::new(2000, 120000);
    assert_eq!(p.current_delay_ms, 2000);
    p.record_failure(0);
    assert_eq!(p.current_delay_ms, 4000);
    assert_eq!(p.last_attempt_ms, Some(0));
    p.record_failure(4000);
    assert_eq!(p.current_delay_ms, 8000);
    p.record_failure(12_000);
    assert_eq!(p.current_delay_ms, 16_000);
    p.record_success();
    assert_eq!(p.current_delay_ms, 2000);
    assert_eq!(p.last_attempt_ms, None);
}
