use crunch::backoff::{backoff_wait_seconds, Backoff};
use crunch::supervisor::{
    after_batch, after_subscription, classify, severity, ErrorKind, Recovery, Severity,
    RESUBSCRIBE_SECONDS,
};

#[test]
fn wait_is_sixty_times_base_to_the_attempt() {
    assert_eq!(backoff_wait_seconds(2, 1), 120);
    assert_eq!(backoff_wait_seconds(2, 3), 480);
    assert_eq!(backoff_wait_seconds(5, 2), 1500);
    assert_eq!(backoff_wait_seconds(7, 0), 60);
    assert_eq!(backoff_wait_seconds(0, 4), 0);
    assert_eq!(backoff_wait_seconds(1, 1000), 60);
}

#[test]
fn wait_saturates_instead_of_overflowing() {
    assert_eq!(backoff_wait_seconds(2, 64), u64::MAX);
    assert_eq!(backoff_wait_seconds(u32::MAX, u32::MAX), u64::MAX);
    // 60 * 2^58 still fits, 60 * 2^59 does not
    assert_eq!(backoff_wait_seconds(2, 58), 60u64 << 58);
    assert_eq!(backoff_wait_seconds(2, 59), u64::MAX);
}

#[test]
fn subscription_ended_three_times_keeps_counter_at_one() {
    let mut b = Backoff::new(3);
    for _ in 0..3 {
        let pause = after_subscription(&mut b, Err(ErrorKind::SubscriptionEnded));
        assert_eq!(pause, RESUBSCRIBE_SECONDS);
        assert_eq!(b.attempt, 1);
    }
}

#[test]
fn three_generic_failures_grow_the_wait() {
    let base: u64 = 3;
    let mut b = Backoff::new(base as u32);
    let waits: Vec<u64> = (0..3)
        .map(|_| after_subscription(&mut b, Err(ErrorKind::GenericRuntimeFailure)))
        .collect();
    assert_eq!(waits, vec![60 * base, 60 * base * base, 60 * base * base * base]);
    assert_eq!(b.attempt, 4);
}

#[test]
fn soft_failure_does_not_grow_the_counter() {
    let mut b = Backoff::new(2);
    after_subscription(&mut b, Err(ErrorKind::GenericRuntimeFailure));
    assert_eq!(b.attempt, 2);
    let pause = after_subscription(&mut b, Err(ErrorKind::SoftNotificationFailure));
    assert_eq!(pause, 1);
    assert_eq!(b.attempt, 2);
    let pause = after_subscription(&mut b, Err(ErrorKind::ConnectionFailure));
    assert_eq!(pause, 240);
    assert_eq!(b.attempt, 3);
}

#[test]
fn completed_subscription_resets_counter() {
    let mut b = Backoff::new(2);
    after_subscription(&mut b, Err(ErrorKind::ExternalApiFailure));
    assert_eq!(b.attempt, 2);
    assert_eq!(after_subscription(&mut b, Ok(())), 0);
    assert_eq!(b.attempt, 1);
}

#[test]
fn batch_mode_backs_off_on_every_kind_and_resets_on_success() {
    let mut b = Backoff::new(2);
    assert_eq!(after_batch(&mut b, Err(ErrorKind::SubscriptionEnded), 900), 120);
    assert_eq!(after_batch(&mut b, Err(ErrorKind::SoftNotificationFailure), 900), 240);
    assert_eq!(b.attempt, 3);
    assert_eq!(after_batch(&mut b, Ok(()), 900), 900);
    assert_eq!(b.attempt, 1);
    assert_eq!(after_batch(&mut b, Err(ErrorKind::GenericRuntimeFailure), 900), 120);
}

#[test]
fn counter_stops_at_its_largest_value() {
    let mut b = Backoff { attempt: u32::MAX, base: 2 };
    b.record_failure();
    assert_eq!(b.attempt, u32::MAX);
    assert_eq!(b.wait_seconds(), u64::MAX);
    b.reset();
    assert_eq!(b.attempt, 1);
    assert_eq!(b.wait_seconds(), 120);
}

#[test]
fn classifier_and_severity() {
    assert_eq!(classify(ErrorKind::SubscriptionEnded), Recovery::RetryNow);
    assert_eq!(classify(ErrorKind::SoftNotificationFailure), Recovery::LogAndContinue);
    assert_eq!(classify(ErrorKind::GenericRuntimeFailure), Recovery::RetryWithBackoff);
    assert_eq!(classify(ErrorKind::ConnectionFailure), Recovery::RetryWithBackoff);
    assert_eq!(classify(ErrorKind::ExternalApiFailure), Recovery::RetryWithBackoff);
    assert_eq!(severity(ErrorKind::SubscriptionEnded), Severity::Warning);
    assert_eq!(severity(ErrorKind::SoftNotificationFailure), Severity::Warning);
    assert_eq!(severity(ErrorKind::GenericRuntimeFailure), Severity::Error);
}
