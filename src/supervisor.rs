use vstd::prelude::*;

use crate::backoff::Backoff;

verus! {

/// Seconds to pause before trying again to connect to the node.
pub const CONNECT_RETRY_SECONDS: u64 = 6;

/// Seconds to pause before resubscribing after an expected end of the stream
/// or a notification that could not be delivered.
pub const RESUBSCRIBE_SECONDS: u64 = 1;

/// The kinds of failure that the run loops tell apart.
#[derive(Clone, Copy, Debug, PartialEq, Eq, Structural)]
pub enum ErrorKind {
    /// The node could not be reached.
    ConnectionFailure,
    /// The node closed the event stream.
    SubscriptionEnded,
    /// An outbound notification could not be delivered.
    SoftNotificationFailure,
    /// Any other failure of a run.
    GenericRuntimeFailure,
    /// A call to an outside web service failed.
    ExternalApiFailure,
}

/// What a run loop does about a failure.
#[derive(Clone, Copy, Debug, PartialEq, Eq, Structural)]
pub enum Recovery {
    /// Reconnect after a short fixed pause; the attempt counter stays.
    RetryNow,
    /// Log the failure, reconnect after a short fixed pause; the counter stays.
    LogAndContinue,
    /// Reconnect after the backoff wait; the counter grows.
    RetryWithBackoff,
}

/// How loudly a failure is reported.
#[derive(Clone, Copy, Debug, PartialEq, Eq, Structural)]
pub enum Severity {
    Warning,
    Error,
}

/// The recovery that the subscription loop applies to each kind of failure.
pub open spec fn spec_classify(kind: ErrorKind) -> Recovery {
    match kind {
        ErrorKind::SubscriptionEnded => Recovery::RetryNow,
        ErrorKind::SoftNotificationFailure => Recovery::LogAndContinue,
        _ => Recovery::RetryWithBackoff,
    }
}

/// Maps a failure of the subscription loop to its recovery.
pub fn classify(kind: ErrorKind) -> (r: Recovery)
    ensures
        r == spec_classify(kind),
{
    match kind {
        ErrorKind::SubscriptionEnded => Recovery::RetryNow,
        ErrorKind::SoftNotificationFailure => Recovery::LogAndContinue,
        _ => Recovery::RetryWithBackoff,
    }
}

/// Expected conditions are warnings; the others are errors.
pub fn severity(kind: ErrorKind) -> (r: Severity)
    ensures
        r == (if spec_classify(kind) == Recovery::RetryWithBackoff {
            Severity::Error
        } else {
            Severity::Warning
        }),
{
    match classify(kind) {
        Recovery::RetryWithBackoff => Severity::Error,
        _ => Severity::Warning,
    }
}

/// Decides what follows one run of the event subscription: returns the pause,
/// in seconds, before the next connection.
///
/// A stream that returned without error is a completed cycle: the counter goes
/// back to one and the loop reconnects at once. An ended stream or a soft
/// failure pauses briefly and leaves the counter as it was. Any other failure
/// waits `60 * base^n` seconds and counts one more attempt.
pub fn after_subscription(backoff: &mut Backoff, outcome: Result<(), ErrorKind>) -> (pause: u64)
    requires
        old(backoff).wf(),
    ensures
        final(backoff).wf(),
        final(backoff).base == old(backoff).base,
        match outcome {
            Ok(()) => pause == 0 && final(backoff).attempt == 1,
            Err(kind) => match spec_classify(kind) {
                Recovery::RetryWithBackoff => pause == old(backoff).spec_wait()
                    && final(backoff).attempt == Backoff::next_attempt(old(backoff).attempt),
                _ => pause == RESUBSCRIBE_SECONDS && final(backoff).attempt == old(
                    backoff,
                ).attempt,
            },
        },
{
    match outcome {
        Ok(()) => {
            backoff.reset();
            0
        },
        Err(kind) => match classify(kind) {
            Recovery::RetryWithBackoff => {
                let wait = backoff.wait_seconds();
                backoff.record_failure();
                wait
            },
            _ => RESUBSCRIBE_SECONDS,
        },
    }
}

/// Decides what follows one batch run: returns the pause, in seconds, before
/// the next connection.
///
/// Success waits the configured interval and sets the counter back to one.
/// Every failure, whatever its kind, waits `60 * base^n` seconds and counts
/// one more attempt.
pub fn after_batch(backoff: &mut Backoff, outcome: Result<(), ErrorKind>, interval: u64) -> (pause: u64)
    requires
        old(backoff).wf(),
    ensures
        final(backoff).wf(),
        final(backoff).base == old(backoff).base,
        match outcome {
            Ok(()) => pause == interval && final(backoff).attempt == 1,
            Err(_) => pause == old(backoff).spec_wait() && final(backoff).attempt
                == Backoff::next_attempt(old(backoff).attempt),
        },
{
    match outcome {
        Ok(()) => {
            backoff.reset();
            interval
        },
        Err(_) => {
            let wait = backoff.wait_seconds();
            backoff.record_failure();
            wait
        },
    }
}

} // verus!
