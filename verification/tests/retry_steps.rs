use grafton_ndi::capture::{capture_result, VideoKind};
use grafton_ndi::receiver::{
    remaining_budget, retry_begin, retry_step, RetryAction, RetryEvent, RetryPhase, RetryPolicy,
};
use grafton_ndi::Error;

const MS: u128 = 1_000_000;

fn policy_40_10() -> RetryPolicy {
    RetryPolicy { poll_interval: 40 * MS, sleep_between: 10 * MS }
}

#[test]
fn steps_shrink_the_second_poll_to_the_remaining_budget() {
    let policy = policy_40_10();
    let timeout = 50 * MS;
    let (s, a) = retry_begin::<i32>(timeout);
    assert!(matches!(a, RetryAction::ReadClock));
    let (s, a) = retry_step(timeout, &policy, s, RetryEvent::<i32>::Clock(0));
    assert!(matches!(a, RetryAction::Poll(p) if p == 40 * MS));
    assert_eq!(s.attempts, 1);
    let (s, a) = retry_step(timeout, &policy, s, RetryEvent::<i32>::Polled(Ok(None)));
    assert!(matches!(a, RetryAction::ReadClock));
    let (s, a) = retry_step(timeout, &policy, s, RetryEvent::<i32>::Clock(5 * MS));
    assert!(matches!(a, RetryAction::Sleep(d) if d == 10 * MS));
    let (s, a) = retry_step(timeout, &policy, s, RetryEvent::<i32>::Slept);
    assert!(matches!(a, RetryAction::ReadClock));
    let (s, a) = retry_step(timeout, &policy, s, RetryEvent::<i32>::Clock(15 * MS));
    assert!(matches!(a, RetryAction::Poll(p) if p == 35 * MS));
    assert_eq!(s.attempts, 2);
    let (s, a) = retry_step(timeout, &policy, s, RetryEvent::<i32>::Polled(Ok(None)));
    let (s, a) = match a {
        RetryAction::ReadClock => retry_step(timeout, &policy, s, RetryEvent::<i32>::Clock(50 * MS)),
        _ => panic!("expected a clock reading"),
    };
    assert_eq!(s.phase, RetryPhase::Done);
    assert!(matches!(a, RetryAction::Finish(Err(Error::FrameTimeout { attempts: 2, elapsed_nanos })) if elapsed_nanos == 50 * MS));
}

#[test]
fn zero_timeout_starts_with_one_poll_for_zero() {
    let policy = RetryPolicy::default();
    let (s, a) = retry_begin::<i32>(0);
    assert!(matches!(a, RetryAction::Poll(0)));
    assert_eq!(s.attempts, 1);
    let (_, a) = retry_step(0, &policy, s, RetryEvent::<i32>::Polled(Ok(Some(42))));
    assert!(matches!(a, RetryAction::Finish(Ok(42))));
}

#[test]
fn a_miss_at_the_end_of_a_zero_timeout_reports_one_attempt() {
    let policy = RetryPolicy::default();
    let (s, _) = retry_begin::<i32>(0);
    let (s, a) = retry_step(0, &policy, s, RetryEvent::<i32>::Polled(Ok(None)));
    assert!(matches!(a, RetryAction::ReadClock));
    let (_, a) = retry_step(0, &policy, s, RetryEvent::<i32>::Clock(3));
    assert!(matches!(a, RetryAction::Finish(Err(Error::FrameTimeout { attempts: 1, elapsed_nanos: 3 }))));
}

#[test]
fn poll_errors_end_the_capture() {
    let policy = policy_40_10();
    let (s, _) = retry_begin::<i32>(50 * MS);
    let (s, _) = retry_step(50 * MS, &policy, s, RetryEvent::<i32>::Clock(0));
    let (s, a) = retry_step(50 * MS, &policy, s, RetryEvent::<i32>::Polled(Err(Error::CaptureFailed("x".into()))));
    assert_eq!(s.phase, RetryPhase::Done);
    assert!(matches!(a, RetryAction::Finish(Err(Error::CaptureFailed(m))) if m == "x"));
}

#[test]
fn capture_results_by_frame_type() {
    assert!(matches!(capture_result(VideoKind::FRAME_TYPE, VideoKind::FRAME_TYPE), Ok(true)));
    assert!(matches!(capture_result(0, VideoKind::FRAME_TYPE), Ok(false)));
    assert!(matches!(capture_result(2, VideoKind::FRAME_TYPE), Ok(false)));
    match capture_result(4, VideoKind::FRAME_TYPE) {
        Err(Error::CaptureFailed(m)) => assert_eq!(m, "Received an error frame"),
        _ => panic!("expected a capture failure"),
    }
}

#[test]
fn remaining_budget_never_goes_below_zero() {
    assert_eq!(remaining_budget(50, 20), 30);
    assert_eq!(remaining_budget(50, 50), 0);
    assert_eq!(remaining_budget(50, 70), 0);
}
