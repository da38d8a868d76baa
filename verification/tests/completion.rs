use std::sync::{mpsc, Arc, Mutex};
use grafton_ndi::waitable_completion::{wait_step, WaitStep, WaitableCompletion};

fn ms(n: u64) -> u128 {
    std::time::Duration::from_millis(n).as_nanos()
}

#[test]
fn test_new_starts_incomplete() {
    let wc = WaitableCompletion::new();
    assert!(!wc.is_complete());
}

#[test]
fn test_new_completed_starts_complete() {
    let wc = WaitableCompletion::new_completed();
    assert!(wc.is_complete());
}

#[test]
fn test_signal_sets_complete() {
    let mut wc = WaitableCompletion::new();
    assert!(!wc.is_complete());
    wc.signal();
    assert!(wc.is_complete());
}

#[test]
fn test_reset_clears_complete() {
    let mut wc = WaitableCompletion::new_completed();
    assert!(wc.is_complete());
    wc.reset();
    assert!(!wc.is_complete());
}

#[test]
fn test_signal_before_wait() {
    let mut wc = WaitableCompletion::new();
    wc.signal();
    let result = wc.wait_timeout(ms(100));
    assert!(result.is_ok());
}

#[test]
fn test_timeout_expires() {
    let wc = WaitableCompletion::new();
    let result = wc.wait_timeout(ms(10));
    assert!(result.is_err());
    let message = result.unwrap_err();
    assert!(message.contains("did not complete"));
    assert!(message.contains("10ms"));
}

#[test]
fn test_clone_preserves_state() {
    let mut wc1 = WaitableCompletion::new();
    wc1.signal();

    let wc2 = wc1.clone();
    assert!(wc2.is_complete());
}

#[test]
fn test_clone_is_independent() {
    let mut wc1 = WaitableCompletion::new();
    let wc2 = wc1.clone();

    wc1.signal();
    assert!(wc1.is_complete());
    assert!(!wc2.is_complete());
}

#[test]
fn test_multiple_signals_are_idempotent() {
    let mut wc = WaitableCompletion::new();
    wc.signal();
    wc.signal();
    wc.signal();
    assert!(wc.is_complete());
}

#[test]
fn wait_step_waits_for_the_rest_of_the_timeout() {
    assert_eq!(wait_step(true, 0, 10), WaitStep::Complete);
    assert_eq!(wait_step(false, 3, 10), WaitStep::Wait(7));
    assert_eq!(wait_step(false, 10, 10), WaitStep::TimedOut);
    assert_eq!(wait_step(false, 12, 10), WaitStep::TimedOut);
}

#[test]
fn test_async_completion_handler() {
    let (tx, rx) = mpsc::channel();
    let tx = Arc::new(Mutex::new(tx));

    let handler = Box::new(move |slice: &mut [u8]| {
        assert!(!slice.is_empty());
        let _ = tx.lock().unwrap().send(slice.len());
    });

    let mut buffer = vec![0u8; 1024];
    handler(&mut buffer);

    assert_eq!(rx.recv().unwrap(), 1024);
}
