use std::cell::Cell;

use upmc::retry::{backoff_delay, with_retry, RetryError};

#[test]
fn succeeds_after_failures_with_exact_attempt_count() {
    // fails twice, then succeeds: three invocations, success value returned
    let calls = Cell::new(0u32);
    let r = with_retry(
        5,
        1,
        |attempt: u32| -> Result<u32, String> {
            calls.set(calls.get() + 1);
            if attempt <= 2 {
                Err(format!("fail {attempt}"))
            } else {
                Ok(attempt * 10)
            }
        },
        |_d: u64| {},
    );
    match r {
        Ok(s) => {
            assert_eq!(s.value, 30);
            assert_eq!(s.attempts, 3);
        }
        Err(_) => panic!("expected success"),
    }
    assert_eq!(calls.get(), 3);
}

#[test]
fn succeeds_immediately_with_one_invocation() {
    let calls = Cell::new(0u32);
    let r = with_retry(
        3,
        1,
        |_attempt: u32| -> Result<&'static str, String> {
            calls.set(calls.get() + 1);
            Ok("done")
        },
        |_d: u64| {},
    );
    let s = match r {
        Ok(s) => s,
        Err(_) => panic!("expected success"),
    };
    assert_eq!(s.value, "done");
    assert_eq!(s.attempts, 1);
    assert_eq!(calls.get(), 1);
}

#[test]
fn always_failing_exhausts_exactly_max_attempts() {
    let calls = Cell::new(0u32);
    let r = with_retry(
        4,
        1,
        |_attempt: u32| -> Result<u32, &'static str> {
            calls.set(calls.get() + 1);
            Err("nope")
        },
        |_d: u64| {},
    );
    match r {
        Err(RetryError::Exhausted { attempts, error }) => {
            assert_eq!(attempts, 4);
            assert_eq!(error, "nope");
        }
        _ => panic!("expected exhaustion"),
    }
    assert_eq!(calls.get(), 4);
}

#[test]
fn zero_attempts_is_refused_without_invoking() {
    let calls = Cell::new(0u32);
    let r = with_retry(
        0,
        1,
        |_attempt: u32| -> Result<u32, &'static str> {
            calls.set(calls.get() + 1);
            Err("never reached")
        },
        |_d: u64| {},
    );
    assert!(matches!(r, Err(RetryError::NoAttemptsAllowed)));
    assert_eq!(calls.get(), 0);
}

#[test]
fn backoff_doubles_from_the_base() {
    assert_eq!(backoff_delay(3, 1), 3);
    assert_eq!(backoff_delay(3, 2), 6);
    assert_eq!(backoff_delay(3, 3), 12);
    assert_eq!(backoff_delay(0, 5), 0);
    assert_eq!(backoff_delay(u64::MAX, 2), u64::MAX);
}

#[test]
fn waits_follow_the_backoff_sequence() {
    let waits = std::cell::RefCell::new(Vec::new());
    let r = with_retry(
        3,
        3,
        |_attempt: u32| -> Result<u32, &'static str> { Err("fail") },
        |d: u64| waits.borrow_mut().push(d),
    );
    assert!(matches!(r, Err(RetryError::Exhausted { attempts: 3, .. })));
    // no wait after the final failure
    assert_eq!(*waits.borrow(), vec![3, 6]);
}
