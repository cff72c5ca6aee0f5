use echidnabot::error::Error;
use echidnabot::scheduler::retry::{
    is_transient_error, retry, retry_with_backoff, RetryConfig, RetryDecision, RetryPolicy,
    RetryState,
};
use std::cell::Cell;

#[test]
fn test_retry_success_first_attempt() {
    let counter = Cell::new(0usize);
    let result = retry(
        3,
        || {
            counter.set(counter.get() + 1);
            Ok::<_, Error>(42)
        },
        |_ms| {},
    );
    assert!(result.is_ok());
    assert_eq!(result.unwrap(), 42);
    assert_eq!(counter.get(), 1);
}

#[test]
fn test_retry_success_after_failures() {
    let counter = Cell::new(0usize);
    let result = retry(
        3,
        || {
            counter.set(counter.get() + 1);
            if counter.get() < 3 {
                Err(Error::Http("connection refused".to_string()))
            } else {
                Ok(42)
            }
        },
        |_ms| {},
    );
    assert!(result.is_ok());
    assert_eq!(result.unwrap(), 42);
    assert_eq!(counter.get(), 3);
}

#[test]
fn test_retry_exhausted() {
    let counter = Cell::new(0usize);
    let result = retry(
        3,
        || {
            counter.set(counter.get() + 1);
            Err::<i32, _>(Error::Http("connection refused".to_string()))
        },
        |_ms| {},
    );
    assert!(result.is_err());
    assert_eq!(counter.get(), 4);
}

#[test]
fn test_non_retryable_error() {
    let counter = Cell::new(0usize);
    let result = retry(
        3,
        || {
            counter.set(counter.get() + 1);
            Err::<i32, _>(Error::InvalidInput("bad input".to_string()))
        },
        |_ms| {},
    );
    assert!(result.is_err());
    assert_eq!(counter.get(), 1);
}

#[test]
fn test_is_transient_error() {
    assert!(is_transient_error(&Error::Http("timeout".to_string())));
    assert!(is_transient_error(&Error::Echidna("timeout".to_string())));
    assert!(is_transient_error(&Error::Echidna("503 unavailable".to_string())));
    assert!(!is_transient_error(&Error::InvalidInput("bad".to_string())));
    assert!(!is_transient_error(&Error::Config("bad config".to_string())));
}

#[test]
fn classifier_by_kind() {
    for m in ["Timeout", "service UNAVAILABLE", "Rate Limit hit", "temporary glitch", "HTTP 503", "504"] {
        assert!(is_transient_error(&Error::Echidna(m.to_string())));
    }
    assert!(!is_transient_error(&Error::Echidna("proof rejected".to_string())));
    assert!(!is_transient_error(&Error::Echidna(String::new())));
    for m in ["Connection reset", "lock timeout", "DEADLOCK detected"] {
        assert!(is_transient_error(&Error::Sqlx(m.to_string())));
    }
    assert!(!is_transient_error(&Error::Sqlx("unique constraint".to_string())));
    assert!(!is_transient_error(&Error::Sqlx("503".to_string())));
    assert!(is_transient_error(&Error::Http(String::new())));
    assert!(!is_transient_error(&Error::Internal("timeout".to_string())));
    assert!(!is_transient_error(&Error::Io("timeout".to_string())));
    assert!(!is_transient_error(&Error::GitLab("503".to_string())));
    assert!(!is_transient_error(&Error::RepoNotFound("timeout".to_string())));
    assert!(!is_transient_error(&Error::JobNotFound(1)));
}

#[test]
fn default_configuration() {
    let c = RetryConfig::default();
    assert_eq!(c.max_retries, 3);
    assert_eq!(c.initial_backoff_ms, 1000);
    assert_eq!(c.max_backoff_ms, 60000);
    assert_eq!(c.multiplier_permille, 2000);
    assert!(c.jitter);
    assert_eq!(RetryPolicy::new().config(), c);
    assert_eq!(RetryPolicy::default().config(), c);
    assert_eq!(RetryConfig::with_max_retries(7).max_retries, 7);
    assert_eq!(RetryConfig::with_backoff(2, 5).initial_backoff_ms, 5);
}

#[test]
fn backoff_doubles_and_is_capped() {
    let policy = RetryPolicy::with_config(RetryConfig {
        max_retries: 10,
        initial_backoff_ms: 1000,
        max_backoff_ms: 5000,
        multiplier_permille: 2000,
        jitter: false,
    });
    let mut state = policy.begin();
    assert_eq!(state, RetryState { retries: 0, backoff_ms: 1000 });
    let mut waits = Vec::new();
    for _ in 0..5 {
        match policy.on_failure_with(&mut state, true, 0) {
            RetryDecision::RetryAfter(ms) => waits.push(ms),
            RetryDecision::GiveUp => panic!("retries are left"),
        }
    }
    assert_eq!(waits, vec![1000, 2000, 4000, 5000, 5000]);
    assert_eq!(state, RetryState { retries: 5, backoff_ms: 5000 });
}

#[test]
fn jitter_stays_between_half_and_whole() {
    let policy = RetryPolicy::new();
    let mut state = policy.begin();
    assert_eq!(policy.on_failure_with(&mut state, true, 0), RetryDecision::RetryAfter(500));
    let mut state = policy.begin();
    assert_eq!(policy.on_failure_with(&mut state, true, u32::MAX), RetryDecision::RetryAfter(999));
    let mut state = policy.begin();
    assert_eq!(policy.on_failure_with(&mut state, true, 1 << 31), RetryDecision::RetryAfter(750));
    for _ in 0..50 {
        let mut state = policy.begin();
        match policy.on_failure(&mut state, true) {
            RetryDecision::RetryAfter(ms) => assert!((500..1000).contains(&ms)),
            RetryDecision::GiveUp => panic!("the first failure is retried"),
        }
        assert_eq!(state, RetryState { retries: 1, backoff_ms: 2000 });
    }
    let odd = RetryPolicy::with_config(RetryConfig {
        max_retries: 1,
        initial_backoff_ms: 1,
        max_backoff_ms: 1,
        multiplier_permille: 1500,
        jitter: true,
    });
    let mut state = odd.begin();
    assert_eq!(odd.on_failure_with(&mut state, true, u32::MAX), RetryDecision::RetryAfter(1));
    assert_eq!(state.backoff_ms, 1);
}

#[test]
fn giving_up_leaves_the_state() {
    let policy = RetryPolicy::with_config(RetryConfig::with_max_retries(1));
    let mut state = policy.begin();
    assert_eq!(policy.on_failure_with(&mut state, false, 7), RetryDecision::GiveUp);
    assert_eq!(state, policy.begin());
    assert!(matches!(policy.on_failure_with(&mut state, true, 7), RetryDecision::RetryAfter(_)));
    assert_eq!(policy.on_failure_with(&mut state, true, 7), RetryDecision::GiveUp);
    assert_eq!(state.retries, 1);
    let never = RetryPolicy::with_config(RetryConfig::with_max_retries(0));
    let mut state = never.begin();
    assert_eq!(never.on_failure(&mut state, true), RetryDecision::GiveUp);
}

#[test]
fn attempts_and_waiting_are_bounded() {
    let policy = RetryPolicy::with_config(RetryConfig {
        max_retries: 4,
        initial_backoff_ms: 100,
        max_backoff_ms: 1000,
        multiplier_permille: 3000,
        jitter: true,
    });
    let attempts = Cell::new(0usize);
    let slept = Cell::new(0u64);
    let report = policy.execute_counted(
        || {
            attempts.set(attempts.get() + 1);
            Err::<(), _>("again")
        },
        |_e| true,
        |ms| slept.set(slept.get() + ms),
    );
    assert_eq!(report.result, Err("again"));
    assert_eq!(attempts.get(), 5);
    assert_eq!(report.retries, 4);
    assert_eq!(report.slept_ms, slept.get() as u128);
    assert!(slept.get() <= 100 + 300 + 900 + 1000);
    assert!(slept.get() >= (100 + 300 + 900 + 1000) / 2);
}

#[test]
fn retry_with_backoff_waits_from_the_given_start() {
    let waits = std::cell::RefCell::new(Vec::new());
    let r = retry_with_backoff(
        2,
        10,
        || Err::<(), _>(Error::Http("down".to_string())),
        |ms| waits.borrow_mut().push(ms),
    );
    assert!(matches!(r, Err(Error::Http(_))));
    let waits = waits.into_inner();
    assert_eq!(waits.len(), 2);
    assert!((5..10).contains(&waits[0]));
    assert!((10..20).contains(&waits[1]));
}
