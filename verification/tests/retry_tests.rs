use gewe_notice_mcp::errors::{ApiBusinessError, ApiErrorCode, GeweNoticeError, NetworkError};
use gewe_notice_mcp::retry::{RetryPolicy, RetryVerdict};

fn timeout() -> GeweNoticeError {
    GeweNoticeError::Network(NetworkError::Timeout { duration_ms: 10000 })
}

#[test]
fn standard_policy_backoff_values() {
    let policy = RetryPolicy::standard();
    assert_eq!(policy.max_retries(), 3);
    // draw 0 selects the jitter 0.500, draw 500 the jitter 1.000
    assert_eq!(policy.backoff_for(1, 0), 50);
    assert_eq!(policy.backoff_for(1, 500), 100);
    assert_eq!(policy.backoff_for(2, 0), 100);
    assert_eq!(policy.backoff_for(2, 500), 200);
    assert_eq!(policy.backoff_for(3, 250), 300);
    assert_eq!(policy.backoff_for(3, 501), 200);
    assert_eq!(policy.backoff_for(6, 500), 3200);
    assert_eq!(policy.backoff_for(7, 0), 3200);
    assert_eq!(policy.backoff_for(7, 500), 5000);
    assert_eq!(policy.backoff_for(255, 0), 5000);
    assert_eq!(policy.backoff_for(1, 1), 50);
    assert_eq!(policy.backoff_for(1, 3), 50);
    assert_eq!(policy.backoff_for(1, 10), 51);
}

#[test]
fn backoff_never_exceeds_the_largest_delay_and_never_shrinks() {
    let policies = [
        RetryPolicy::standard(),
        RetryPolicy::new(10, 1, 1, 1).expect("valid"),
        RetryPolicy::new(10, 0, 0, 7).expect("valid"),
        RetryPolicy::new(10, 7, u64::MAX, u32::MAX).expect("valid"),
        RetryPolicy::new(10, u64::MAX, u64::MAX, 3).expect("valid"),
        RetryPolicy::new(10, 250, 60_000, 3).expect("valid"),
    ];
    let limits = [5000, 1, 0, u64::MAX, u64::MAX, 60_000];
    for (policy, limit) in policies.iter().zip(limits.iter()) {
        for draw in [0u32, 1, 77, 250, 500, 501, 4_000_000_000, u32::MAX] {
            let mut before = 0u64;
            for attempt in 1..=40u8 {
                let delay = policy.backoff_for(attempt, draw);
                assert!(delay <= *limit);
                assert!(delay >= before);
                before = delay;
            }
        }
        for attempt in [1u8, 2, 3, 200] {
            assert!(policy.calculate_backoff(attempt) <= *limit);
        }
    }
}

#[test]
fn random_backoff_stays_between_the_jitter_bounds() {
    let policy = RetryPolicy::standard();
    for _ in 0..200 {
        let delay = policy.calculate_backoff(3);
        assert!((200..=400).contains(&delay));
    }
}

#[test]
fn policy_must_leave_room_to_grow() {
    assert!(RetryPolicy::new(3, 100, 99, 2).is_none());
    assert!(RetryPolicy::new(3, 100, 100, 0).is_none());
    assert!(RetryPolicy::new(0, 100, 100, 1).is_some());
}

#[test]
fn chatroom_missing_is_not_retried() {
    let policy = RetryPolicy::standard();
    let fatal: Result<(), GeweNoticeError> = Err(GeweNoticeError::Business(
        ApiBusinessError::KnownError { code: ApiErrorCode::ChatroomMissing },
    ));
    match policy.judge(1, fatal, 0) {
        RetryVerdict::Finish(Err(GeweNoticeError::Business(ApiBusinessError::KnownError {
            code,
        }))) => assert_eq!(code, ApiErrorCode::ChatroomMissing),
        other => panic!("unexpected {:?}", other),
    }
}

#[test]
fn retryable_failures_are_retried_while_attempts_remain() {
    let policy = RetryPolicy::standard();
    match policy.judge::<()>(1, Err(timeout()), 500) {
        RetryVerdict::RetryAfter { delay_ms } => assert_eq!(delay_ms, 100),
        other => panic!("unexpected {:?}", other),
    }
    match policy.judge::<()>(2, Err(timeout()), 500) {
        RetryVerdict::RetryAfter { delay_ms } => assert_eq!(delay_ms, 200),
        other => panic!("unexpected {:?}", other),
    }
    match policy.judge::<()>(3, Err(timeout()), 500) {
        RetryVerdict::Finish(Err(GeweNoticeError::Network(NetworkError::Timeout { .. }))) => {}
        other => panic!("unexpected {:?}", other),
    }
    match policy.after_attempt::<()>(1, Err(timeout())) {
        RetryVerdict::RetryAfter { delay_ms } => assert!((50..=100).contains(&delay_ms)),
        other => panic!("unexpected {:?}", other),
    }
    match policy.judge(2, Ok(7u8), 0) {
        RetryVerdict::Finish(Ok(7)) => {}
        other => panic!("unexpected {:?}", other),
    }
    let unknown: Result<(), GeweNoticeError> = Err(GeweNoticeError::Json("x".into()));
    assert!(matches!(policy.judge(1, unknown, 0), RetryVerdict::Finish(Err(_))));
}

#[test]
fn a_policy_without_attempts_ends_in_the_exhausted_error() {
    let policy = RetryPolicy::new(0, 100, 5000, 2).expect("valid");
    assert!(!policy.allows_attempt());
    assert!(RetryPolicy::standard().allows_attempt());
    match RetryPolicy::exhausted() {
        GeweNoticeError::Network(NetworkError::HttpError { status, body }) => {
            assert_eq!(status, 0);
            assert_eq!(body.as_deref(), Some("最大重试次数已超过"));
        }
        other => panic!("unexpected {:?}", other),
    }
}

#[test]
fn a_rate_limit_is_retried_after_the_hinted_delay() {
    let policy = RetryPolicy::standard();
    let limited = |hint| -> Result<(), GeweNoticeError> {
        Err(GeweNoticeError::Business(ApiBusinessError::RateLimited { retry_after_ms: hint }))
    };
    match policy.judge(1, limited(Some(7000)), 500) {
        RetryVerdict::RetryAfter { delay_ms } => assert_eq!(delay_ms, 7000),
        other => panic!("unexpected {:?}", other),
    }
    match policy.judge(2, limited(Some(0)), 500) {
        RetryVerdict::RetryAfter { delay_ms } => assert_eq!(delay_ms, 0),
        other => panic!("unexpected {:?}", other),
    }
    // without a hint the delay is the backoff
    match policy.judge(2, limited(None), 500) {
        RetryVerdict::RetryAfter { delay_ms } => assert_eq!(delay_ms, 200),
        other => panic!("unexpected {:?}", other),
    }
    // the hint of a timeout is not the backend's: the delay is the backoff
    match policy.judge::<()>(1, Err(timeout()), 0) {
        RetryVerdict::RetryAfter { delay_ms } => assert_eq!(delay_ms, 50),
        other => panic!("unexpected {:?}", other),
    }
    // with no attempt left the hint changes nothing
    assert!(matches!(policy.judge(3, limited(Some(7000)), 0), RetryVerdict::Finish(Err(_))));
}

#[test]
fn name_resolution_failures_are_retried() {
    let policy = RetryPolicy::standard();
    let dns: Result<(), GeweNoticeError> =
        Err(GeweNoticeError::Network(NetworkError::DnsResolution { host: "h".into() }));
    assert!(matches!(policy.judge(1, dns, 500), RetryVerdict::RetryAfter { delay_ms: 100 }));
    let tls: Result<(), GeweNoticeError> = Err(GeweNoticeError::Network(NetworkError::TlsError));
    assert!(matches!(policy.judge(2, tls, 500), RetryVerdict::RetryAfter { delay_ms: 200 }));
    let denied: Result<(), GeweNoticeError> = Err(GeweNoticeError::Business(
        ApiBusinessError::KnownError { code: ApiErrorCode::PermissionDenied },
    ));
    assert!(matches!(policy.judge(1, denied, 500), RetryVerdict::Finish(Err(_))));
}
