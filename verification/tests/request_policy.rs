use malibus_shopifyapi_tooling::error::AppError;
use malibus_shopifyapi_tooling::request::{next_step, AttemptOutcome, RetryAction, TokenBucket};

fn other_text(e: &AppError) -> String {
    match e {
        AppError::OtherError(m) => m.clone(),
        _ => panic!("not an OtherError"),
    }
}

#[test]
fn data_is_delivered_at_any_retry_count() {
    assert!(matches!(next_step(true, 0, 3, AttemptOutcome::Data), RetryAction::Deliver));
    assert!(matches!(next_step(false, 3, 3, AttemptOutcome::Data), RetryAction::Deliver));
}

#[test]
fn missing_data_fails_with_kind_specific_message() {
    match next_step(true, 0, 3, AttemptOutcome::NoData) {
        RetryAction::Fail(e) => assert_eq!(other_text(&e), "GraphQL Client Mutation Response Error"),
        _ => panic!("expected a failure"),
    }
    match next_step(false, 1, 3, AttemptOutcome::NoData) {
        RetryAction::Fail(e) => assert_eq!(other_text(&e), "GraphQL Client Query Response Error"),
        _ => panic!("expected a failure"),
    }
}

#[test]
fn client_errors_back_off_exponentially() {
    let mut expected = vec![2000u64, 4000, 8000];
    expected.reverse();
    let mut retries = 0u32;
    loop {
        match next_step(true, retries, 3, AttemptOutcome::Failed("timeout".to_string())) {
            RetryAction::RetryAfter { retries: n, backoff_ms } => {
                assert_eq!(n, retries + 1);
                assert_eq!(backoff_ms, expected.pop().unwrap());
                retries = n;
            }
            RetryAction::Fail(e) => {
                assert_eq!(retries, 3);
                assert_eq!(other_text(&e), "timeout");
                break;
            }
            RetryAction::Deliver => panic!("nothing to deliver"),
        }
    }
    assert!(expected.is_empty());
}

#[test]
fn no_retries_allowed_fails_at_once() {
    match next_step(false, 0, 0, AttemptOutcome::Failed("boom".to_string())) {
        RetryAction::Fail(e) => assert_eq!(other_text(&e), "boom"),
        _ => panic!("expected a failure"),
    }
}

#[test]
fn largest_backoff_fits() {
    match next_step(true, 53, 60, AttemptOutcome::Failed("x".to_string())) {
        RetryAction::RetryAfter { retries, backoff_ms } => {
            assert_eq!(retries, 54);
            assert_eq!(backoff_ms, (1u64 << 54) * 1000);
        }
        _ => panic!("expected a retry"),
    }
}

#[test]
fn bucket_starts_full_and_pays_for_requests() {
    let mut b = TokenBucket::new(100);
    assert_eq!(b.tokens, 100);
    let (refilled, sleep) = b.begin_wait(10, 1_000_000_000, 10);
    assert!(!refilled);
    assert_eq!(sleep, None);
    assert!(b.finish_wait(false, 10).is_ok());
    assert_eq!(b.tokens, 90);
}

#[test]
fn bucket_refills_after_an_interval() {
    let mut b = TokenBucket::new(100);
    b.tokens = 5;
    let (refilled, sleep) = b.begin_wait(1_000_000_000, 1_000_000_000, 10);
    assert!(refilled);
    assert_eq!(sleep, None);
    assert_eq!(b.tokens, 100);
}

#[test]
fn bucket_short_of_points_sleeps_for_the_rest_of_the_interval() {
    let mut b = TokenBucket::new(100);
    b.tokens = 5;
    let (refilled, sleep) = b.begin_wait(300, 1000, 10);
    assert!(!refilled);
    assert_eq!(sleep, Some(700));
    assert!(b.finish_wait(true, 10).is_ok());
    assert_eq!(b.tokens, 90);
}

#[test]
fn request_larger_than_bucket_is_refused() {
    let mut b = TokenBucket::new(5);
    let (_, sleep) = b.begin_wait(100, 1000, 10);
    assert_eq!(sleep, Some(900));
    let r = b.finish_wait(true, 10);
    match r {
        Err(e) => assert_eq!(other_text(&e), "API rate limit Exceeded"),
        Ok(()) => panic!("expected a refusal"),
    }
    assert_eq!(b.tokens, 5);
}
