use recording_analyzer::error::AppError;
use recording_analyzer::retry::{next_step, AttemptOutcome, RetryState, RetryStep, MAX_RETRIES};
use recording_analyzer::token::TokenCache;

fn retry_delay(step: &RetryStep) -> Option<u64> {
    match step {
        RetryStep::RetryAfter(d) => Some(*d),
        RetryStep::Finish(_) => None,
    }
}

#[test]
fn reply_text_is_returned() {
    match next_step(1, AttemptOutcome::Reply(Some("[]".to_string()))) {
        RetryStep::Finish(Ok(t)) => assert_eq!(t, "[]"),
        other => panic!("unexpected {:?}", other),
    }
}

#[test]
fn reply_without_text_is_a_gemini_error() {
    match next_step(1, AttemptOutcome::Reply(None)) {
        RetryStep::Finish(Err(AppError::Gemini(m))) => {
            assert_eq!(m, "Invalid or unexpected response format")
        }
        other => panic!("unexpected {:?}", other),
    }
}

#[test]
fn unreadable_reply_is_not_retried() {
    match next_step(1, AttemptOutcome::UnreadableReply("bad json".to_string())) {
        RetryStep::Finish(Err(AppError::Reqwest(m))) => assert_eq!(m, "bad json"),
        other => panic!("unexpected {:?}", other),
    }
}

#[test]
fn failures_back_off_exponentially() {
    let http = || AttemptOutcome::HttpFailure {
        status: "503 Service Unavailable".to_string(),
        body: "busy".to_string(),
    };
    assert_eq!(retry_delay(&next_step(1, http())), Some(2));
    assert_eq!(retry_delay(&next_step(2, http())), Some(4));
    assert_eq!(
        retry_delay(&next_step(1, AttemptOutcome::ConnectionFailure("reset".to_string()))),
        Some(2)
    );
    assert_eq!(
        retry_delay(&next_step(2, AttemptOutcome::ConnectionFailure("reset".to_string()))),
        Some(4)
    );
}

#[test]
fn http_failure_on_last_attempt_is_reported() {
    let outcome = AttemptOutcome::HttpFailure {
        status: "503 Service Unavailable".to_string(),
        body: "busy".to_string(),
    };
    match next_step(MAX_RETRIES, outcome) {
        RetryStep::Finish(Err(AppError::Gemini(m))) => {
            assert_eq!(m, "HTTP Error 503 Service Unavailable: busy")
        }
        other => panic!("unexpected {:?}", other),
    }
}

#[test]
fn connection_failure_on_last_attempt_is_reported() {
    match next_step(MAX_RETRIES, AttemptOutcome::ConnectionFailure("refused".to_string())) {
        RetryStep::Finish(Err(AppError::Reqwest(m))) => assert_eq!(m, "refused"),
        other => panic!("unexpected {:?}", other),
    }
}

#[test]
fn retry_state_allows_three_attempts() {
    let mut state = RetryState::new();
    let fail = || AttemptOutcome::ConnectionFailure("down".to_string());
    assert_eq!(retry_delay(&state.record(fail())), Some(2));
    assert_eq!(retry_delay(&state.record(fail())), Some(4));
    assert!(matches!(state.record(fail()), RetryStep::Finish(Err(AppError::Reqwest(_)))));
}

#[test]
fn retry_state_stops_on_success() {
    let mut state = RetryState::new();
    let first = state.record(AttemptOutcome::HttpFailure {
        status: "500 Internal Server Error".to_string(),
        body: String::new(),
    });
    assert_eq!(retry_delay(&first), Some(2));
    match state.record(AttemptOutcome::Reply(Some("ok".to_string()))) {
        RetryStep::Finish(Ok(t)) => assert_eq!(t, "ok"),
        other => panic!("unexpected {:?}", other),
    }
}

#[test]
fn empty_cache_serves_nothing() {
    let cache = TokenCache::new();
    assert_eq!(cache.cached_token(1000), None);
}

#[test]
fn stored_token_is_served_until_refresh_window() {
    let mut cache = TokenCache::new();
    cache.store("tok".to_string(), 1000, 3599);
    assert_eq!(cache.entry.as_ref().map(|t| t.expires_at), Some(4599));
    assert_eq!(cache.cached_token(1000), Some("tok".to_string()));
    assert_eq!(cache.cached_token(4538), Some("tok".to_string()));
    assert_eq!(cache.cached_token(4539), None);
    assert_eq!(cache.cached_token(5000), None);
}

#[test]
fn short_lived_token_is_never_served() {
    let mut cache = TokenCache::new();
    cache.store("tok".to_string(), 1000, 60);
    assert_eq!(cache.cached_token(1000), None);
}
