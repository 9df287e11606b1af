//! The laws and edge cases of the retry policy on concrete values.

use grok_sampler::config::{DEFAULT_MAX_RETRY_DURATION_SECS, RetryPolicy};
use grok_sampler::error::{
    ApiErrorCode, Credential, EmptyReason, EmptyResponseContext, HttpError, InvalidStatusCode,
    SamplingError, StatusCode,
};
use grok_sampler::json::JsonError;
use grok_sampler::retry::{
    classify_error, classify_error_for, clone_error, doom_loop_backoff, doom_loop_backoff_for,
    resolve_max_retries_with_env, retry_backoff_for, retry_backoff_with_jitter, RetryDecision,
    DEFAULT_MAX_RETRIES, RATE_LIMIT_RETRY_THRESHOLD,
};
use std::time::Duration;

fn http(code: u16) -> StatusCode {
    StatusCode::from_u16(code).unwrap()
}

fn api(code: u16, message: &str, retry_after_secs: Option<u64>) -> SamplingError {
    SamplingError::Api {
        status: http(code),
        message: message.to_string(),
        model_metadata: Some("meta".to_string()),
        retry_after_secs,
        should_retry: Some(false),
        error_code: None,
    }
}

fn transport() -> SamplingError {
    SamplingError::Http(HttpError {
        is_timeout: true,
        is_connect: false,
        status: None,
        url: None,
        rendered: "error sending request".to_string(),
    })
}

fn json(line: usize, column: usize, rendered: &str) -> SamplingError {
    SamplingError::Serialization(JsonError {
        line,
        column,
        rendered: rendered.to_string(),
    })
}

fn loop_error() -> SamplingError {
    SamplingError::DoomLoopDetected {
        triggers: vec!["a".to_string(), "b".to_string()],
        aborted_at_chunk: Some(3),
    }
}

fn empty() -> SamplingError {
    SamplingError::EmptyResponse {
        context: EmptyResponseContext {
            reason: EmptyReason::NoChoices,
            had_reasoning: true,
            content_len: 1,
            tool_call_count: 2,
            finish_reason: None,
            completion_tokens: None,
            reasoning_tokens: Some(5),
            prompt_tokens: Some(6),
            model: "m".to_string(),
            first_choice_seen: false,
        },
    }
}

fn every_error() -> Vec<SamplingError> {
    vec![
        SamplingError::auth_unknown("no"),
        SamplingError::InvalidConfiguration("bad"),
        transport(),
        json(1, 2, "x at line 1 column 2"),
        api(404, "gone", None),
        api(429, "slow", Some(9)),
        api(413, "big", None),
        api(400, "encrypted_content", None),
        SamplingError::EventStreamError("cut".to_string()),
        SamplingError::StreamError {
            error_type: "t".to_string(),
            message: "m".to_string(),
            code: Some(ApiErrorCode::Other("o".to_string())),
        },
        SamplingError::IdleTimeout { elapsed_secs: 1 },
        empty(),
        SamplingError::MaxTokensTruncation,
        loop_error(),
    ]
}

#[test]
fn status_codes_run_from_100_to_999() {
    assert_eq!(StatusCode::from_u16(99), Err(InvalidStatusCode));
    assert_eq!(StatusCode::from_u16(1000), Err(InvalidStatusCode));
    assert_eq!(StatusCode::from_u16(100).unwrap().as_u16(), 100);
    assert_eq!(StatusCode::from_u16(999).unwrap().as_u16(), 999);
}

#[test]
fn override_texts_are_read_like_numbers() {
    let read = |text: &str| resolve_max_retries_with_env(Some(text), Some(77));
    assert_eq!(read("0"), 0);
    assert_eq!(read("+5"), 5);
    assert_eq!(read("007"), 7);
    assert_eq!(read("4294967295"), u32::MAX);
    for text in [
        "", "+", "-1", "-0", "++5", " 5", "5 ", "1_0", "4294967296", "99999999999", "5x", "٣",
    ] {
        assert_eq!(read(text), 77, "{text:?}");
    }
    assert_eq!(resolve_max_retries_with_env(Some(""), None), DEFAULT_MAX_RETRIES);
    assert_eq!(DEFAULT_MAX_RETRIES, 30);
}

#[test]
fn jitter_moves_the_base_by_a_fifth() {
    let ms = Duration::from_millis;
    assert_eq!(retry_backoff_for(0, 0), ms(1600));
    assert_eq!(retry_backoff_for(1, 0), ms(1600));
    assert_eq!(retry_backoff_for(1, 800), ms(2400));
    assert_eq!(retry_backoff_for(1, 801), ms(1600));
    assert_eq!(retry_backoff_for(2, 0), ms(3200));
    assert_eq!(retry_backoff_for(3, 0), ms(6400));
    assert_eq!(retry_backoff_for(4, 0), ms(12_800));
    assert_eq!(retry_backoff_for(5, 0), ms(24_000));
    assert_eq!(retry_backoff_for(5, 12_000), ms(36_000));
}

#[test]
fn backoff_stays_capped_at_every_later_count() {
    for count in [6, 31, 60, 61, 62, 63, 64, 65, 66, 1000, u32::MAX] {
        assert_eq!(retry_backoff_for(count, 6000), Duration::from_secs(30));
        let drawn = retry_backoff_with_jitter(count);
        assert!(drawn >= Duration::from_secs(24) && drawn <= Duration::from_secs(36));
    }
}

#[test]
fn doom_loop_backoff_is_at_most_250_millis() {
    assert_eq!(doom_loop_backoff_for(0), Duration::from_millis(0));
    assert_eq!(doom_loop_backoff_for(250), Duration::from_millis(250));
    assert_eq!(doom_loop_backoff_for(251), Duration::from_millis(0));
    assert_eq!(doom_loop_backoff_for(u64::MAX), Duration::from_millis(u64::MAX % 251));
    for count in [0, 7, u32::MAX] {
        assert!(doom_loop_backoff(count) <= Duration::from_millis(250));
    }
}

#[test]
fn jitter_differs_between_draws() {
    let first = doom_loop_backoff(5);
    assert!((0..200).any(|_| doom_loop_backoff(5) != first));
    let first = retry_backoff_with_jitter(5);
    assert!((0..200).any(|_| retry_backoff_with_jitter(5) != first));
}

#[test]
fn time_budget_trips_before_the_default_count() {
    let least: Duration = (1..DEFAULT_MAX_RETRIES).map(|n| retry_backoff_for(n, 0)).sum();
    assert_eq!(least, Duration::from_secs(624));
    assert!(least > Duration::from_secs(DEFAULT_MAX_RETRY_DURATION_SECS));
}

#[test]
fn zero_budget_is_fatal_for_all_but_encrypted_content_and_loops() {
    for err in every_error() {
        let decision = classify_error(&err, 0, 0);
        if err.is_encrypted_content_error() {
            assert!(matches!(decision, RetryDecision::EmitToSession(_)));
        } else if matches!(err, SamplingError::DoomLoopDetected { .. }) {
            match decision {
                RetryDecision::Retry { backoff } => {
                    assert!(backoff <= Duration::from_millis(250))
                }
                other => panic!("expected Retry, got {other:?}"),
            }
        } else {
            assert!(matches!(decision, RetryDecision::Fatal(_)), "{err:?}");
        }
    }
}

#[test]
fn reasoning_loops_are_resampled_whatever_the_counters_say() {
    for (count, budget) in [(0, 0), (7, 0), (u32::MAX, 0), (0, 1), (5, 2), (u32::MAX, 2)] {
        match classify_error_for(&loop_error(), count, budget, 250) {
            RetryDecision::Retry { backoff } => assert_eq!(backoff, Duration::from_millis(250)),
            other => panic!("expected Retry, got {other:?}"),
        }
    }
}

#[test]
fn encrypted_content_goes_first() {
    let err = api(400, "encrypted_content: Could not process image", None);
    for (count, budget) in [(0, 0), (0, 5), (9, 5), (u32::MAX, 5)] {
        match classify_error(&err, count, budget) {
            RetryDecision::EmitToSession(SamplingError::Api { status, message, .. }) => {
                assert_eq!(status.as_u16(), 400);
                assert_eq!(message, "encrypted_content: Could not process image");
            }
            other => panic!("expected EmitToSession, got {other:?}"),
        }
    }
    let other_status = api(403, "encrypted_content", None);
    assert!(matches!(
        classify_error(&other_status, 0, 5),
        RetryDecision::RetryWithClientRebuild { .. }
    ));
}

#[test]
fn images_are_stripped_past_the_budget() {
    let coded = SamplingError::Api {
        status: http(418),
        message: String::new(),
        model_metadata: None,
        retry_after_secs: None,
        should_retry: None,
        error_code: Some(ApiErrorCode::InvalidImage),
    };
    for err in [api(413, "", None), api(500, "x Could not process image", None), coded] {
        for count in [0, 4, 5, u32::MAX] {
            assert!(matches!(
                classify_error(&err, count, 5),
                RetryDecision::RetryWithImageStrip
            ));
        }
    }
    let worded_otherwise = api(403, "Could not process image", None);
    assert!(!worded_otherwise.is_image_processing_error());
}

#[test]
fn every_status_is_retried_within_the_budget() {
    for code in 100..=999 {
        let err = api(code, "x", None);
        let decision = classify_error(&err, 1, 5);
        match code {
            413 => assert!(matches!(decision, RetryDecision::RetryWithImageStrip)),
            429 => assert!(matches!(decision, RetryDecision::RetryWithBackoff { .. })),
            _ => assert!(matches!(decision, RetryDecision::Retry { .. })),
        }
        if code != 413 {
            assert!(matches!(classify_error(&err, 4, 5), RetryDecision::Fatal(_)));
            assert!(matches!(classify_error(&err, 400, 5), RetryDecision::Fatal(_)));
        }
    }
}

#[test]
fn retry_after_is_the_wait() {
    match classify_error_for(&api(503, "x", Some(7)), 0, 5, 1) {
        RetryDecision::RetryWithClientRebuild { backoff } => {
            assert_eq!(backoff, Duration::from_secs(7))
        }
        other => panic!("expected RetryWithClientRebuild, got {other:?}"),
    }
    match classify_error_for(&api(503, "x", Some(u64::MAX)), 1, 5, 1) {
        RetryDecision::Retry { backoff } => assert_eq!(backoff, Duration::from_secs(u64::MAX)),
        other => panic!("expected Retry, got {other:?}"),
    }
    match classify_error_for(&api(429, "x", None), 1, 5, 800) {
        RetryDecision::RetryWithBackoff { backoff, is_rate_limited } => {
            assert!(is_rate_limited);
            assert_eq!(backoff, Duration::from_millis(4000));
        }
        other => panic!("expected RetryWithBackoff, got {other:?}"),
    }
    match classify_error_for(&loop_error(), 1, 5, 252) {
        RetryDecision::Retry { backoff } => assert_eq!(backoff, Duration::from_millis(1)),
        other => panic!("expected Retry, got {other:?}"),
    }
}

#[test]
fn deterministic_errors_are_fatal_at_once() {
    for err in [
        SamplingError::InvalidConfiguration("bad"),
        json(0, 0, "x"),
        SamplingError::MaxTokensTruncation,
    ] {
        for count in [0, 1, u32::MAX] {
            assert!(matches!(classify_error(&err, count, 100), RetryDecision::Fatal(_)));
        }
        assert!(!err.is_retryable());
    }
}

#[test]
fn rate_limit_threshold_caps_nothing() {
    let policy = RetryPolicy::default();
    assert_eq!(policy.rate_limit_retry_threshold, RATE_LIMIT_RETRY_THRESHOLD);
    assert!(matches!(
        classify_error(&api(429, "x", None), RATE_LIMIT_RETRY_THRESHOLD + 5, policy.max_retries),
        RetryDecision::RetryWithBackoff { .. }
    ));
}

#[test]
fn copies_are_decided_alike() {
    for err in every_error() {
        let copy = clone_error(&err);
        assert_eq!(copy.is_retryable(), err.is_retryable());
        for (count, budget) in [(0, 0), (0, 5), (1, 5), (4, 5)] {
            let one = classify_error_for(&err, count, budget, 12);
            let other = classify_error_for(&copy, count, budget, 12);
            match (&one, &other) {
                (RetryDecision::Fatal(_), RetryDecision::Fatal(_)) => {}
                (RetryDecision::EmitToSession(_), RetryDecision::EmitToSession(_)) => {}
                _ => assert_eq!(format!("{one:?}"), format!("{other:?}")),
            }
        }
    }
}

#[test]
fn copies_keep_everything_but_the_transport_failure() {
    for err in every_error() {
        let copy = clone_error(&err);
        match &err {
            SamplingError::Http(e) => match copy {
                SamplingError::EventStreamError(text) => assert_eq!(text, e.rendered),
                other => panic!("expected EventStreamError, got {other:?}"),
            },
            _ => assert_eq!(format!("{copy:?}"), format!("{err:?}")),
        }
    }
}

#[test]
fn copying_a_copy_changes_nothing() {
    let mut errors = every_error();
    errors.push(json(9, 9, "x at line 007 column 01"));
    errors.push(json(9, 9, "x"));
    for err in errors {
        let copy = clone_error(&err);
        assert_eq!(format!("{:?}", clone_error(&copy)), format!("{copy:?}"));
    }
}

#[test]
fn auth_unknown_has_no_known_credential() {
    match SamplingError::auth_unknown("x") {
        SamplingError::Auth { message, credential } => {
            assert_eq!(message, "x");
            assert_eq!(credential, Credential::Unknown);
        }
        other => panic!("expected Auth, got {other:?}"),
    }
}

fn read_back(text: &str) -> (usize, usize, String) {
    match SamplingError::serialization_message(text) {
        SamplingError::Serialization(e) => (e.line, e.column, e.rendered),
        other => panic!("expected Serialization, got {other:?}"),
    }
}

#[test]
fn json_failures_read_back_their_position() {
    let at = |line, column, text: &str| (line, column, text.to_string());
    assert_eq!(read_back("x at line 3 column 14"), at(3, 14, "x at line 3 column 14"));
    assert_eq!(
        read_back("a at line 1 column 2 at line 3 column 4"),
        at(3, 4, "a at line 1 column 2 at line 3 column 4")
    );
    assert_eq!(read_back("x at line 007 column 01"), at(7, 1, "x at line 7 column 1"));
    assert_eq!(read_back("x at line 0 column 5"), at(0, 5, "x"));
    for text in [
        "",
        "x",
        "x at line 3",
        "x at line  column 4",
        "x at line 3 column ",
        "x at line 3 column 4.",
        "x at line 3 column 99999999999999999999999",
        "x at line -3 column 4",
    ] {
        assert_eq!(read_back(text), at(0, 0, text));
    }
    assert_eq!(read_back(" at line 5 column 6"), at(5, 6, " at line 5 column 6"));
}

#[test]
fn real_json_failures_read_back_unchanged() {
    for text in ["", "{", "[1,", "not", "{\"a\": }", "\n\n  tru"] {
        let e = serde_json::from_str::<Vec<i32>>(text).unwrap_err();
        assert_eq!(read_back(&e.to_string()), (e.line(), e.column(), e.to_string()));
    }
}
