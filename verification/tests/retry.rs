//! Classification, backoff, budget and description of sampling errors.

use grok_sampler::error::{
    ApiErrorCode, EmptyReason, EmptyResponseContext, SamplingError, StatusCode,
};
use grok_sampler::format::format_sampling_error;
use grok_sampler::json::JsonError;
use grok_sampler::retry::{
    classify_error, clone_error, resolve_max_retries_with_env, retry_backoff_with_jitter,
    RetryDecision, DEFAULT_MAX_RETRIES,
};
use std::time::Duration;

fn http(code: u16) -> StatusCode {
    StatusCode::from_u16(code).unwrap()
}

fn api_err(status: StatusCode, message: &str) -> SamplingError {
    SamplingError::Api {
        status,
        message: message.to_string(),
        model_metadata: None,
        retry_after_secs: None,
        should_retry: None,
        error_code: None,
    }
}

fn api_err_with_retry_after(status: StatusCode, retry_after: u64) -> SamplingError {
    SamplingError::Api {
        status,
        message: "x".to_string(),
        model_metadata: None,
        retry_after_secs: Some(retry_after),
        should_retry: None,
        error_code: None,
    }
}

#[test]
fn resolve_max_retries_env_override_takes_precedence() {
    assert_eq!(resolve_max_retries_with_env(Some("9"), Some(3)), 9);
}

#[test]
fn resolve_max_retries_falls_back_to_model() {
    assert_eq!(resolve_max_retries_with_env(None, Some(7)), 7);
}

#[test]
fn resolve_max_retries_default() {
    assert_eq!(
        resolve_max_retries_with_env(None, None),
        DEFAULT_MAX_RETRIES
    );
}

#[test]
fn resolve_max_retries_invalid_env_falls_through() {
    assert_eq!(resolve_max_retries_with_env(Some("abc"), Some(4)), 4);
}

#[test]
fn backoff_first_retry_is_around_two_seconds() {
    let backoff = retry_backoff_with_jitter(1);
    assert!(
        backoff >= Duration::from_millis(1600) && backoff <= Duration::from_millis(2400),
        "first retry backoff out of range: {:?}",
        backoff
    );
}

#[test]
fn backoff_doubles_then_caps_at_thirty_seconds() {
    let r2 = retry_backoff_with_jitter(2);
    assert!(r2 >= Duration::from_millis(3200) && r2 <= Duration::from_millis(4800));

    let r10 = retry_backoff_with_jitter(10);
    assert!(r10 >= Duration::from_millis(24_000) && r10 <= Duration::from_millis(36_000));
}

#[test]
fn backoff_zero_retry_count_is_well_defined() {
    let backoff = retry_backoff_with_jitter(0);
    assert!(backoff >= Duration::from_millis(1600) && backoff <= Duration::from_millis(2400));
}

#[test]
fn classify_auth_error_is_retryable_in_pure_classifier() {
    let err = SamplingError::auth_unknown("bad token");
    match classify_error(&err, 0, 5) {
        RetryDecision::RetryWithClientRebuild { .. } => {}
        other => panic!("expected RetryWithClientRebuild for Auth, got {other:?}"),
    }
}

#[test]
fn classify_unauthorized_is_retryable_in_pure_classifier() {
    let err = api_err(http(401), "no");
    match classify_error(&err, 0, 5) {
        RetryDecision::RetryWithClientRebuild { .. } => {}
        other => panic!("expected RetryWithClientRebuild for 401, got {other:?}"),
    }
}

#[test]
fn classify_encrypted_content_emits_to_session() {
    let err = api_err(
        http(400),
        "Could not decrypt the provided encrypted_content",
    );
    match classify_error(&err, 0, 5) {
        RetryDecision::EmitToSession(_) => {}
        other => panic!("expected EmitToSession, got {other:?}"),
    }
}

#[test]
fn classify_payload_too_large_strips_images() {
    let err = api_err(http(413), "too big");
    assert!(matches!(
        classify_error(&err, 0, 5),
        RetryDecision::RetryWithImageStrip
    ));
}

#[test]
fn classify_image_processing_error_400_strips_images() {
    let err = api_err(http(400), "Could not process image");
    assert!(matches!(
        classify_error(&err, 0, 5),
        RetryDecision::RetryWithImageStrip
    ));
}

#[test]
fn classify_image_processing_error_500_wrapped_strips_images() {
    let err = api_err(
        http(500),
        "upstream: 400 Bad Request: Could not process image",
    );
    assert!(matches!(
        classify_error(&err, 0, 5),
        RetryDecision::RetryWithImageStrip
    ));
}

#[test]
fn classify_image_processing_error_takes_priority_over_5xx_retry() {
    let err = api_err(
        http(500),
        "Could not process image: bad format",
    );
    assert!(
        err.is_retryable(),
        "500 is retryable without the image-processing guard"
    );
    assert!(matches!(
        classify_error(&err, 0, 5),
        RetryDecision::RetryWithImageStrip
    ));
}

#[test]
fn classify_image_400_strips_even_with_should_retry_false() {
    let err = SamplingError::Api {
        status: http(400),
        message: "some future wording without the legacy phrase".into(),
        model_metadata: None,
        retry_after_secs: None,
        should_retry: Some(false),
        error_code: Some(ApiErrorCode::InvalidImage),
    };
    assert!(matches!(
        classify_error(&err, 0, 5),
        RetryDecision::RetryWithImageStrip
    ));
}

#[test]
fn classify_image_stream_error_strips_instead_of_blind_retry() {
    let err = SamplingError::StreamError {
        error_type: "invalid_request_error".into(),
        message: "Base64 string of provided image cannot be decoded.".into(),
        code: Some(ApiErrorCode::InvalidImage),
    };
    assert!(matches!(
        classify_error(&err, 0, 5),
        RetryDecision::RetryWithImageStrip
    ));

    let unrelated = SamplingError::StreamError {
        error_type: "overloaded_error".into(),
        message: "The server is overloaded.".into(),
        code: None,
    };
    assert!(!matches!(
        classify_error(&unrelated, 0, 5),
        RetryDecision::RetryWithImageStrip
    ));
}

#[test]
fn classify_rate_limited_uses_retry_after() {
    let err = api_err_with_retry_after(http(429), 7);
    match classify_error(&err, 0, 5) {
        RetryDecision::RetryWithBackoff {
            backoff,
            is_rate_limited,
        } => {
            assert!(is_rate_limited);
            assert_eq!(backoff, Duration::from_secs(7));
        }
        other => panic!("expected RetryWithBackoff, got {other:?}"),
    }
}

#[test]
fn classify_rate_limited_retries_within_budget_not_threshold() {
    let err = api_err(http(429), "slow");
    match classify_error(&err, 1, 5) {
        RetryDecision::RetryWithBackoff {
            is_rate_limited, ..
        } => {
            assert!(is_rate_limited);
        }
        other => panic!("expected RetryWithBackoff, got {other:?}"),
    }
}

#[test]
fn classify_rate_limited_exhausts_at_max_retries() {
    let err = api_err(http(429), "slow");
    match classify_error(&err, 4, 5) {
        RetryDecision::Fatal(SamplingError::Api { status, .. }) => {
            assert_eq!(status, http(429));
        }
        other => panic!("expected Fatal at budget, got {other:?}"),
    }
}

#[test]
fn zero_retry_budget_never_reuses_a_model_output_cap() {
    for err in [
        api_err(http(500), "boom"),
        api_err(http(413), "too big"),
        api_err(http(400), "Could not process image"),
        SamplingError::EmptyResponse {
            context: EmptyResponseContext {
                reason: EmptyReason::NoVisibleContent,
                had_reasoning: false,
                content_len: 0,
                tool_call_count: 0,
                finish_reason: Some("stop".into()),
                completion_tokens: Some(1),
                reasoning_tokens: Some(0),
                prompt_tokens: Some(10),
                model: "m".into(),
                first_choice_seen: true,
            },
        },
    ] {
        assert!(matches!(
            classify_error(&err, 0, 0),
            RetryDecision::Fatal(_)
        ));
    }
}

#[test]
fn classify_5xx_first_retry_rebuilds_client() {
    let err = api_err(http(500), "boom");
    match classify_error(&err, 0, 5) {
        RetryDecision::RetryWithClientRebuild { backoff } => {
            assert!(backoff >= Duration::from_millis(1600));
        }
        other => panic!("expected RetryWithClientRebuild, got {other:?}"),
    }
}

#[test]
fn classify_5xx_subsequent_retry_uses_plain_retry() {
    let err = api_err(http(502), "boom");
    match classify_error(&err, 1, 5) {
        RetryDecision::Retry { backoff } => {
            assert!(backoff >= Duration::from_millis(3200));
        }
        other => panic!("expected Retry, got {other:?}"),
    }
}

#[test]
fn classify_5xx_exhausted_retries_is_fatal() {
    let err = api_err(http(503), "boom");
    match classify_error(&err, 4, 5) {
        RetryDecision::Fatal(SamplingError::Api { .. }) => {}
        other => panic!("expected Fatal, got {other:?}"),
    }
}

#[test]
fn classify_event_stream_error_is_retryable() {
    let err = SamplingError::EventStreamError("connection reset".into());
    match classify_error(&err, 0, 5) {
        RetryDecision::RetryWithClientRebuild { .. } => {}
        other => panic!("expected RetryWithClientRebuild, got {other:?}"),
    }
}

#[test]
fn classify_stream_error_is_retryable() {
    let err = SamplingError::StreamError {
        error_type: "transient".into(),
        message: "x".into(),
        code: None,
    };
    match classify_error(&err, 0, 5) {
        RetryDecision::RetryWithClientRebuild { .. } => {}
        other => panic!("expected RetryWithClientRebuild for StreamError, got {other:?}"),
    }
}

#[test]
fn classify_idle_timeout_is_retryable() {
    let err = SamplingError::IdleTimeout { elapsed_secs: 300 };
    match classify_error(&err, 0, 5) {
        RetryDecision::RetryWithClientRebuild { .. } => {}
        other => panic!("expected RetryWithClientRebuild for IdleTimeout, got {other:?}"),
    }
}

#[test]
fn classify_invalid_config_is_fatal() {
    let err = SamplingError::InvalidConfiguration("missing model");
    assert!(matches!(
        classify_error(&err, 0, 5),
        RetryDecision::Fatal(SamplingError::InvalidConfiguration(_))
    ));
}

#[test]
fn classify_api_400_non_encrypted_is_retryable() {
    let err = api_err(http(400), "Invalid model parameter");
    assert!(matches!(
        classify_error(&err, 0, 5),
        RetryDecision::RetryWithClientRebuild { .. }
    ));
}

fn serialization_err() -> SamplingError {
    let e = serde_json::from_str::<i32>("not a number").unwrap_err();
    SamplingError::Serialization(JsonError {
        line: e.line(),
        column: e.column(),
        rendered: e.to_string(),
    })
}

/// A parse failure must not turn into a retryable error when it is copied.
#[test]
fn clone_error_preserves_serialization_and_non_retryability() {
    let cloned = clone_error(&serialization_err());
    assert!(
        matches!(cloned, SamplingError::Serialization(_)),
        "expected Serialization, got {cloned:?}"
    );
    assert!(!cloned.is_retryable());
    let SamplingError::Serialization(e) = &cloned else {
        panic!("expected Serialization, got {cloned:?}");
    };
    assert!(
        e.rendered.contains("line 1 column"),
        "original position text must survive the clone: {cloned:?}"
    );
}

/// Without the code, a copied stream error would be retried with its images.
#[test]
fn clone_error_preserves_stream_error_code() {
    let cloned = clone_error(&SamplingError::StreamError {
        error_type: "invalid_request_error".into(),
        message: "bad image".into(),
        code: Some(ApiErrorCode::InvalidImage),
    });
    let SamplingError::StreamError { code, .. } = &cloned else {
        panic!("expected StreamError, got {cloned:?}");
    };
    assert_eq!(*code, Some(ApiErrorCode::InvalidImage));
    assert!(cloned.is_image_processing_error());
}

#[test]
fn classify_serialization_is_fatal_on_first_attempt() {
    match classify_error(&serialization_err(), 0, 15) {
        RetryDecision::Fatal(SamplingError::Serialization(_)) => {}
        other => panic!("expected Fatal(Serialization) on attempt 1, got {other:?}"),
    }
}

#[test]
fn format_includes_retry_prefix_when_count_present() {
    let err = SamplingError::auth_unknown("bad");
    let s = format_sampling_error(&err, Some(3));
    assert!(s.starts_with("Request failed after 3 retries."));
}

#[test]
fn format_omits_retry_prefix_when_count_absent() {
    let err = SamplingError::auth_unknown("bad");
    let s = format_sampling_error(&err, None);
    assert!(!s.starts_with("Request failed after"));
    assert!(s.starts_with("Authentication failed:"));
}

#[test]
fn format_includes_status_hint_for_known_codes() {
    let err = api_err(http(413), "big");
    let s = format_sampling_error(&err, None);
    assert!(s.contains("HTTP 413"));
    assert!(s.contains("request too large"));
}

#[test]
fn format_idle_timeout_includes_elapsed_secs() {
    let err = SamplingError::IdleTimeout { elapsed_secs: 240 };
    let s = format_sampling_error(&err, None);
    assert!(s.contains("240s"));
}

#[test]
fn should_retry_false_still_retries_under_time_budget() {
    let err = SamplingError::Api {
        status: http(500),
        message: "boom".into(),
        model_metadata: None,
        retry_after_secs: None,
        should_retry: Some(false),
        error_code: None,
    };
    assert!(matches!(
        classify_error(&err, 0, 15),
        RetryDecision::RetryWithClientRebuild { .. }
    ));
}

#[test]
fn context_length_overflow_is_retried_under_time_budget() {
    let err = SamplingError::Api {
        status: http(500),
        message: "none: The prompt is too long for this model's context window.".into(),
        model_metadata: None,
        retry_after_secs: None,
        should_retry: None,
        error_code: None,
    };
    assert!(matches!(
        classify_error(&err, 0, 15),
        RetryDecision::RetryWithClientRebuild { .. }
    ));
}

#[test]
fn should_retry_true_falls_through_to_existing_logic() {
    let err = SamplingError::Api {
        status: http(500),
        message: "boom".into(),
        model_metadata: None,
        retry_after_secs: None,
        should_retry: Some(true),
        error_code: None,
    };
    assert!(matches!(
        classify_error(&err, 0, 15),
        RetryDecision::RetryWithClientRebuild { .. }
    ));
}

#[test]
fn should_retry_absent_falls_through() {
    let err = SamplingError::Api {
        status: http(500),
        message: "boom".into(),
        model_metadata: None,
        retry_after_secs: None,
        should_retry: None,
        error_code: None,
    };
    assert!(matches!(
        classify_error(&err, 0, 15),
        RetryDecision::RetryWithClientRebuild { .. }
    ));
}

#[test]
fn classify_doom_loop_detected_is_retry_with_immediate_backoff() {
    let err = SamplingError::DoomLoopDetected {
        triggers: vec!["tail_repetition:8@thinking".into()],
        aborted_at_chunk: None,
    };
    for retry_count in [0, 5, 99] {
        match classify_error(&err, retry_count, 2) {
            RetryDecision::Retry { backoff } => {
                assert!(backoff <= Duration::from_millis(250), "near-immediate");
            }
            other => panic!("expected Retry, got {other:?}"),
        }
    }
}

#[test]
fn should_retry_false_on_429_still_retries() {
    let err = SamplingError::Api {
        status: http(429),
        message: "rate limited".into(),
        model_metadata: None,
        retry_after_secs: Some(10),
        should_retry: Some(false),
        error_code: None,
    };
    assert!(matches!(
        classify_error(&err, 0, 15),
        RetryDecision::RetryWithBackoff {
            is_rate_limited: true,
            ..
        }
    ));
}

#[test]
fn classify_cloudflare_525_is_retryable_under_time_budget() {
    let err = api_err(
        http(525),
        "Secure connection to Grok failed. (HTTP 525).",
    );
    match classify_error(&err, 0, 15) {
        RetryDecision::RetryWithClientRebuild { .. } => {}
        other => panic!("expected RetryWithClientRebuild for 525, got {other:?}"),
    }
}
