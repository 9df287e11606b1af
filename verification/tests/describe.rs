//! The exact wording of error descriptions.

use grok_sampler::error::{
    EmptyReason, EmptyResponseContext, HttpError, SamplingError, StatusCode,
};
use grok_sampler::format::{format_sampling_error, push_http_description};
use grok_sampler::json::JsonError;
use grok_sampler::text;

fn api(code: u16) -> SamplingError {
    SamplingError::Api {
        status: StatusCode::from_u16(code).unwrap(),
        message: "msg".to_string(),
        model_metadata: None,
        retry_after_secs: None,
        should_retry: None,
        error_code: None,
    }
}

fn transport(status: Option<u16>, url: Option<&str>) -> HttpError {
    HttpError {
        is_timeout: status.is_some(),
        is_connect: url.is_some(),
        status: status.map(|code| StatusCode::from_u16(code).unwrap()),
        url: url.map(|url| url.to_string()),
        rendered: "error sending request".to_string(),
    }
}

#[test]
fn status_hints() {
    let hint = |code| format_sampling_error(&api(code), None);
    let auth = " (authentication issue - check your API key)";
    let unavailable = " (server unavailable - please retry)";
    for (code, text) in [
        (400, " (bad request - check your input)"),
        (401, auth),
        (403, auth),
        (404, " (endpoint not found - check model configuration)"),
        (413, " (request too large - try /compact or start new session)"),
        (429, " (rate limited - please wait and retry)"),
        (500, " (server internal error)"),
        (502, unavailable),
        (503, unavailable),
        (504, unavailable),
        (418, ""),
        (501, ""),
        (999, ""),
    ] {
        assert_eq!(hint(code), format!("API error (HTTP {code}{text}): msg"));
    }
}

#[test]
fn transport_failures_list_what_is_known() {
    let tail = ". This may be a network issue or the API endpoint may be unavailable.";
    let describe = |e| format_sampling_error(&SamplingError::Http(e), None);
    assert_eq!(
        describe(transport(None, None)),
        format!("HTTP request failed: error sending request{tail}")
    );
    assert_eq!(
        describe(transport(Some(503), None)),
        format!(
            "HTTP request failed: error sending request (timeout, status 503 Service Unavailable){tail}"
        )
    );
    assert_eq!(
        describe(transport(Some(599), Some("https://x.ai/"))),
        format!(
            "HTTP request failed: error sending request (timeout, connection failed, status 599 <unknown status code>, url: https://x.ai/){tail}"
        )
    );
}

#[test]
fn transport_status_text_is_taken_as_given() {
    let mut out = "> ".to_string();
    push_http_description(&mut out, &transport(None, Some("u")), Some("S"));
    assert_eq!(
        out,
        "> HTTP request failed: error sending request (connection failed, status S, url: u). This may be a network issue or the API endpoint may be unavailable."
    );
}

#[test]
fn other_errors_in_full() {
    let describe = |err: SamplingError| format_sampling_error(&err, None);
    assert_eq!(
        describe(SamplingError::auth_unknown("no key")),
        "Authentication failed: no key. Please check your API key configuration."
    );
    assert_eq!(
        describe(SamplingError::InvalidConfiguration("no model")),
        "Invalid configuration: no model. Please check your model settings."
    );
    assert_eq!(
        describe(SamplingError::Serialization(JsonError {
            line: 3,
            column: 14,
            rendered: "bad at line 3 column 14".to_string(),
        })),
        "Failed to parse API response at line 3 column 14: bad at line 3 column 14. This indicates an unexpected response format from the server."
    );
    assert_eq!(
        describe(SamplingError::EventStreamError("cut".to_string())),
        "Event stream error: cut. The connection to the server was interrupted."
    );
    assert_eq!(
        describe(SamplingError::StreamError {
            error_type: "overloaded".to_string(),
            message: "busy".to_string(),
            code: None,
        }),
        "Server stream error (overloaded): busy. The server encountered an error while streaming the response."
    );
    assert_eq!(
        describe(SamplingError::IdleTimeout { elapsed_secs: u64::MAX }),
        "Model stopped responding after 18446744073709551615s. The model may be overloaded or stuck. Try again or use a different model."
    );
    assert_eq!(
        describe(SamplingError::MaxTokensTruncation),
        "Response truncated by max_tokens."
    );
    assert_eq!(
        describe(SamplingError::DoomLoopDetected {
            triggers: vec!["a".to_string(), "b".to_string(), "c".to_string()],
            aborted_at_chunk: None,
        }),
        "Server detected a reasoning loop (a, b, c); resampling the response."
    );
    assert_eq!(
        describe(SamplingError::DoomLoopDetected {
            triggers: vec![],
            aborted_at_chunk: Some(1),
        }),
        "Server detected a reasoning loop (); resampling the response."
    );
}

#[test]
fn empty_responses_in_full() {
    let context = |reason, finish_reason, completion_tokens| EmptyResponseContext {
        reason,
        had_reasoning: completion_tokens == None,
        content_len: 0,
        tool_call_count: 0,
        finish_reason,
        completion_tokens,
        reasoning_tokens: None,
        prompt_tokens: None,
        model: "m".to_string(),
        first_choice_seen: true,
    };
    let describe =
        |context| format_sampling_error(&SamplingError::EmptyResponse { context }, Some(0));
    assert_eq!(
        describe(context(EmptyReason::NoVisibleContent, Some("stop".to_string()), Some(12))),
        "Request failed after 0 retries. Empty response from model (no_visible_content): model=m, had_reasoning=false, finish_reason=stop, completion_tokens=12"
    );
    assert_eq!(
        describe(context(EmptyReason::NoChoices, None, None)),
        "Request failed after 0 retries. Empty response from model (no_choices): model=m, had_reasoning=true, finish_reason=none, completion_tokens=0"
    );
}

#[test]
fn retry_prefix_comes_first_and_only_with_a_count() {
    let plain = format_sampling_error(&api(500), None);
    assert_eq!(
        format_sampling_error(&api(500), Some(4294967295)),
        format!("Request failed after 4294967295 retries. {plain}")
    );
    assert!(!plain.starts_with("Request failed after"));
}

#[test]
fn text_helpers() {
    assert!(text::contains("abcabd", "abd"));
    assert!(text::contains("aab", "ab"));
    assert!(text::contains("x", ""));
    assert!(text::contains("", ""));
    assert!(text::contains("naïve ünïcode", "ünï"));
    assert!(!text::contains("ab", "abc"));
    assert!(!text::contains("abcabc", "abd"));
    assert_eq!(text::parse_u32("12"), Some(12));
    assert_eq!(text::chars_of("aß"), vec!['a', 'ß']);
    let mut out = "=".to_string();
    text::push_decimal(&mut out, 1020);
    text::push_bool(&mut out, false);
    assert_eq!(out, "=1020false");
    assert_eq!(text::join(&vec!["a".to_string()], "-"), "a");
}
