//! Configuration defaults and the readings of lenient JSON fields.

use grok_sampler::config::{
    default_max_retry_duration_secs, default_stream, ApiBackend, AuthScheme, BearerResolver,
    HeaderInjector, RequestCompression, RetryPolicy, SamplerConfig, SingleBits,
    DEFAULT_REQUEST_TIMEOUT_SECS,
};
use grok_sampler::serde_helpers::{
    double_option, empty_string_as_none, empty_string_as_none_value, JsonValue,
};
use serde_json::Value;
use std::sync::Arc;

#[test]
fn retry_policy_defaults() {
    let policy = RetryPolicy::default();
    assert_eq!(policy.max_retries, 30);
    assert_eq!(policy.rate_limit_retry_threshold, 2);
    assert!(!policy.retry_only_before_output);
    assert_eq!(policy.max_retry_duration_secs, 600);
    assert_eq!(default_max_retry_duration_secs(), 600);
    assert_eq!(DEFAULT_REQUEST_TIMEOUT_SECS, 300);
}

#[test]
fn sampler_config_defaults() {
    let config = SamplerConfig::default();
    assert!(config.stream && default_stream());
    assert!(config.doom_loop_recovery.is_none());
    assert!(config.extra_response_includes.is_empty());
    assert!(config.mtls_cert_dir.is_none());
    assert!(config.rate_limit_retry_threshold.is_none());
    assert!(config.extra_headers.is_empty());
    assert!(config.query_params.is_empty());
    assert!(config.env_http_headers.is_empty());
    assert!(config.base_url.is_empty() && config.model.is_empty());
    assert!(config.bearer_resolver.is_none() && config.header_injector.is_none());
    assert_eq!(config.api_backend, ApiBackend::ChatCompletions);
    assert_eq!(config.auth_scheme, AuthScheme::Bearer);
    assert_eq!(config.request_compression, RequestCompression::Uncompressed);
    assert_eq!(config.context_window, 0);
    assert!(!config.responses_system_prompt_as_instructions);
}

struct Fixed;

impl BearerResolver for Fixed {
    fn current_bearer(&self) -> Option<String> {
        Some("token".to_string())
    }
}

impl HeaderInjector for Fixed {
    fn inject(&self, headers: &mut reqwest::header::HeaderMap) {
        headers.insert("traceparent", "00".parse().unwrap());
    }
}

#[test]
fn hooks_are_called_through_the_config() {
    let mut headers = reqwest::header::HeaderMap::new();
    let config = SamplerConfig {
        temperature: Some(SingleBits { bits: 0.5f32.to_bits() }),
        bearer_resolver: Some(Arc::new(Fixed)),
        header_injector: Some(Arc::new(Fixed)),
        ..Default::default()
    };
    assert_eq!(config.bearer_resolver.unwrap().current_bearer().unwrap(), "token");
    let injector = config.header_injector.unwrap();
    injector.inject(&mut headers);
    injector.set_span_parent(&tracing::Span::none(), "00");
    assert_eq!(headers.len(), 1);
    assert_eq!(f32::from_bits(config.temperature.unwrap().bits), 0.5);
}

#[test]
fn empty_strings_count_as_none() {
    let read = |text: &str| {
        empty_string_as_none(serde_json::from_str::<Option<String>>(text).map_err(|e| e.line()))
    };
    assert_eq!(read("\"\""), Ok(None));
    assert_eq!(read("null"), Ok(None));
    assert_eq!(read("\" \""), Ok(Some(" ".to_string())));
    assert_eq!(read("\"stop\""), Ok(Some("stop".to_string())));
    assert_eq!(read("1"), Err(1));
}

fn read_number(text: &str) -> Result<Option<i64>, String> {
    let decoded = serde_json::from_str::<Option<Value>>(text)
        .map(|value| {
            value.map(|value| match value {
                Value::String(text) => JsonValue::Text(text),
                other => JsonValue::Other(other),
            })
        })
        .map_err(|e| e.to_string());
    empty_string_as_none_value(decoded, |value| match value {
        JsonValue::Text(text) => Err(format!("text {text}")),
        JsonValue::Other(value) => value.as_i64().ok_or("no number".to_string()),
    })
}

#[test]
fn empty_string_values_are_not_decoded() {
    assert_eq!(read_number("\"\""), Ok(None));
    assert_eq!(read_number("null"), Ok(None));
    assert_eq!(read_number("7"), Ok(Some(7)));
    assert_eq!(read_number("\"7\""), Err("text 7".to_string()));
    assert_eq!(read_number("[]"), Err("no number".to_string()));
    assert!(read_number("[").unwrap_err().contains("line 1"));
}

#[test]
fn present_fields_clear_or_set() {
    assert_eq!(double_option::<i32, ()>(Ok(None)), Ok(Some(None)));
    assert_eq!(double_option::<i32, ()>(Ok(Some(3))), Ok(Some(Some(3))));
    assert_eq!(double_option::<i32, u8>(Err(9)), Err(9));
}
