//! What the settings are when nobody sets them, field by field.

use crate::config::{
    default_max_retry_duration_secs, default_stream, ApiBackend, AuthScheme, RequestCompression,
    RetryPolicy, SamplerConfig, DEFAULT_MAX_RETRY_DURATION_SECS, DEFAULT_REQUEST_TIMEOUT_SECS,
};
use crate::outside::entries;
use crate::retry::RATE_LIMIT_RETRY_THRESHOLD;
use vstd::prelude::*;

verus! {

/// By default a request is retried up to 30 times within 10 minutes, also after
/// output, and times out after 5 minutes.
pub proof fn law_default_retry_policy(r: RetryPolicy, secs: u64)
    requires
        call_ensures(<RetryPolicy as Default>::default, (), r),
        call_ensures(default_max_retry_duration_secs, (), secs),
    ensures
        r.max_retries == 30,
        r.rate_limit_retry_threshold == 2,
        !r.retry_only_before_output,
        r.max_retry_duration_secs == 600,
        secs == 600,
        DEFAULT_MAX_RETRY_DURATION_SECS == 600,
        DEFAULT_REQUEST_TIMEOUT_SECS == 300,
        RATE_LIMIT_RETRY_THRESHOLD == 2,
{
}

/// By default streaming is on and every other switch is off.
pub proof fn law_default_switches(r: SamplerConfig, stream: bool)
    requires
        call_ensures(<SamplerConfig as Default>::default, (), r),
        call_ensures(default_stream, (), stream),
    ensures
        r.stream && stream,
        !r.force_http1,
        !r.stream_tool_calls,
        !r.responses_system_prompt_as_instructions,
        !r.auth_refresh_available,
        !r.supports_backend_search,
        r.api_backend is ChatCompletions,
        r.auth_scheme is Bearer,
        r.request_compression is Uncompressed,
{
}

/// By default no text, no map entry and no hook is set.
pub proof fn law_default_config_is_empty(r: SamplerConfig)
    requires
        call_ensures(<SamplerConfig as Default>::default, (), r),
    ensures
        r.base_url@.len() == 0 && r.model@.len() == 0,
        r.api_key is None && r.mtls_cert_dir is None && r.origin_client is None,
        r.client_identifier is None && r.deployment_id is None && r.user_id is None,
        r.conversation_group_id is None && r.client_version is None,
        r.extra_response_includes@.len() == 0,
        entries(r.extra_headers).len() == 0,
        entries(r.query_params).len() == 0,
        entries(r.env_http_headers).len() == 0,
        r.attribution_callback is None && r.bearer_resolver is None && r.header_injector is None,
{
}

/// By default nothing is limited and no sampling parameter or policy is set.
pub proof fn law_default_config_limits_nothing(r: SamplerConfig)
    requires
        call_ensures(<SamplerConfig as Default>::default, (), r),
    ensures
        r.context_window == 0,
        r.max_completion_tokens is None && r.temperature is None && r.top_p is None,
        r.max_retries is None && r.rate_limit_retry_threshold is None,
        r.idle_timeout_secs is None && r.request_timeout_secs is None,
        r.reasoning_effort is None && r.reasoning_summary is None,
        r.compactions_remaining is None && r.compaction_at_tokens is None,
        r.doom_loop_recovery is None,
{
}

/// The settings' own defaults.
pub proof fn law_default_choices(
    backend: ApiBackend,
    scheme: AuthScheme,
    compression: RequestCompression,
)
    requires
        call_ensures(<ApiBackend as Default>::default, (), backend),
        call_ensures(<AuthScheme as Default>::default, (), scheme),
        call_ensures(<RequestCompression as Default>::default, (), compression),
    ensures
        backend is ChatCompletions,
        scheme is Bearer,
        compression is Uncompressed,
{
}

} // verus!
