//! [`SamplerConfig`], the per-request configuration handed to the sampler, and
//! [`RetryPolicy`], the knobs of its retry loop.

use crate::outside::{empty_map, entries};
use crate::retry::{DEFAULT_MAX_RETRIES, RATE_LIMIT_RETRY_THRESHOLD};
use indexmap::IndexMap;
use std::path::PathBuf;
use std::sync::Arc;
use vstd::prelude::*;

verus! {

/// How a request proves who sends it.
#[derive(Debug, Clone, Copy, PartialEq, Eq, Structural)]
pub enum AuthScheme {
    Bearer,
    XApiKey,
}

impl Default for AuthScheme {
    fn default() -> (r: AuthScheme)
        ensures
            r == AuthScheme::Bearer,
    {
        AuthScheme::Bearer
    }
}

/// How request bodies are compressed; `Zstd` only toward a proxy that advertised it.
#[derive(Debug, Clone, Copy, PartialEq, Eq, Structural)]
pub enum RequestCompression {
    Uncompressed,
    Zstd,
}

impl Default for RequestCompression {
    fn default() -> (r: RequestCompression)
        ensures
            r == RequestCompression::Uncompressed,
    {
        RequestCompression::Uncompressed
    }
}

/// The protocol shape of requests and responses.
#[derive(Debug, Clone, Copy, PartialEq, Eq, Structural)]
pub enum ApiBackend {
    ChatCompletions,
    Responses,
    Messages,
}

impl Default for ApiBackend {
    fn default() -> (r: ApiBackend)
        ensures
            r == ApiBackend::ChatCompletions,
    {
        ApiBackend::ChatCompletions
    }
}

/// A single-precision number, held as its bits.
#[derive(Debug, Clone, Copy, PartialEq, Eq, Structural)]
pub struct SingleBits {
    pub bits: u32,
}

/// How much a model reasons, by the name that goes on the wire.
#[derive(Debug, Clone, PartialEq, Eq)]
pub struct ReasoningEffort {
    pub name: String,
}

/// Which summary of its reasoning a model returns, by the name that goes on the wire.
#[derive(Debug, Clone, PartialEq, Eq)]
pub struct ReasoningSummary {
    pub name: String,
}

/// Identifier of a root conversation.
#[derive(Debug, Clone, PartialEq, Eq)]
pub struct ConversationGroupId {
    pub id: String,
}

/// The value of the `x-compactions-remaining` header.
#[derive(Debug, Clone, Copy, PartialEq, Eq, Structural)]
pub struct CompactionsRemaining {
    pub remaining: u32,
}

/// The value of the `x-compaction-at` header.
#[derive(Debug, Clone, Copy, PartialEq, Eq, Structural)]
pub struct CompactionAtTokens {
    pub tokens: u64,
}

/// When the server checks for reasoning loops, and how often one is resampled.
#[derive(Debug, Clone, Copy, PartialEq, Eq, Structural)]
pub struct DoomLoopRecoveryPolicy {
    pub max_threshold: u32,
    pub max_retries: u32,
}

/// Cheap sync read of the current bearer for [`SamplerConfig::bearer_resolver`].
pub trait BearerResolver: Send + Sync {
    /// The bearer to send now, if there is one.
    fn current_bearer(&self) -> Option<String>;
}

pub type SharedBearerResolver = Arc<dyn BearerResolver>;

/// Hook for [`SamplerConfig::attribution_callback`].
pub trait AttributionCallback: Send + Sync {
    /// Told of a 401, with the bearer that was sent.
    fn on_unauthorized(&self, sent_bearer: &str);
}

pub type SharedAttributionCallback = Arc<dyn AttributionCallback>;

/// Host trace hooks for the per-attempt HTTP span.
pub trait HeaderInjector: Send + Sync {
    /// Adds headers to a request about to be sent.
    fn inject(&self, headers: &mut reqwest::header::HeaderMap);

    /// Runs right after each streaming HTTP span is created and before it has
    /// children. Default: no-op.
    fn set_span_parent(&self, _span: &tracing::Span, _traceparent: &str) {
    }
}

pub type SharedHeaderInjector = Arc<dyn HeaderInjector>;

/// Identity of the client that originated the request, used for User-Agent rendering.
#[derive(Debug, Clone, PartialEq, Eq)]
pub struct OriginClientInfo {
    pub product: String,
    pub version: Option<String>,
}

/// All knobs that control a single sampling request.
///
/// Auth is selected by `auth_scheme`; `api_backend` controls only the protocol
/// shape.
pub struct SamplerConfig {
    pub api_key: Option<String>,
    pub base_url: String,
    /// Resolved local directory for this model's mTLS client identity.
    pub mtls_cert_dir: Option<PathBuf>,
    pub model: String,
    pub max_completion_tokens: Option<u32>,
    pub temperature: Option<SingleBits>,
    pub top_p: Option<SingleBits>,
    pub api_backend: ApiBackend,
    pub auth_scheme: AuthScheme,
    pub request_compression: RequestCompression,
    /// Extra request headers, applied verbatim.
    pub extra_headers: IndexMap<String, String>,
    /// Additional `include` values for the Responses API.
    pub extra_response_includes: Vec<String>,
    /// Query parameters folded into every request URL (percent-encoded).
    pub query_params: IndexMap<String, String>,
    /// Header name to environment variable, resolved when the client is built.
    pub env_http_headers: IndexMap<String, String>,
    /// Total context window size in tokens; not enforced here.
    pub context_window: u64,
    pub force_http1: bool,
    pub max_retries: Option<u32>,
    /// Total-attempt ceiling for rate-limited requests; `None` keeps
    /// [`RetryPolicy::rate_limit_retry_threshold`].
    pub rate_limit_retry_threshold: Option<u32>,
    pub stream_tool_calls: bool,
    /// Whether inference uses a streaming HTTP request.
    pub stream: bool,
    /// Whether system messages of the Responses API go into `instructions`.
    pub responses_system_prompt_as_instructions: bool,
    pub idle_timeout_secs: Option<u64>,
    /// Overall request timeout; `None` falls back to
    /// [`DEFAULT_REQUEST_TIMEOUT_SECS`].
    pub request_timeout_secs: Option<u64>,
    pub reasoning_effort: Option<ReasoningEffort>,
    /// Overrides the `reasoning.summary` of a request; `None` leaves it as built.
    pub reasoning_summary: Option<ReasoningSummary>,
    pub origin_client: Option<OriginClientInfo>,
    pub client_identifier: Option<String>,
    pub deployment_id: Option<String>,
    pub user_id: Option<String>,
    /// Emitted as `x-grok-conv-group-id`.
    pub conversation_group_id: Option<ConversationGroupId>,
    pub client_version: Option<String>,
    /// Told of every 401 response; `None` is a no-op.
    pub attribution_callback: Option<SharedAttributionCallback>,
    /// Resolves a fresh bearer for each request; `None` uses `api_key`.
    pub bearer_resolver: Option<SharedBearerResolver>,
    /// Whether the session can refresh credentials on a 401.
    pub auth_refresh_available: bool,
    pub supports_backend_search: bool,
    /// `None` disables the `x-compactions-remaining` header.
    pub compactions_remaining: Option<CompactionsRemaining>,
    /// `None` disables the `x-compaction-at` header.
    pub compaction_at_tokens: Option<CompactionAtTokens>,
    /// Server-side doom-loop check policy; `None` disables it.
    pub doom_loop_recovery: Option<DoomLoopRecoveryPolicy>,
    /// Per-request header injector.
    pub header_injector: Option<SharedHeaderInjector>,
}

impl SamplerConfig {
    /// Whether no text of the configuration is set.
    pub open spec fn has_no_texts(self) -> bool {
        &&& self.api_key is None
        &&& self.base_url@ == Seq::<char>::empty()
        &&& self.mtls_cert_dir is None
        &&& self.model@ == Seq::<char>::empty()
        &&& entries(self.extra_headers) == Seq::<(Seq<char>, Seq<char>)>::empty()
        &&& self.extra_response_includes@ == Seq::<String>::empty()
        &&& entries(self.query_params) == Seq::<(Seq<char>, Seq<char>)>::empty()
        &&& entries(self.env_http_headers) == Seq::<(Seq<char>, Seq<char>)>::empty()
        &&& self.origin_client is None
        &&& self.client_identifier is None
        &&& self.deployment_id is None
        &&& self.user_id is None
        &&& self.conversation_group_id is None
        &&& self.client_version is None
    }

    /// Whether no limit, no sampling parameter and no per-model policy is set.
    pub open spec fn has_no_limits(self) -> bool {
        &&& self.max_completion_tokens is None
        &&& self.temperature is None
        &&& self.top_p is None
        &&& self.context_window == 0
        &&& self.max_retries is None
        &&& self.rate_limit_retry_threshold is None
        &&& self.idle_timeout_secs is None
        &&& self.request_timeout_secs is None
        &&& self.reasoning_effort is None
        &&& self.reasoning_summary is None
        &&& self.compactions_remaining is None
        &&& self.compaction_at_tokens is None
        &&& self.doom_loop_recovery is None
    }

    /// Whether no hook is installed.
    pub open spec fn has_no_hooks(self) -> bool {
        &&& self.attribution_callback is None
        &&& self.bearer_resolver is None
        &&& self.header_injector is None
    }
}

impl Default for SamplerConfig {
    /// Empty defaults, so that callers can use `..Default::default()`. Streaming is
    /// on; every other switch is off.
    fn default() -> (r: SamplerConfig)
        ensures
            r.has_no_texts(),
            r.has_no_limits(),
            r.has_no_hooks(),
            r.api_backend == ApiBackend::ChatCompletions,
            r.auth_scheme == AuthScheme::Bearer,
            r.request_compression == RequestCompression::Uncompressed,
            r.stream,
            !r.force_http1,
            !r.stream_tool_calls,
            !r.responses_system_prompt_as_instructions,
            !r.auth_refresh_available,
            !r.supports_backend_search,
    {
        SamplerConfig {
            api_key: None,
            base_url: String::new(),
            mtls_cert_dir: None,
            model: String::new(),
            max_completion_tokens: None,
            temperature: None,
            top_p: None,
            api_backend: ApiBackend::default(),
            auth_scheme: AuthScheme::default(),
            request_compression: RequestCompression::default(),
            extra_headers: empty_map(),
            extra_response_includes: Vec::new(),
            query_params: empty_map(),
            env_http_headers: empty_map(),
            context_window: 0,
            force_http1: false,
            max_retries: None,
            rate_limit_retry_threshold: None,
            stream_tool_calls: false,
            stream: default_stream(),
            responses_system_prompt_as_instructions: false,
            idle_timeout_secs: None,
            request_timeout_secs: None,
            reasoning_effort: None,
            reasoning_summary: None,
            origin_client: None,
            client_identifier: None,
            deployment_id: None,
            user_id: None,
            conversation_group_id: None,
            client_version: None,
            attribution_callback: None,
            bearer_resolver: None,
            auth_refresh_available: false,
            supports_backend_search: false,
            compactions_remaining: None,
            compaction_at_tokens: None,
            doom_loop_recovery: None,
            header_injector: None,
        }
    }
}

/// Retry knobs for the sampler's internal retry loop.
#[derive(Debug, Clone, Copy, PartialEq, Eq, Structural)]
pub struct RetryPolicy {
    /// Maximum number of retries before giving up. A safety net; the primary cap is
    /// `max_retry_duration_secs`.
    pub max_retries: u32,
    /// Former ceiling for rate-limited requests. Kept for compatibility; it caps
    /// nothing.
    pub rate_limit_retry_threshold: u32,
    pub retry_only_before_output: bool,
    /// Total time budget for the retry loop, in seconds.
    pub max_retry_duration_secs: u64,
}

/// Default total retry time budget: 10 minutes.
pub const DEFAULT_MAX_RETRY_DURATION_SECS: u64 = 600;

/// Default overall request timeout in seconds: 5 minutes.
pub const DEFAULT_REQUEST_TIMEOUT_SECS: u64 = 300;

/// The time budget of a policy that names none.
pub fn default_max_retry_duration_secs() -> (r: u64)
    ensures
        r == DEFAULT_MAX_RETRY_DURATION_SECS,
{
    DEFAULT_MAX_RETRY_DURATION_SECS
}

/// Default for [`SamplerConfig::stream`]: streaming enabled.
pub fn default_stream() -> (r: bool)
    ensures
        r,
{
    true
}

impl Default for RetryPolicy {
    fn default() -> (r: RetryPolicy)
        ensures
            r == (RetryPolicy {
                max_retries: DEFAULT_MAX_RETRIES,
                rate_limit_retry_threshold: RATE_LIMIT_RETRY_THRESHOLD,
                retry_only_before_output: false,
                max_retry_duration_secs: DEFAULT_MAX_RETRY_DURATION_SECS,
            }),
    {
        RetryPolicy {
            max_retries: DEFAULT_MAX_RETRIES,
            rate_limit_retry_threshold: RATE_LIMIT_RETRY_THRESHOLD,
            retry_only_before_output: false,
            max_retry_duration_secs: default_max_retry_duration_secs(),
        }
    }
}

} // verus!
