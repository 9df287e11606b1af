//! The errors of a sampling request and what the retry policy reads off them.

use crate::json::{json_error_of_text, JsonError, JsonErrorView};
use crate::outside::json_error_from_text;
use crate::text::{contains, contains_text, texts};
use vstd::prelude::*;

verus! {

/// A number that is no HTTP status code.
#[derive(Debug, Clone, Copy, PartialEq, Eq, Structural)]
pub struct InvalidStatusCode;

/// An HTTP status code, from 100 to 999.
#[derive(Debug, Clone, Copy, PartialEq, Eq, Structural)]
pub struct StatusCode {
    code: u16,
}

impl View for StatusCode {
    type V = u16;

    closed spec fn view(&self) -> u16 {
        self.code
    }
}

impl StatusCode {
    #[verifier::type_invariant]
    spec fn in_range(self) -> bool {
        100 <= self.code <= 999
    }

    /// The status code `code`; a number below 100 or above 999 is refused.
    pub fn from_u16(code: u16) -> (r: Result<StatusCode, InvalidStatusCode>)
        ensures
            r is Ok <==> 100 <= code <= 999,
            r matches Ok(status) ==> status@ == code,
    {
        if 100 <= code && code <= 999 {
            Ok(StatusCode { code })
        } else {
            Err(InvalidStatusCode)
        }
    }

    /// The number.
    pub fn as_u16(&self) -> (r: u16)
        ensures
            r == self@,
            100 <= r <= 999,
    {
        proof {
            use_type_invariant(self);
        }
        self.code
    }
}

/// Which kind of credential a rejected request carried.
#[derive(Debug, Clone, Copy, PartialEq, Eq, Structural)]
pub enum Credential {
    Unknown,
    ApiKey,
    SessionToken,
}

/// The machine-readable code that the server gives to an error.
#[derive(Debug, Clone, PartialEq, Eq)]
pub enum ApiErrorCode {
    /// The server could not use an image of the request.
    InvalidImage,
    Other(String),
}

/// Abstract value of an [`ApiErrorCode`].
pub enum ApiErrorCodeView {
    InvalidImage,
    Other(Seq<char>),
}

impl View for ApiErrorCode {
    type V = ApiErrorCodeView;

    open spec fn view(&self) -> ApiErrorCodeView {
        match self {
            ApiErrorCode::InvalidImage => ApiErrorCodeView::InvalidImage,
            ApiErrorCode::Other(name) => ApiErrorCodeView::Other(name@),
        }
    }
}

/// A failure of the HTTP transport: no response, or one that could not be read.
#[derive(Debug)]
pub struct HttpError {
    pub is_timeout: bool,
    pub is_connect: bool,
    pub status: Option<StatusCode>,
    pub url: Option<String>,
    /// The failure written out.
    pub rendered: String,
}

/// Abstract value of an [`HttpError`].
pub struct HttpErrorView {
    pub is_timeout: bool,
    pub is_connect: bool,
    pub status: Option<u16>,
    pub url: Option<Seq<char>>,
    pub rendered: Seq<char>,
}

impl View for HttpError {
    type V = HttpErrorView;

    open spec fn view(&self) -> HttpErrorView {
        HttpErrorView {
            is_timeout: self.is_timeout,
            is_connect: self.is_connect,
            status: match self.status {
                Some(status) => Some(status@),
                None => None,
            },
            url: text_of(self.url),
            rendered: self.rendered@,
        }
    }
}

/// The text of an optional string.
pub open spec fn text_of(s: Option<String>) -> Option<Seq<char>> {
    match s {
        Some(s) => Some(s@),
        None => None,
    }
}

/// The value of an optional error code.
pub open spec fn code_of(code: Option<ApiErrorCode>) -> Option<ApiErrorCodeView> {
    match code {
        Some(code) => Some(code@),
        None => None,
    }
}

/// Why a response counts as empty.
#[derive(Debug, Clone, Copy, PartialEq, Eq, Structural)]
pub enum EmptyReason {
    /// The response held neither visible text nor a tool call.
    NoVisibleContent,
    /// The response held no choice at all.
    NoChoices,
}

impl EmptyReason {
    /// How the reason is written out.
    pub open spec fn text(self) -> Seq<char> {
        match self {
            EmptyReason::NoVisibleContent => "no_visible_content"@,
            EmptyReason::NoChoices => "no_choices"@,
        }
    }

    /// How the reason is written out.
    pub fn as_str(&self) -> (r: &'static str)
        ensures
            r@ == self.text(),
    {
        match self {
            EmptyReason::NoVisibleContent => "no_visible_content",
            EmptyReason::NoChoices => "no_choices",
        }
    }
}

/// What is known of a response that turned out empty.
#[derive(Debug)]
pub struct EmptyResponseContext {
    pub reason: EmptyReason,
    pub had_reasoning: bool,
    pub content_len: usize,
    pub tool_call_count: usize,
    pub finish_reason: Option<String>,
    pub completion_tokens: Option<u32>,
    pub reasoning_tokens: Option<u32>,
    pub prompt_tokens: Option<u32>,
    pub model: String,
    pub first_choice_seen: bool,
}

/// Abstract value of an [`EmptyResponseContext`].
pub struct EmptyResponseView {
    pub reason: EmptyReason,
    pub had_reasoning: bool,
    pub content_len: usize,
    pub tool_call_count: usize,
    pub finish_reason: Option<Seq<char>>,
    pub completion_tokens: Option<u32>,
    pub reasoning_tokens: Option<u32>,
    pub prompt_tokens: Option<u32>,
    pub model: Seq<char>,
    pub first_choice_seen: bool,
}

impl View for EmptyResponseContext {
    type V = EmptyResponseView;

    open spec fn view(&self) -> EmptyResponseView {
        EmptyResponseView {
            reason: self.reason,
            had_reasoning: self.had_reasoning,
            content_len: self.content_len,
            tool_call_count: self.tool_call_count,
            finish_reason: text_of(self.finish_reason),
            completion_tokens: self.completion_tokens,
            reasoning_tokens: self.reasoning_tokens,
            prompt_tokens: self.prompt_tokens,
            model: self.model@,
            first_choice_seen: self.first_choice_seen,
        }
    }
}

impl EmptyResponseView {
    /// The finish reason, or `none` where the response gave none.
    pub open spec fn finish_reason_text(self) -> Seq<char> {
        match self.finish_reason {
            Some(reason) => reason,
            None => "none"@,
        }
    }
}

impl EmptyResponseContext {
    /// The finish reason, or `none` where the response gave none.
    pub fn finish_reason_str(&self) -> (r: &str)
        ensures
            r@ == self@.finish_reason_text(),
    {
        match &self.finish_reason {
            Some(reason) => reason.as_str(),
            None => "none",
        }
    }
}

/// Why a sampling request failed.
#[derive(Debug)]
pub enum SamplingError {
    /// The credential was missing or rejected.
    Auth { message: String, credential: Credential },
    /// The request cannot be built from the configuration.
    InvalidConfiguration(&'static str),
    /// The transport failed.
    Http(HttpError),
    /// The response is no JSON of the expected shape.
    Serialization(JsonError),
    /// The server answered with an error status.
    Api {
        status: StatusCode,
        message: String,
        /// The model metadata that the response carried, as it was sent.
        model_metadata: Option<String>,
        /// The response's `Retry-After`, in seconds.
        retry_after_secs: Option<u64>,
        /// The response's `x-should-retry`.
        should_retry: Option<bool>,
        error_code: Option<ApiErrorCode>,
    },
    /// The event stream broke off.
    EventStreamError(String),
    /// The server reported an error inside the event stream.
    StreamError { error_type: String, message: String, code: Option<ApiErrorCode> },
    /// The model sent nothing for too long.
    IdleTimeout { elapsed_secs: u64 },
    /// The model returned neither content nor tool calls.
    EmptyResponse { context: EmptyResponseContext },
    /// The response ended at the token limit.
    MaxTokensTruncation,
    /// The server found the model repeating itself.
    DoomLoopDetected { triggers: Vec<String>, aborted_at_chunk: Option<u64> },
}

/// Abstract value of a [`SamplingError`].
pub enum SamplingErrorView {
    Auth { message: Seq<char>, credential: Credential },
    InvalidConfiguration(Seq<char>),
    Http(HttpErrorView),
    Serialization(JsonErrorView),
    Api {
        status: u16,
        message: Seq<char>,
        model_metadata: Option<Seq<char>>,
        retry_after_secs: Option<u64>,
        should_retry: Option<bool>,
        error_code: Option<ApiErrorCodeView>,
    },
    EventStreamError(Seq<char>),
    StreamError { error_type: Seq<char>, message: Seq<char>, code: Option<ApiErrorCodeView> },
    IdleTimeout { elapsed_secs: u64 },
    EmptyResponse { context: EmptyResponseView },
    MaxTokensTruncation,
    DoomLoopDetected { triggers: Seq<Seq<char>>, aborted_at_chunk: Option<u64> },
}

impl View for SamplingError {
    type V = SamplingErrorView;

    open spec fn view(&self) -> SamplingErrorView {
        match self {
            SamplingError::Auth { message, credential } => SamplingErrorView::Auth {
                message: message@,
                credential: *credential,
            },
            SamplingError::InvalidConfiguration(msg) => SamplingErrorView::InvalidConfiguration(
                msg@,
            ),
            SamplingError::Http(e) => SamplingErrorView::Http(e@),
            SamplingError::Serialization(e) => SamplingErrorView::Serialization(e@),
            SamplingError::Api {
                status,
                message,
                model_metadata,
                retry_after_secs,
                should_retry,
                error_code,
            } => SamplingErrorView::Api {
                status: status@,
                message: message@,
                model_metadata: text_of(*model_metadata),
                retry_after_secs: *retry_after_secs,
                should_retry: *should_retry,
                error_code: code_of(*error_code),
            },
            SamplingError::EventStreamError(msg) => SamplingErrorView::EventStreamError(msg@),
            SamplingError::StreamError { error_type, message, code } =>
                SamplingErrorView::StreamError {
                error_type: error_type@,
                message: message@,
                code: code_of(*code),
            },
            SamplingError::IdleTimeout { elapsed_secs } => SamplingErrorView::IdleTimeout {
                elapsed_secs: *elapsed_secs,
            },
            SamplingError::EmptyResponse { context } => SamplingErrorView::EmptyResponse {
                context: context@,
            },
            SamplingError::MaxTokensTruncation => SamplingErrorView::MaxTokensTruncation,
            SamplingError::DoomLoopDetected { triggers, aborted_at_chunk } =>
                SamplingErrorView::DoomLoopDetected {
                triggers: texts(triggers@),
                aborted_at_chunk: *aborted_at_chunk,
            },
        }
    }
}

impl SamplingErrorView {
    /// A 400 that speaks of encrypted content.
    pub open spec fn is_encrypted_content_error(self) -> bool {
        self matches SamplingErrorView::Api { status, message, .. } && status == 400
            && contains_text(message, "encrypted_content"@)
    }

    /// A 413.
    pub open spec fn is_payload_too_large(self) -> bool {
        self matches SamplingErrorView::Api { status, .. } && status == 413
    }

    /// An error whose code names an invalid image, or a 400 or 500 whose message
    /// says that an image could not be processed.
    pub open spec fn is_image_processing_error(self) -> bool {
        match self {
            SamplingErrorView::Api { status, message, error_code, .. } => {
                ||| error_code == Some(ApiErrorCodeView::InvalidImage)
                ||| (status == 400 || status == 500) && contains_text(message, "Could not process image"@)
            },
            SamplingErrorView::StreamError { code, .. } => code == Some(
                ApiErrorCodeView::InvalidImage,
            ),
            _ => false,
        }
    }

    /// A 429.
    pub open spec fn is_rate_limited(self) -> bool {
        self matches SamplingErrorView::Api { status, .. } && status == 429
    }

    /// The wait in seconds that the server asked for.
    pub open spec fn retry_after(self) -> Option<u64> {
        match self {
            SamplingErrorView::Api { retry_after_secs, .. } => retry_after_secs,
            _ => None,
        }
    }

    /// An error that tends to clear by itself: a transport or stream failure, an
    /// empty response, a reasoning loop, a rate limit, or one of the transient
    /// server statuses.
    pub open spec fn is_retryable(self) -> bool {
        match self {
            SamplingErrorView::Http(_) => true,
            SamplingErrorView::EventStreamError(_) => true,
            SamplingErrorView::StreamError { .. } => true,
            SamplingErrorView::EmptyResponse { .. } => true,
            SamplingErrorView::DoomLoopDetected { .. } => true,
            SamplingErrorView::Api { status, .. } => {
                ||| status == 429
                ||| status == 500
                ||| status == 502
                ||| status == 503
                ||| status == 504
                ||| status == 520
            },
            _ => false,
        }
    }
}

/// Whether an optional error code names an invalid image.
fn names_invalid_image(code: &Option<ApiErrorCode>) -> (r: bool)
    ensures
        r == (code_of(*code) == Some(ApiErrorCodeView::InvalidImage)),
{
    match code {
        Some(ApiErrorCode::InvalidImage) => true,
        _ => false,
    }
}

impl SamplingError {
    /// An authentication failure of which the credential is not known.
    pub fn auth_unknown(message: &str) -> (r: SamplingError)
        ensures
            r@ == (SamplingErrorView::Auth { message: message@, credential: Credential::Unknown }),
    {
        SamplingError::Auth { message: message.to_owned(), credential: Credential::Unknown }
    }

    /// The JSON read failure that a written-out text stands for.
    pub fn serialization_message(text: &str) -> (r: SamplingError)
        ensures
            r@ == SamplingErrorView::Serialization(json_error_of_text(text@)),
    {
        SamplingError::Serialization(json_error_from_text(text))
    }

    /// Whether the server could not decrypt content of the request.
    pub fn is_encrypted_content_error(&self) -> (r: bool)
        ensures
            r == self@.is_encrypted_content_error(),
    {
        match self {
            SamplingError::Api { status, message, .. } => status.as_u16() == 400 && contains(
                message.as_str(),
                "encrypted_content",
            ),
            _ => false,
        }
    }

    /// Whether the request was too large.
    pub fn is_payload_too_large(&self) -> (r: bool)
        ensures
            r == self@.is_payload_too_large(),
    {
        match self {
            SamplingError::Api { status, .. } => status.as_u16() == 413,
            _ => false,
        }
    }

    /// Whether the server could not use an image of the request.
    pub fn is_image_processing_error(&self) -> (r: bool)
        ensures
            r == self@.is_image_processing_error(),
    {
        match self {
            SamplingError::Api { status, message, error_code, .. } => names_invalid_image(
                error_code,
            ) || ((status.as_u16() == 400 || status.as_u16() == 500) && contains(
                message.as_str(),
                "Could not process image",
            )),
            SamplingError::StreamError { code, .. } => names_invalid_image(code),
            _ => false,
        }
    }

    /// Whether the request was rate limited.
    pub fn is_rate_limited(&self) -> (r: bool)
        ensures
            r == self@.is_rate_limited(),
    {
        match self {
            SamplingError::Api { status, .. } => status.as_u16() == 429,
            _ => false,
        }
    }

    /// The wait in seconds that the server asked for.
    pub fn retry_after(&self) -> (r: Option<u64>)
        ensures
            r == self@.retry_after(),
    {
        match self {
            SamplingError::Api { retry_after_secs, .. } => *retry_after_secs,
            _ => None,
        }
    }

    /// Whether the error tends to clear by itself.
    pub fn is_retryable(&self) -> (r: bool)
        ensures
            r == self@.is_retryable(),
    {
        match self {
            SamplingError::Http(_) => true,
            SamplingError::EventStreamError(_) => true,
            SamplingError::StreamError { .. } => true,
            SamplingError::EmptyResponse { .. } => true,
            SamplingError::DoomLoopDetected { .. } => true,
            SamplingError::Api { status, .. } => {
                let code: u16 = status.as_u16();
                code == 429 || code == 500 || code == 502 || code == 503 || code == 504 || code
                    == 520
            },
            _ => false,
        }
    }
}

} // verus!
