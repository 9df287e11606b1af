//! Retry classification, backoff, and decision-making.
//!
//! Pure logic only: no I/O, no notifications, no logging. The caller wraps this in
//! the actual retry loop.
//!
//! - Every HTTP status code is retried with exponential backoff (2s, 4s, 8s, ...,
//!   capped at 30s), honoring `Retry-After` when present, until the count budget is
//!   spent; so are transport failures, stream failures, empty responses and idle
//!   timeouts.
//! - A payload that is too large, or an image that the server cannot use, is
//!   answered by a strip of the images, whatever the count.
//! - A reasoning loop is resampled almost at once, whatever the count and the budget:
//!   the caller's recovery loop owns the budget for those.
//! - Content that the server cannot decrypt goes to the session at once.
//! - An invalid configuration, an unreadable response and a truncation at the token
//!   limit are fatal at once.

use crate::error::{ApiErrorCode, EmptyResponseContext, SamplingError, SamplingErrorView};
use crate::json::json_error_of_text;
use crate::outside::{hash_attempt, millis_duration, secs_duration};
use crate::text::{parse_u32, parsed_u32};
use core::time::Duration;
use std::collections::hash_map::RandomState;
use vstd::arithmetic::power2::{lemma2_to64, lemma_pow2_strictly_increases, pow2};
use vstd::prelude::*;

pub use crate::format::format_sampling_error;

verus! {

/// Former cap on retries of rate-limited requests. Kept for configurations that
/// still name it; rate limits are now retried like every other status.
pub const RATE_LIMIT_RETRY_THRESHOLD: u32 = 2;

/// Retries when neither the environment nor the model says otherwise.
///
/// A safety net only: the waits between that many retries exceed the default time
/// budget, which therefore ends the retries first.
pub const DEFAULT_MAX_RETRIES: u32 = 30;

/// The retry budget: a valid override first, then the model's setting, then the
/// default.
pub open spec fn resolved_max_retries(
    env_override: Option<Seq<char>>,
    model_max_retries: Option<u32>,
) -> u32 {
    let valid_override = match env_override {
        Some(value) => parsed_u32(value),
        None => None,
    };
    match (valid_override, model_max_retries) {
        (Some(retries), _) => retries,
        (None, Some(retries)) => retries,
        (None, None) => DEFAULT_MAX_RETRIES,
    }
}

/// The retry budget, from the text of an override, if there is one, and from the
/// model's setting. A text that is no number counts as no override.
pub fn resolve_max_retries_with_env(
    env_override: Option<&str>,
    model_max_retries: Option<u32>,
) -> (r: u32)
    ensures
        r == resolved_max_retries(
            match env_override {
                Some(value) => Some(value@),
                None => None,
            },
            model_max_retries,
        ),
{
    let valid_override: Option<u32> = match env_override {
        Some(value) => parse_u32(value),
        None => None,
    };
    match valid_override {
        Some(retries) => retries,
        None => match model_max_retries {
            Some(retries) => retries,
            None => DEFAULT_MAX_RETRIES,
        },
    }
}

/// The wait before a resample of a reasoning loop, in milliseconds, for a given
/// hash: at most 250.
pub open spec fn doom_loop_millis(hash: u64) -> u64 {
    (hash % 251) as u64
}

/// The wait before a resample of a reasoning loop, for a given hash.
pub fn doom_loop_backoff_for(hash: u64) -> (r: Duration)
    ensures
        r == millis_duration(doom_loop_millis(hash)),
{
    Duration::from_millis(hash % 251)
}

/// Backoff for doom-loop resamples: near-immediate with a small jitter.
///
/// Loops are stochastic at sampling temperature, so a fresh sample is the remedy;
/// waiting buys nothing beyond de-syncing concurrent resamples.
pub fn doom_loop_backoff(retry_count: u32) -> (r: Duration)
    ensures
        exists|millis: u64| millis <= 250 && r == #[trigger] millis_duration(millis),
{
    let state = RandomState::new();
    doom_loop_backoff_for(hash_attempt(&state, retry_count))
}

/// The wait before a retry without jitter, in milliseconds: 2s, doubled with every
/// further retry, capped at 30s. Retry 0 counts as the first.
pub open spec fn base_millis(retry_count: nat) -> nat {
    let doublings: nat = if retry_count == 0 {
        0
    } else {
        (retry_count - 1) as nat
    };
    let uncapped: nat = 2000 * pow2(doublings);
    if uncapped <= 30_000 {
        uncapped
    } else {
        30_000
    }
}

/// The wait before a retry, in milliseconds, for a given hash: the base moved by at
/// most a fifth either way.
pub open spec fn backoff_millis(retry_count: nat, hash: u64) -> u64 {
    let base = base_millis(retry_count);
    (base - base / 5 + hash % ((base / 5 * 2 + 1) as u64)) as u64
}

/// The base of the wait for each retry, spelled out.
pub proof fn lemma_base_millis(retry_count: nat)
    ensures
        base_millis(retry_count) == (if retry_count <= 1 {
            2000nat
        } else if retry_count == 2 {
            4000
        } else if retry_count == 3 {
            8000
        } else if retry_count == 4 {
            16_000
        } else {
            30_000
        }),
{
    lemma2_to64();
    if retry_count >= 6 {
        lemma_pow2_strictly_increases(4, (retry_count - 1) as nat);
    }
}

/// The jitter stays within a fifth of the base.
pub proof fn lemma_backoff_millis(retry_count: nat, hash: u64)
    ensures
        base_millis(retry_count) - base_millis(retry_count) / 5 <= backoff_millis(
            retry_count,
            hash,
        ) <= base_millis(retry_count) + base_millis(retry_count) / 5,
{
    lemma_base_millis(retry_count);
}

/// The wait before a retry, for a given hash.
pub fn retry_backoff_for(retry_count: u32, hash: u64) -> (r: Duration)
    ensures
        r == millis_duration(backoff_millis(retry_count as nat, hash)),
{
    let base: u64 = if retry_count <= 1 {
        2000
    } else if retry_count == 2 {
        4000
    } else if retry_count == 3 {
        8000
    } else if retry_count == 4 {
        16_000
    } else {
        30_000
    };
    proof {
        lemma_base_millis(retry_count as nat);
    }
    let range: u64 = base / 5;
    let jitter: u64 = hash % (range * 2 + 1);
    Duration::from_millis(base - range + jitter)
}

/// Exponential backoff (2s, 4s, 8s, ..., capped 30s) with +/-20% jitter, to prevent
/// thundering-herd retry storms.
pub fn retry_backoff_with_jitter(retry_count: u32) -> (r: Duration)
    ensures
        exists|millis: u64|
            base_millis(retry_count as nat) - base_millis(retry_count as nat) / 5 <= millis
                <= base_millis(retry_count as nat) + base_millis(retry_count as nat) / 5 && r
                == #[trigger] millis_duration(millis),
{
    let state = RandomState::new();
    let hash: u64 = hash_attempt(&state, retry_count);
    proof {
        lemma_backoff_millis(retry_count as nat, hash);
    }
    retry_backoff_for(retry_count, hash)
}

/// What to do next, given a sampling error and how often it was retried.
///
/// Pure data: the caller performs the sleep, the image strip, the client rebuild or
/// the hand-over.
#[derive(Debug)]
pub enum RetryDecision {
    /// Retry after a wait.
    Retry { backoff: Duration },
    /// Retry a rate-limited request after a wait, the server's own if it named one.
    /// `is_rate_limited` tells it from other retries in telemetry.
    RetryWithBackoff { backoff: Duration, is_rate_limited: bool },
    /// Retry after stripping inline images from the request.
    RetryWithImageStrip,
    /// Retry after a wait with an HTTP client rebuilt for HTTP/1.1 (first retry
    /// only).
    RetryWithClientRebuild { backoff: Duration },
    /// Hand the error to the session and let it decide.
    EmitToSession(SamplingError),
    /// No further retries: the outcome of the request.
    Fatal(SamplingError),
}

/// Abstract value of a [`RetryDecision`].
pub enum RetryDecisionView {
    Retry { backoff: Duration },
    RetryWithBackoff { backoff: Duration, is_rate_limited: bool },
    RetryWithImageStrip,
    RetryWithClientRebuild { backoff: Duration },
    EmitToSession(SamplingErrorView),
    Fatal(SamplingErrorView),
}

impl View for RetryDecision {
    type V = RetryDecisionView;

    open spec fn view(&self) -> RetryDecisionView {
        match self {
            RetryDecision::Retry { backoff } => RetryDecisionView::Retry { backoff: *backoff },
            RetryDecision::RetryWithBackoff { backoff, is_rate_limited } =>
                RetryDecisionView::RetryWithBackoff {
                backoff: *backoff,
                is_rate_limited: *is_rate_limited,
            },
            RetryDecision::RetryWithImageStrip => RetryDecisionView::RetryWithImageStrip,
            RetryDecision::RetryWithClientRebuild { backoff } =>
                RetryDecisionView::RetryWithClientRebuild { backoff: *backoff },
            RetryDecision::EmitToSession(err) => RetryDecisionView::EmitToSession(err@),
            RetryDecision::Fatal(err) => RetryDecisionView::Fatal(err@),
        }
    }
}

/// How an error is treated, apart from the budget.
pub enum Treatment {
    /// Handed to the session at once.
    Emit,
    /// Answered by a strip of the images.
    StripImages,
    /// Resampled almost at once, whatever the counts.
    Resample,
    /// Retried within the budget, flagged as rate limited.
    RateLimit,
    /// Retried within the budget.
    Backoff,
    /// Given up at once.
    GiveUp,
}

/// The treatment of an error.
pub open spec fn treatment(err: SamplingErrorView) -> Treatment {
    if err.is_encrypted_content_error() {
        Treatment::Emit
    } else if err.is_payload_too_large() || err.is_image_processing_error() {
        Treatment::StripImages
    } else {
        match err {
            SamplingErrorView::DoomLoopDetected { .. } => Treatment::Resample,
            SamplingErrorView::InvalidConfiguration(_) => Treatment::GiveUp,
            SamplingErrorView::Serialization(_) => Treatment::GiveUp,
            SamplingErrorView::MaxTokensTruncation => Treatment::GiveUp,
            _ => if err.is_rate_limited() {
                Treatment::RateLimit
            } else {
                Treatment::Backoff
            },
        }
    }
}

/// The wait before a retry: the server's own if it named one, else the jittered
/// exponential one.
pub open spec fn wait_before(err: SamplingErrorView, retry_count: nat, hash: u64) -> Duration {
    match err.retry_after() {
        Some(secs) => secs_duration(secs),
        None => millis_duration(backoff_millis(retry_count, hash)),
    }
}

/// The decision on an error after `retry_count` retries out of `max_retries`, for a
/// given hash.
pub open spec fn decision(
    err: SamplingErrorView,
    retry_count: nat,
    max_retries: nat,
    hash: u64,
) -> RetryDecisionView {
    let given_up = RetryDecisionView::Fatal(cloned_error(err));
    let spent = retry_count + 1 >= max_retries;
    let backoff = wait_before(err, retry_count + 1, hash);
    match treatment(err) {
        Treatment::Emit => RetryDecisionView::EmitToSession(cloned_error(err)),
        Treatment::Resample => RetryDecisionView::Retry {
            backoff: millis_duration(doom_loop_millis(hash)),
        },
        _ if max_retries == 0 => given_up,
        Treatment::StripImages => RetryDecisionView::RetryWithImageStrip,
        Treatment::GiveUp => given_up,
        _ if spent => given_up,
        Treatment::RateLimit => RetryDecisionView::RetryWithBackoff {
            backoff,
            is_rate_limited: true,
        },
        Treatment::Backoff => if retry_count == 0 {
            RetryDecisionView::RetryWithClientRebuild { backoff }
        } else {
            RetryDecisionView::Retry { backoff }
        },
    }
}

/// Whether the decision on an error looks at the number of the next retry.
pub open spec fn counts_retries(err: SamplingErrorView, max_retries: u32) -> bool {
    max_retries > 0 && (treatment(err) is RateLimit || treatment(err) is Backoff)
}

/// Classify a sampling error, for a given hash.
pub fn classify_error_for(
    err: &SamplingError,
    retry_count: u32,
    max_retries: u32,
    hash: u64,
) -> (r: RetryDecision)
    requires
        counts_retries(err@, max_retries) ==> retry_count < u32::MAX,
    ensures
        r@ == decision(err@, retry_count as nat, max_retries as nat, hash),
{
    if err.is_encrypted_content_error() {
        return RetryDecision::EmitToSession(clone_error(err));
    }
    if let SamplingError::DoomLoopDetected { .. } = err {
        return RetryDecision::Retry { backoff: doom_loop_backoff_for(hash) };
    }
    if max_retries == 0 {
        return RetryDecision::Fatal(clone_error(err));
    }
    if err.is_payload_too_large() {
        return RetryDecision::RetryWithImageStrip;
    }
    if err.is_image_processing_error() {
        return RetryDecision::RetryWithImageStrip;
    }
    let is_http_or_transport_error = match err {
        SamplingError::Auth { .. } => true,
        SamplingError::Http(_) => true,
        SamplingError::Api { .. } => true,
        SamplingError::IdleTimeout { .. } => true,
        _ => false,
    };
    if !err.is_retryable() && !is_http_or_transport_error {
        return RetryDecision::Fatal(clone_error(err));
    }
    let next_attempt: u32 = retry_count + 1;
    if next_attempt >= max_retries {
        return RetryDecision::Fatal(clone_error(err));
    }
    let backoff = match err.retry_after() {
        Some(secs) => Duration::from_secs(secs),
        None => retry_backoff_for(next_attempt, hash),
    };
    if err.is_rate_limited() {
        return RetryDecision::RetryWithBackoff { backoff, is_rate_limited: true };
    }
    if next_attempt == 1 {
        return RetryDecision::RetryWithClientRebuild { backoff };
    }
    RetryDecision::Retry { backoff }
}

/// Classify a sampling error into a [`RetryDecision`].
///
/// `retry_count` is the number of retries already performed (0 on the first
/// failure), `max_retries` the count budget. The time budget is the caller's to
/// enforce.
///
/// A 401 is retried like every other status. A session that can refresh its
/// credentials gets its chance from the caller, before or instead of this.
pub fn classify_error(err: &SamplingError, retry_count: u32, max_retries: u32) -> (r: RetryDecision)
    requires
        counts_retries(err@, max_retries) ==> retry_count < u32::MAX,
    ensures
        exists|hash: u64|
            r@ == #[trigger] decision(err@, retry_count as nat, max_retries as nat, hash),
{
    let state = RandomState::new();
    let hash: u64 = hash_attempt(&state, retry_count);
    classify_error_for(err, retry_count, max_retries, hash)
}

/// An owned copy of an error, as far as there is one.
///
/// A transport failure becomes a broken event stream with the same text, which is
/// retried just the same. An unreadable response stays one, and so stays fatal; it
/// is made anew from its text.
pub open spec fn cloned_error(err: SamplingErrorView) -> SamplingErrorView {
    match err {
        SamplingErrorView::Http(e) => SamplingErrorView::EventStreamError(e.rendered),
        SamplingErrorView::Serialization(e) => SamplingErrorView::Serialization(
            json_error_of_text(e.rendered),
        ),
        other => other,
    }
}

fn clone_text(s: &Option<String>) -> (r: Option<String>)
    ensures
        r == *s,
{
    match s {
        Some(s) => Some(s.clone()),
        None => None,
    }
}

fn clone_code(code: &Option<ApiErrorCode>) -> (r: Option<ApiErrorCode>)
    ensures
        r == *code,
{
    match code {
        Some(ApiErrorCode::InvalidImage) => Some(ApiErrorCode::InvalidImage),
        Some(ApiErrorCode::Other(name)) => Some(ApiErrorCode::Other(name.clone())),
        None => None,
    }
}

fn clone_context(context: &EmptyResponseContext) -> (r: EmptyResponseContext)
    ensures
        r == *context,
{
    EmptyResponseContext {
        reason: context.reason,
        had_reasoning: context.had_reasoning,
        content_len: context.content_len,
        tool_call_count: context.tool_call_count,
        finish_reason: clone_text(&context.finish_reason),
        completion_tokens: context.completion_tokens,
        reasoning_tokens: context.reasoning_tokens,
        prompt_tokens: context.prompt_tokens,
        model: context.model.clone(),
        first_choice_seen: context.first_choice_seen,
    }
}

fn clone_texts(strings: &Vec<String>) -> (r: Vec<String>)
    ensures
        r@ == strings@,
{
    let mut r: Vec<String> = Vec::new();
    let mut i: usize = 0;
    while i < strings.len()
        invariant
            i <= strings.len(),
            r@ == strings@.take(i as int),
        decreases strings.len() - i,
    {
        r.push(strings[i].clone());
        assert(strings@.take(i + 1) =~= strings@.take(i as int).push(strings@[i as int]));
        i = i + 1;
    }
    assert(strings@.take(i as int) =~= strings@);
    r
}

/// Reconstruct an owned [`SamplingError`] from a borrowed one.
pub fn clone_error(err: &SamplingError) -> (r: SamplingError)
    ensures
        r@ == cloned_error(err@),
{
    match err {
        SamplingError::Auth { message, credential } => SamplingError::Auth {
            message: message.clone(),
            credential: *credential,
        },
        SamplingError::InvalidConfiguration(msg) => SamplingError::InvalidConfiguration(msg),
        SamplingError::Http(e) => SamplingError::EventStreamError(e.rendered.clone()),
        SamplingError::Serialization(e) => SamplingError::serialization_message(
            e.rendered.as_str(),
        ),
        SamplingError::Api {
            status,
            message,
            model_metadata,
            retry_after_secs,
            should_retry,
            error_code,
        } => SamplingError::Api {
            status: *status,
            message: message.clone(),
            model_metadata: clone_text(model_metadata),
            retry_after_secs: *retry_after_secs,
            should_retry: *should_retry,
            error_code: clone_code(error_code),
        },
        SamplingError::EventStreamError(msg) => SamplingError::EventStreamError(msg.clone()),
        SamplingError::StreamError { error_type, message, code } => SamplingError::StreamError {
            error_type: error_type.clone(),
            message: message.clone(),
            code: clone_code(code),
        },
        SamplingError::IdleTimeout { elapsed_secs } => SamplingError::IdleTimeout {
            elapsed_secs: *elapsed_secs,
        },
        SamplingError::EmptyResponse { context } => SamplingError::EmptyResponse {
            context: clone_context(context),
        },
        SamplingError::MaxTokensTruncation => SamplingError::MaxTokensTruncation,
        SamplingError::DoomLoopDetected { triggers, aborted_at_chunk } =>
            SamplingError::DoomLoopDetected {
            triggers: clone_texts(triggers),
            aborted_at_chunk: *aborted_at_chunk,
        },
    }
}

} // verus!
