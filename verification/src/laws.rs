//! What holds of the retry policy as a whole.

pub mod copies;
pub mod decisions;
pub mod descriptions;
pub mod readings;
pub mod settings;

use crate::config::DEFAULT_MAX_RETRY_DURATION_SECS;
use crate::error::{ApiErrorCodeView, SamplingErrorView};
use crate::format::{description, retry_prefix, status_hint};
use crate::json::{is_reported, law_reported_error_reads_back};
use crate::outside::{millis_duration, secs_duration};
use crate::retry::{
    backoff_millis, base_millis, cloned_error, decision, doom_loop_millis, lemma_backoff_millis,
    lemma_base_millis, resolved_max_retries, treatment, RetryDecisionView,
    DEFAULT_MAX_RETRIES,
};
use crate::text::{contains_text, decimal, law_decimal_reads_back, occurs_at, parsed_u32};
use core::time::Duration;
use vstd::prelude::*;

verus! {

/// Whether two decisions ask for the same action, whatever error they carry.
pub open spec fn same_action(a: RetryDecisionView, b: RetryDecisionView) -> bool {
    match (a, b) {
        (RetryDecisionView::EmitToSession(_), RetryDecisionView::EmitToSession(_)) => true,
        (RetryDecisionView::Fatal(_), RetryDecisionView::Fatal(_)) => true,
        _ => a == b,
    }
}

/// The wait that a decision asks for, if it asks for one.
pub open spec fn waits(d: RetryDecisionView) -> Option<Duration> {
    match d {
        RetryDecisionView::Retry { backoff } => Some(backoff),
        RetryDecisionView::RetryWithBackoff { backoff, .. } => Some(backoff),
        RetryDecisionView::RetryWithClientRebuild { backoff } => Some(backoff),
        _ => None,
    }
}

/// Content that the server cannot decrypt goes to the session, unchanged, whatever
/// the counts; nothing else does.
pub proof fn law_only_encrypted_content_goes_to_the_session(
    err: SamplingErrorView,
    retry_count: nat,
    max_retries: nat,
    hash: u64,
)
    ensures
        err.is_encrypted_content_error() ==> decision(err, retry_count, max_retries, hash)
            == RetryDecisionView::EmitToSession(err),
        !err.is_encrypted_content_error() ==> !(decision(
            err,
            retry_count,
            max_retries,
            hash,
        ) is EmitToSession),
{
}

/// With no retries to spend, every error is fatal that neither goes to the session
/// nor is a reasoning loop.
pub proof fn law_zero_budget_is_fatal(err: SamplingErrorView, retry_count: nat, hash: u64)
    requires
        !err.is_encrypted_content_error(),
        !(err is DoomLoopDetected),
    ensures
        decision(err, retry_count, 0, hash) == RetryDecisionView::Fatal(cloned_error(err)),
{
}

/// A payload that is too large and an image that the server cannot use are answered
/// by a strip of the images, at every count.
pub proof fn law_images_are_stripped_at_every_count(
    err: SamplingErrorView,
    retry_count: nat,
    max_retries: nat,
    hash: u64,
)
    requires
        err.is_payload_too_large() || err.is_image_processing_error(),
        !err.is_encrypted_content_error(),
        max_retries > 0,
    ensures
        decision(err, retry_count, max_retries, hash) == RetryDecisionView::RetryWithImageStrip,
{
}

/// A reasoning loop is resampled within 250ms, whatever the counts; it is never
/// fatal.
pub proof fn law_doom_loop_is_always_resampled(
    triggers: Seq<Seq<char>>,
    aborted_at_chunk: Option<u64>,
    retry_count: nat,
    max_retries: nat,
    hash: u64,
)
    ensures
        decision(
            SamplingErrorView::DoomLoopDetected { triggers, aborted_at_chunk },
            retry_count,
            max_retries,
            hash,
        ) == (RetryDecisionView::Retry { backoff: millis_duration(doom_loop_millis(hash)) }),
        doom_loop_millis(hash) <= 250,
{
}

/// Every HTTP status is retried while the budget lasts, unless the images are to be
/// stripped or the session is to be asked.
pub proof fn law_every_status_is_retried(
    status: u16,
    message: Seq<char>,
    model_metadata: Option<Seq<char>>,
    retry_after_secs: Option<u64>,
    should_retry: Option<bool>,
    error_code: Option<ApiErrorCodeView>,
    retry_count: nat,
    max_retries: nat,
    hash: u64,
)
    requires
        retry_count + 1 < max_retries,
    ensures
        ({
            let err = SamplingErrorView::Api {
                status,
                message,
                model_metadata,
                retry_after_secs,
                should_retry,
                error_code,
            };
            err.is_encrypted_content_error() || err.is_payload_too_large()
                || err.is_image_processing_error() || waits(
                decision(err, retry_count, max_retries, hash),
            ) is Some
        }),
{
}

/// The server's `x-should-retry` changes no decision.
pub proof fn law_should_retry_header_is_ignored(
    status: u16,
    message: Seq<char>,
    model_metadata: Option<Seq<char>>,
    retry_after_secs: Option<u64>,
    one: Option<bool>,
    other: Option<bool>,
    error_code: Option<ApiErrorCodeView>,
    retry_count: nat,
    max_retries: nat,
    hash: u64,
)
    ensures
        same_action(
            decision(
                SamplingErrorView::Api {
                    status,
                    message,
                    model_metadata,
                    retry_after_secs,
                    should_retry: one,
                    error_code,
                },
                retry_count,
                max_retries,
                hash,
            ),
            decision(
                SamplingErrorView::Api {
                    status,
                    message,
                    model_metadata,
                    retry_after_secs,
                    should_retry: other,
                    error_code,
                },
                retry_count,
                max_retries,
                hash,
            ),
        ),
{
}

/// A rate limit has the same count budget as every other error that is retried.
pub proof fn law_rate_limit_has_the_common_budget(
    limited: SamplingErrorView,
    other: SamplingErrorView,
    retry_count: nat,
    max_retries: nat,
    hash: u64,
)
    requires
        treatment(limited) is RateLimit,
        treatment(other) is Backoff,
    ensures
        decision(limited, retry_count, max_retries, hash) is Fatal <==> decision(
            other,
            retry_count,
            max_retries,
            hash,
        ) is Fatal,
        decision(limited, retry_count, max_retries, hash) is Fatal <==> retry_count + 1
            >= max_retries,
{
}

/// Rate limits, and nothing else, are retried under the rate-limit flag.
pub proof fn law_only_rate_limits_are_flagged(
    err: SamplingErrorView,
    retry_count: nat,
    max_retries: nat,
    hash: u64,
)
    ensures
        decision(err, retry_count, max_retries, hash) matches RetryDecisionView::RetryWithBackoff {
            is_rate_limited,
            ..
        } ==> is_rate_limited && err.is_rate_limited(),
        err.is_rate_limited() ==> !(decision(err, retry_count, max_retries, hash) is Retry) && !(
        decision(err, retry_count, max_retries, hash) is RetryWithClientRebuild),
{
}

/// The server's `Retry-After` is the wait, to the second; without one the wait is
/// that of the next retry, at most a fifth off its base.
pub proof fn law_retry_after_is_honored(
    err: SamplingErrorView,
    retry_count: nat,
    max_retries: nat,
    hash: u64,
)
    requires
        !(treatment(err) is Resample),
        waits(decision(err, retry_count, max_retries, hash)) is Some,
    ensures
        err.retry_after() matches Some(secs) ==> waits(
            decision(err, retry_count, max_retries, hash),
        ) == Some(secs_duration(secs)),
        err.retry_after() is None ==> exists|millis: u64|
            base_millis(retry_count + 1) - base_millis(retry_count + 1) / 5 <= millis
                <= base_millis(retry_count + 1) + base_millis(retry_count + 1) / 5 && waits(
                decision(err, retry_count, max_retries, hash),
            ) == Some(#[trigger] millis_duration(millis)),
{
    lemma_backoff_millis(retry_count + 1, hash);
}

/// The HTTP client is rebuilt before the first retry and before no other.
pub proof fn law_only_the_first_retry_rebuilds_the_client(
    err: SamplingErrorView,
    retry_count: nat,
    max_retries: nat,
    hash: u64,
)
    requires
        treatment(err) is Backoff,
        retry_count + 1 < max_retries,
    ensures
        retry_count == 0 ==> decision(
            err,
            retry_count,
            max_retries,
            hash,
        ) is RetryWithClientRebuild,
        retry_count > 0 ==> decision(err, retry_count, max_retries, hash) is Retry,
{
}

/// An invalid configuration, an unreadable response and a truncation at the token
/// limit are fatal at once, at every count.
pub proof fn law_deterministic_errors_are_fatal(
    err: SamplingErrorView,
    retry_count: nat,
    max_retries: nat,
    hash: u64,
)
    requires
        err is InvalidConfiguration || err is Serialization || err is MaxTokensTruncation,
    ensures
        decision(err, retry_count, max_retries, hash) == RetryDecisionView::Fatal(
            cloned_error(err),
        ),
{
}

/// An error is retried with a counted wait exactly if it tends to clear by itself or
/// comes from HTTP or its transport; which statuses are transient does not matter.
pub proof fn law_what_is_retried_with_backoff(err: SamplingErrorView)
    requires
        !err.is_encrypted_content_error(),
        !err.is_payload_too_large(),
        !err.is_image_processing_error(),
        !(err is DoomLoopDetected),
    ensures
        (treatment(err) is RateLimit || treatment(err) is Backoff) <==> (err.is_retryable()
            || err is Auth || err is Http || err is Api || err is IdleTimeout),
{
}

/// Retries end: an error that is fatal stays fatal at every later count, and a
/// counted one is fatal once the budget is spent.
pub proof fn law_fatal_stays_fatal(
    err: SamplingErrorView,
    retry_count: nat,
    later: nat,
    max_retries: nat,
    hash: u64,
    later_hash: u64,
)
    requires
        retry_count <= later,
    ensures
        decision(err, retry_count, max_retries, hash) is Fatal ==> decision(
            err,
            later,
            max_retries,
            later_hash,
        ) == RetryDecisionView::Fatal(cloned_error(err)),
        (treatment(err) is RateLimit || treatment(err) is Backoff) && later + 1 >= max_retries
            ==> decision(err, later, max_retries, later_hash) is Fatal,
{
}

/// A copy of an error is decided upon like the error itself.
pub proof fn law_clone_is_decided_alike(
    err: SamplingErrorView,
    retry_count: nat,
    max_retries: nat,
    hash: u64,
)
    ensures
        same_action(
            decision(cloned_error(err), retry_count, max_retries, hash),
            decision(err, retry_count, max_retries, hash),
        ),
        cloned_error(err).is_retryable() == err.is_retryable(),
        cloned_error(err).is_image_processing_error() == err.is_image_processing_error(),
{
}

/// A copy of an error is the error itself, unless it is a transport failure, which
/// becomes a broken stream with the same text.
pub proof fn law_clone_is_faithful(err: SamplingErrorView)
    requires
        err matches SamplingErrorView::Serialization(e) ==> is_reported(e),
    ensures
        match err {
            SamplingErrorView::Http(e) => cloned_error(err) == SamplingErrorView::EventStreamError(
                e.rendered,
            ),
            _ => cloned_error(err) == err,
        },
{
    if let SamplingErrorView::Serialization(e) = err {
        law_reported_error_reads_back(e);
    }
}

/// A copy of a copy is the copy, unless the text of an unreadable response named a
/// position at line 0, which a copy cannot show.
pub proof fn law_copying_a_copy_changes_nothing(err: SamplingErrorView)
    requires
        cloned_error(err) matches SamplingErrorView::Serialization(e) ==> is_reported(e),
    ensures
        cloned_error(cloned_error(err)) == cloned_error(err),
{
    if let SamplingErrorView::Serialization(e) = cloned_error(err) {
        law_reported_error_reads_back(e);
    }
}

/// The base of the wait starts at 2s, doubles with every retry, and stays at 30s
/// once it is there.
pub proof fn law_base_doubles_up_to_the_cap(retry_count: nat)
    requires
        retry_count >= 1,
    ensures
        base_millis(1) == 2000,
        base_millis(retry_count + 1) == (if 2 * base_millis(retry_count) <= 30_000 {
            2 * base_millis(retry_count)
        } else {
            30_000
        }),
        base_millis(retry_count) <= base_millis(retry_count + 1) <= 30_000,
{
    lemma_base_millis(1);
    lemma_base_millis(retry_count);
    lemma_base_millis(retry_count + 1);
}

/// Every jittered wait lies between 1.6s and 36s.
pub proof fn law_backoff_is_bounded(retry_count: nat, hash: u64)
    ensures
        1600 <= backoff_millis(retry_count, hash) <= 36_000,
{
    lemma_base_millis(retry_count);
    lemma_backoff_millis(retry_count, hash);
}

/// The waits before the first `hashes.len()` retries, added up, in milliseconds.
pub open spec fn total_wait_millis(hashes: Seq<u64>) -> nat
    decreases hashes.len(),
{
    if hashes.len() == 0 {
        0
    } else {
        total_wait_millis(hashes.drop_last()) + backoff_millis(hashes.len(), hashes.last()) as nat
    }
}

/// The least that the waits can add up to.
proof fn lemma_total_wait(hashes: Seq<u64>)
    ensures
        hashes.len() >= 4 ==> total_wait_millis(hashes) >= 24_000 + 24_000 * (hashes.len() - 4),
    decreases hashes.len(),
{
    if hashes.len() > 4 {
        lemma_total_wait(hashes.drop_last());
        lemma_base_millis(hashes.len());
        lemma_backoff_millis(hashes.len(), hashes.last());
    } else if hashes.len() == 4 {
        let h3 = hashes.drop_last();
        let h2 = h3.drop_last();
        let h1 = h2.drop_last();
        lemma_base_millis(1);
        lemma_base_millis(2);
        lemma_base_millis(3);
        lemma_base_millis(4);
        lemma_backoff_millis(1, h1.last());
        lemma_backoff_millis(2, h2.last());
        lemma_backoff_millis(3, h3.last());
        lemma_backoff_millis(4, hashes.last());
        assert(total_wait_millis(hashes) == total_wait_millis(h3) + backoff_millis(
            4,
            hashes.last(),
        ));
        assert(total_wait_millis(h3) == total_wait_millis(h2) + backoff_millis(3, h3.last()));
        assert(total_wait_millis(h2) == total_wait_millis(h1) + backoff_millis(2, h2.last()));
        assert(total_wait_millis(h1) == total_wait_millis(h1.drop_last()) + backoff_millis(
            1,
            h1.last(),
        ));
    }
}

/// By default the time budget ends the retries before the count does: the jittered
/// waits before the retries that the default count allows exceed it.
pub proof fn law_time_budget_trips_first(hashes: Seq<u64>)
    requires
        hashes.len() == DEFAULT_MAX_RETRIES - 1,
    ensures
        total_wait_millis(hashes) > DEFAULT_MAX_RETRY_DURATION_SECS * 1000,
{
    lemma_total_wait(hashes);
}

/// An override written in decimal takes precedence over everything else.
pub proof fn law_decimal_override_takes_precedence(retries: u32, model_max_retries: Option<u32>)
    ensures
        resolved_max_retries(Some(decimal(retries as nat)), model_max_retries) == retries,
{
    let digits = decimal(retries as nat);
    law_decimal_reads_back(retries as nat);
    assert(digits[0] != '+');
}

/// An override that is no number counts as none.
pub proof fn law_invalid_override_falls_through(value: Seq<char>, model_max_retries: Option<u32>)
    requires
        parsed_u32(value) is None,
    ensures
        resolved_max_retries(Some(value), model_max_retries) == resolved_max_retries(
            None,
            model_max_retries,
        ),
{
}

/// A description says how often the request was retried exactly if it was told: the
/// count comes first, followed by the description as it is without one.
pub proof fn law_retry_prefix_only_with_a_count(err: SamplingErrorView, count: u32)
    ensures
        "Request failed after "@.is_prefix_of(retry_prefix(Some(count)) + description(err)),
        !"Request failed after "@.is_prefix_of(retry_prefix(None) + description(err)),
        retry_prefix(None) + description(err) == description(err),
{
    reveal_strlit("Request failed after ");
    reveal_strlit("Authentication failed: ");
    reveal_strlit("Invalid configuration: ");
    reveal_strlit("HTTP request failed: ");
    reveal_strlit("Failed to parse API response at line ");
    reveal_strlit("API error (HTTP ");
    reveal_strlit("Event stream error: ");
    reveal_strlit("Server stream error (");
    reveal_strlit("Model stopped responding after ");
    reveal_strlit("Empty response from model (");
    reveal_strlit("Response truncated by max_tokens.");
    reveal_strlit("Server detected a reasoning loop (");
    let with = retry_prefix(Some(count)) + description(err);
    assert("Request failed after "@ =~= with.subrange(0, "Request failed after "@.len() as int));
    let without = retry_prefix(None) + description(err);
    assert(without =~= description(err));
    let plain = description(err);
    let third = if err is MaxTokensTruncation {
        2int
    } else {
        0
    };
    assert(plain.len() > 2 && plain[third] != "Request failed after "@[third]);
    if "Request failed after "@.is_prefix_of(without) {
        assert(without.subrange(0, "Request failed after "@.len() as int)[third] == without[third]);
    }
}

/// The description of an error status names the status.
pub proof fn law_description_names_the_status(
    status: u16,
    message: Seq<char>,
    model_metadata: Option<Seq<char>>,
    retry_after_secs: Option<u64>,
    should_retry: Option<bool>,
    error_code: Option<ApiErrorCodeView>,
    retry_count: Option<u32>,
)
    ensures
        contains_text(
            retry_prefix(retry_count) + description(
                SamplingErrorView::Api {
                    status,
                    message,
                    model_metadata,
                    retry_after_secs,
                    should_retry,
                    error_code,
                },
            ),
            "(HTTP "@ + decimal(status as nat) + status_hint(status),
        ),
{
    reveal_strlit("API error (HTTP ");
    reveal_strlit("(HTTP ");
    let prefix = retry_prefix(retry_count);
    let plain = "API error (HTTP "@ + decimal(status as nat) + status_hint(status) + "): "@
        + message;
    let needle = "(HTTP "@ + decimal(status as nat) + status_hint(status);
    let at: int = prefix.len() as int + 10;
    assert((prefix + plain).subrange(at, at + needle.len()) =~= needle);
    assert(occurs_at(prefix + plain, needle, at));
}

} // verus!
