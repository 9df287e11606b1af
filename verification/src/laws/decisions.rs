//! What is decided about an error, in terms of the error and the counts alone.

use crate::error::{ApiErrorCode, SamplingError, SamplingErrorView};
use crate::laws::copies::{is_copy_of, lemma_copy};
use crate::laws::readings::{law_search_finds_what_is_there, mentions};
use crate::outside::{millis_duration, secs_duration};
use crate::retry::{
    backoff_millis, classify_error, classify_error_for, decision, doom_loop_backoff,
    doom_loop_backoff_for, doom_loop_millis, lemma_backoff_millis, lemma_base_millis,
    retry_backoff_for, retry_backoff_with_jitter, RetryDecision, RetryDecisionView,
};
use core::time::Duration;
use vstd::prelude::*;

verus! {

/// Whether `r` can be the answer to an error, for some hash or for a given one.
pub open spec fn answers(
    err: SamplingError,
    retry_count: u32,
    max_retries: u32,
    hash: u64,
    r: RetryDecision,
) -> bool {
    ||| call_ensures(classify_error, (&err, retry_count, max_retries), r)
    ||| call_ensures(classify_error_for, (&err, retry_count, max_retries, hash), r)
}

/// A 400 whose message speaks of encrypted content.
pub open spec fn cannot_be_decrypted(err: SamplingError) -> bool {
    err matches SamplingError::Api { status, message, .. } && status@ == 400 && mentions(
        message@,
        "encrypted_content"@,
    )
}

/// A 413, an error code that names an invalid image, or a 400 or 500 whose message
/// says that an image could not be processed.
pub open spec fn is_about_images(err: SamplingError) -> bool {
    match err {
        SamplingError::Api { status, message, error_code, .. } => {
            ||| status@ == 413
            ||| error_code == Some(ApiErrorCode::InvalidImage)
            ||| (status@ == 400 || status@ == 500) && mentions(
                message@,
                "Could not process image"@,
            )
        },
        SamplingError::StreamError { code, .. } => code == Some(ApiErrorCode::InvalidImage),
        _ => false,
    }
}

/// The wait that an answer asks for.
pub open spec fn asked_wait(r: RetryDecision) -> Option<Duration> {
    match r {
        RetryDecision::Retry { backoff } => Some(backoff),
        RetryDecision::RetryWithBackoff { backoff, .. } => Some(backoff),
        RetryDecision::RetryWithClientRebuild { backoff } => Some(backoff),
        _ => None,
    }
}

/// The hash behind an answer.
proof fn lemma_answer(
    err: SamplingError,
    retry_count: u32,
    max_retries: u32,
    hash: u64,
    r: RetryDecision,
) -> (drawn: u64)
    requires
        answers(err, retry_count, max_retries, hash, r),
    ensures
        r@ == decision(err@, retry_count as nat, max_retries as nat, drawn),
        call_ensures(classify_error_for, (&err, retry_count, max_retries, hash), r) ==> r@
            == decision(err@, retry_count as nat, max_retries as nat, hash),
        err@.is_encrypted_content_error() == cannot_be_decrypted(err),
        (err@.is_payload_too_large() || err@.is_image_processing_error()) == is_about_images(err),
{
    if let SamplingError::Api { message, .. } = err {
        law_search_finds_what_is_there(message@, "encrypted_content"@);
        law_search_finds_what_is_there(message@, "Could not process image"@);
    }
    if call_ensures(classify_error_for, (&err, retry_count, max_retries, hash), r) {
        hash
    } else {
        choose|h: u64|
            r@ == #[trigger] decision(err@, retry_count as nat, max_retries as nat, h)
    }
}

/// An error goes to the session exactly if the server could not decrypt content of
/// the request, and the session gets all of it.
pub proof fn law_session_gets_what_cannot_be_decrypted(
    err: SamplingError,
    retry_count: u32,
    max_retries: u32,
    hash: u64,
    r: RetryDecision,
)
    requires
        answers(err, retry_count, max_retries, hash, r),
    ensures
        r is EmitToSession <==> cannot_be_decrypted(err),
        r matches RetryDecision::EmitToSession(e) ==> is_copy_of(e, err),
{
    let drawn = lemma_answer(err, retry_count, max_retries, hash, r);
    if let RetryDecision::EmitToSession(e) = r {
        lemma_copy(err, e);
    }
}

/// Images are stripped for errors about the payload or its images, and for no
/// others; the count of retries does not matter.
pub proof fn law_only_image_errors_strip_images(
    err: SamplingError,
    retry_count: u32,
    max_retries: u32,
    hash: u64,
    r: RetryDecision,
)
    requires
        answers(err, retry_count, max_retries, hash, r),
    ensures
        r is RetryWithImageStrip <==> max_retries > 0 && is_about_images(err)
            && !cannot_be_decrypted(err),
{
    let drawn = lemma_answer(err, retry_count, max_retries, hash, r);
}

/// Every answer about a reasoning loop is a plain retry within 250ms.
pub proof fn law_loops_are_resampled_at_once(
    err: SamplingError,
    retry_count: u32,
    max_retries: u32,
    hash: u64,
    r: RetryDecision,
)
    requires
        answers(err, retry_count, max_retries, hash, r),
        err is DoomLoopDetected,
    ensures
        r is Retry,
        exists|millis: u64| millis <= 250 && r == (RetryDecision::Retry {
            backoff: #[trigger] millis_duration(millis),
        }),
        call_ensures(classify_error_for, (&err, retry_count, max_retries, hash), r) ==> r == (
        RetryDecision::Retry { backoff: millis_duration((hash % 251) as u64) }),
{
    let drawn = lemma_answer(err, retry_count, max_retries, hash, r);
    assert(r == (RetryDecision::Retry { backoff: millis_duration((drawn % 251) as u64) }));
}

/// Errors that no retry can mend are given up at once.
pub proof fn law_hopeless_errors_are_given_up(
    err: SamplingError,
    retry_count: u32,
    max_retries: u32,
    hash: u64,
    r: RetryDecision,
)
    requires
        answers(err, retry_count, max_retries, hash, r),
        err is InvalidConfiguration || err is Serialization || err is MaxTokensTruncation,
    ensures
        r matches RetryDecision::Fatal(e) && is_copy_of(e, err),
{
    let drawn = lemma_answer(err, retry_count, max_retries, hash, r);
    if let RetryDecision::Fatal(e) = r {
        lemma_copy(err, e);
    }
}

/// A failure of authentication, transport or stream, an idle model and an empty
/// response are resent as they are after a wait, the first time with a new client,
/// until the budget is spent.
pub proof fn law_passing_failures_are_resent(
    err: SamplingError,
    retry_count: u32,
    max_retries: u32,
    hash: u64,
    r: RetryDecision,
)
    requires
        answers(err, retry_count, max_retries, hash, r),
        err is Auth || err is Http || err is EventStreamError || err is IdleTimeout
            || err is EmptyResponse || (err matches SamplingError::StreamError { code, .. } && code
            != Some(ApiErrorCode::InvalidImage)),
    ensures
        retry_count + 1 >= max_retries <==> r is Fatal,
        retry_count + 1 < max_retries && retry_count == 0 ==> r is RetryWithClientRebuild,
        retry_count + 1 < max_retries && retry_count > 0 ==> r is Retry,
{
    let drawn = lemma_answer(err, retry_count, max_retries, hash, r);
}

/// Every error status is resent after a wait until the budget is spent: a 429 as a
/// rate limit, every other one like a transport failure.
pub proof fn law_every_error_status_is_resent(
    err: SamplingError,
    retry_count: u32,
    max_retries: u32,
    hash: u64,
    r: RetryDecision,
)
    requires
        answers(err, retry_count, max_retries, hash, r),
        err is Api,
        !cannot_be_decrypted(err),
        !is_about_images(err),
    ensures
        retry_count + 1 >= max_retries <==> r is Fatal,
        retry_count + 1 < max_retries ==> (err matches SamplingError::Api { status, .. } && (if status@
            == 429 {
            r matches RetryDecision::RetryWithBackoff { is_rate_limited, .. } && is_rate_limited
        } else if retry_count == 0 {
            r is RetryWithClientRebuild
        } else {
            r is Retry
        })),
{
    let drawn = lemma_answer(err, retry_count, max_retries, hash, r);
}

/// With no retries to spend, only a reasoning loop is resent.
pub proof fn law_nothing_is_resent_without_a_budget(
    err: SamplingError,
    retry_count: u32,
    hash: u64,
    r: RetryDecision,
)
    requires
        answers(err, retry_count, 0, hash, r),
    ensures
        err is DoomLoopDetected || cannot_be_decrypted(err) || r is Fatal,
        r is Fatal || r is EmitToSession || err is DoomLoopDetected,
{
    let drawn = lemma_answer(err, retry_count, 0, hash, r);
}

/// What is given up is the error that came in.
pub proof fn law_given_up_is_the_error_itself(
    err: SamplingError,
    retry_count: u32,
    max_retries: u32,
    hash: u64,
    r: RetryDecision,
)
    requires
        answers(err, retry_count, max_retries, hash, r),
    ensures
        r matches RetryDecision::Fatal(e) ==> is_copy_of(e, err),
{
    let drawn = lemma_answer(err, retry_count, max_retries, hash, r);
    if let RetryDecision::Fatal(e) = r {
        lemma_copy(err, e);
    }
}

/// A `Retry-After` is waited for as it stands, whatever the status and however long.
pub proof fn law_waits_as_long_as_the_server_asks(
    err: SamplingError,
    secs: u64,
    retry_count: u32,
    max_retries: u32,
    hash: u64,
    r: RetryDecision,
)
    requires
        answers(err, retry_count, max_retries, hash, r),
        err matches SamplingError::Api { retry_after_secs, .. } && retry_after_secs == Some(secs),
        asked_wait(r) is Some,
    ensures
        asked_wait(r) == Some(secs_duration(secs)),
{
    let drawn = lemma_answer(err, retry_count, max_retries, hash, r);
}

/// Without a `Retry-After` the wait is about 2s before the first retry, 4s, 8s and
/// 16s before the next ones and 30s from then on, a fifth more or less.
pub proof fn law_waits_double_up_to_half_a_minute(
    err: SamplingError,
    retry_count: u32,
    max_retries: u32,
    hash: u64,
    r: RetryDecision,
)
    requires
        answers(err, retry_count, max_retries, hash, r),
        err matches SamplingError::Api { retry_after_secs, .. } ==> retry_after_secs is None,
        !(err is DoomLoopDetected),
        asked_wait(r) is Some,
    ensures
        exists|millis: u64|
            asked_wait(r) == Some(#[trigger] millis_duration(millis)) && (if retry_count == 0 {
                1600 <= millis <= 2400
            } else if retry_count == 1 {
                3200 <= millis <= 4800
            } else if retry_count == 2 {
                6400 <= millis <= 9600
            } else if retry_count == 3 {
                12_800 <= millis <= 19_200
            } else {
                24_000 <= millis <= 36_000
            }),
{
    let drawn = lemma_answer(err, retry_count, max_retries, hash, r);
    lemma_base_millis((retry_count + 1) as nat);
    lemma_backoff_millis((retry_count + 1) as nat, drawn);
    assert(asked_wait(r) == Some(
        millis_duration(backoff_millis((retry_count + 1) as nat, drawn)),
    ));
}

/// Where the hash puts a wait: at the low end for 0, then a millisecond later for
/// each further hash, over the whole range and from its start again.
pub proof fn law_hash_spreads_the_wait(retry_count: nat, hash: u64)
    ensures
        backoff_millis(retry_count, hash) == (if retry_count <= 1 {
            1600 + hash % 801
        } else if retry_count == 2 {
            3200 + hash % 1601
        } else if retry_count == 3 {
            6400 + hash % 3201
        } else if retry_count == 4 {
            12_800 + hash % 6401
        } else {
            24_000 + hash % 12_001
        }),
        doom_loop_millis(hash) == hash % 251,
{
    lemma_base_millis(retry_count);
}

/// The wait of a decision for a given hash is the backoff of the next retry for it.
pub proof fn law_decision_waits_like_the_next_retry(
    err: SamplingError,
    retry_count: u32,
    max_retries: u32,
    hash: u64,
    r: RetryDecision,
    next: u32,
    backoff: Duration,
)
    requires
        call_ensures(classify_error_for, (&err, retry_count, max_retries, hash), r),
        call_ensures(retry_backoff_for, (next, hash), backoff),
        next == retry_count + 1,
        err matches SamplingError::Api { retry_after_secs, .. } ==> retry_after_secs is None,
        !(err is DoomLoopDetected),
        asked_wait(r) is Some,
    ensures
        asked_wait(r) == Some(backoff),
{
    let drawn = lemma_answer(err, retry_count, max_retries, hash, r);
}

/// The backoff functions give waits of their range: at most 250ms for a loop, and
/// for a retry the base of its number, a fifth more or less.
pub proof fn law_backoffs_keep_their_range(
    retry_count: u32,
    hash: u64,
    for_loop: Duration,
    for_retry: Duration,
)
    requires
        call_ensures(doom_loop_backoff, (retry_count,), for_loop) || call_ensures(
            doom_loop_backoff_for,
            (hash,),
            for_loop,
        ),
        call_ensures(retry_backoff_with_jitter, (retry_count,), for_retry) || call_ensures(
            retry_backoff_for,
            (retry_count, hash),
            for_retry,
        ),
    ensures
        exists|millis: u64| millis <= 250 && for_loop == #[trigger] millis_duration(millis),
        exists|millis: u64|
            for_retry == #[trigger] millis_duration(millis) && (if retry_count <= 1 {
                1600 <= millis <= 2400
            } else if retry_count == 2 {
                3200 <= millis <= 4800
            } else if retry_count == 3 {
                6400 <= millis <= 9600
            } else if retry_count == 4 {
                12_800 <= millis <= 19_200
            } else {
                24_000 <= millis <= 36_000
            }),
        call_ensures(doom_loop_backoff_for, (hash,), for_loop) ==> for_loop == millis_duration(
            (hash % 251) as u64,
        ),
{
    lemma_base_millis(retry_count as nat);
    lemma_backoff_millis(retry_count as nat, hash);
    if call_ensures(doom_loop_backoff_for, (hash,), for_loop) {
        assert(for_loop == millis_duration((hash % 251) as u64));
    }
    if call_ensures(retry_backoff_for, (retry_count, hash), for_retry) {
        assert(for_retry == millis_duration(backoff_millis(retry_count as nat, hash)));
    }
}

/// Of the decisions as such: a strip is only for image errors, and a wait is the
/// field `retry_after_secs` itself where an error status has one.
pub proof fn law_decisions_read_the_fields(
    err: SamplingErrorView,
    retry_count: nat,
    max_retries: nat,
    hash: u64,
)
    ensures
        decision(err, retry_count, max_retries, hash) is RetryWithImageStrip ==>
            err.is_payload_too_large() || err.is_image_processing_error(),
        err matches SamplingErrorView::Api { retry_after_secs, .. } ==> (retry_after_secs matches Some(
            secs,
        ) ==> match decision(err, retry_count, max_retries, hash) {
            RetryDecisionView::Retry { backoff } => backoff == secs_duration(secs),
            RetryDecisionView::RetryWithBackoff { backoff, .. } => backoff == secs_duration(secs),
            RetryDecisionView::RetryWithClientRebuild { backoff } => backoff == secs_duration(
                secs,
            ),
            _ => true,
        }),
        (err is Auth || err is Http || err is EventStreamError || err is IdleTimeout
            || err is EmptyResponse) && retry_count + 1 < max_retries ==> (if retry_count == 0 {
            decision(err, retry_count, max_retries, hash) is RetryWithClientRebuild
        } else {
            decision(err, retry_count, max_retries, hash) is Retry
        }),
{
}

} // verus!
