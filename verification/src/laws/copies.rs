//! What a copy of an error keeps, field by field.

use crate::error::{ApiErrorCode, SamplingError};
use crate::json::{
    is_positioned, is_reported, json_error_of_text, law_reported_error_reads_back, rendered_at,
    JsonError, JsonErrorView,
};
use crate::laws::readings::mentions;
use crate::retry::{clone_error, cloned_error};
use crate::text::{decimal, texts};
use vstd::prelude::*;

verus! {

/// Whether two optional strings read the same.
pub open spec fn same_text(a: Option<String>, b: Option<String>) -> bool {
    match (a, b) {
        (Some(a), Some(b)) => a@ == b@,
        (None, None) => true,
        _ => false,
    }
}

/// Whether two optional error codes are the same.
pub open spec fn same_code(a: Option<ApiErrorCode>, b: Option<ApiErrorCode>) -> bool {
    match (a, b) {
        (Some(ApiErrorCode::Other(a)), Some(ApiErrorCode::Other(b))) => a@ == b@,
        (Some(ApiErrorCode::InvalidImage), Some(ApiErrorCode::InvalidImage)) => true,
        (None, None) => true,
        _ => false,
    }
}

/// Whether `error` is what a JSON failure with this text amounts to, for texts that
/// end in a position from line 1 on and for texts that name none.
pub open spec fn is_reading_of(error: JsonError, text: Seq<char>) -> bool {
    &&& forall|message: Seq<char>, line: usize, column: usize|
        line > 0 && text == #[trigger] (message + " at line "@ + decimal(line as nat) + " column "@
            + decimal(column as nat)) ==> error.line == line && error.column == column
            && error.rendered@ == text
    &&& !mentions(text, " at line "@) ==> error.line == 0 && error.column == 0
        && error.rendered@ == text
}

/// Whether `copy` holds all that `err` holds. A transport failure is copied as a
/// broken stream with its text, an unreadable response as the reading of its text.
pub open spec fn is_copy_of(copy: SamplingError, err: SamplingError) -> bool {
    match (err, copy) {
        (
            SamplingError::Auth { message: m1, credential: c1 },
            SamplingError::Auth { message: m2, credential: c2 },
        ) => m1@ == m2@ && c1 == c2,
        (
            SamplingError::InvalidConfiguration(m1),
            SamplingError::InvalidConfiguration(m2),
        ) => m1@ == m2@,
        (SamplingError::Http(e), SamplingError::EventStreamError(m)) => m@ == e.rendered@,
        (SamplingError::Serialization(e1), SamplingError::Serialization(e2)) => is_reading_of(
            e2,
            e1.rendered@,
        ),
        (
            SamplingError::Api {
                status: s1,
                message: m1,
                model_metadata: d1,
                retry_after_secs: a1,
                should_retry: r1,
                error_code: c1,
            },
            SamplingError::Api {
                status: s2,
                message: m2,
                model_metadata: d2,
                retry_after_secs: a2,
                should_retry: r2,
                error_code: c2,
            },
        ) => s1@ == s2@ && m1@ == m2@ && same_text(d1, d2) && a1 == a2 && r1 == r2 && same_code(
            c1,
            c2,
        ),
        (SamplingError::EventStreamError(m1), SamplingError::EventStreamError(m2)) => m1@ == m2@,
        (
            SamplingError::StreamError { error_type: t1, message: m1, code: c1 },
            SamplingError::StreamError { error_type: t2, message: m2, code: c2 },
        ) => t1@ == t2@ && m1@ == m2@ && same_code(c1, c2),
        (
            SamplingError::IdleTimeout { elapsed_secs: s1 },
            SamplingError::IdleTimeout { elapsed_secs: s2 },
        ) => s1 == s2,
        (
            SamplingError::EmptyResponse { context: c1 },
            SamplingError::EmptyResponse { context: c2 },
        ) => {
            &&& c1.reason == c2.reason
            &&& c1.had_reasoning == c2.had_reasoning
            &&& c1.content_len == c2.content_len
            &&& c1.tool_call_count == c2.tool_call_count
            &&& same_text(c1.finish_reason, c2.finish_reason)
            &&& c1.completion_tokens == c2.completion_tokens
            &&& c1.reasoning_tokens == c2.reasoning_tokens
            &&& c1.prompt_tokens == c2.prompt_tokens
            &&& c1.model@ == c2.model@
            &&& c1.first_choice_seen == c2.first_choice_seen
        },
        (SamplingError::MaxTokensTruncation, SamplingError::MaxTokensTruncation) => true,
        (
            SamplingError::DoomLoopDetected { triggers: t1, aborted_at_chunk: a1 },
            SamplingError::DoomLoopDetected { triggers: t2, aborted_at_chunk: a2 },
        ) => t1@.len() == t2@.len() && (forall|i: int|
            0 <= i < t1@.len() ==> (#[trigger] t1@[i])@ == t2@[i]@) && a1 == a2,
        _ => false,
    }
}

/// The value read off a text is its reading.
pub proof fn lemma_reading(error: JsonError, text: Seq<char>)
    requires
        error@ == json_error_of_text(text),
    ensures
        is_reading_of(error, text),
{
    assert forall|message: Seq<char>, line: usize, column: usize|
        line > 0 && text == #[trigger] (message + " at line "@ + decimal(line as nat) + " column "@
            + decimal(column as nat)) implies error.line == line && error.column == column
        && error.rendered@ == text by {
        let reported = JsonErrorView { line: line as nat, column: column as nat, rendered: text };
        assert(text == rendered_at(message, line as nat, column as nat));
        assert(is_reported(reported));
        law_reported_error_reads_back(reported);
    }
    if !mentions(text, " at line "@) {
        assert forall|m: Seq<char>, l: Seq<char>, c: Seq<char>| !#[trigger] is_positioned(
            text,
            m,
            l,
            c,
        ) by {
            if is_positioned(text, m, l, c) {
                assert(text =~= m + " at line "@ + (l + " column "@ + c));
                assert(mentions(text, " at line "@));
            }
        }
    }
}

/// What `clone_error` is stated to give is a copy.
pub proof fn lemma_copy(err: SamplingError, copy: SamplingError)
    requires
        copy@ == cloned_error(err@),
    ensures
        is_copy_of(copy, err),
{
    match (err, copy) {
        (SamplingError::Serialization(e1), SamplingError::Serialization(e2)) => {
            lemma_reading(e2, e1.rendered@);
        },
        (
            SamplingError::DoomLoopDetected { triggers: t1, .. },
            SamplingError::DoomLoopDetected { triggers: t2, .. },
        ) => {
            assert(texts(t1@) == texts(t2@));
            assert(texts(t1@).len() == t1@.len());
            assert(texts(t2@).len() == t2@.len());
            assert forall|i: int| 0 <= i < t1@.len() implies (#[trigger] t1@[i])@ == t2@[i]@ by {
                assert(texts(t1@)[i] == t1@[i]@);
                assert(texts(t2@)[i] == t2@[i]@);
            }
        },
        _ => {},
    }
}

/// A copy holds all that the error holds, whatever the error.
pub proof fn law_copies_keep_every_field(err: SamplingError, copy: SamplingError)
    requires
        call_ensures(clone_error, (&err,), copy),
    ensures
        is_copy_of(copy, err),
{
    lemma_copy(err, copy);
}

/// The failure made of a text is the reading of that text.
pub proof fn law_texts_become_their_reading(text: &str, r: SamplingError)
    requires
        call_ensures(SamplingError::serialization_message, (text,), r),
    ensures
        r matches SamplingError::Serialization(e) && is_reading_of(e, text@),
{
    if let SamplingError::Serialization(e) = r {
        lemma_reading(e, text@);
    }
}

} // verus!
