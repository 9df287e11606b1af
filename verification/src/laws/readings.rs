//! What the readings of texts and fields give, in terms of what was read.

use crate::error::{
    ApiErrorCode, Credential, EmptyReason, EmptyResponseContext, InvalidStatusCode, SamplingError,
    StatusCode,
};
use crate::retry::{resolve_max_retries_with_env, resolved_max_retries, DEFAULT_MAX_RETRIES};
use crate::serde_helpers::{
    double_option, empty_string_as_none, empty_string_as_none_value, JsonValue,
};
use crate::text::{
    bool_text, chars_of, contains, contains_text, decimal, is_digit, is_number, join, joined,
    number, occurs_at, parse_u32, parsed_u32, texts,
};
use vstd::prelude::*;

verus! {

/// Whether `words` stand somewhere in `text`.
pub open spec fn mentions(text: Seq<char>, words: Seq<char>) -> bool {
    exists|before: Seq<char>, after: Seq<char>| text == #[trigger] (before + words + after)
}

/// A search succeeds exactly if the text splits around what is searched for.
pub proof fn law_search_finds_what_is_there(text: Seq<char>, words: Seq<char>)
    ensures
        contains_text(text, words) <==> mentions(text, words),
{
    if contains_text(text, words) {
        let i = choose|i: int| #[trigger] occurs_at(text, words, i);
        let before = text.take(i);
        let after = text.skip(i + words.len());
        assert(text =~= before + words + after);
    }
    if mentions(text, words) {
        let (before, after) = choose|before: Seq<char>, after: Seq<char>|
            text == #[trigger] (before + words + after);
        assert(text.subrange(before.len() as int, (before.len() + words.len()) as int) =~= words);
        assert(occurs_at(text, words, before.len() as int));
    }
}

/// The exec search answers as the text splits.
pub proof fn law_contains_finds_what_is_there(hay: &str, needle: &str, r: bool)
    requires
        call_ensures(contains, (hay, needle), r),
    ensures
        r <==> mentions(hay@, needle@),
{
    law_search_finds_what_is_there(hay@, needle@);
}

/// A digit alone is its own value, and a digit at the end counts once while all
/// before it counts ten times; a number that no longer fits is none.
pub proof fn law_digits_are_read_by_place(s: Seq<char>, c: char)
    requires
        '0' <= c && c <= '9',
        s.len() > 0,
        forall|i: int| 0 <= i < s.len() ==> '0' <= #[trigger] s[i] && s[i] <= '9',
    ensures
        parsed_u32(seq![c]) == Some((c as int - '0' as int) as u32),
        match parsed_u32(s) {
            Some(v) => parsed_u32(s.push(c)) == (if v * 10 + (c as int - '0' as int) <= u32::MAX {
                Some((v * 10 + (c as int - '0' as int)) as u32)
            } else {
                None
            }),
            None => parsed_u32(s.push(c)) is None,
        },
{
    let one = seq![c];
    assert(one.drop_last() =~= seq![]);
    assert(number(seq![]) == 0);
    assert(number(one) == c as int - '0' as int);
    assert(is_number(one));
    let more = s.push(c);
    assert(more.drop_last() =~= s);
    assert(s[0] != '+' && more[0] == s[0]);
    assert(is_number(s));
    assert(is_number(more)) by {
        assert forall|i: int| 0 <= i < more.len() implies is_digit(#[trigger] more[i]) by {
            if i < s.len() {
                assert(more[i] == s[i]);
            }
        }
    }
}

/// One plus sign may lead a number; it changes nothing.
pub proof fn law_one_plus_may_lead(s: Seq<char>)
    requires
        s.len() > 0,
        s[0] != '+',
    ensures
        parsed_u32(seq!['+'] + s) == parsed_u32(s),
{
    assert((seq!['+'] + s).skip(1) =~= s);
}

/// Nothing else is a number: not the empty text, and no text with a character that
/// is neither a digit nor the one plus sign before the digits.
pub proof fn law_only_digits_make_a_number(s: Seq<char>, i: int)
    requires
        s.len() == 0 || (0 <= i < s.len() && !('0' <= s[i] && s[i] <= '9') && !(i == 0 && s[0]
            == '+' && s.len() > 1)),
    ensures
        parsed_u32(s) is None,
{
    if s.len() > 0 {
        if s[0] == '+' && i > 0 {
            assert(!is_digit(s.skip(1)[i - 1]));
        } else if s[0] != '+' {
            assert(!is_digit(s[i]));
        } else {
            assert(s.skip(1).len() == 0);
        }
    }
}

/// The exec reading is that of the whole text.
pub proof fn law_parse_reads_the_text(s: &str, r: Option<u32>)
    requires
        call_ensures(parse_u32, (s,), r),
    ensures
        r == parsed_u32(s@),
{
}

/// Without an override that is a number the model's setting is the budget, whatever
/// its value, and without either it is 30.
pub proof fn law_model_setting_is_the_budget(value: Seq<char>, n: u32)
    requires
        parsed_u32(value) is None,
    ensures
        resolved_max_retries(None, Some(n)) == n,
        resolved_max_retries(Some(value), Some(n)) == n,
        resolved_max_retries(None, None) == 30,
        resolved_max_retries(Some(value), None) == 30,
        DEFAULT_MAX_RETRIES == 30,
{
}

/// The budget is the override where that is a number, else the model's setting, else
/// 30.
pub proof fn law_budget_precedence(env_override: Option<&str>, model: Option<u32>, r: u32)
    requires
        call_ensures(resolve_max_retries_with_env, (env_override, model), r),
    ensures
        match env_override {
            Some(value) => match parsed_u32(value@) {
                Some(n) => r == n,
                None => model matches Some(n) ==> r == n,
            },
            None => model matches Some(n) ==> r == n,
        },
        env_override is None && model is None ==> r == 30,
        env_override matches Some(value) ==> parsed_u32(value@) is None && model is None ==> r
            == 30,
{
}

/// An override that is a number gives the same budget whatever the model says.
pub proof fn law_override_hides_the_model(
    value: &str,
    one: Option<u32>,
    other: Option<u32>,
    r1: u32,
    r2: u32,
)
    requires
        call_ensures(resolve_max_retries_with_env, (Some(value), one), r1),
        call_ensures(resolve_max_retries_with_env, (Some(value), other), r2),
        parsed_u32(value@) is Some,
    ensures
        r1 == r2,
{
}

/// A number below ten is written as its digit; a further digit is written behind the
/// others.
pub proof fn law_numbers_are_written_by_place(n: nat, d: nat)
    requires
        d < 10,
    ensures
        decimal(d).len() == 1,
        decimal(d)[0] as int == '0' as int + d,
        n > 0 ==> decimal(10 * n + d) == decimal(n) + decimal(d),
        n > 0 ==> decimal(n)[0] != '0',
{
    if n > 0 {
        assert((10 * n + d) / 10 == n);
        assert((10 * n + d) % 10 == d);
        assert(decimal(n).push(decimal(d)[0]) =~= decimal(n) + decimal(d));
        lemma_no_leading_zero(n);
    }
}

proof fn lemma_no_leading_zero(n: nat)
    requires
        n > 0,
    ensures
        decimal(n).len() > 0,
        decimal(n)[0] != '0',
    decreases n,
{
    if n >= 10 {
        lemma_no_leading_zero(n / 10);
        assert(decimal(n)[0] == decimal(n / 10)[0]);
    } else {
        assert(decimal(n)[0] as int == '0' as int + n);
    }
}

/// The value of a text of digits goes by place as well.
pub proof fn law_values_go_by_place(s: Seq<char>, c: char)
    requires
        '0' <= c && c <= '9',
    ensures
        number(seq![]) == 0,
        number(s.push(c)) == number(s) * 10 + (c as int - '0' as int),
{
    assert(s.push(c).drop_last() =~= s);
}

/// Lists join at their ends with one separator between them; a list of one is that
/// one, and an empty list is nothing.
pub proof fn law_lists_join_end_to_end(
    a: Seq<Seq<char>>,
    b: Seq<Seq<char>>,
    part: Seq<char>,
    separator: Seq<char>,
)
    requires
        a.len() > 0,
        b.len() > 0,
    ensures
        joined(seq![], separator) == Seq::<char>::empty(),
        joined(seq![part], separator) == part,
        joined(a + b, separator) == joined(a, separator) + separator + joined(b, separator),
    decreases b.len(),
{
    assert((a + b).last() == b.last());
    if b.len() == 1 {
        assert((a + b).drop_last() =~= a);
    } else {
        law_lists_join_end_to_end(a, b.drop_last(), part, separator);
        assert((a + b).drop_last() =~= a + b.drop_last());
        assert(joined(a + b, separator) =~= joined(a, separator) + separator + joined(
            b,
            separator,
        ));
    }
}

/// The exec join keeps every string, in order.
pub proof fn law_join_joins_all(parts: Vec<String>, separator: &str, r: String)
    requires
        call_ensures(join, (&parts, separator), r),
    ensures
        r@ == joined(Seq::new(parts@.len(), |i: int| parts@[i]@), separator@),
{
    assert(texts(parts@) =~= Seq::new(parts@.len(), |i: int| parts@[i]@));
}

/// The characters of a text are that text.
pub proof fn law_characters_in_order(s: &str, r: Vec<char>)
    requires
        call_ensures(chars_of, (s,), r),
    ensures
        r@ == s@,
{
}

/// Truth values are written as `true` and `false`.
pub proof fn law_truth_values_in_words()
    ensures
        bool_text(true) == "true"@,
        bool_text(false) == "false"@,
{
}

/// A string is none exactly if it is empty, and otherwise is kept; what is absent or
/// failed stays so.
pub proof fn law_only_the_empty_string_is_none<E>(
    decoded: Result<Option<String>, E>,
    r: Result<Option<String>, E>,
)
    requires
        call_ensures(empty_string_as_none::<E>, (decoded,), r),
    ensures
        match decoded {
            Ok(Some(s)) => if s@ == Seq::<char>::empty() {
                r == Ok::<Option<String>, E>(None)
            } else {
                r == Ok::<Option<String>, E>(Some(s))
            },
            Ok(None) => r == Ok::<Option<String>, E>(None),
            Err(e) => r == Err::<Option<String>, E>(e),
        },
{
    if let Ok(Some(s)) = decoded {
        assert(s@.len() == 0 ==> s@ =~= Seq::<char>::empty());
    }
}

/// A text value is empty exactly if it has no characters; another value never is.
pub proof fn law_only_empty_texts_are_empty<V>(text: String, other: V)
    ensures
        JsonValue::<V>::Text(text).is_empty_text() <==> text@.len() == 0,
        !JsonValue::<V>::Other(other).is_empty_text(),
{
}

/// A text with characters is decoded, and the outcome is that of the decoding.
pub proof fn law_texts_with_characters_are_decoded<V, T, E, F: FnOnce(JsonValue<V>) -> Result<T, E>>(
    text: String,
    decode: F,
    r: Result<Option<T>, E>,
)
    requires
        call_ensures(
            empty_string_as_none_value::<V, T, E, F>,
            (Ok(Some(JsonValue::Text(text))), decode),
            r,
        ),
        text@.len() > 0,
    ensures
        match r {
            Ok(Some(t)) => call_ensures(decode, (JsonValue::Text(text),), Ok(t)),
            Ok(None) => false,
            Err(e) => call_ensures(decode, (JsonValue::Text(text),), Err(e)),
        },
{
}

/// A value that is no text is decoded, and the outcome is that of the decoding.
pub proof fn law_other_values_are_decoded<V, T, E, F: FnOnce(JsonValue<V>) -> Result<T, E>>(
    value: V,
    decode: F,
    r: Result<Option<T>, E>,
)
    requires
        call_ensures(
            empty_string_as_none_value::<V, T, E, F>,
            (Ok(Some(JsonValue::Other(value))), decode),
            r,
        ),
    ensures
        match r {
            Ok(Some(t)) => call_ensures(decode, (JsonValue::Other(value),), Ok(t)),
            Ok(None) => false,
            Err(e) => call_ensures(decode, (JsonValue::Other(value),), Err(e)),
        },
{
}

/// Null and the empty text are none; a failed read stays failed.
pub proof fn law_null_and_empty_text_are_none<V, T, E, F: FnOnce(JsonValue<V>) -> Result<T, E>>(
    decoded: Result<Option<JsonValue<V>>, E>,
    decode: F,
    r: Result<Option<T>, E>,
)
    requires
        call_ensures(empty_string_as_none_value::<V, T, E, F>, (decoded, decode), r),
        match decoded {
            Ok(Some(JsonValue::Text(text))) => text@.len() == 0,
            Ok(Some(JsonValue::Other(_))) => false,
            _ => true,
        },
    ensures
        match decoded {
            Ok(_) => r == Ok::<Option<T>, E>(None),
            Err(e) => r == Err::<Option<T>, E>(e),
        },
{
}

/// A present field is never taken for an absent one: null clears, a value sets.
pub proof fn law_null_clears_and_a_value_sets<T, E>(
    decoded: Result<Option<T>, E>,
    r: Result<Option<Option<T>>, E>,
)
    requires
        call_ensures(double_option::<T, E>, (decoded,), r),
    ensures
        match decoded {
            Ok(None) => r == Ok::<Option<Option<T>>, E>(Some(None)),
            Ok(Some(t)) => r == Ok::<Option<Option<T>>, E>(Some(Some(t))),
            Err(e) => r == Err::<Option<Option<T>>, E>(e),
        },
{
}

/// A status code is made of exactly the numbers from 100 to 999 and gives its number
/// back.
pub proof fn law_status_codes_give_their_number_back(
    code: u16,
    made: Result<StatusCode, InvalidStatusCode>,
    number: u16,
)
    requires
        call_ensures(StatusCode::from_u16, (code,), made),
        made matches Ok(status) ==> call_ensures(StatusCode::as_u16, (&status,), number),
    ensures
        made is Ok <==> 100 <= code && code < 1000,
        made is Ok ==> number == code,
{
}

/// What is read off an error: its status, its message and its code decide.
pub proof fn law_errors_are_told_apart_by_their_fields(
    err: SamplingError,
    encrypted: bool,
    too_large: bool,
    image: bool,
    rate_limited: bool,
    retry_after: Option<u64>,
)
    requires
        call_ensures(SamplingError::is_encrypted_content_error, (&err,), encrypted),
        call_ensures(SamplingError::is_payload_too_large, (&err,), too_large),
        call_ensures(SamplingError::is_image_processing_error, (&err,), image),
        call_ensures(SamplingError::is_rate_limited, (&err,), rate_limited),
        call_ensures(SamplingError::retry_after, (&err,), retry_after),
    ensures
        match err {
            SamplingError::Api { status, message, retry_after_secs, error_code, .. } => {
                &&& encrypted <==> status@ == 400 && mentions(message@, "encrypted_content"@)
                &&& too_large <==> status@ == 413
                &&& image <==> error_code == Some(ApiErrorCode::InvalidImage) || ((status@ == 400
                    || status@ == 500) && mentions(message@, "Could not process image"@))
                &&& rate_limited <==> status@ == 429
                &&& retry_after == retry_after_secs
            },
            SamplingError::StreamError { code, .. } => {
                &&& !encrypted && !too_large && !rate_limited && retry_after is None
                &&& image <==> code == Some(ApiErrorCode::InvalidImage)
            },
            _ => !encrypted && !too_large && !image && !rate_limited && retry_after is None,
        },
{
    if let SamplingError::Api { message, .. } = err {
        law_search_finds_what_is_there(message@, "encrypted_content"@);
        law_search_finds_what_is_there(message@, "Could not process image"@);
    }
}

/// Errors that tend to clear by themselves, by their kind and, for an error status,
/// by its number.
pub proof fn law_what_tends_to_clear(err: SamplingError, r: bool)
    requires
        call_ensures(SamplingError::is_retryable, (&err,), r),
    ensures
        err is Http || err is EventStreamError || err is StreamError || err is EmptyResponse
            || err is DoomLoopDetected ==> r,
        err is Auth || err is InvalidConfiguration || err is Serialization || err is IdleTimeout
            || err is MaxTokensTruncation ==> !r,
        err matches SamplingError::Api { status, .. } ==> (r <==> set![
            429u16,
            500,
            502,
            503,
            504,
            520,
        ].contains(status@)),
{
}

/// An authentication failure made of a message holds that message and no known
/// credential.
pub proof fn law_auth_failures_hold_their_message(message: &str, r: SamplingError)
    requires
        call_ensures(SamplingError::auth_unknown, (message,), r),
    ensures
        r matches SamplingError::Auth { message: m, credential } && m@ == message@ && credential
            == Credential::Unknown,
{
}

/// The words for an empty response's reason, and its finish reason as it was given.
pub proof fn law_words_for_empty_responses(
    context: EmptyResponseContext,
    reason: &'static str,
    finish: &str,
)
    requires
        call_ensures(EmptyReason::as_str, (&context.reason,), reason),
        call_ensures(EmptyResponseContext::finish_reason_str, (&context,), finish),
    ensures
        context.reason is NoVisibleContent ==> reason@ == "no_visible_content"@,
        context.reason is NoChoices ==> reason@ == "no_choices"@,
        context.finish_reason matches Some(given) ==> finish@ == given@,
        context.finish_reason is None ==> finish@ == "none"@,
{
}

} // verus!
