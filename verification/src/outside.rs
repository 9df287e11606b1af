//! The calls into other crates and into parts of std that have no contract of
//! their own. What is stated here is believed, not proved.

use crate::json::{json_error_of_text, JsonError};
use crate::text::decimal;
use core::time::Duration;
use indexmap::IndexMap;
use std::collections::hash_map::RandomState;
use std::hash::BuildHasher;
use vstd::prelude::*;

verus! {

/// The time span that `Duration::from_millis` makes of a number of milliseconds.
pub uninterp spec fn millis_duration(millis: u64) -> Duration;

/// `Duration::from_millis`: the result is the span of that many milliseconds, and
/// depends on nothing else.
pub assume_specification[ Duration::from_millis ](millis: u64) -> (d: Duration)
    ensures
        d == millis_duration(millis),
;

/// The time span that `Duration::from_secs` makes of a number of seconds.
pub uninterp spec fn secs_duration(secs: u64) -> Duration;

/// `Duration::from_secs`: the result is the span of that many seconds, and depends
/// on nothing else.
pub assume_specification[ Duration::from_secs ](secs: u64) -> (d: Duration)
    ensures
        d == secs_duration(secs),
;

/// `RandomState::new`: a hash state with fresh random keys, of which nothing is
/// said.
pub assume_specification[ RandomState::new ]() -> RandomState;

/// `BuildHasher::hash_one` on a `RandomState`: some hash of the attempt number. The
/// state's keys are random, so nothing is said of the hash.
#[verifier::external_body]
pub(crate) fn hash_attempt(state: &RandomState, attempt: u32) -> u64 {
    state.hash_one(attempt)
}

/// How `http::StatusCode` displays a status code: the number, a space, and the
/// code's reason phrase.
pub uninterp spec fn status_text(code: u16) -> Seq<char>;

/// `Display` of `reqwest::StatusCode`: the text depends on the code alone and
/// starts with the number and a space. Which phrase follows is left unsaid.
#[verifier::external_body]
pub(crate) fn status_to_text(code: u16) -> (r: String)
    requires
        100 <= code <= 999,
    ensures
        r@ == status_text(code),
        (decimal(code as nat) + " "@).is_prefix_of(r@),
{
    reqwest::StatusCode::from_u16(code).unwrap().to_string()
}

/// `serde::de::Error::custom` for `serde_json::Error`, read back through `line`,
/// `column` and `Display`: a position that ends the text becomes the error's
/// position, every other text is taken whole as a message without one.
#[verifier::external_body]
pub(crate) fn json_error_from_text(text: &str) -> (r: JsonError)
    ensures
        r@ == json_error_of_text(text@),
{
    let error = <serde_json::Error as serde::de::Error>::custom(text);
    JsonError { line: error.line(), column: error.column(), rendered: error.to_string() }
}

/// `indexmap::IndexMap`, a map that keeps its entries in insertion order.
#[verifier::external_type_specification]
#[verifier::external_body]
#[verifier::reject_recursive_types(K)]
#[verifier::reject_recursive_types(V)]
#[verifier::reject_recursive_types(S)]
pub struct ExIndexMap<K, V, S>(indexmap::IndexMap<K, V, S>);

/// `std::path::PathBuf`, carried through unread.
#[verifier::external_type_specification]
#[verifier::external_body]
pub struct ExPathBuf(std::path::PathBuf);

/// `reqwest::header::HeaderMap`, handed through to a header injector unread.
#[verifier::external_type_specification]
#[verifier::external_body]
#[verifier::reject_recursive_types(T)]
pub struct ExHeaderMap<T>(reqwest::header::HeaderMap<T>);

/// `reqwest::header::HeaderValue`, the values of a header map.
#[verifier::external_type_specification]
#[verifier::external_body]
pub struct ExHeaderValue(reqwest::header::HeaderValue);

/// `tracing::Span`, handed through to a header injector unread.
#[verifier::external_type_specification]
#[verifier::external_body]
pub struct ExSpan(tracing::Span);

/// The entries of a text map, in order.
pub uninterp spec fn entries(map: IndexMap<String, String>) -> Seq<(Seq<char>, Seq<char>)>;

/// `IndexMap::new`: a map without entries.
#[verifier::external_body]
pub(crate) fn empty_map() -> (r: IndexMap<String, String>)
    ensures
        entries(r) == Seq::<(Seq<char>, Seq<char>)>::empty(),
{
    IndexMap::new()
}

} // verus!
