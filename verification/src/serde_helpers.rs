//! Readings of optional fields in lenient JSON.
//!
//! Each function takes what the deserializer returned and decides what the field
//! holds.

use vstd::prelude::*;

verus! {

/// A JSON value, as far as the readings look into it: a string, or anything else.
#[derive(Debug, Clone, PartialEq, Eq)]
pub enum JsonValue<V> {
    Text(String),
    Other(V),
}

impl<V> JsonValue<V> {
    /// Whether the value is the empty string.
    pub open spec fn is_empty_text(self) -> bool {
        self matches JsonValue::Text(text) && text@.len() == 0
    }
}

/// An optional string, where the empty string counts as none. A failure is passed
/// on.
pub fn empty_string_as_none<E>(decoded: Result<Option<String>, E>) -> (r: Result<Option<String>, E>)
    ensures
        r == (match decoded {
            Ok(Some(s)) => if s@.len() == 0 {
                Ok(None)
            } else {
                Ok(Some(s))
            },
            other => other,
        }),
        r matches Ok(Some(s)) ==> s@.len() > 0,
{
    match decoded {
        Ok(Some(s)) => if s.as_str().is_empty() {
            Ok(None)
        } else {
            Ok(Some(s))
        },
        other => other,
    }
}

/// What an optional value decodes to, where the empty string (`""`) counts as none.
///
/// OpenAI-compatible providers sometimes emit `"finish_reason": ""` instead of
/// `null` on intermediate streaming chunks. `decode` is called for every other
/// value, and for none else; its failure is passed on, as is that of the read.
pub fn empty_string_as_none_value<V, T, E, F: FnOnce(JsonValue<V>) -> Result<T, E>>(
    decoded: Result<Option<JsonValue<V>>, E>,
    decode: F,
) -> (r: Result<Option<T>, E>)
    requires
        decoded matches Ok(Some(value)) ==> !value.is_empty_text() ==> decode.requires((value,)),
    ensures
        match decoded {
            Ok(Some(value)) if !value.is_empty_text() => match r {
                Ok(Some(t)) => decode.ensures((value,), Ok(t)),
                Ok(None) => false,
                Err(e) => decode.ensures((value,), Err(e)),
            },
            Ok(_) => r == Ok::<Option<T>, E>(None),
            Err(e) => r == Err::<Option<T>, E>(e),
        },
{
    match decoded {
        Err(e) => Err(e),
        Ok(None) => Ok(None),
        Ok(Some(value)) => {
            let is_empty_text = match &value {
                JsonValue::Text(text) => text.as_str().is_empty(),
                JsonValue::Other(_) => false,
            };
            if is_empty_text {
                return Ok(None);
            }
            match decode(value) {
                Ok(t) => Ok(Some(t)),
                Err(e) => Err(e),
            }
        },
    }
}

/// A field that is present: `null` (`Some(None)`) clears, a value sets. An absent
/// field never gets here and stays `None`, which leaves. A failure is passed on.
pub fn double_option<T, E>(decoded: Result<Option<T>, E>) -> (r: Result<Option<Option<T>>, E>)
    ensures
        r == (match decoded {
            Ok(value) => Ok::<Option<Option<T>>, E>(Some(value)),
            Err(e) => Err(e),
        }),
{
    match decoded {
        Ok(value) => Ok(Some(value)),
        Err(e) => Err(e),
    }
}

} // verus!
