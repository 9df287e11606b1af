//! How errors read, in terms of what they hold.

use crate::error::{EmptyReason, HttpErrorView, SamplingError};
use crate::format::{description, detail, format_sampling_error, http_description, http_details};
use crate::laws::readings::mentions;
use crate::outside::status_text;
use crate::text::{decimal, joined, texts};
use vstd::prelude::*;

verus! {

/// Two notes as one, with a comma between them; an empty note is left out.
pub open spec fn noted(a: Seq<char>, b: Seq<char>) -> Seq<char> {
    if a.len() == 0 {
        b
    } else if b.len() == 0 {
        a
    } else {
        a + ", "@ + b
    }
}

/// A word where something is the case, and nothing otherwise.
pub open spec fn word_if(holds: bool, word: Seq<char>) -> Seq<char> {
    if holds {
        word
    } else {
        seq![]
    }
}

/// What is noted of a transport failure: that it timed out, that no connection came
/// about, the status and the address, in this order and as far as they are known.
pub open spec fn transport_notes(
    is_timeout: bool,
    is_connect: bool,
    status: Option<Seq<char>>,
    url: Option<Seq<char>>,
) -> Seq<char> {
    noted(
        noted(
            noted(word_if(is_timeout, "timeout"@), word_if(is_connect, "connection failed"@)),
            match status {
                Some(text) => "status "@ + text,
                None => seq![],
            },
        ),
        match url {
            Some(text) => "url: "@ + text,
            None => seq![],
        },
    )
}

/// Notes in brackets, if there are any.
pub open spec fn bracketed(notes: Seq<char>) -> Seq<char> {
    if notes.len() == 0 {
        seq![]
    } else {
        " ("@ + notes + ")"@
    }
}

/// A count is told in front, and changes nothing behind it.
pub proof fn law_count_is_told_in_front(err: SamplingError, n: u32, with: String, without: String)
    requires
        call_ensures(format_sampling_error, (&err, Some(n)), with),
        call_ensures(format_sampling_error, (&err, None), without),
    ensures
        with@ == "Request failed after "@ + decimal(n as nat) + " retries. "@ + without@,
{
    assert(without@ =~= description(err@));
}

/// The details of a transport failure name a timeout exactly if it was one, a failed
/// connection exactly if it was one, and the status and the address exactly if they
/// are known.
pub proof fn law_details_name_the_cause(e: HttpErrorView, status: Option<Seq<char>>)
    ensures
        http_details(e, status).contains("timeout"@) <==> e.is_timeout,
        http_details(e, status).contains("connection failed"@) <==> e.is_connect,
        status matches Some(text) ==> http_details(e, status).contains("status "@ + text),
        e.url matches Some(url) ==> http_details(e, status).contains("url: "@ + url),
        http_details(e, status).len() == (if e.is_timeout {
            1int
        } else {
            0
        }) + (if e.is_connect {
            1int
        } else {
            0
        }) + (if status is Some {
            1int
        } else {
            0
        }) + (if e.url is Some {
            1int
        } else {
            0
        }),
{
    reveal_strlit("timeout");
    reveal_strlit("connection failed");
    reveal_strlit("status ");
    reveal_strlit("url: ");
    let details = http_details(e, status);
    let t = detail(e.is_timeout, "timeout"@).len() as int;
    let c = detail(e.is_connect, "connection failed"@).len() as int;
    let s: int = if status is Some {
        1
    } else {
        0
    };
    if e.is_timeout {
        assert(details[0] == "timeout"@);
    }
    if e.is_connect {
        assert(details[t] == "connection failed"@);
    }
    if let Some(text) = status {
        assert(details[t + c] == "status "@ + text);
    }
    if let Some(url) = e.url {
        assert(details[t + c + s] == "url: "@ + url);
    }
    assert("timeout"@[0] == 't' && "connection failed"@[0] == 'c');
    assert forall|i: int| 0 <= i < details.len() implies (#[trigger] details[i] == "timeout"@ ==>
        e.is_timeout) && (details[i] == "connection failed"@ ==> e.is_connect) by {
        if i < t {
        } else if i < t + c {
            assert(details[i][0] == 'c');
        } else if i < t + c + s {
            assert(details[i] == "status "@ + status->0);
            assert(details[i][0] == 's');
        } else {
            assert(details[i] == "url: "@ + e.url->0);
            assert(details[i][0] == 'u');
        }
    }
}

/// A transport failure reads as its text, then the notes on it, whichever of them
/// there are.
pub proof fn law_transport_failures_in_words(e: HttpErrorView, status: Option<Seq<char>>)
    ensures
        http_description(e, status) == "HTTP request failed: "@ + e.rendered + bracketed(
            transport_notes(e.is_timeout, e.is_connect, status, e.url),
        ) + ". This may be a network issue or the API endpoint may be unavailable."@,
{
    reveal_strlit("timeout");
    reveal_strlit("connection failed");
    reveal_strlit("status ");
    reveal_strlit("url: ");
    let details = http_details(e, status);
    let comma = ", "@;
    let notes = transport_notes(e.is_timeout, e.is_connect, status, e.url);
    let d1 = detail(e.is_timeout, "timeout"@);
    let d2 = detail(e.is_connect, "connection failed"@);
    let d3: Seq<Seq<char>> = match status {
        Some(text) => seq!["status "@ + text],
        None => seq![],
    };
    let d4: Seq<Seq<char>> = match e.url {
        Some(url) => seq!["url: "@ + url],
        None => seq![],
    };
    assert(details =~= d1 + d2 + d3 + d4);
    let n1 = word_if(e.is_timeout, "timeout"@);
    lemma_note(seq![], n1, d1, comma);
    lemma_note(d1, word_if(e.is_connect, "connection failed"@), d2, comma);
    lemma_note(
        d1 + d2,
        match status {
            Some(text) => "status "@ + text,
            None => seq![],
        },
        d3,
        comma,
    );
    lemma_note(
        d1 + d2 + d3,
        match e.url {
            Some(url) => "url: "@ + url,
            None => seq![],
        },
        d4,
        comma,
    );
    assert(seq![] + d1 =~= d1);
    assert(joined(details, comma) == notes);
    lemma_joined_is_empty(details, comma);
}

/// One more note, or none, behind a list of notes.
proof fn lemma_note(
    before: Seq<Seq<char>>,
    note: Seq<char>,
    part: Seq<Seq<char>>,
    comma: Seq<char>,
)
    requires
        comma == ", "@,
        forall|i: int| 0 <= i < before.len() ==> (#[trigger] before[i]).len() > 0,
        note.len() > 0 ==> part == seq![note],
        note.len() == 0 ==> part.len() == 0,
    ensures
        joined(before + part, comma) == noted(joined(before, comma), note),
{
    lemma_joined_is_empty(before, comma);
    if note.len() == 0 {
        assert(before + part =~= before);
    } else {
        assert((before + part).drop_last() =~= before);
        assert((before + part).last() == note);
        if before.len() == 0 {
            assert((before + part)[0] == note);
        }
    }
}

proof fn lemma_joined_is_empty(parts: Seq<Seq<char>>, comma: Seq<char>)
    requires
        forall|i: int| 0 <= i < parts.len() ==> (#[trigger] parts[i]).len() > 0,
    ensures
        joined(parts, comma).len() == 0 <==> parts.len() == 0,
{
    if parts.len() > 0 {
        assert(parts[0].len() > 0);
        assert(parts.last() == parts[parts.len() - 1]);
        assert(parts.last().len() > 0);
    }
}

/// The whole description of a transport failure, with the status in the words of the
/// HTTP library.
pub proof fn law_http_errors_in_full(err: SamplingError, r: String)
    requires
        call_ensures(format_sampling_error, (&err, None), r),
    ensures
        err matches SamplingError::Http(e) ==> r@ == "HTTP request failed: "@ + e.rendered@
            + bracketed(
            transport_notes(
                e.is_timeout,
                e.is_connect,
                match e.status {
                    Some(status) => Some(status_text(status@)),
                    None => None,
                },
                match e.url {
                    Some(url) => Some(url@),
                    None => None,
                },
            ),
        ) + ". This may be a network issue or the API endpoint may be unavailable."@,
{
    assert(r@ =~= description(err@));
    if let SamplingError::Http(e) = err {
        law_transport_failures_in_words(
            e@,
            match e.status {
                Some(status) => Some(status_text(status@)),
                None => None,
            },
        );
    }
}

/// A description of a transport failure mentions its cause: a timeout, a failed
/// connection, the address, and the failure's own text.
pub proof fn law_descriptions_mention_the_cause(err: SamplingError, count: Option<u32>, r: String)
    requires
        call_ensures(format_sampling_error, (&err, count), r),
    ensures
        err matches SamplingError::Http(e) ==> {
            &&& mentions(r@, e.rendered@)
            &&& e.is_timeout ==> mentions(r@, "timeout"@)
            &&& e.is_connect ==> mentions(r@, "connection failed"@)
            &&& e.url matches Some(url) ==> mentions(r@, "url: "@ + url@)
        },
{
    if let SamplingError::Http(e) = err {
        let status = match e.status {
            Some(status) => Some(status_text(status@)),
            None => None,
        };
        let details = http_details(e@, status);
        law_details_name_the_cause(e@, status);
        let front = r@.take(r@.len() - description(err@).len());
        assert(r@ =~= front + description(err@));
        let tail = ". This may be a network issue or the API endpoint may be unavailable."@;
        let list = joined(details, ", "@);
        let brackets = if details.len() == 0 {
            seq![]
        } else {
            " ("@ + list + ")"@
        };
        assert(r@ =~= (front + "HTTP request failed: "@) + e.rendered@ + (brackets + tail));
        assert forall|part: Seq<char>| #[trigger] details.contains(part) implies mentions(
            r@,
            part,
        ) by {
            let i = choose|i: int| 0 <= i < details.len() && details[i] == part;
            lemma_part_is_joined(details, ", "@, i);
            let (before, after) = choose|before: Seq<char>, after: Seq<char>|
                list == #[trigger] (before + part + after);
            let left = front + "HTTP request failed: "@ + e.rendered@ + " ("@ + before;
            let right = after + ")"@ + tail;
            assert(r@ =~= left + part + right);
        }
    }
}

proof fn lemma_part_is_joined(parts: Seq<Seq<char>>, comma: Seq<char>, i: int)
    requires
        0 <= i < parts.len(),
    ensures
        mentions(joined(parts, comma), parts[i]),
    decreases parts.len(),
{
    let whole = joined(parts, comma);
    let part = parts[i];
    if parts.len() == 1 {
        assert(whole =~= seq![] + part + seq![]);
    } else if i == parts.len() - 1 {
        let before = joined(parts.drop_last(), comma) + comma;
        assert(whole =~= before + part + seq![]);
    } else {
        lemma_part_is_joined(parts.drop_last(), comma, i);
        let (before, after) = choose|before: Seq<char>, after: Seq<char>|
            joined(parts.drop_last(), comma) == #[trigger] (before + part + after);
        assert(whole =~= before + part + (after + comma + parts.last()));
    }
}

/// A failed request reads as its status, a hint where the status has one, and its
/// message.
pub proof fn law_error_statuses_in_full(err: SamplingError, r: String)
    requires
        call_ensures(format_sampling_error, (&err, None), r),
    ensures
        err matches SamplingError::Api { status, message, .. } ==> r@ == "API error (HTTP "@
            + decimal(status@ as nat) + (match status@ {
            400 => " (bad request - check your input)"@,
            401 => " (authentication issue - check your API key)"@,
            403 => " (authentication issue - check your API key)"@,
            404 => " (endpoint not found - check model configuration)"@,
            413 => " (request too large - try /compact or start new session)"@,
            429 => " (rate limited - please wait and retry)"@,
            500 => " (server internal error)"@,
            502 => " (server unavailable - please retry)"@,
            503 => " (server unavailable - please retry)"@,
            504 => " (server unavailable - please retry)"@,
            _ => seq![],
        }) + "): "@ + message@,
{
    reveal_strlit("");
    assert(""@ =~= seq![]);
    assert(r@ =~= description(err@));
}

/// Every other error reads as what it holds, in a sentence of its own.
pub proof fn law_other_errors_in_full(err: SamplingError, r: String)
    requires
        call_ensures(format_sampling_error, (&err, None), r),
    ensures
        match err {
            SamplingError::Auth { message, .. } => r@ == "Authentication failed: "@ + message@
                + ". Please check your API key configuration."@,
            SamplingError::InvalidConfiguration(message) => r@ == "Invalid configuration: "@
                + message@ + ". Please check your model settings."@,
            SamplingError::Serialization(e) => r@ == "Failed to parse API response at line "@
                + decimal(e.line as nat) + " column "@ + decimal(e.column as nat) + ": "@
                + e.rendered@
                + ". This indicates an unexpected response format from the server."@,
            SamplingError::EventStreamError(message) => r@ == "Event stream error: "@ + message@
                + ". The connection to the server was interrupted."@,
            SamplingError::StreamError { error_type, message, .. } => r@
                == "Server stream error ("@ + error_type@ + "): "@ + message@
                + ". The server encountered an error while streaming the response."@,
            SamplingError::IdleTimeout { elapsed_secs } => r@ == "Model stopped responding after "@
                + decimal(elapsed_secs as nat)
                + "s. The model may be overloaded or stuck. Try again or use a different model."@,
            SamplingError::MaxTokensTruncation => r@ == "Response truncated by max_tokens."@,
            SamplingError::DoomLoopDetected { triggers, .. } => r@
                == "Server detected a reasoning loop ("@ + joined(
                Seq::new(triggers@.len(), |i: int| triggers@[i]@),
                ", "@,
            ) + "); resampling the response."@,
            _ => true,
        },
{
    assert(r@ =~= description(err@));
    if let SamplingError::DoomLoopDetected { triggers, .. } = err {
        assert(texts(triggers@) =~= Seq::new(triggers@.len(), |i: int| triggers@[i]@));
    }
}

/// An empty response reads as why it is empty and what is known of it.
pub proof fn law_empty_responses_in_full(err: SamplingError, r: String)
    requires
        call_ensures(format_sampling_error, (&err, None), r),
    ensures
        err matches SamplingError::EmptyResponse { context } ==> r@
            == "Empty response from model ("@ + (match context.reason {
            EmptyReason::NoVisibleContent => "no_visible_content"@,
            EmptyReason::NoChoices => "no_choices"@,
        }) + "): model="@ + context.model@ + ", had_reasoning="@ + (if context.had_reasoning {
            "true"@
        } else {
            "false"@
        }) + ", finish_reason="@ + (match context.finish_reason {
            Some(reason) => reason@,
            None => "none"@,
        }) + ", completion_tokens="@ + decimal(
            match context.completion_tokens {
                Some(tokens) => tokens as nat,
                None => 0,
            },
        ),
{
    assert(r@ =~= description(err@));
}

} // verus!
