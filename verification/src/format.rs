//! Human-readable descriptions of sampling errors.

use crate::error::{
    EmptyResponseContext, EmptyResponseView, HttpError, HttpErrorView, SamplingError,
    SamplingErrorView,
};
use crate::outside::{status_text, status_to_text};
use crate::text::{
    bool_text, contains_text, decimal, join, joined, lemma_contains_within, lemma_joined_contains,
    occurs_at, push_bool, push_decimal, texts,
};
use vstd::prelude::*;

verus! {

/// The prefix that says how often the request was retried.
pub open spec fn retry_prefix(retry_count: Option<u32>) -> Seq<char> {
    match retry_count {
        Some(count) => "Request failed after "@ + decimal(count as nat) + " retries. "@,
        None => seq![],
    }
}

/// What a status code suggests to the user.
pub open spec fn status_hint(status: u16) -> Seq<char> {
    if status == 400 {
        " (bad request - check your input)"@
    } else if status == 401 || status == 403 {
        " (authentication issue - check your API key)"@
    } else if status == 404 {
        " (endpoint not found - check model configuration)"@
    } else if status == 413 {
        " (request too large - try /compact or start new session)"@
    } else if status == 429 {
        " (rate limited - please wait and retry)"@
    } else if status == 500 {
        " (server internal error)"@
    } else if status == 502 || status == 503 || status == 504 {
        " (server unavailable - please retry)"@
    } else {
        ""@
    }
}

/// A detail, if there is one.
pub open spec fn detail(present: bool, text: Seq<char>) -> Seq<Seq<char>> {
    if present {
        seq![text]
    } else {
        seq![]
    }
}

/// The details of a transport failure, given the text of its status.
pub open spec fn http_details(e: HttpErrorView, status: Option<Seq<char>>) -> Seq<Seq<char>> {
    detail(e.is_timeout, "timeout"@) + detail(e.is_connect, "connection failed"@) + (match status {
        Some(text) => seq!["status "@ + text],
        None => seq![],
    }) + (match e.url {
        Some(url) => seq!["url: "@ + url],
        None => seq![],
    })
}

/// The description of a transport failure, given the text of its status.
pub open spec fn http_description(e: HttpErrorView, status: Option<Seq<char>>) -> Seq<char> {
    let details = http_details(e, status);
    "HTTP request failed: "@ + e.rendered + (if details.len() == 0 {
        seq![]
    } else {
        " ("@ + joined(details, ", "@) + ")"@
    }) + ". This may be a network issue or the API endpoint may be unavailable."@
}

/// The text of a transport failure's status.
pub open spec fn http_status_text(e: HttpErrorView) -> Option<Seq<char>> {
    match e.status {
        Some(code) => Some(status_text(code)),
        None => None,
    }
}

/// The description of an empty response.
pub open spec fn empty_response_description(context: EmptyResponseView) -> Seq<char> {
    "Empty response from model ("@ + context.reason.text() + "): model="@ + context.model
        + ", had_reasoning="@ + bool_text(context.had_reasoning) + ", finish_reason="@
        + context.finish_reason_text() + ", completion_tokens="@ + decimal(
        match context.completion_tokens {
            Some(tokens) => tokens as nat,
            None => 0,
        },
    )
}

/// The description of an error, without the retry prefix.
pub open spec fn description(err: SamplingErrorView) -> Seq<char> {
    match err {
        SamplingErrorView::Auth { message, .. } => "Authentication failed: "@ + message
            + ". Please check your API key configuration."@,
        SamplingErrorView::InvalidConfiguration(msg) => "Invalid configuration: "@ + msg
            + ". Please check your model settings."@,
        SamplingErrorView::Http(e) => http_description(e, http_status_text(e)),
        SamplingErrorView::Serialization(e) => "Failed to parse API response at line "@ + decimal(
            e.line,
        ) + " column "@ + decimal(e.column) + ": "@ + e.rendered
            + ". This indicates an unexpected response format from the server."@,
        SamplingErrorView::Api { status, message, .. } => "API error (HTTP "@ + decimal(
            status as nat,
        ) + status_hint(status) + "): "@ + message,
        SamplingErrorView::EventStreamError(msg) => "Event stream error: "@ + msg
            + ". The connection to the server was interrupted."@,
        SamplingErrorView::StreamError { error_type, message, .. } => "Server stream error ("@
            + error_type + "): "@ + message
            + ". The server encountered an error while streaming the response."@,
        SamplingErrorView::IdleTimeout { elapsed_secs } => "Model stopped responding after "@
            + decimal(elapsed_secs as nat)
            + "s. The model may be overloaded or stuck. Try again or use a different model."@,
        SamplingErrorView::EmptyResponse { context } => empty_response_description(context),
        SamplingErrorView::MaxTokensTruncation => "Response truncated by max_tokens."@,
        SamplingErrorView::DoomLoopDetected { triggers, .. } =>
            "Server detected a reasoning loop ("@ + joined(triggers, ", "@)
            + "); resampling the response."@,
    }
}

fn push_retry_prefix(out: &mut String, retry_count: Option<u32>)
    ensures
        final(out)@ == old(out)@ + retry_prefix(retry_count),
{
    if let Some(count) = retry_count {
        out.append("Request failed after ");
        push_decimal(out, count as u64);
        out.append(" retries. ");
    }
}

fn status_hint_str(status: u16) -> (r: &'static str)
    ensures
        r@ == status_hint(status),
{
    match status {
        400 => " (bad request - check your input)",
        401 | 403 => " (authentication issue - check your API key)",
        404 => " (endpoint not found - check model configuration)",
        413 => " (request too large - try /compact or start new session)",
        429 => " (rate limited - please wait and retry)",
        500 => " (server internal error)",
        502 | 503 | 504 => " (server unavailable - please retry)",
        _ => "",
    }
}

/// Appends the description of a transport failure, given the text of its status.
pub fn push_http_description(out: &mut String, e: &HttpError, status: Option<&str>)
    ensures
        final(out)@ == old(out)@ + http_description(
            e@,
            match status {
                Some(text) => Some(text@),
                None => None,
            },
        ),
{
    let mut details: Vec<String> = Vec::new();
    if e.is_timeout {
        details.push("timeout".to_owned());
    }
    if e.is_connect {
        details.push("connection failed".to_owned());
    }
    if let Some(text) = status {
        let mut part = "status ".to_owned();
        part.append(text);
        details.push(part);
    }
    if let Some(url) = &e.url {
        let mut part = "url: ".to_owned();
        part.append(url.as_str());
        details.push(part);
    }
    proof {
        let status_view = match status {
            Some(text) => Some(text@),
            None => None,
        };
        assert(texts(details@) =~= http_details(e@, status_view));
    }
    out.append("HTTP request failed: ");
    out.append(e.rendered.as_str());
    if details.len() > 0 {
        let list = join(&details, ", ");
        out.append(" (");
        out.append(list.as_str());
        out.append(")");
    }
    out.append(". This may be a network issue or the API endpoint may be unavailable.");
}

fn push_empty_response(out: &mut String, context: &EmptyResponseContext)
    ensures
        final(out)@ == old(out)@ + empty_response_description(context@),
{
    out.append("Empty response from model (");
    out.append(context.reason.as_str());
    out.append("): model=");
    out.append(context.model.as_str());
    out.append(", had_reasoning=");
    push_bool(out, context.had_reasoning);
    out.append(", finish_reason=");
    out.append(context.finish_reason_str());
    out.append(", completion_tokens=");
    let tokens: u32 = match context.completion_tokens {
        Some(tokens) => tokens,
        None => 0,
    };
    push_decimal(out, tokens as u64);
}

/// The description of a transport failure names its status.
proof fn lemma_http_description_names_the_status(
    prefix: Seq<char>,
    e: HttpErrorView,
    code: u16,
    text: Seq<char>,
)
    requires
        (decimal(code as nat) + " "@).is_prefix_of(text),
    ensures
        contains_text(prefix + http_description(e, Some(text)), "status "@ + decimal(code as nat)),
{
    let needle = "status "@ + decimal(code as nat);
    let part = "status "@ + text;
    let details = http_details(e, Some(text));
    let at = detail(e.is_timeout, "timeout"@).len() + detail(
        e.is_connect,
        "connection failed"@,
    ).len();
    assert(details[at as int] == part);
    assert(part.subrange(0, needle.len() as int) =~= needle) by {
        let start = decimal(code as nat) + " "@;
        assert(start =~= text.subrange(0, start.len() as int));
        assert forall|i: int| 0 <= i < decimal(code as nat).len() implies text[i] == decimal(
            code as nat,
        )[i] by {
            assert(start[i] == text.subrange(0, start.len() as int)[i]);
        }
    }
    assert(occurs_at(part, needle, 0));
    lemma_joined_contains(details, ", "@, at as int);
    let list = joined(details, ", "@);
    let i = choose|i: int| #[trigger] occurs_at(list, part, i);
    let list_before = list.take(i);
    let list_after = list.skip(i + part.len());
    assert(list =~= list_before + part + list_after);
    lemma_contains_within(list_before, part, list_after, needle);
    let before = prefix + ("HTTP request failed: "@ + e.rendered + " ("@);
    let after = ")"@
        + ". This may be a network issue or the API endpoint may be unavailable."@;
    lemma_contains_within(before, list, after, needle);
    assert(before + list + after =~= prefix + http_description(e, Some(text)));
}

/// Build a human-readable, telemetry-friendly description of a sampling error.
///
/// `retry_count`, when present, is rendered as a "Request failed after N retries."
/// prefix.
pub fn format_sampling_error(err: &SamplingError, retry_count: Option<u32>) -> (r: String)
    ensures
        r@ == retry_prefix(retry_count) + description(err@),
        err@ matches SamplingErrorView::Http(e) ==> (e.status matches Some(code) ==> contains_text(
            r@,
            "status "@ + decimal(code as nat),
        )),
{
    let mut out = String::new();
    push_retry_prefix(&mut out, retry_count);
    match err {
        SamplingError::Auth { message, .. } => {
            out.append("Authentication failed: ");
            out.append(message.as_str());
            out.append(". Please check your API key configuration.");
        },
        SamplingError::InvalidConfiguration(msg) => {
            out.append("Invalid configuration: ");
            out.append(msg);
            out.append(". Please check your model settings.");
        },
        SamplingError::Http(e) => match &e.status {
            Some(code) => {
                let text = status_to_text(code.as_u16());
                push_http_description(&mut out, e, Some(text.as_str()));
                proof {
                    lemma_http_description_names_the_status(
                        retry_prefix(retry_count),
                        e@,
                        code@,
                        text@,
                    );
                }
            },
            None => push_http_description(&mut out, e, None),
        },
        SamplingError::Serialization(e) => {
            out.append("Failed to parse API response at line ");
            push_decimal(&mut out, e.line as u64);
            out.append(" column ");
            push_decimal(&mut out, e.column as u64);
            out.append(": ");
            out.append(e.rendered.as_str());
            out.append(". This indicates an unexpected response format from the server.");
        },
        SamplingError::Api { status, message, .. } => {
            let code: u16 = status.as_u16();
            out.append("API error (HTTP ");
            push_decimal(&mut out, code as u64);
            out.append(status_hint_str(code));
            out.append("): ");
            out.append(message.as_str());
        },
        SamplingError::EventStreamError(msg) => {
            out.append("Event stream error: ");
            out.append(msg.as_str());
            out.append(". The connection to the server was interrupted.");
        },
        SamplingError::StreamError { error_type, message, .. } => {
            out.append("Server stream error (");
            out.append(error_type.as_str());
            out.append("): ");
            out.append(message.as_str());
            out.append(". The server encountered an error while streaming the response.");
        },
        SamplingError::IdleTimeout { elapsed_secs } => {
            out.append("Model stopped responding after ");
            push_decimal(&mut out, *elapsed_secs);
            out.append(
                "s. The model may be overloaded or stuck. Try again or use a different model.",
            );
        },
        SamplingError::EmptyResponse { context } => push_empty_response(&mut out, context),
        SamplingError::MaxTokensTruncation => out.append("Response truncated by max_tokens."),
        SamplingError::DoomLoopDetected { triggers, .. } => {
            let list = join(triggers, ", ");
            out.append("Server detected a reasoning loop (");
            out.append(list.as_str());
            out.append("); resampling the response.");
        },
    }
    out
}

} // verus!
