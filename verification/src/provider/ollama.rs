//! Decisions of the Ollama HTTP and newline-delimited streaming API: which
//! address is used, how replies and failures are read, and what each
//! streamed line means. Sending the requests is left to the caller.
use vstd::prelude::*;

use super::ProviderError;
use crate::settings::{is_web_scheme, is_web_url, normalized_address, parse_url, parsed_url, without_trailing};
use crate::text::{chars_of, is_blank, is_blank_str, owned, trimmed};

verus! {

// ---------------------------------------------------------------------------
// Outside computations
// ---------------------------------------------------------------------------

/// The reason phrase registered for the HTTP status `code`, if any: what
/// `reqwest::StatusCode::canonical_reason` gives.
pub uninterp spec fn canonical_reason(code: u16) -> Option<Seq<char>>;

/// Calls `reqwest::StatusCode::from_u16` and `StatusCode::canonical_reason`.
/// `from_u16` accepts exactly the codes 100 to 999, which `requires` asks
/// for. The claim: the reason is a function of `code` alone.
#[verifier::external_body]
fn status_reason(code: u16) -> (r: Option<String>)
    requires
        100 <= code <= 999,
    ensures
        match canonical_reason(code) {
            Some(reason) => r matches Some(text) && text@ == reason,
            None => r is None,
        },
{
    match reqwest::StatusCode::from_u16(code) {
        Ok(status) => match status.canonical_reason() {
            Some(reason) => Some(reason.to_owned()),
            None => None,
        },
        Err(_) => None,
    }
}

/// The lowercase form of `text`: what `str::to_lowercase` gives.
pub uninterp spec fn lowercase(text: Seq<char>) -> Seq<char>;

/// Calls `str::to_lowercase`. The claim: the result is a function of `text`
/// alone (std maps each character by the Unicode lowercase tables; that
/// mapping is not stated).
#[verifier::external_body]
fn to_lowercase(text: &str) -> (r: String)
    ensures
        r@ == lowercase(text@),
{
    text.to_lowercase()
}

// ---------------------------------------------------------------------------
// Addresses
// ---------------------------------------------------------------------------

/// The address the provider talks to, or why it cannot: the configured
/// address trimmed and without trailing slashes, which must parse as an
/// `http` or `https` URL with a host.
pub open spec fn provider_address(raw: Seq<char>) -> Result<Seq<char>, Seq<char>> {
    let address = normalized_address(raw);
    match parsed_url(address) {
        Err(message) => Err("Invalid Ollama address: "@ + message),
        Ok((scheme, host)) => if is_web_scheme(scheme) && host is Some {
            Ok(address)
        } else {
            Err("Invalid Ollama address."@)
        },
    }
}

/// The address of the Ollama server at `raw`, or the request failure that
/// reports why it is not usable.
pub fn ollama_base_url(raw: &str) -> (r: Result<String, ProviderError>)
    ensures
        match provider_address(raw@) {
            Ok(address) => r matches Ok(a) && a@ == address,
            Err(message) => r matches Err(ProviderError::RequestFailed(m)) && m@ == message,
        },
{
    let base_url = without_trailing(trimmed(raw).as_str(), '/');
    match parse_url(base_url.as_str()) {
        Err(message) => {
            let mut text = owned("Invalid Ollama address: ");
            text.append(message.as_str());
            Err(ProviderError::RequestFailed(text))
        },
        Ok(parts) => {
            if is_web_url(&parts) {
                Ok(base_url)
            } else {
                Err(ProviderError::RequestFailed(owned("Invalid Ollama address.")))
            }
        },
    }
}

/// The URL of the API endpoint `path` on the server at `base_url`.
pub fn endpoint(base_url: &str, path: &str) -> (r: String)
    ensures
        r@ == base_url@ + "/api/"@ + path@,
{
    let mut url = owned(base_url);
    url.append("/api/");
    url.append(path);
    url
}

// ---------------------------------------------------------------------------
// Failures
// ---------------------------------------------------------------------------

/// A failed connection: `Unavailable` when the server could not be reached
/// or did not answer in time, else a failed request.
pub fn connection_error(unreachable: bool, message: String) -> (r: ProviderError)
    ensures
        r == (if unreachable {
            ProviderError::Unavailable(message)
        } else {
            ProviderError::RequestFailed(message)
        }),
{
    if unreachable {
        ProviderError::Unavailable(message)
    } else {
        ProviderError::RequestFailed(message)
    }
}

/// Whether an HTTP status is a success (`2xx`).
pub open spec fn is_success_status(code: u16) -> bool {
    200 <= code < 300
}

pub fn is_success(code: u16) -> (r: bool)
    ensures
        r == is_success_status(code),
{
    200 <= code && code < 300
}

/// The character of the decimal digit `d`.
pub open spec fn digit_char(d: nat) -> char {
    if d == 0 {
        '0'
    } else if d == 1 {
        '1'
    } else if d == 2 {
        '2'
    } else if d == 3 {
        '3'
    } else if d == 4 {
        '4'
    } else if d == 5 {
        '5'
    } else if d == 6 {
        '6'
    } else if d == 7 {
        '7'
    } else if d == 8 {
        '8'
    } else {
        '9'
    }
}

/// The decimal digits of `n`.
pub open spec fn decimal(n: nat) -> Seq<char>
    decreases n,
{
    if n < 10 {
        seq![digit_char(n)]
    } else {
        decimal(n / 10).push(digit_char(n % 10))
    }
}

fn digit_text(d: u16) -> (r: &'static str)
    requires
        d < 10,
    ensures
        r@ == seq![digit_char(d as nat)],
{
    proof {
        reveal_strlit("0");
        reveal_strlit("1");
        reveal_strlit("2");
        reveal_strlit("3");
        reveal_strlit("4");
        reveal_strlit("5");
        reveal_strlit("6");
        reveal_strlit("7");
        reveal_strlit("8");
        reveal_strlit("9");
    }
    if d == 0 {
        "0"
    } else if d == 1 {
        "1"
    } else if d == 2 {
        "2"
    } else if d == 3 {
        "3"
    } else if d == 4 {
        "4"
    } else if d == 5 {
        "5"
    } else if d == 6 {
        "6"
    } else if d == 7 {
        "7"
    } else if d == 8 {
        "8"
    } else {
        "9"
    }
}

/// The decimal digits of `n`.
pub fn decimal_text(n: u16) -> (r: String)
    ensures
        r@ == decimal(n as nat),
    decreases n,
{
    if n < 10 {
        owned(digit_text(n))
    } else {
        let mut text = decimal_text(n / 10);
        text.append(digit_text(n % 10));
        text
    }
}

/// `needle` occurs in `text`.
pub open spec fn contains_text(text: Seq<char>, needle: Seq<char>) -> bool {
    exists|i: int|
        0 <= i && i + needle.len() <= text.len() && #[trigger] text.subrange(i, i + needle.len())
            == needle
}

/// Whether `needle` occurs in `text` at position `at`.
fn occurs_at(text: &Vec<char>, needle: &Vec<char>, at: usize) -> (r: bool)
    requires
        at + needle.len() <= text.len(),
    ensures
        r == (text@.subrange(at as int, at + needle.len()) == needle@),
{
    let mut k: usize = 0;
    while k < needle.len()
        invariant
            at + needle.len() <= text.len(),
            k <= needle.len(),
            forall|j: int| 0 <= j < k ==> text@[at + j] == needle@[j],
        decreases needle.len() - k,
    {
        if text[at + k] != needle[k] {
            assert(text@.subrange(at as int, at + needle.len())[k as int] != needle@[k as int]);
            return false;
        }
        k = k + 1;
    }
    assert(text@.subrange(at as int, at + needle.len()) =~= needle@);
    true
}

/// Whether `needle` occurs in `text`.
pub fn text_contains(text: &str, needle: &str) -> (r: bool)
    ensures
        r == contains_text(text@, needle@),
{
    let t = chars_of(text);
    let n = chars_of(needle);
    if n.len() > t.len() {
        return false;
    }
    let last = t.len() - n.len();
    let mut i: usize = 0;
    while i < last
        invariant
            t@ == text@,
            n@ == needle@,
            last == t.len() - n.len(),
            i <= last,
            forall|j: int| 0 <= j < i ==> #[trigger] t@.subrange(j, j + n.len()) != n@,
        decreases last - i,
    {
        if occurs_at(&t, &n, i) {
            return true;
        }
        i = i + 1;
    }
    occurs_at(&t, &n, last)
}

/// The message for a reply with a failure status: a missing model when the
/// server says so with `404`, else the status itself, as in
/// `Ollama returned 500 Internal Server Error.`.
pub open spec fn failure_message(code: u16, body: Seq<char>) -> Seq<char> {
    if code == 404 && contains_text(lowercase(body), "model"@) {
        "The selected Ollama model is not installed."@
    } else {
        "Ollama returned "@ + decimal(code as nat) + " "@ + match canonical_reason(code) {
            Some(reason) => reason,
            None => "<unknown status code>"@,
        } + "."@
    }
}

/// The error for a reply whose status `code` is not a success, with the
/// reply's `body` (empty when it could not be read).
pub fn failure_error(code: u16, body: String) -> (r: ProviderError)
    requires
        100 <= code <= 999,
    ensures
        r matches ProviderError::RequestFailed(message) && message@ == failure_message(code, body@),
{
    let lower = to_lowercase(body.as_str());
    if code == 404 && text_contains(lower.as_str(), "model") {
        return ProviderError::RequestFailed(owned("The selected Ollama model is not installed."));
    }
    let mut message = owned("Ollama returned ");
    let digits = decimal_text(code);
    message.append(digits.as_str());
    message.append(" ");
    match status_reason(code) {
        Some(reason) => message.append(reason.as_str()),
        None => message.append("<unknown status code>"),
    }
    message.append(".");
    ProviderError::RequestFailed(message)
}

// ---------------------------------------------------------------------------
// Streaming
// ---------------------------------------------------------------------------

/// The assistant part of a streamed chunk.
#[derive(Debug, Clone, PartialEq, Eq)]
pub struct OllamaAssistantMessage {
    pub content: Option<String>,
}

/// One line of Ollama's streamed chat reply.
#[derive(Debug, Clone, PartialEq, Eq)]
pub struct OllamaChatChunk {
    pub message: Option<OllamaAssistantMessage>,
    pub done: bool,
    pub error: Option<String>,
}

/// What one streamed line asks for.
#[derive(Debug, PartialEq, Eq)]
pub enum LineOutcome {
    /// A blank line: read the next one.
    Skip,
    /// A line to decode as a chunk.
    Decode,
    /// The stream failed.
    Fail(ProviderError),
}

/// What one decoded chunk asks for.
#[derive(Debug, PartialEq, Eq)]
pub enum ChunkOutcome {
    /// The server reported an error.
    Fail(ProviderError),
    /// Hand on `delta` (when there is text) and stop after it when `done`.
    Continue { delta: Option<String>, done: bool },
}

pub open spec fn early_end_message() -> Seq<char> {
    "Ollama ended the response before marking it complete."@
}

/// What a line read from the stream means: the end of the stream before the
/// final chunk is an invalid response, a blank line is skipped, any other
/// line is a chunk.
pub fn line_outcome(line: Option<&str>) -> (r: LineOutcome)
    ensures
        match line {
            None => r matches LineOutcome::Fail(ProviderError::InvalidResponse(m)) && m@
                == early_end_message(),
            Some(text) => if is_blank(text@) {
                r == LineOutcome::Skip
            } else {
                r == LineOutcome::Decode
            },
        },
{
    match line {
        None => LineOutcome::Fail(
            ProviderError::InvalidResponse(
                owned("Ollama ended the response before marking it complete."),
            ),
        ),
        Some(text) => {
            if is_blank_str(text) {
                LineOutcome::Skip
            } else {
                LineOutcome::Decode
            }
        },
    }
}

/// The text a chunk carries, when there is some.
pub open spec fn chunk_delta(chunk: OllamaChatChunk) -> Option<Seq<char>> {
    match chunk.message {
        Some(message) => match message.content {
            Some(content) => if content@.len() > 0 {
                Some(content@)
            } else {
                None
            },
            None => None,
        },
        None => None,
    }
}

/// What a decoded chunk means: an error reported by the server fails the
/// request; otherwise its non-empty text is handed on, and the stream ends
/// when the chunk is marked done.
pub fn chunk_outcome(chunk: OllamaChatChunk) -> (r: ChunkOutcome)
    ensures
        match chunk.error {
            Some(error) => r == ChunkOutcome::Fail(ProviderError::RequestFailed(error)),
            None => r matches ChunkOutcome::Continue { delta, done } && done == chunk.done
                && match chunk_delta(chunk) {
                Some(text) => delta matches Some(d) && d@ == text,
                None => delta is None,
            },
        },
{
    if let Some(error) = chunk.error {
        return ChunkOutcome::Fail(ProviderError::RequestFailed(error));
    }
    let delta = match chunk.message {
        Some(message) => match message.content {
            Some(content) => {
                if content.as_str().is_empty() {
                    None
                } else {
                    Some(content)
                }
            },
            None => None,
        },
        None => None,
    };
    ChunkOutcome::Continue { delta, done: chunk.done }
}

/// The text of a chunk's message: its content, or nothing when absent.
pub open spec fn chunk_text(chunk: OllamaChatChunk) -> Seq<char> {
    match chunk.message {
        Some(message) => match message.content {
            Some(content) => content@,
            None => Seq::empty(),
        },
        None => Seq::empty(),
    }
}

/// Every piece of text a chunk carries is handed on as it is, whitespace
/// included: the delta is exactly the content whenever the content is not
/// the empty string, and there is none only when the content is absent or
/// empty.
pub proof fn chunk_text_is_handed_on_whole(chunk: OllamaChatChunk)
    ensures
        chunk_text(chunk).len() > 0 ==> chunk_delta(chunk) == Some(chunk_text(chunk)),
        chunk_text(chunk).len() == 0 ==> chunk_delta(chunk) is None,
        chunk.message matches Some(message) ==> (message.content matches Some(content) ==> (
        content@.len() > 0 ==> chunk_delta(chunk) == Some(content@))),
{
}

} // verus!
