//! The prober: what the response headers say about the resource's length and
//! about range support, and which request to try next.

use crate::error::ProgramError;
use crate::text::{
    append_decimal, contains, contains_lowercased, decimal_text, parse_u64, parse_u64_spec,
    to_ascii_lowercase, to_chars,
};
use crate::types::ProbeResult;
use vstd::prelude::*;

verus! {

/// Index of the last occurrence of `c` in `s`.
pub open spec fn last_index_of(s: Seq<char>, c: char) -> Option<int>
    decreases s.len(),
{
    if s.len() == 0 {
        None
    } else if s.last() == c {
        Some(s.len() - 1)
    } else {
        last_index_of(s.drop_last(), c)
    }
}

/// The total length that a content-range value such as `bytes 0-0/12345`
/// gives: the number after the last `/`. A value without `/`, or with
/// anything but a number after it (`*` for an unknown total), gives none.
pub open spec fn content_range_total(value: Seq<char>) -> Option<u64> {
    match last_index_of(value, '/') {
        Some(slash) => parse_u64_spec(value.skip(slash + 1)),
        None => None,
    }
}

/// The length that a content-length header gives: its number, or 0 when the
/// header is missing or is no number.
pub open spec fn content_length_of(value: Option<Seq<char>>) -> u64 {
    match value {
        Some(text) => match parse_u64_spec(text) {
            Some(length) => length,
            None => 0,
        },
        None => 0,
    }
}

/// Whether a header that lists the supported range units names `bytes`, in
/// any mix of upper and lower case.
pub open spec fn lists_bytes(value: Option<Seq<char>>) -> bool {
    match value {
        Some(text) => contains(to_ascii_lowercase(text), "bytes"@),
        None => false,
    }
}

/// The value of a range header for the bytes `start` to `end_inclusive`.
pub open spec fn range_header_text(start: u64, end_inclusive: u64) -> Seq<char> {
    "bytes="@ + decimal_text(start as nat) + "-"@ + decimal_text(end_inclusive as nat)
}

/// Where `c` occurs at `at` and nowhere after, `at` is its last index.
proof fn lemma_last_index_of(s: Seq<char>, c: char, at: int)
    requires
        0 <= at < s.len(),
        s[at] == c,
        forall|j: int| at < j < s.len() ==> s[j] != c,
    ensures
        last_index_of(s, c) == Some(at),
    decreases s.len(),
{
    if at < s.len() - 1 {
        lemma_last_index_of(s.drop_last(), c, at);
    }
}

/// Where `c` does not occur, it has no last index.
proof fn lemma_no_index_of(s: Seq<char>, c: char)
    requires
        forall|j: int| 0 <= j < s.len() ==> s[j] != c,
    ensures
        last_index_of(s, c) is None,
    decreases s.len(),
{
    if s.len() > 0 {
        lemma_no_index_of(s.drop_last(), c);
    }
}

/// Reads the total length out of a content-range header value.
pub fn parse_total_from_content_range(s: &str) -> (total: Option<u64>)
    ensures
        total == content_range_total(s@),
{
    let chars = to_chars(s);
    let len = chars.len();
    let mut at: usize = len;
    while at > 0 && chars[at - 1] != '/'
        invariant
            at <= len,
            len == chars.len(),
            forall|j: int| at <= j < len ==> chars[j] != '/',
        decreases at,
    {
        at -= 1;
    }
    if at == 0 {
        proof {
            lemma_no_index_of(s@, '/');
        }
        None
    } else {
        proof {
            lemma_last_index_of(s@, '/', at - 1);
        }
        parse_u64(s.substring_char(at, len))
    }
}

/// Reads the length out of a content-length header value; 0 when the header
/// is missing or is no number.
pub fn parse_content_length(value: Option<&str>) -> (length: u64)
    ensures
        length == content_length_of(
            match value {
                Some(text) => Some(text@),
                None => None,
            },
        ),
{
    match value {
        Some(text) => match parse_u64(text) {
            Some(length) => length,
            None => 0,
        },
        None => 0,
    }
}

/// Whether the header that lists the supported range units names `bytes`.
pub fn accepts_byte_ranges(value: Option<&str>) -> (accepted: bool)
    ensures
        accepted == lists_bytes(
            match value {
                Some(text) => Some(text@),
                None => None,
            },
        ),
{
    match value {
        Some(text) => contains_lowercased(text, "bytes"),
        None => false,
    }
}

/// Builds the value of a range header for the bytes `start` to `end_inclusive`.
pub fn range_header_value(start: u64, end_inclusive: u64) -> (value: String)
    ensures
        value@ == range_header_text(start, end_inclusive),
{
    let mut value = String::new();
    value.append("bytes=");
    append_decimal(&mut value, start);
    value.append("-");
    append_decimal(&mut value, end_inclusive);
    value
}

/// The headers of the response to the metadata-only request that the prober reads.
#[derive(Debug)]
pub struct HeadReply {
    /// The content-length header, if present and readable as text.
    pub content_length: Option<String>,
    /// The header that lists the supported range units, likewise.
    pub accept_ranges: Option<String>,
}

/// What the prober reads of the response to the request for the first byte.
#[derive(Debug)]
pub struct RangeReply {
    /// The status code.
    pub status: u16,
    /// The content-range header, if present and readable as text.
    pub content_range: Option<String>,
}

/// The view of an optional header value.
pub open spec fn header_text(value: Option<String>) -> Option<Seq<char>> {
    match value {
        Some(text) => Some(text@),
        None => None,
    }
}

impl HeadReply {
    /// What the metadata-only response settles: with a positive length, the
    /// length and whether the range units name `bytes`; else nothing.
    pub open spec fn result(&self) -> Option<ProbeResult> {
        let length = content_length_of(header_text(self.content_length));
        if length > 0 {
            Some(
                ProbeResult {
                    content_length: length,
                    accept_ranges: lists_bytes(header_text(self.accept_ranges)),
                },
            )
        } else {
            None
        }
    }
}

impl RangeReply {
    /// What the response to the request for the first byte settles: the total
    /// of its content-range header, with range support exactly when the status
    /// is 206; nothing without a total.
    pub open spec fn result(&self) -> Option<ProbeResult> {
        match self.content_range {
            Some(text) => match content_range_total(text@) {
                Some(total) => Some(
                    ProbeResult { content_length: total, accept_ranges: self.status == 206 },
                ),
                None => None,
            },
            None => None,
        }
    }
}

/// Evaluates the response to the metadata-only request; `None` asks for the
/// fallback request.
pub fn probe_from_head(reply: &HeadReply) -> (result: Option<ProbeResult>)
    ensures
        result == reply.result(),
{
    let length = match &reply.content_length {
        Some(text) => parse_content_length(Some(text.as_str())),
        None => parse_content_length(None),
    };
    let accept_ranges = match &reply.accept_ranges {
        Some(text) => accepts_byte_ranges(Some(text.as_str())),
        None => accepts_byte_ranges(None),
    };
    if length > 0 {
        Some(ProbeResult { content_length: length, accept_ranges })
    } else {
        None
    }
}

/// Evaluates the response to the request for the first byte. Without a
/// total the probe fails: the length cannot be determined.
pub fn probe_from_range(reply: &RangeReply) -> (result: Result<ProbeResult, ProgramError>)
    ensures
        match result {
            Ok(found) => reply.result() == Some(found),
            Err(error) => reply.result() is None && (error matches ProgramError::Other(text)
                && text@
                == "cannot determine total length (no valid Content-Length/Content-Range)"@),
        },
{
    let total = match &reply.content_range {
        Some(text) => parse_total_from_content_range(text.as_str()),
        None => None,
    };
    match total {
        Some(total) => Ok(ProbeResult { content_length: total, accept_ranges: reply.status == 206 }),
        None => {
            let mut text = String::new();
            text.append("cannot determine total length (no valid Content-Length/Content-Range)");
            Err(ProgramError::Other(text))
        },
    }
}

/// What the driver reports to the prober.
#[derive(Debug)]
pub enum ProbeEvent {
    /// Probing begins.
    Start,
    /// The metadata-only request is over; `None` when it failed.
    Head(Option<HeadReply>),
    /// The request for the first byte is over, with its response or the
    /// transport's error.
    Range(Result<RangeReply, ProgramError>),
}

/// What the prober asks the driver to do next.
#[derive(Debug)]
pub enum ProbeAction {
    /// Send the metadata-only request.
    SendHead,
    /// Send a GET restricted to the bytes `start` to `end_inclusive`.
    SendRange { start: u64, end_inclusive: u64 },
    /// Probing is over.
    Done(Result<ProbeResult, ProgramError>),
}

/// The prober's next move. The metadata-only request comes first; if it
/// fails or yields no positive length, a request for the first byte follows,
/// and whatever that yields ends the probe.
pub fn probe_step(event: ProbeEvent) -> (action: ProbeAction)
    ensures
        match event {
            ProbeEvent::Start => action is SendHead,
            ProbeEvent::Head(None) => action == (ProbeAction::SendRange {
                start: 0,
                end_inclusive: 0,
            }),
            ProbeEvent::Head(Some(reply)) => match reply.result() {
                Some(found) => action == ProbeAction::Done(Ok(found)),
                None => action == (ProbeAction::SendRange { start: 0, end_inclusive: 0 }),
            },
            ProbeEvent::Range(Err(error)) => action == ProbeAction::Done(Err(error)),
            ProbeEvent::Range(Ok(reply)) => match reply.result() {
                Some(found) => action == ProbeAction::Done(Ok(found)),
                None => action matches ProbeAction::Done(Err(ProgramError::Other(text))) && text@
                    == "cannot determine total length (no valid Content-Length/Content-Range)"@,
            },
        },
{
    match event {
        ProbeEvent::Start => ProbeAction::SendHead,
        ProbeEvent::Head(None) => ProbeAction::SendRange { start: 0, end_inclusive: 0 },
        ProbeEvent::Head(Some(reply)) => match probe_from_head(&reply) {
            Some(found) => ProbeAction::Done(Ok(found)),
            None => ProbeAction::SendRange { start: 0, end_inclusive: 0 },
        },
        ProbeEvent::Range(Err(error)) => ProbeAction::Done(Err(error)),
        ProbeEvent::Range(Ok(reply)) => ProbeAction::Done(probe_from_range(&reply)),
    }
}

} // verus!
