//! Decoding one line of a server-sent-event stream from the chat
//! service: data lines carry a JSON payload with a content token, a
//! literal terminator line ends the stream, and malformed payloads are
//! skipped rather than propagated — streaming continues on the next
//! line.

use vstd::prelude::*;

use crate::llm::{extract_stream_token, stream_token_parse};
use crate::text::{
    str_equal, strip_prefix_reps, strip_prefix_reps_range, trim_end_range, trim_spec,
    trim_start_range, window_starts_with,
};

verus! {

/// What one stream line means.
pub enum SseLine {
    /// Not a data line; carries nothing.
    NotData,
    /// The literal terminator: iteration ends here.
    Done,
    /// A content token to hand on.
    Token(String),
    /// A data line whose payload carries no token; skipped.
    Skipped,
}

/// The line is a data line: it begins with the data marker.
pub open spec fn is_data_line(line: Seq<char>) -> bool {
    line.len() >= "data: "@.len() && line.take("data: "@.len() as int) == "data: "@
}

/// The JSON payload of a data line: the marker stripped and the rest
/// trimmed.
pub open spec fn sse_payload(line: Seq<char>) -> Seq<char> {
    trim_spec(strip_prefix_reps(line, "data: "@))
}

/// Classifies one stream line: non-data lines carry nothing; the
/// literal `[DONE]` payload ends iteration; otherwise the payload's
/// content token is handed on, and a payload without one is skipped.
pub fn parse_sse_line(line: &str) -> (r: SseLine)
    ensures
        !is_data_line(line@) ==> r is NotData,
        is_data_line(line@) && sse_payload(line@) == "[DONE]"@ ==> r is Done,
        is_data_line(line@) && sse_payload(line@) != "[DONE]"@ ==> match stream_token_parse(
            sse_payload(line@),
        ) {
            Some(tok) => r matches SseLine::Token(t) && t@ == tok,
            None => r is Skipped,
        },
{
    let n = line.unicode_len();
    proof {
        reveal_strlit("data: ");
        assert(line@.subrange(0, n as int) =~= line@);
    }
    let marker_len = "data: ".unicode_len();
    if !window_starts_with(line, 0, n, "data: ", marker_len) {
        proof {
            assert(line@.take("data: "@.len() as int) =~= line@.subrange(
                0,
                "data: "@.len() as int,
            ));
        }
        return SseLine::NotData;
    }
    let a0 = strip_prefix_reps_range(line, 0, n, "data: ");
    let a1 = trim_start_range(line, a0, n);
    let b1 = trim_end_range(line, a1, n);
    let payload = line.substring_char(a1, b1);
    if str_equal(payload, "[DONE]") {
        proof {
            assert(line@.take("data: "@.len() as int) =~= line@.subrange(
                0,
                "data: "@.len() as int,
            ));
        }
        return SseLine::Done;
    }
    match extract_stream_token(payload) {
        Some(t) => SseLine::Token(t),
        None => SseLine::Skipped,
    }
}

} // verus!
