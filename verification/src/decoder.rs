//! The event decoder: reads a framed line by the provider's event-stream
//! convention.
//!
//! A line that begins with the data prefix carries a payload. The payload
//! `[DONE]` ends the stream; every other payload is a structured record, and
//! it is the caller who parses it. A line that could not be parsed, and a line
//! without the prefix, is ignored: no single line ends the stream.

use crate::text::chars_of;
use crate::text::matches_at;
use crate::text::starts_with;
use crate::text::text_of;
use crate::xai_client::StreamChunk;
use crate::xai_client::StreamDelta;
use crate::xai_client::StreamDeltaView;
use vstd::prelude::*;

verus! {

/// What a data line begins with.
pub const DATA_PREFIX: &'static str = "data: ";

/// The payload that ends the stream.
pub const DONE_SENTINEL: &'static str = "[DONE]";

/// The line that ends the stream: the prefix followed by the sentinel.
pub const TERMINATOR_LINE: &'static str = "data: [DONE]";

/// What a framed line turned out to be.
#[derive(Clone, Debug)]
pub enum DecodeOutcome {
    /// A data line whose payload held a delta.
    Data(StreamDelta),
    /// The line that ends the stream.
    Terminator,
    /// Anything else.
    Ignored,
}

/// `DecodeOutcome` as mathematics.
pub enum DecodeOutcomeView {
    Data(StreamDeltaView),
    Terminator,
    Ignored,
}

impl View for DecodeOutcome {
    type V = DecodeOutcomeView;

    open spec fn view(&self) -> DecodeOutcomeView {
        match self {
            DecodeOutcome::Data(delta) => DecodeOutcomeView::Data(delta@),
            DecodeOutcome::Terminator => DecodeOutcomeView::Terminator,
            DecodeOutcome::Ignored => DecodeOutcomeView::Ignored,
        }
    }
}

/// `line` begins with the data prefix.
pub open spec fn is_data_line(line: Seq<char>) -> bool {
    DATA_PREFIX@.is_prefix_of(line)
}

/// What follows the data prefix in a data line.
pub open spec fn payload_of(line: Seq<char>) -> Seq<char> {
    line.skip(DATA_PREFIX@.len() as int)
}

/// `line` is a data line whose payload has to be parsed: any payload but the
/// sentinel.
pub open spec fn carries_record(line: Seq<char>) -> bool {
    is_data_line(line) && payload_of(line) != DONE_SENTINEL@
}

/// The outcome for `line`, where `parsed` is what parsing its payload gave:
/// the record, or `None` where the payload is no such record.
pub open spec fn decoded(line: Seq<char>, parsed: Option<StreamChunk>) -> DecodeOutcomeView {
    if !is_data_line(line) {
        DecodeOutcomeView::Ignored
    } else if payload_of(line) == DONE_SENTINEL@ {
        DecodeOutcomeView::Terminator
    } else {
        match parsed {
            Some(chunk) => match chunk.first_delta() {
                Some(delta) => DecodeOutcomeView::Data(delta@),
                None => DecodeOutcomeView::Ignored,
            },
            None => DecodeOutcomeView::Ignored,
        }
    }
}

/// The terminator line ends the stream whatever its payload would parse to.
pub proof fn lemma_terminator_line(parsed: Option<StreamChunk>)
    ensures
        is_data_line(TERMINATOR_LINE@),
        payload_of(TERMINATOR_LINE@) == DONE_SENTINEL@,
        decoded(TERMINATOR_LINE@, parsed) == DecodeOutcomeView::Terminator,
{
    reveal_strlit("data: ");
    reveal_strlit("[DONE]");
    reveal_strlit("data: [DONE]");
}

/// Only the terminator line is decoded as the terminator.
pub proof fn lemma_only_terminator_line(line: Seq<char>, parsed: Option<StreamChunk>)
    requires
        decoded(line, parsed) == DecodeOutcomeView::Terminator,
    ensures
        line == TERMINATOR_LINE@,
{
    reveal_strlit("data: ");
    reveal_strlit("[DONE]");
    reveal_strlit("data: [DONE]");
    assert(line =~= line.subrange(0, DATA_PREFIX@.len() as int) + payload_of(line));
}

/// An empty line, and a line without the data prefix, is ignored whatever else
/// is known.
pub proof fn lemma_other_lines_are_ignored(line: Seq<char>, parsed: Option<StreamChunk>)
    requires
        line.len() == 0 || !is_data_line(line),
    ensures
        decoded(line, parsed) == DecodeOutcomeView::Ignored,
{
    reveal_strlit("data: ");
}

/// The payload that the caller has to parse for this line: `Some` for a data
/// line other than the terminator, `None` for every other line.
pub fn record_payload(line: &str) -> (payload: Option<String>)
    ensures
        payload is Some <==> carries_record(line@),
        payload matches Some(text) ==> text@ == payload_of(line@),
{
    let chars = chars_of(line);
    let prefix = chars_of(DATA_PREFIX);
    let sentinel = chars_of(DONE_SENTINEL);
    if !starts_with(&chars, &prefix) {
        return None;
    }
    let from = prefix.len();
    if chars.len() - from == sentinel.len() && matches_at(&sentinel, &chars, from) {
        return None;
    }
    Some(text_of(&chars, from, chars.len()))
}

/// Decodes one framed line. `parsed` is what parsing the line's payload gave;
/// it is looked at only for a data line other than the terminator.
pub fn decode(line: &str, parsed: Option<StreamChunk>) -> (outcome: DecodeOutcome)
    ensures
        outcome@ == decoded(line@, parsed),
        line@ == TERMINATOR_LINE@ ==> outcome is Terminator,
        line@.len() == 0 || !is_data_line(line@) ==> outcome is Ignored,
{
    proof {
        lemma_terminator_line(parsed);
        reveal_strlit("data: ");
    }
    let chars = chars_of(line);
    let prefix = chars_of(DATA_PREFIX);
    let sentinel = chars_of(DONE_SENTINEL);
    if !starts_with(&chars, &prefix) {
        return DecodeOutcome::Ignored;
    }
    let from = prefix.len();
    if chars.len() - from == sentinel.len() && matches_at(&sentinel, &chars, from) {
        return DecodeOutcome::Terminator;
    }
    match parsed {
        Some(chunk) => {
            let mut choices = chunk.choices;
            if choices.len() > 0 {
                let first = choices.swap_remove(0);
                match first.delta {
                    Some(delta) => DecodeOutcome::Data(delta),
                    None => DecodeOutcome::Ignored,
                }
            } else {
                DecodeOutcome::Ignored
            }
        },
        None => DecodeOutcome::Ignored,
    }
}

} // verus!
