//! The line framer: collects the text of an upstream transport chunk by chunk
//! and hands out each line as soon as its line break has arrived.
//!
//! A framed line is the text between two line breaks without its surrounding
//! white space; lines that are empty after trimming are dropped. What follows
//! the last line break stays in the framer until a later chunk completes it.

use crate::text::decode_lossy;
use crate::text::extend_chars;
use crate::text::is_blank;
use crate::text::lemma_trimmed;
use crate::text::text_of;
use crate::text::trim_bounds;
use crate::text::trimmed;
use crate::text::utf8_lossy;
use vstd::prelude::*;
use vstd::seq_lib::lemma_flatten_concat;

verus! {

/// The character that ends a line.
pub const LINE_BREAK: char = '\n';

/// The number of characters before the first line break of `text`, which is
/// the length of `text` when it holds no line break.
pub open spec fn line_end(text: Seq<char>) -> int
    decreases text.len(),
{
    if text.len() == 0 || text[0] == LINE_BREAK {
        0
    } else {
        1 + line_end(text.drop_first())
    }
}

/// `text` holds a line break.
pub open spec fn has_break(text: Seq<char>) -> bool {
    0 <= line_end(text) < text.len()
}

/// A trimmed line as a list: empty lines are dropped.
pub open spec fn kept(line: Seq<char>) -> Seq<Seq<char>> {
    if line.len() == 0 {
        Seq::empty()
    } else {
        seq![line]
    }
}

/// The framed lines of `text`: for each line break in turn, what stands before
/// it, trimmed, unless that is empty.
pub open spec fn framed_lines(text: Seq<char>) -> Seq<Seq<char>>
    decreases text.len(),
{
    let end = line_end(text);
    if 0 <= end < text.len() {
        kept(trimmed(text.take(end))) + framed_lines(text.skip(end + 1))
    } else {
        Seq::empty()
    }
}

/// What follows the last line break of `text`: the part that no line break has
/// completed yet.
pub open spec fn unframed_rest(text: Seq<char>) -> Seq<char>
    decreases text.len(),
{
    let end = line_end(text);
    if 0 <= end < text.len() {
        unframed_rest(text.skip(end + 1))
    } else {
        text
    }
}

/// Feeding `text` to a framer that holds `buffer`: the lines that come out, and
/// what the framer holds afterwards.
pub open spec fn fed(buffer: Seq<char>, text: Seq<char>) -> (Seq<Seq<char>>, Seq<char>) {
    (framed_lines(buffer + text), unframed_rest(buffer + text))
}

/// Feeding the chunks one after the other: all the lines that come out, in
/// order, and what the framer holds in the end.
pub open spec fn fed_each(buffer: Seq<char>, chunks: Seq<Seq<char>>) -> (
    Seq<Seq<char>>,
    Seq<char>,
)
    decreases chunks.len(),
{
    if chunks.len() == 0 {
        (Seq::empty(), buffer)
    } else {
        let before = fed_each(buffer, chunks.drop_last());
        let last = fed(before.1, chunks.last());
        (before.0 + last.0, last.1)
    }
}

/// The texts that the byte chunks decode to, each chunk decoded by itself.
pub open spec fn decoded_each(chunks: Seq<Seq<u8>>) -> Seq<Seq<char>> {
    Seq::new(chunks.len(), |i: int| utf8_lossy(chunks[i]))
}

/// `line_end` is the position of the first line break.
pub proof fn lemma_line_end(text: Seq<char>)
    ensures
        0 <= line_end(text) <= text.len(),
        forall|i: int| 0 <= i < line_end(text) ==> text[i] != LINE_BREAK,
        line_end(text) < text.len() ==> text[line_end(text)] == LINE_BREAK,
    decreases text.len(),
{
    if text.len() != 0 && text[0] != LINE_BREAK {
        lemma_line_end(text.drop_first());
        assert forall|i: int| 0 <= i < line_end(text) implies text[i] != LINE_BREAK by {
            if i > 0 {
                assert(text[i] == text.drop_first()[i - 1]);
            }
        }
    }
}

/// A position with no line break before it, which holds one or is the end of
/// the text, is `line_end`.
pub proof fn lemma_line_end_at(text: Seq<char>, end: int)
    requires
        0 <= end <= text.len(),
        forall|i: int| 0 <= i < end ==> text[i] != LINE_BREAK,
        end < text.len() ==> text[end] == LINE_BREAK,
    ensures
        line_end(text) == end,
    decreases end,
{
    if end > 0 {
        lemma_line_end_at(text.drop_first(), end - 1);
    }
}

/// What the framer keeps never holds a line break.
pub proof fn lemma_rest_has_no_break(text: Seq<char>)
    ensures
        !has_break(unframed_rest(text)),
        unframed_rest(text).len() <= text.len(),
    decreases text.len(),
{
    let end = line_end(text);
    if 0 <= end < text.len() {
        lemma_rest_has_no_break(text.skip(end + 1));
    }
}

/// A framed line is never empty, holds no line break, and neither begins nor
/// ends with white space.
pub proof fn lemma_framed_lines_are_trimmed(text: Seq<char>, k: int)
    requires
        0 <= k < framed_lines(text).len(),
    ensures
        framed_lines(text)[k].len() > 0,
        !framed_lines(text)[k].contains(LINE_BREAK),
        !is_blank(framed_lines(text)[k].first()),
        !is_blank(framed_lines(text)[k].last()),
    decreases text.len(),
{
    let end = line_end(text);
    lemma_line_end(text);
    let head = text.take(end);
    let line = trimmed(head);
    if k < kept(line).len() {
        lemma_trimmed(head);
    } else {
        lemma_framed_lines_are_trimmed(text.skip(end + 1), k - kept(line).len());
    }
}

/// Framing a text in two parts: the lines of `first + second` are the lines of
/// `first`, then the lines of what `first` left over followed by `second`.
pub proof fn lemma_framing_splits(first: Seq<char>, second: Seq<char>)
    ensures
        framed_lines(first + second) == framed_lines(first) + framed_lines(
            unframed_rest(first) + second,
        ),
        unframed_rest(first + second) == unframed_rest(unframed_rest(first) + second),
    decreases first.len(),
{
    let end = line_end(first);
    lemma_line_end(first);
    if end < first.len() {
        let whole = first + second;
        lemma_line_end_at(whole, end);
        assert(whole.take(end) =~= first.take(end));
        assert(whole.skip(end + 1) =~= first.skip(end + 1) + second);
        lemma_framing_splits(first.skip(end + 1), second);
    }
}

/// Chunk boundaries do not show: feeding a text in any number of pieces yields
/// the same lines, and leaves the same text in the framer, as feeding it whole.
///
/// `buffer` is what the framer holds before: text without a line break.
pub proof fn lemma_chunking_is_invisible(buffer: Seq<char>, chunks: Seq<Seq<char>>)
    requires
        !has_break(buffer),
    ensures
        fed_each(buffer, chunks) == fed(buffer, chunks.flatten()),
    decreases chunks.len(),
{
    if chunks.len() > 0 {
        let front = chunks.drop_last();
        lemma_chunking_is_invisible(buffer, front);
        assert(chunks =~= front + seq![chunks.last()]);
        lemma_flatten_concat(front, seq![chunks.last()]);
        seq![chunks.last()].lemma_flatten_one_element();
        assert(buffer + chunks.flatten() =~= (buffer + front.flatten()) + chunks.last());
        lemma_framing_splits(buffer + front.flatten(), chunks.last());
    }
}

/// The same for byte chunks. Each chunk is decoded by itself, so the lines are
/// those of the decoded pieces put together. They are the lines of the bytes
/// decoded as a whole wherever no chunk boundary changes what the bytes decode
/// to, which holds when no boundary falls inside the encoding of a character.
pub proof fn lemma_byte_chunking_is_invisible(buffer: Seq<char>, chunks: Seq<Seq<u8>>)
    requires
        !has_break(buffer),
    ensures
        fed_each(buffer, decoded_each(chunks)) == fed(buffer, decoded_each(chunks).flatten()),
        utf8_lossy(chunks.flatten()) == decoded_each(chunks).flatten() ==> fed_each(
            buffer,
            decoded_each(chunks),
        ) == fed(buffer, utf8_lossy(chunks.flatten())),
{
    lemma_chunking_is_invisible(buffer, decoded_each(chunks));
}

/// A line framer. Its view is the text that it holds back: what has arrived
/// after the last line break.
pub struct LineFramer {
    buffer: Vec<char>,
}

impl View for LineFramer {
    type V = Seq<char>;

    closed spec fn view(&self) -> Seq<char> {
        self.buffer@
    }
}

impl LineFramer {
    /// A framer that holds nothing.
    pub fn new() -> (framer: LineFramer)
        ensures
            framer@ == Seq::<char>::empty(),
            !has_break(framer@),
    {
        LineFramer { buffer: Vec::new() }
    }

    /// The text that the framer holds back.
    pub fn pending(&self) -> (text: String)
        ensures
            text@ == self@,
    {
        let text = text_of(&self.buffer, 0, self.buffer.len());
        text
    }

    /// Takes the next chunk of the transport. The bytes are decoded as UTF-8,
    /// with U+FFFD in place of every invalid sequence, and added to the text
    /// held back; the lines that this completes come out, in order.
    pub fn feed(&mut self, raw: &[u8]) -> (lines: Vec<String>)
        ensures
            (lines.deep_view(), final(self)@) == fed(old(self)@, utf8_lossy(raw@)),
            !has_break(final(self)@),
    {
        let text = decode_lossy(raw);
        self.feed_text(text.as_str())
    }

    /// Takes the next piece of text; the lines that it completes come out, in
    /// order.
    pub fn feed_text(&mut self, text: &str) -> (lines: Vec<String>)
        ensures
            (lines.deep_view(), final(self)@) == fed(old(self)@, text@),
            !has_break(final(self)@),
    {
        extend_chars(&mut self.buffer, text);
        let ghost all = self.buffer@;
        proof {
            lemma_rest_has_no_break(all);
        }
        let n = self.buffer.len();
        let mut lines: Vec<String> = Vec::new();
        let mut start: usize = 0;
        let mut i: usize = 0;
        assert(all.skip(0) =~= all);
        while i < n
            invariant
                self.buffer@ == all,
                n == all.len(),
                start <= i <= n,
                forall|j: int| start <= j < i ==> all[j] != LINE_BREAK,
                framed_lines(all) == lines.deep_view() + framed_lines(all.skip(start as int)),
                unframed_rest(all) == unframed_rest(all.skip(start as int)),
            decreases n - i,
        {
            if self.buffer[i] == LINE_BREAK {
                let (lo, hi) = trim_bounds(&self.buffer, start, i);
                proof {
                    let segment = all.skip(start as int);
                    lemma_line_end_at(segment, i - start);
                    assert(segment.take(i - start) =~= all.subrange(start as int, i as int));
                    assert(segment.skip(i - start + 1) =~= all.skip(i + 1));
                }
                if lo < hi {
                    lines.push(text_of(&self.buffer, lo, hi));
                }
                start = i + 1;
            }
            i += 1;
        }
        proof {
            let segment = all.skip(start as int);
            lemma_line_end_at(segment, segment.len() as int);
        }
        let rest = self.buffer.split_off(start);
        self.buffer = rest;
        lines
    }
}

} // verus!
