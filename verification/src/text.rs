//! Text as sequences of characters: the predicates that contracts are stated in,
//! and the routines that compute them.
//!
//! Every routine here works on `Vec<char>` so that positions are characters, not
//! bytes; `chars_of` and `text_of` convert from and to `str`.

use vstd::prelude::*;
use vstd::string::StringExecFns;

verus! {

/// Whether `c` is white space: a character with the Unicode property
/// `White_Space`. These are the code points to which the Unicode Character
/// Database gives that property.
pub open spec fn is_blank(c: char) -> bool {
    let code = c as u32;
    ||| 0x0009 <= code <= 0x000D
    ||| code == 0x0020
    ||| code == 0x0085
    ||| code == 0x00A0
    ||| code == 0x1680
    ||| 0x2000 <= code <= 0x200A
    ||| code == 0x2028
    ||| code == 0x2029
    ||| code == 0x202F
    ||| code == 0x205F
    ||| code == 0x3000
}

/// The lower-case form of a text. This is what `str::to_lowercase` returns.
pub uninterp spec fn lowercase(text: Seq<char>) -> Seq<char>;

/// The text that bytes decode to when every invalid UTF-8 sequence is replaced
/// by U+FFFD. This is what `String::from_utf8_lossy` returns.
pub uninterp spec fn utf8_lossy(bytes: Seq<u8>) -> Seq<char>;

/// `char::is_whitespace`: true exactly for the characters with the Unicode
/// property `White_Space`, as its documentation says; `is_blank` lists them.
pub assume_specification[ char::is_whitespace ](c: char) -> (blank: bool)
    ensures
        blank == is_blank(c),
;

/// `str::to_lowercase`: the result's characters are `lowercase` of the
/// argument's. Nothing is claimed about the mapping itself.
pub assume_specification[ str::to_lowercase ](text: &str) -> (lowered: String)
    ensures
        lowered@ == lowercase(text@),
;

/// `String::push`: the character is appended at the end.
pub assume_specification[ String::push ](text: &mut String, c: char)
    ensures
        final(text)@ == old(text)@.push(c),
;

/// `String::from_utf8_lossy`, taken as an owned string: the result is
/// `utf8_lossy` of the bytes.
#[verifier::external_body]
pub(crate) fn decode_lossy(bytes: &[u8]) -> (text: String)
    ensures
        text@ == utf8_lossy(bytes@),
{
    String::from_utf8_lossy(bytes).into_owned()
}

/// `pattern` stands in `text` at position `at`.
pub open spec fn occurs_at(pattern: Seq<char>, text: Seq<char>, at: int) -> bool {
    &&& 0 <= at
    &&& at + pattern.len() <= text.len()
    &&& text.subrange(at, at + pattern.len()) == pattern
}

/// `pattern` stands somewhere in `text`.
pub open spec fn occurs_in(pattern: Seq<char>, text: Seq<char>) -> bool {
    exists|at: int| occurs_at(pattern, text, at)
}

/// `text` without its leading white space.
pub open spec fn trim_start(text: Seq<char>) -> Seq<char>
    decreases text.len(),
{
    if text.len() > 0 && is_blank(text[0]) {
        trim_start(text.drop_first())
    } else {
        text
    }
}

/// `text` without its trailing white space.
pub open spec fn trim_end(text: Seq<char>) -> Seq<char>
    decreases text.len(),
{
    if text.len() > 0 && is_blank(text.last()) {
        trim_end(text.drop_last())
    } else {
        text
    }
}

/// `text` without leading and trailing white space.
pub open spec fn trimmed(text: Seq<char>) -> Seq<char> {
    trim_end(trim_start(text))
}

/// Trimming at the start leaves a tail of the text that does not begin with
/// white space.
pub proof fn lemma_trim_start(text: Seq<char>)
    ensures
        trim_start(text).len() <= text.len(),
        trim_start(text) == text.skip(text.len() - trim_start(text).len()),
        trim_start(text).len() > 0 ==> !is_blank(trim_start(text).first()),
    decreases text.len(),
{
    if text.len() > 0 && is_blank(text[0]) {
        lemma_trim_start(text.drop_first());
    }
}

/// Trimming at the end leaves a head of the text that does not end with white
/// space.
pub proof fn lemma_trim_end(text: Seq<char>)
    ensures
        trim_end(text).len() <= text.len(),
        trim_end(text) == text.take(trim_end(text).len() as int),
        trim_end(text).len() > 0 ==> !is_blank(trim_end(text).last()),
    decreases text.len(),
{
    if text.len() > 0 && is_blank(text.last()) {
        lemma_trim_end(text.drop_last());
    }
}

/// A trimmed text is a piece of the text; unless it is empty, it neither begins
/// nor ends with white space.
pub proof fn lemma_trimmed(text: Seq<char>)
    ensures
        occurs_in(trimmed(text), text),
        trimmed(text).len() > 0 ==> !is_blank(trimmed(text).first()) && !is_blank(
            trimmed(text).last(),
        ),
{
    let tail = trim_start(text);
    let core = trimmed(text);
    lemma_trim_start(text);
    lemma_trim_end(tail);
    let at = text.len() - tail.len();
    assert(text.subrange(at, at + core.len()) =~= core);
    assert(occurs_at(core, text, at));
}

/// The number of characters at the start of `text` that are not white space.
pub open spec fn word_end(text: Seq<char>) -> int
    decreases text.len(),
{
    if text.len() == 0 || is_blank(text[0]) {
        0
    } else {
        1 + word_end(text.drop_first())
    }
}

/// The words of `text`: its longest runs of characters that are not white
/// space, in order.
pub open spec fn words(text: Seq<char>) -> Seq<Seq<char>>
    decreases text.len(),
{
    if text.len() == 0 {
        Seq::empty()
    } else if is_blank(text[0]) {
        words(text.drop_first())
    } else {
        let end = word_end(text);
        if 1 <= end <= text.len() {
            seq![text.take(end)] + words(text.skip(end))
        } else {
            Seq::empty()
        }
    }
}

/// The parts put together with `separator` between each two.
pub open spec fn joined(parts: Seq<Seq<char>>, separator: Seq<char>) -> Seq<char>
    decreases parts.len(),
{
    if parts.len() == 0 {
        Seq::empty()
    } else if parts.len() == 1 {
        parts[0]
    } else {
        joined(parts.drop_last(), separator) + separator + parts.last()
    }
}

/// The character for a decimal digit.
pub open spec fn digit_char(digit: nat) -> char {
    if digit == 0 {
        '0'
    } else if digit == 1 {
        '1'
    } else if digit == 2 {
        '2'
    } else if digit == 3 {
        '3'
    } else if digit == 4 {
        '4'
    } else if digit == 5 {
        '5'
    } else if digit == 6 {
        '6'
    } else if digit == 7 {
        '7'
    } else if digit == 8 {
        '8'
    } else {
        '9'
    }
}

/// A number written in decimal, without leading zeros.
pub open spec fn decimal(n: nat) -> Seq<char>
    decreases n,
{
    if n < 10 {
        seq![digit_char(n)]
    } else {
        decimal(n / 10).push(digit_char(n % 10))
    }
}

/// A position with no white space before it, which holds white space or is
/// the end of the text, is `word_end`.
pub proof fn lemma_word_end_at(text: Seq<char>, end: int)
    requires
        0 <= end <= text.len(),
        forall|i: int| 0 <= i < end ==> !is_blank(text[i]),
        end < text.len() ==> is_blank(text[end]),
    ensures
        word_end(text) == end,
    decreases end,
{
    if end > 0 {
        lemma_word_end_at(text.drop_first(), end - 1);
    }
}

/// The characters of a string, in order.
pub fn chars_of(text: &str) -> (chars: Vec<char>)
    ensures
        chars@ == text@,
{
    let mut chars: Vec<char> = Vec::new();
    for c in it: text.chars()
        invariant
            chars@ == it.seq().take(it.index() as int),
    {
        chars.push(c);
    }
    chars
}

/// Appends the characters of `text` to `chars`.
pub fn extend_chars(chars: &mut Vec<char>, text: &str)
    ensures
        final(chars)@ == old(chars)@ + text@,
{
    let ghost before = chars@;
    for c in it: text.chars()
        invariant
            chars@ == before + it.seq().take(it.index() as int),
    {
        chars.push(c);
    }
}

/// The string made of `chars[from..to]`.
pub fn text_of(chars: &Vec<char>, from: usize, to: usize) -> (text: String)
    requires
        from <= to <= chars.len(),
    ensures
        text@ == chars@.subrange(from as int, to as int),
{
    let mut text = String::new();
    let mut i: usize = from;
    while i < to
        invariant
            from <= i <= to <= chars.len(),
            text@ == chars@.subrange(from as int, i as int),
        decreases to - i,
    {
        text.push(chars[i]);
        i += 1;
    }
    text
}

/// Whether `pattern` stands in `text` at `at`.
pub fn matches_at(pattern: &Vec<char>, text: &Vec<char>, at: usize) -> (found: bool)
    ensures
        found == occurs_at(pattern@, text@, at as int),
{
    if at > text.len() || pattern.len() > text.len() - at {
        return false;
    }
    let mut k: usize = 0;
    while k < pattern.len()
        invariant
            k <= pattern.len(),
            at + pattern.len() <= text.len(),
            forall|j: int| 0 <= j < k ==> text@[at + j] == pattern@[j],
        decreases pattern.len() - k,
    {
        if text[at + k] != pattern[k] {
            return false;
        }
        k += 1;
    }
    assert(text@.subrange(at as int, at + pattern.len()) =~= pattern@);
    true
}

/// Whether `text` begins with `prefix`.
pub fn starts_with(text: &Vec<char>, prefix: &Vec<char>) -> (found: bool)
    ensures
        found == prefix@.is_prefix_of(text@),
{
    matches_at(prefix, text, 0)
}

/// Whether `pattern` stands somewhere in `text`.
pub fn contains(text: &Vec<char>, pattern: &Vec<char>) -> (found: bool)
    ensures
        found == occurs_in(pattern@, text@),
{
    if pattern.len() > text.len() {
        return false;
    }
    let last: usize = text.len() - pattern.len();
    let mut at: usize = 0;
    loop
        invariant
            at <= last,
            last == text.len() - pattern.len(),
            forall|j: int| 0 <= j < at ==> !occurs_at(pattern@, text@, j),
        decreases last - at,
    {
        if matches_at(pattern, text, at) {
            return true;
        }
        if at == last {
            return false;
        }
        at += 1;
    }
}

/// The bounds of `chars[from..to]` without its leading and trailing white space.
pub fn trim_bounds(chars: &Vec<char>, from: usize, to: usize) -> (bounds: (usize, usize))
    requires
        from <= to <= chars.len(),
    ensures
        from <= bounds.0 <= bounds.1 <= to,
        chars@.subrange(bounds.0 as int, bounds.1 as int) == trimmed(
            chars@.subrange(from as int, to as int),
        ),
{
    let mut lo: usize = from;
    while lo < to && chars[lo].is_whitespace()
        invariant
            from <= lo <= to <= chars.len(),
            trim_start(chars@.subrange(lo as int, to as int)) == trim_start(
                chars@.subrange(from as int, to as int),
            ),
        decreases to - lo,
    {
        assert(chars@.subrange(lo as int, to as int).drop_first() =~= chars@.subrange(
            lo + 1,
            to as int,
        ));
        lo += 1;
    }
    let mut hi: usize = to;
    while lo < hi && chars[hi - 1].is_whitespace()
        invariant
            lo <= hi <= to <= chars.len(),
            trim_end(chars@.subrange(lo as int, hi as int)) == trim_end(
                chars@.subrange(lo as int, to as int),
            ),
        decreases hi - lo,
    {
        assert(chars@.subrange(lo as int, hi as int).drop_last() =~= chars@.subrange(
            lo as int,
            hi - 1,
        ));
        hi -= 1;
    }
    (lo, hi)
}

/// Writes a digit.
pub fn digit_of(digit: usize) -> (c: char)
    requires
        digit < 10,
    ensures
        c == digit_char(digit as nat),
{
    if digit == 0 {
        '0'
    } else if digit == 1 {
        '1'
    } else if digit == 2 {
        '2'
    } else if digit == 3 {
        '3'
    } else if digit == 4 {
        '4'
    } else if digit == 5 {
        '5'
    } else if digit == 6 {
        '6'
    } else if digit == 7 {
        '7'
    } else if digit == 8 {
        '8'
    } else {
        '9'
    }
}

/// Appends a number in decimal to `text`.
pub fn append_decimal(text: &mut String, n: usize)
    ensures
        final(text)@ == old(text)@ + decimal(n as nat),
    decreases n,
{
    if n < 10 {
        text.push(digit_of(n));
    } else {
        append_decimal(text, n / 10);
        text.push(digit_of(n % 10));
    }
}

/// The words of `chars`, in order, but no more than `limit` of them.
pub fn leading_words(chars: &Vec<char>, limit: usize) -> (found: Vec<String>)
    ensures
        found.deep_view() == words(chars@).take(
            if words(chars@).len() <= limit {
                words(chars@).len() as int
            } else {
                limit as int
            },
        ),
{
    let mut found: Vec<String> = Vec::new();
    let n = chars.len();
    let mut i: usize = 0;
    assert(chars@.skip(0) =~= chars@);
    while i < n && found.len() < limit
        invariant
            n == chars.len(),
            i <= n,
            found.len() <= limit,
            words(chars@) == found.deep_view() + words(chars@.skip(i as int)),
        decreases n - i,
    {
        let ghost rest = chars@.skip(i as int);
        if chars[i].is_whitespace() {
            assert(rest.drop_first() =~= chars@.skip(i + 1));
            i += 1;
        } else {
            let from = i;
            let mut to = i + 1;
            while to < n && !chars[to].is_whitespace()
                invariant
                    n == chars.len(),
                    from < to <= n,
                    forall|j: int| from <= j < to ==> !is_blank(chars@[j]),
                decreases n - to,
            {
                to += 1;
            }
            proof {
                lemma_word_end_at(rest, to - from);
                assert(rest.take(to - from) =~= chars@.subrange(from as int, to as int));
                assert(rest.skip(to - from) =~= chars@.skip(to as int));
            }
            found.push(text_of(chars, from, to));
            i = to;
        }
    }
    found
}

/// Appends the parts to `text` with `separator` between each two.
pub fn append_joined(text: &mut String, parts: &Vec<String>, separator: &str)
    ensures
        final(text)@ == old(text)@ + joined(parts.deep_view(), separator@),
{
    let ghost all = parts.deep_view();
    let mut i: usize = 0;
    while i < parts.len()
        invariant
            i <= parts.len(),
            all == parts.deep_view(),
            text@ == old(text)@ + joined(all.take(i as int), separator@),
        decreases parts.len() - i,
    {
        if i > 0 {
            text.append(separator);
        }
        text.append(parts[i].as_str());
        assert(all.take(i + 1).drop_last() =~= all.take(i as int));
        i += 1;
    }
    assert(all.take(parts.len() as int) =~= all);
}

} // verus!
