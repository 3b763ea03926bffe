//! Lines of text as sequences of characters: measuring, splitting and trimming.
use vstd::prelude::*;
use vstd::utf8::{decode_utf8, encode_utf8, valid_utf8};

verus! {

/// Number of display units a line occupies in a monospaced terminal: one per
/// Unicode scalar value, whatever its length in bytes.
pub open spec fn display_width(line: Seq<char>) -> nat {
    line.len()
}

/// The characters of every line of a list, in order.
pub open spec fn text_of(lines: Seq<String>) -> Seq<Seq<char>> {
    Seq::new(lines.len(), |i: int| lines[i]@)
}

/// Position of the first line feed in `text`, or its length where it holds none.
pub open spec fn first_newline(text: Seq<char>) -> nat
    decreases text.len(),
{
    if text.len() == 0 || text[0] == '\n' {
        0
    } else {
        1 + first_newline(text.skip(1))
    }
}

/// `line` without one trailing carriage return.
pub open spec fn strip_cr(line: Seq<char>) -> Seq<char> {
    if line.len() > 0 && line.last() == '\r' {
        line.drop_last()
    } else {
        line
    }
}

/// The lines of `text`. A line ends at a line feed, or at a carriage return
/// directly followed by one; neither is part of the line. What follows the last
/// line feed is a line of its own unless it is empty, and is kept as it stands.
pub open spec fn split_lines(text: Seq<char>) -> Seq<Seq<char>>
    decreases text.len(),
{
    if text.len() == 0 {
        Seq::empty()
    } else {
        let end = first_newline(text);
        if end >= text.len() {
            seq![text]
        } else {
            seq![strip_cr(text.take(end as int))] + split_lines(text.skip(end as int + 1))
        }
    }
}

/// Whether `c` has the Unicode property `White_Space`.
pub open spec fn is_whitespace(c: char) -> bool {
    let code = c as u32;
    ||| 0x09 <= code <= 0x0D
    ||| code == 0x20
    ||| code == 0x85
    ||| code == 0xA0
    ||| code == 0x1680
    ||| 0x2000 <= code <= 0x200A
    ||| code == 0x2028
    ||| code == 0x2029
    ||| code == 0x202F
    ||| code == 0x205F
    ||| code == 0x3000
}

/// `line` without the white space at its end.
pub open spec fn trim_end(line: Seq<char>) -> Seq<char>
    decreases line.len(),
{
    if line.len() > 0 && is_whitespace(line.last()) {
        trim_end(line.drop_last())
    } else {
        line
    }
}

/// The text that `bytes` encode in UTF-8, if they encode one.
pub open spec fn decoded(bytes: Seq<u8>) -> Option<Seq<char>> {
    if valid_utf8(bytes) {
        Some(decode_utf8(bytes))
    } else {
        None
    }
}

/// The characters of a text that may be absent.
pub open spec fn chars_opt(text: Option<String>) -> Option<Seq<char>> {
    match text {
        Some(text) => Some(text@),
        None => None,
    }
}

/// The characters of the lines of a list that may be absent.
pub open spec fn text_opt(lines: Option<Vec<String>>) -> Option<Seq<Seq<char>>> {
    match lines {
        Some(lines) => Some(text_of(lines@)),
        None => None,
    }
}

/// `first_newline` is the one position that holds a line feed (or the end)
/// with no line feed before it.
pub proof fn lemma_first_newline(text: Seq<char>, end: int)
    requires
        0 <= end <= text.len(),
        forall|j: int| 0 <= j < end ==> text[j] != '\n',
        end < text.len() ==> text[end] == '\n',
    ensures
        first_newline(text) == end,
    decreases text.len(),
{
    if text.len() == 0 || text[0] == '\n' {
    } else {
        let rest = text.skip(1);
        assert forall|j: int| 0 <= j < end - 1 implies rest[j] != '\n' by {
            assert(rest[j] == text[j + 1]);
        }
        lemma_first_newline(rest, end - 1);
    }
}

/// Trimming looks only at the run of white space that ends the line.
pub proof fn lemma_trim_end(line: Seq<char>, end: int)
    requires
        0 <= end <= line.len(),
        forall|j: int| end <= j < line.len() ==> is_whitespace(line[j]),
        end > 0 ==> !is_whitespace(line[end - 1]),
    ensures
        trim_end(line) == line.take(end),
    decreases line.len(),
{
    if end == line.len() {
        assert(line.take(end) =~= line);
    } else {
        let shorter = line.drop_last();
        lemma_trim_end(shorter, end);
        assert(shorter.take(end) =~= line.take(end));
    }
}

/// `std::string::FromUtf8Error`, the error of `String::from_utf8`. Nothing is
/// known of what it holds; it is only told apart from success.
#[verifier::external_type_specification]
#[verifier::external_body]
pub struct ExFromUtf8Error(std::string::FromUtf8Error);

/// Calls `String::from_utf8`, which checks that the bytes are valid UTF-8 and
/// then takes them over as the string's own. The contract says so: the
/// string's encoding is the bytes given, and an error means that they are no
/// valid UTF-8.
#[verifier::external_body]
fn string_from_utf8(bytes: Vec<u8>) -> (out: Result<String, std::string::FromUtf8Error>)
    ensures
        match out {
            Ok(text) => encode_utf8(text@) == bytes@,
            Err(_) => !valid_utf8(bytes@),
        },
{
    String::from_utf8(bytes)
}

/// Reads `bytes` as UTF-8 text; `None` where they are not valid UTF-8.
pub fn decode(bytes: Vec<u8>) -> (out: Option<String>)
    ensures
        chars_opt(out) == decoded(bytes@),
{
    match string_from_utf8(bytes) {
        Ok(text) => {
            proof {
                vstd::utf8::encode_utf8_valid_utf8(text@);
                vstd::utf8::encode_utf8_decode_utf8(text@);
            }
            Some(text)
        },
        Err(_) => None,
    }
}

/// Calls `String::push`, which appends the character to the end of the
/// string.
#[verifier::external_body]
fn push_char(text: &mut String, c: char)
    ensures
        final(text)@ == old(text)@.push(c),
{
    text.push(c)
}

/// The characters of `chars` from position `from` up to `to`, as a string.
fn collect(chars: &Vec<char>, from: usize, to: usize) -> (out: String)
    requires
        from <= to <= chars.len(),
    ensures
        out@ == chars@.subrange(from as int, to as int),
{
    let mut out = String::new();
    let mut i: usize = from;
    assert(out@ =~= chars@.subrange(from as int, from as int));
    while i < to
        invariant
            from <= i <= to <= chars.len(),
            out@ == chars@.subrange(from as int, i as int),
        decreases to - i,
    {
        push_char(&mut out, chars[i]);
        assert(out@ =~= chars@.subrange(from as int, i + 1));
        i = i + 1;
    }
    out
}

/// Counts the display units of `line`.
pub fn line_width(line: &str) -> (width: usize)
    ensures
        width == display_width(line@),
{
    line.unicode_len()
}

/// The characters of `text`, for access by position.
pub fn chars_of(text: &str) -> (chars: Vec<char>)
    ensures
        chars@ == text@,
{
    let mut chars: Vec<char> = Vec::new();
    for c in it: text.chars()
        invariant
            chars@ == it.seq().take(it.index() as int),
            it.seq() == text@,
    {
        chars.push(c);
    }
    chars
}

/// Executable `is_whitespace`.
pub fn char_is_whitespace(c: char) -> (yes: bool)
    ensures
        yes == is_whitespace(c),
{
    let code: u32 = c as u32;
    (0x09 <= code && code <= 0x0D) || code == 0x20 || code == 0x85 || code == 0xA0 || code
        == 0x1680 || (0x2000 <= code && code <= 0x200A) || code == 0x2028 || code == 0x2029
        || code == 0x202F || code == 0x205F || code == 0x3000
}

/// Splits `text` into its lines.
pub fn lines(text: &str) -> (out: Vec<String>)
    ensures
        text_of(out@) == split_lines(text@),
{
    let chars = chars_of(text);
    let n = chars.len();
    let mut out: Vec<String> = Vec::new();
    let mut start: usize = 0;
    let mut i: usize = 0;
    assert(text@.skip(0) =~= text@);
    while i < n
        invariant
            chars@ == text@,
            n == chars.len(),
            start <= i <= n,
            forall|j: int| start <= j < i ==> chars@[j] != '\n',
            split_lines(text@) == text_of(out@) + split_lines(text@.skip(start as int)),
        decreases n - i,
    {
        if chars[i] == '\n' {
            let end = if i > start && chars[i - 1] == '\r' {
                i - 1
            } else {
                i
            };
            let line = collect(&chars, start, end);
            proof {
                let rest = text@.skip(start as int);
                lemma_first_newline(rest, i - start);
                assert(rest.take(i - start) =~= text@.subrange(start as int, i as int));
                assert(strip_cr(rest.take(i - start)) =~= line@);
                assert(rest.skip(i - start + 1) =~= text@.skip(i + 1));
                assert(text_of(out@.push(line)) =~= text_of(out@) + seq![line@]);
            }
            out.push(line);
            start = i + 1;
        }
        i = i + 1;
    }
    if start < n {
        let line = collect(&chars, start, n);
        proof {
            let rest = text@.skip(start as int);
            lemma_first_newline(rest, n - start);
            assert(rest =~= line@);
            assert(text_of(out@.push(line)) =~= text_of(out@) + seq![line@]);
        }
        out.push(line);
    }
    out
}

/// Removes the white space at the end of `line`.
pub fn trimmed_end(line: &str) -> (out: String)
    ensures
        out@ == trim_end(line@),
{
    let chars = chars_of(line);
    let mut end: usize = chars.len();
    while end > 0 && char_is_whitespace(chars[end - 1])
        invariant
            chars@ == line@,
            end <= chars.len(),
            forall|j: int| end <= j < chars.len() ==> is_whitespace(chars@[j]),
        decreases end,
    {
        end = end - 1;
    }
    proof {
        lemma_trim_end(line@, end as int);
    }
    assert(line@.take(end as int) =~= chars@.subrange(0, end as int));
    collect(&chars, 0, end)
}

} // verus!
