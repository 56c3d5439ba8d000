//! Content-Length framing for JSON-RPC over a byte stream.
//!
//! A frame is the header `Content-Length: <n>`, an empty line, and a
//! payload of `n` bytes of UTF-8. Lines end in `\r\n`.

use vstd::prelude::*;
use vstd::utf8::{char_is_scalar, encode_utf8};
use crate::text::{
    append_chars, append_str, buffers, chars_of, decimal_text, find, find_chars, find_sep,
    has_prefix, lemma_decimal_text_reads_back, lemma_find_from_least, lemma_next_sep_at,
    lemma_next_sep_without, lower, next_sep, occurs_at, parse_unsigned, push_decimal, skip_spaces,
    slice_of, split, split_from, split_on, starts_with, string_of, to_lower, trim, trimmed,
    unsigned_value,
};

verus! {

/// How many bytes the UTF-8 encoding of a character takes.
pub open spec fn char_width(c: char) -> nat {
    let v = c as u32;
    if v < 0x80 {
        1
    } else if v < 0x800 {
        2
    } else if v < 0x10000 {
        3
    } else {
        4
    }
}

/// How many bytes the UTF-8 encoding of the first `upto` characters takes.
pub open spec fn bytes_upto(s: Seq<char>, upto: int) -> nat
    decreases upto,
{
    if upto <= 0 {
        0
    } else {
        bytes_upto(s, upto - 1) + char_width(s[upto - 1])
    }
}

/// How many bytes the UTF-8 encoding of a text takes.
pub open spec fn byte_len(s: Seq<char>) -> nat {
    bytes_upto(s, s.len() as int)
}

/// The frame that carries `payload`.
pub open spec fn framed(payload: Seq<char>) -> Seq<char> {
    "Content-Length: "@ + decimal_text(byte_len(payload)) + "\r\n\r\n"@ + payload
}

/// Every character takes at least one byte.
pub proof fn lemma_bytes_upto_grows(s: Seq<char>, a: int, b: int)
    requires
        0 <= a <= b,
    ensures
        bytes_upto(s, a) + (b - a) <= bytes_upto(s, b),
    decreases b - a,
{
    if a < b {
        lemma_bytes_upto_grows(s, a, b - 1);
    }
}

/// How many bytes the UTF-8 encoding of a character takes.
pub fn width_of(c: char) -> (w: usize)
    ensures
        w == char_width(c),
        1 <= w <= 4,
{
    let v: u32 = c as u32;
    if v < 0x80 {
        1
    } else if v < 0x800 {
        2
    } else if v < 0x10000 {
        3
    } else {
        4
    }
}

/// The bytes of a text without its first character.
proof fn lemma_bytes_upto_drop_first(s: Seq<char>, upto: int)
    requires
        1 <= upto <= s.len(),
    ensures
        bytes_upto(s, upto) == char_width(s[0]) + bytes_upto(s.drop_first(), upto - 1),
    decreases upto,
{
    if upto > 1 {
        lemma_bytes_upto_drop_first(s, upto - 1);
    } else {
        assert(bytes_upto(s, 0) == 0);
    }
}

/// The UTF-8 encoding of a text has as many bytes as [`byte_len`] counts.
pub proof fn lemma_encoding_has_byte_len(s: Seq<char>)
    ensures
        encode_utf8(s).len() == byte_len(s),
    decreases s.len(),
{
    if s.len() > 0 {
        char_is_scalar(s[0]);
        lemma_encoding_has_byte_len(s.drop_first());
        lemma_bytes_upto_drop_first(s, s.len() as int);
    }
}

/// How many bytes a string takes.
pub fn encoded_len(text: &str) -> (n: usize)
    ensures
        n == byte_len(text@),
{
    proof {
        lemma_encoding_has_byte_len(text@);
    }
    text.as_bytes().len()
}

/// Frames a payload: the header with the payload's length in bytes, an
/// empty line, and the payload.
pub fn encode_stdio_frame(payload: &str) -> (frame: String)
    ensures
        frame@ == framed(payload@),
{
    let body = chars_of(payload);
    let n = encoded_len(payload);
    let mut out = chars_of("Content-Length: ");
    push_decimal(&mut out, n as u64);
    append_str(&mut out, "\r\n\r\n");
    append_chars(&mut out, &body);
    string_of(&out)
}

/// Appends the frame that carries `payload` to `out`.
pub fn write_stdio_frame_to(out: &mut String, payload: &str)
    ensures
        final(out)@ == old(out)@ + framed(payload@),
{
    let frame = encode_stdio_frame(payload);
    let mut all = chars_of(out.as_str());
    append_str(&mut all, frame.as_str());
    *out = string_of(&all);
}

// ---------------------------------------------------------------------------
// Reading frames
// ---------------------------------------------------------------------------

/// How many characters make up exactly the first `want` bytes, scanning
/// from position `from`; `None` where the text is shorter or where the
/// bytes end inside a character.
pub open spec fn chars_for_bytes(s: Seq<char>, want: int, from: int) -> Option<int>
    decreases s.len() - from,
{
    if from < 0 || bytes_upto(s, from) > want {
        None
    } else if bytes_upto(s, from) == want {
        Some(from)
    } else if from >= s.len() {
        None
    } else {
        chars_for_bytes(s, want, from + 1)
    }
}

/// The first `want` bytes of a text, where they end on a character boundary.
pub open spec fn byte_prefix(s: Seq<char>, want: int) -> Option<Seq<char>> {
    match chars_for_bytes(s, want, 0) {
        Some(n) => Some(s.subrange(0, n)),
        None => None,
    }
}

/// The first `want` bytes of a buffer.
pub fn take_bytes(v: &Vec<char>, want: usize) -> (out: Option<Vec<char>>)
    ensures
        match out {
            Some(p) => byte_prefix(v@, want as int) == Some(p@),
            None => byte_prefix(v@, want as int) is None,
        },
{
    let mut taken: usize = 0;
    let mut i: usize = 0;
    while taken < want
        invariant
            i <= v.len(),
            taken <= want,
            taken == bytes_upto(v@, i as int),
            chars_for_bytes(v@, want as int, 0) == chars_for_bytes(v@, want as int, i as int),
        decreases v.len() - i,
    {
        if i >= v.len() {
            return None;
        }
        let w = width_of(v[i]);
        if w > want - taken {
            assert(chars_for_bytes(v@, want as int, i + 1) is None);
            return None;
        }
        taken = taken + w;
        i = i + 1;
    }
    Some(slice_of(v, 0, i))
}

/// Whether a header line names the content length, whatever its case.
pub open spec fn names_content_length(line: Seq<char>) -> bool {
    starts_with(lower(line), "content-length:"@)
}

/// The first line at or after position `from` that names the content length.
pub open spec fn length_line(lines: Seq<Seq<char>>, from: int) -> Option<Seq<char>>
    decreases lines.len() - from,
{
    if from < 0 || from >= lines.len() {
        None
    } else if names_content_length(lines[from]) {
        Some(lines[from])
    } else {
        length_line(lines, from + 1)
    }
}

/// The number a header line carries: what stands between its first and
/// second colon, trimmed, read as an unsigned decimal number that fits the
/// machine's word.
pub open spec fn length_value(line: Seq<char>) -> Option<int> {
    let fields = split(line, ':');
    if fields.len() < 2 {
        None
    } else {
        match unsigned_value(trim(fields[1])) {
            Some(n) => if n <= usize::MAX {
                Some(n)
            } else {
                None
            },
            None => None,
        }
    }
}

/// The payload of the frame that a text starts with: the header ends at
/// the first empty line, its first `Content-Length` line names how many
/// bytes of what follows are the payload. `None` where the text holds no
/// empty line, no such header, no number or too few bytes.
pub open spec fn unframed(input: Seq<char>) -> Option<Seq<char>> {
    match find(input, "\r\n\r\n"@) {
        None => None,
        Some(at) => {
            let header = input.subrange(0, at);
            let body = input.subrange(at + 4, input.len() as int);
            match length_line(split(header, '\n'), 0) {
                None => None,
                Some(line) => match length_value(line) {
                    None => None,
                    Some(n) => byte_prefix(body, n),
                },
            }
        },
    }
}

/// The number a header line carries.
pub fn read_length_value(line: &Vec<char>) -> (out: Option<usize>)
    ensures
        match out {
            Some(n) => length_value(line@) == Some(n as int),
            None => length_value(line@) is None,
        },
{
    let fields = split_on(line, ':');
    if fields.len() < 2 {
        return None;
    }
    match parse_unsigned(&trimmed(&fields[1])) {
        Some(n) => {
            if n <= usize::MAX as u64 {
                Some(n as usize)
            } else {
                None
            }
        },
        None => None,
    }
}

/// The payload of the frame that `input` starts with.
pub fn decode_stdio_frame(input: &str) -> (out: Option<String>)
    ensures
        match out {
            Some(payload) => unframed(input@) == Some(payload@),
            None => unframed(input@) is None,
        },
{
    let text = chars_of(input);
    proof {
        reveal_strlit("\r\n\r\n");
    }
    let at = match find_chars(&text, &chars_of("\r\n\r\n")) {
        Some(at) => at,
        None => {
            return None;
        },
    };
    let header = slice_of(&text, 0, at);
    let body = slice_of(&text, at + 4, text.len());
    let lines = split_on(&header, '\n');
    let mut i: usize = 0;
    let mut found: Option<usize> = None;
    while i < lines.len()
        invariant_except_break
            i <= lines.len(),
            found is None,
            length_line(buffers(lines@), 0) == length_line(buffers(lines@), i as int),
        ensures
            match found {
                Some(k) => k < lines.len() && length_line(buffers(lines@), 0) == Some(lines@[k as int]@),
                None => length_line(buffers(lines@), 0) is None,
            },
        decreases lines.len() - i,
    {
        if has_prefix(&to_lower(&lines[i]), &chars_of("content-length:")) {
            found = Some(i);
            break ;
        }
        i = i + 1;
    }
    let k = match found {
        Some(k) => k,
        None => {
            return None;
        },
    };
    let n = match read_length_value(&lines[k]) {
        Some(n) => n,
        None => {
            return None;
        },
    };
    match take_bytes(&body, n) {
        Some(p) => Some(string_of(&p)),
        None => None,
    }
}

/// Why a frame could not be read.
#[derive(Clone, Copy, Debug, PartialEq, Eq, Structural)]
pub enum FrameError {
    /// A `Content-Length` header does not carry a number.
    InvalidContentLength,
    /// The headers ended without a `Content-Length`.
    MissingContentLength,
    /// The stream ended before the payload was complete.
    TruncatedPayload,
    /// The payload's bytes end inside a character.
    BrokenPayload,
}

/// What a header line means to a reader.
#[derive(Clone, Copy, Debug, PartialEq, Eq, Structural)]
pub enum HeaderStep {
    /// More header lines follow; this is the content length known so far.
    More(Option<usize>),
    /// The headers are over: the payload has this many bytes.
    Payload(usize),
    /// The frame cannot be read.
    Fail(FrameError),
}

/// The line without its line ending.
pub open spec fn without_line_end(line: Seq<char>, upto: int) -> Seq<char>
    decreases upto,
{
    if 0 < upto <= line.len() && (line[upto - 1] == '\r' || line[upto - 1] == '\n') {
        without_line_end(line, upto - 1)
    } else if 0 <= upto <= line.len() {
        line.subrange(0, upto)
    } else {
        line
    }
}

/// What a header line means, given the content length known so far. An
/// empty line ends the headers; a `Content-Length` line, whatever its
/// case, sets the length to the number after its colon, trimmed; every
/// other line is skipped.
pub open spec fn header_step(known: Option<usize>, line: Seq<char>) -> HeaderStep {
    if line == "\r\n"@ || line == "\n"@ {
        match known {
            Some(n) => HeaderStep::Payload(n),
            None => HeaderStep::Fail(FrameError::MissingContentLength),
        }
    } else {
        let bare = without_line_end(line, line.len() as int);
        let colon = next_sep(bare, ':', 0);
        if colon < bare.len() && lower(bare.subrange(0, colon)) == "content-length"@ {
            match unsigned_value(trim(bare.subrange(colon + 1, bare.len() as int))) {
                Some(n) => if n <= usize::MAX {
                    HeaderStep::More(Some(n as usize))
                } else {
                    HeaderStep::Fail(FrameError::InvalidContentLength)
                },
                None => HeaderStep::Fail(FrameError::InvalidContentLength),
            }
        } else {
            HeaderStep::More(known)
        }
    }
}

/// Decides what a header line means to a reader.
pub fn header_line(known: Option<usize>, line: &str) -> (step: HeaderStep)
    ensures
        step == header_step(known, line@),
{
    let text = chars_of(line);
    if crate::text::same_chars(&text, &chars_of("\r\n")) || crate::text::same_chars(
        &text,
        &chars_of("\n"),
    ) {
        return match known {
            Some(n) => HeaderStep::Payload(n),
            None => HeaderStep::Fail(FrameError::MissingContentLength),
        };
    }
    let mut end: usize = text.len();
    while end > 0 && (text[end - 1] == '\r' || text[end - 1] == '\n')
        invariant
            end <= text.len(),
            without_line_end(text@, text.len() as int) == without_line_end(text@, end as int),
        decreases end,
    {
        end = end - 1;
    }
    let bare = slice_of(&text, 0, end);
    let colon = find_sep(&bare, ':', 0);
    if colon < bare.len() && crate::text::same_chars(
        &to_lower(&slice_of(&bare, 0, colon)),
        &chars_of("content-length"),
    ) {
        match parse_unsigned(&trimmed(&slice_of(&bare, colon + 1, bare.len()))) {
            Some(n) => {
                if n <= usize::MAX as u64 {
                    HeaderStep::More(Some(n as usize))
                } else {
                    HeaderStep::Fail(FrameError::InvalidContentLength)
                }
            },
            None => HeaderStep::Fail(FrameError::InvalidContentLength),
        }
    } else {
        HeaderStep::More(known)
    }
}

/// What reading one frame from a text comes to, with the headers read
/// line by line from position `from` and `known` the content length so far.
pub open spec fn frame_read(input: Seq<char>, from: int, known: Option<usize>) -> Result<
    Option<Seq<char>>,
    FrameError,
>
    decreases input.len() - from,
{
    if from < 0 || from >= input.len() {
        Ok(None)
    } else {
        let end = next_sep(input, '\n', from);
        let stop = if end < from {
            from
        } else if end < input.len() {
            end + 1
        } else {
            input.len() as int
        };
        if stop <= from {
            Ok(None)
        } else {
            match header_step(known, input.subrange(from, stop)) {
                HeaderStep::More(k) => frame_read(input, stop, k),
                HeaderStep::Fail(e) => Err(e),
                HeaderStep::Payload(n) => {
                    let body = input.subrange(stop, input.len() as int);
                    if byte_len(body) < n {
                        Err(FrameError::TruncatedPayload)
                    } else {
                        match byte_prefix(body, n as int) {
                            Some(p) => Ok(Some(p)),
                            None => Err(FrameError::BrokenPayload),
                        }
                    }
                },
            }
        }
    }
}

/// Reads one frame from the start of `input`, header line by header line.
///
/// Gives `Ok(None)` where the input ends before the headers do, the payload
/// where a whole frame is there, and an error where a `Content-Length`
/// carries no number, where the headers end without one, or where the
/// payload is cut short.
pub fn read_stdio_frame_from(input: &str) -> (out: Result<Option<String>, FrameError>)
    ensures
        match out {
            Ok(Some(payload)) => frame_read(input@, 0, None) == Ok::<
                Option<Seq<char>>,
                FrameError,
            >(Some(payload@)),
            Ok(None) => frame_read(input@, 0, None) == Ok::<Option<Seq<char>>, FrameError>(None),
            Err(e) => frame_read(input@, 0, None) == Err::<Option<Seq<char>>, FrameError>(e),
        },
{
    let text = chars_of(input);
    let mut from: usize = 0;
    let mut known: Option<usize> = None;
    while from < text.len()
        invariant
            from <= text.len(),
            text@ == input@,
            frame_read(input@, 0, None) == frame_read(input@, from as int, known),
        decreases text.len() - from,
    {
        let end = find_sep(&text, '\n', from);
        let stop: usize = if end < text.len() {
            end + 1
        } else {
            text.len()
        };
        let line = string_of(&slice_of(&text, from, stop));
        match header_line(known, line.as_str()) {
            HeaderStep::More(k) => {
                known = k;
                from = stop;
            },
            HeaderStep::Fail(e) => {
                return Err(e);
            },
            HeaderStep::Payload(n) => {
                let body = slice_of(&text, stop, text.len());
                return match take_bytes(&body, n) {
                    Some(p) => {
                        proof {
                            lemma_prefix_is_within(body@, n as int, 0);
                        }
                        Ok(Some(string_of(&p)))
                    },
                    None => {
                        if shorter_than(&body, n) {
                            Err(FrameError::TruncatedPayload)
                        } else {
                            Err(FrameError::BrokenPayload)
                        }
                    },
                };
            },
        }
    }
    Ok(None)
}

/// The whole text is its own prefix of as many bytes as it takes.
pub proof fn lemma_whole_text_is_prefix(s: Seq<char>, from: int)
    requires
        0 <= from <= s.len(),
    ensures
        chars_for_bytes(s, byte_len(s) as int, from) == Some(s.len() as int),
    decreases s.len() - from,
{
    if from < s.len() {
        lemma_whole_text_is_prefix(s, from + 1);
    }
}

/// A frame reads back: the payload of the frame that carries `payload` is
/// `payload`, where its length in bytes fits the machine's word.
pub proof fn lemma_frame_reads_back(payload: Seq<char>)
    requires
        byte_len(payload) <= usize::MAX,
    ensures
        unframed(framed(payload)) == Some(payload),
{
    reveal_strlit("Content-Length: ");
    reveal_strlit("content-length:");
    reveal_strlit("\r\n\r\n");
    let n = byte_len(payload);
    let head = "Content-Length: "@;
    let digits = decimal_text(n);
    let mark = "\r\n\r\n"@;
    let frame = framed(payload);
    let at = 16 + digits.len() as int;
    let header = head + digits;
    lemma_decimal_text_reads_back(n);
    // The header ends at the first empty line.
    assert(frame.subrange(at, at + 4) =~= mark);
    assert(occurs_at(frame, mark, at));
    lemma_find_from_least(frame, mark, 0);
    assert(find(frame, mark) == Some(at)) by {
        match find(frame, mark) {
            Some(x) => {
                if x < at {
                    assert(frame.subrange(x, x + 4)[0] == mark[0]);
                }
            },
            None => {},
        }
    }
    assert(frame.subrange(0, at) =~= header);
    assert(frame.subrange(at + 4, frame.len() as int) =~= payload);
    // The header is one line, and it names the content length.
    lemma_next_sep_without(header, '\n', 0);
    assert(header.subrange(0, header.len() as int) =~= header);
    assert(lower(header).subrange(0, 15) =~= "content-length:"@);
    // What stands behind its colon is the number of bytes.
    lemma_next_sep_at(header, ':', 0, 14);
    lemma_next_sep_without(header, ':', 15);
    let tail = header.subrange(15, header.len() as int);
    assert(split_from(header, ':', 15) =~= seq![tail]);
    assert(skip_spaces(tail, 1) == 1);
    assert(trim(tail) =~= digits);
    // The payload is the first `n` bytes of what follows.
    lemma_whole_text_is_prefix(payload, 0);
}

/// Where a prefix of `want` bytes exists, the text has at least as many bytes.
pub proof fn lemma_prefix_is_within(s: Seq<char>, want: int, from: int)
    requires
        0 <= from <= s.len(),
        chars_for_bytes(s, want, from) is Some,
    ensures
        byte_len(s) >= want,
        from <= chars_for_bytes(s, want, from)->Some_0 <= s.len(),
    decreases s.len() - from,
{
    if bytes_upto(s, from) == want {
        lemma_bytes_upto_grows(s, from, s.len() as int);
    } else {
        lemma_prefix_is_within(s, want, from + 1);
    }
}

/// Whether the buffer has fewer than `want` bytes.
fn shorter_than(v: &Vec<char>, want: usize) -> (r: bool)
    ensures
        r == (byte_len(v@) < want),
{
    let mut taken: usize = 0;
    let mut i: usize = 0;
    while i < v.len()
        invariant
            i <= v.len(),
            taken < want || i == 0,
            taken == bytes_upto(v@, i as int),
        decreases v.len() - i,
    {
        let w = width_of(v[i]);
        if want < w || taken >= want - w {
            proof {
                lemma_bytes_upto_grows(v@, i + 1, v.len() as int);
            }
            return false;
        }
        taken = taken + w;
        i = i + 1;
    }
    taken < want
}

} // verus!
