//! Character-level text primitives.
//!
//! Every routine here works on sequences of Unicode scalar values. The
//! executable functions take `Vec<char>` buffers and are specified against
//! plain `Seq<char>` definitions, so callers can reason about text without
//! looking inside a `String`.

use vstd::prelude::*;
use vstd::std_specs::iter::IteratorSpec;

verus! {

// ---------------------------------------------------------------------------
// Conversions between `String` and character buffers
// ---------------------------------------------------------------------------

/// Appends one character to a `String` through `String::push`.
///
/// Trusted: the standard library documents that `push` appends the given
/// character to the end of the string; the contract says exactly that.
#[verifier::external_body]
fn push_char(s: &mut String, c: char)
    ensures
        final(s)@ == old(s)@.push(c),
{
    s.push(c)
}

/// The characters of `s`, in order.
pub fn chars_of(s: &str) -> (out: Vec<char>)
    ensures
        out@ == s@,
{
    let mut it = s.chars();
    let mut out: Vec<char> = Vec::new();
    loop
        invariant
            out@ + it.remaining() == s@,
            it.obeys_prophetic_iter_laws(),
            it.decrease() is Some,
        ensures
            out@ == s@,
        decreases it.decrease()->0,
    {
        broadcast use vstd::string::group_string_axioms;

        match it.next() {
            Some(c) => {
                out.push(c);
            },
            None => {
                break ;
            },
        }
    }
    out
}

/// A `String` holding exactly the characters of `v`.
pub fn string_of(v: &Vec<char>) -> (out: String)
    ensures
        out@ == v@,
{
    let mut out = String::new();
    let mut i: usize = 0;
    while i < v.len()
        invariant
            i <= v.len(),
            out@ == v@.subrange(0, i as int),
        decreases v.len() - i,
    {
        push_char(&mut out, v[i]);
        i = i + 1;
    }
    out
}

/// The views of a sequence of strings.
pub open spec fn texts(items: Seq<String>) -> Seq<Seq<char>> {
    Seq::new(items.len(), |i: int| items[i]@)
}

/// The views of a sequence of character buffers.
pub open spec fn buffers(items: Seq<Vec<char>>) -> Seq<Seq<char>> {
    Seq::new(items.len(), |i: int| items[i]@)
}

/// Copies `src[from..to]` into a fresh buffer.
pub fn slice_of(src: &Vec<char>, from: usize, to: usize) -> (out: Vec<char>)
    requires
        from <= to <= src.len(),
    ensures
        out@ == src@.subrange(from as int, to as int),
{
    let mut out: Vec<char> = Vec::new();
    let mut i: usize = from;
    while i < to
        invariant
            from <= i <= to <= src.len(),
            out@ == src@.subrange(from as int, i as int),
        decreases to - i,
    {
        out.push(src[i]);
        i = i + 1;
    }
    out
}

/// Appends every character of `src` to `dst`.
pub fn append_chars(dst: &mut Vec<char>, src: &Vec<char>)
    ensures
        final(dst)@ == old(dst)@ + src@,
{
    let mut i: usize = 0;
    while i < src.len()
        invariant
            i <= src.len(),
            dst@ == old(dst)@ + src@.subrange(0, i as int),
        decreases src.len() - i,
    {
        dst.push(src[i]);
        i = i + 1;
    }
}

/// Appends the characters of `src` to `dst`.
pub fn append_str(dst: &mut Vec<char>, src: &str)
    ensures
        final(dst)@ == old(dst)@ + src@,
{
    let tail = chars_of(src);
    append_chars(dst, &tail);
}

/// Whether two buffers hold the same characters.
pub fn same_chars(a: &Vec<char>, b: &Vec<char>) -> (r: bool)
    ensures
        r == (a@ == b@),
{
    if a.len() != b.len() {
        return false;
    }
    let mut i: usize = 0;
    while i < a.len()
        invariant
            i <= a.len(),
            a.len() == b.len(),
            a@.subrange(0, i as int) == b@.subrange(0, i as int),
        decreases a.len() - i,
    {
        if a[i] != b[i] {
            return false;
        }
        i = i + 1;
    }
    assert(a@.subrange(0, a.len() as int) =~= a@);
    assert(b@.subrange(0, b.len() as int) =~= b@);
    true
}

/// Whether two strings hold the same characters.
pub fn same_text(a: &str, b: &str) -> (r: bool)
    ensures
        r == (a@ == b@),
{
    let x = chars_of(a);
    let y = chars_of(b);
    same_chars(&x, &y)
}

// ---------------------------------------------------------------------------
// Searching
// ---------------------------------------------------------------------------

/// `needle` occupies `hay[at .. at + needle.len()]`.
pub open spec fn occurs_at(hay: Seq<char>, needle: Seq<char>, at: int) -> bool {
    &&& 0 <= at
    &&& at + needle.len() <= hay.len()
    &&& hay.subrange(at, at + needle.len()) == needle
}

/// `prefix` is an initial segment of `hay`.
pub open spec fn starts_with(hay: Seq<char>, prefix: Seq<char>) -> bool {
    occurs_at(hay, prefix, 0)
}

/// The least position at or after `from` where `needle` occurs, if any.
pub open spec fn find_from(hay: Seq<char>, needle: Seq<char>, from: int) -> Option<int>
    decreases hay.len() + 1 - from,
{
    if from < 0 || from + needle.len() > hay.len() {
        None
    } else if occurs_at(hay, needle, from) {
        Some(from)
    } else {
        find_from(hay, needle, from + 1)
    }
}

/// The least position where `needle` occurs in `hay`, if any.
pub open spec fn find(hay: Seq<char>, needle: Seq<char>) -> Option<int> {
    find_from(hay, needle, 0)
}

/// `needle` occurs somewhere in `hay`.
pub open spec fn contains(hay: Seq<char>, needle: Seq<char>) -> bool {
    find(hay, needle) is Some
}

/// `find_from` returns the least occurrence: the position it names holds the
/// needle, and no earlier position from `from` on does.
pub proof fn lemma_find_from_least(hay: Seq<char>, needle: Seq<char>, from: int)
    requires
        0 <= from,
    ensures
        match find_from(hay, needle, from) {
            Some(at) => from <= at && occurs_at(hay, needle, at) && forall|k: int|
                from <= k < at ==> !occurs_at(hay, needle, k),
            None => forall|k: int| from <= k ==> !occurs_at(hay, needle, k),
        },
    decreases hay.len() + 1 - from,
{
    if from + needle.len() > hay.len() {
    } else if occurs_at(hay, needle, from) {
    } else {
        lemma_find_from_least(hay, needle, from + 1);
    }
}

/// Whether `needle` occupies `hay[at ..]`.
pub fn matches_at(hay: &Vec<char>, needle: &Vec<char>, at: usize) -> (r: bool)
    ensures
        r == occurs_at(hay@, needle@, at as int),
{
    if at > hay.len() || needle.len() > hay.len() - at {
        return false;
    }
    let mut i: usize = 0;
    while i < needle.len()
        invariant
            i <= needle.len(),
            at + needle.len() <= hay.len(),
            hay@.subrange(at as int, at + i) == needle@.subrange(0, i as int),
        decreases needle.len() - i,
    {
        if hay[at + i] != needle[i] {
            return false;
        }
        i = i + 1;
    }
    assert(needle@.subrange(0, needle.len() as int) =~= needle@);
    true
}

/// Whether `hay` begins with `prefix`.
pub fn has_prefix(hay: &Vec<char>, prefix: &Vec<char>) -> (r: bool)
    ensures
        r == starts_with(hay@, prefix@),
{
    matches_at(hay, prefix, 0)
}

/// Whether the string `hay` begins with the string `prefix`.
pub fn str_starts_with(hay: &str, prefix: &str) -> (r: bool)
    ensures
        r == starts_with(hay@, prefix@),
{
    let h = chars_of(hay);
    let p = chars_of(prefix);
    has_prefix(&h, &p)
}

/// The least position at or after `from` where `needle` occurs in `hay`.
pub fn find_chars_from(hay: &Vec<char>, needle: &Vec<char>, from: usize) -> (r: Option<usize>)
    ensures
        match r {
            Some(at) => find_from(hay@, needle@, from as int) == Some(at as int) && at
                + needle.len() <= hay.len(),
            None => find_from(hay@, needle@, from as int) is None,
        },
{
    if needle.len() == 0 {
        if from <= hay.len() {
            assert(hay@.subrange(from as int, from as int) =~= needle@);
            return Some(from);
        }
        return None;
    }
    if needle.len() > hay.len() || from > hay.len() - needle.len() {
        return None;
    }
    let last: usize = hay.len() - needle.len();
    let mut i: usize = from;
    while i <= last
        invariant
            from <= i <= last + 1,
            last == hay.len() - needle.len(),
            needle.len() > 0,
            find_from(hay@, needle@, from as int) == find_from(hay@, needle@, i as int),
        decreases last + 1 - i,
    {
        if matches_at(hay, needle, i) {
            return Some(i);
        }
        i = i + 1;
    }
    None
}

/// The least position where `needle` occurs in `hay`.
pub fn find_chars(hay: &Vec<char>, needle: &Vec<char>) -> (r: Option<usize>)
    ensures
        match r {
            Some(at) => find(hay@, needle@) == Some(at as int) && at + needle.len() <= hay.len(),
            None => find(hay@, needle@) is None,
        },
{
    find_chars_from(hay, needle, 0)
}

/// Whether `needle` occurs in `hay`.
pub fn has_substring(hay: &Vec<char>, needle: &Vec<char>) -> (r: bool)
    ensures
        r == contains(hay@, needle@),
{
    find_chars(hay, needle).is_some()
}

// ---------------------------------------------------------------------------
// ASCII case folding
// ---------------------------------------------------------------------------

/// The ASCII lower-case form of one character; other characters are kept.
pub open spec fn lower_char(c: char) -> char {
    if 'A' <= c && c <= 'Z' {
        ((c as u8) + 32) as char
    } else {
        c
    }
}

/// The ASCII lower-case form of a text, character by character.
pub open spec fn lower(s: Seq<char>) -> Seq<char> {
    Seq::new(s.len(), |i: int| lower_char(s[i]))
}

/// Folds one character to ASCII lower case.
pub fn to_lower_char(c: char) -> (r: char)
    ensures
        r == lower_char(c),
{
    if 'A' <= c && c <= 'Z' {
        ((c as u8) + 32) as char
    } else {
        c
    }
}

/// Folds a buffer to ASCII lower case.
pub fn to_lower(v: &Vec<char>) -> (out: Vec<char>)
    ensures
        out@ == lower(v@),
{
    let mut out: Vec<char> = Vec::new();
    let mut i: usize = 0;
    while i < v.len()
        invariant
            i <= v.len(),
            out@.len() == i,
            forall|k: int| 0 <= k < i ==> out@[k] == lower_char(v@[k]),
        decreases v.len() - i,
    {
        out.push(to_lower_char(v[i]));
        i = i + 1;
    }
    out
}

// ---------------------------------------------------------------------------
// White space and trimming
// ---------------------------------------------------------------------------

/// The characters with the Unicode `White_Space` property.
pub open spec fn is_space(c: char) -> bool {
    let n = c as u32;
    ||| (0x09 <= n && n <= 0x0D)
    ||| n == 0x20
    ||| n == 0x85
    ||| n == 0xA0
    ||| n == 0x1680
    ||| (0x2000 <= n && n <= 0x200A)
    ||| n == 0x2028
    ||| n == 0x2029
    ||| n == 0x202F
    ||| n == 0x205F
    ||| n == 0x3000
}

/// Whether `c` is a white-space character.
pub fn char_is_space(c: char) -> (r: bool)
    ensures
        r == is_space(c),
{
    let n: u32 = c as u32;
    (0x09 <= n && n <= 0x0D) || n == 0x20 || n == 0x85 || n == 0xA0 || n == 0x1680 || (0x2000 <= n
        && n <= 0x200A) || n == 0x2028 || n == 0x2029 || n == 0x202F || n == 0x205F || n == 0x3000
}

/// The first position at or after `from` that holds no white space.
pub open spec fn skip_spaces(s: Seq<char>, from: int) -> int
    decreases s.len() - from,
{
    if 0 <= from < s.len() && is_space(s[from]) {
        skip_spaces(s, from + 1)
    } else {
        from
    }
}

/// The end of the text once trailing white space is dropped, never below `floor`.
pub open spec fn drop_spaces(s: Seq<char>, floor: int, end: int) -> int
    decreases end - floor,
{
    if floor < end <= s.len() && is_space(s[end - 1]) {
        drop_spaces(s, floor, end - 1)
    } else {
        end
    }
}

/// Where the trimmed text starts.
pub open spec fn trim_start_index(s: Seq<char>) -> int {
    skip_spaces(s, 0)
}

/// Where the trimmed text ends.
pub open spec fn trim_end_index(s: Seq<char>) -> int {
    drop_spaces(s, trim_start_index(s), s.len() as int)
}

/// The text without leading and trailing white space.
pub open spec fn trim(s: Seq<char>) -> Seq<char> {
    s.subrange(trim_start_index(s), trim_end_index(s))
}

/// The text is empty or holds white space only.
pub open spec fn is_blank(s: Seq<char>) -> bool {
    trim(s).len() == 0
}

/// The bounds of the trimmed text inside `v`.
pub fn trim_bounds(v: &Vec<char>) -> (r: (usize, usize))
    ensures
        r.0 == trim_start_index(v@),
        r.1 == trim_end_index(v@),
        r.0 <= r.1 <= v.len(),
{
    let mut a: usize = 0;
    while a < v.len() && char_is_space(v[a])
        invariant
            a <= v.len(),
            skip_spaces(v@, 0) == skip_spaces(v@, a as int),
        decreases v.len() - a,
    {
        a = a + 1;
    }
    let mut b: usize = v.len();
    while a < b && char_is_space(v[b - 1])
        invariant
            a <= b <= v.len(),
            drop_spaces(v@, a as int, v.len() as int) == drop_spaces(v@, a as int, b as int),
        decreases b - a,
    {
        b = b - 1;
    }
    (a, b)
}

/// The buffer without leading and trailing white space.
pub fn trimmed(v: &Vec<char>) -> (out: Vec<char>)
    ensures
        out@ == trim(v@),
{
    let (a, b) = trim_bounds(v);
    slice_of(v, a, b)
}

/// Whether the string is empty or holds white space only.
pub fn str_is_blank(s: &str) -> (r: bool)
    ensures
        r == is_blank(s@),
{
    let v = chars_of(s);
    let (a, b) = trim_bounds(&v);
    a == b
}

// ---------------------------------------------------------------------------
// Building strings
// ---------------------------------------------------------------------------

/// The text `a` followed by `b`.
pub fn join2(a: &str, b: &str) -> (out: String)
    ensures
        out@ == a@ + b@,
{
    let mut v = chars_of(a);
    append_str(&mut v, b);
    string_of(&v)
}

/// The texts `a`, `b` and `c`, one after another.
pub fn join3(a: &str, b: &str, c: &str) -> (out: String)
    ensures
        out@ == a@ + b@ + c@,
{
    let mut v = chars_of(a);
    append_str(&mut v, b);
    append_str(&mut v, c);
    string_of(&v)
}

/// The texts `a`, `b`, `c` and `d`, one after another.
pub fn join4(a: &str, b: &str, c: &str, d: &str) -> (out: String)
    ensures
        out@ == a@ + b@ + c@ + d@,
{
    let mut v = chars_of(a);
    append_str(&mut v, b);
    append_str(&mut v, c);
    append_str(&mut v, d);
    string_of(&v)
}

/// The texts `a`, `b`, `c`, `d` and `e`, one after another.
pub fn join5(a: &str, b: &str, c: &str, d: &str, e: &str) -> (out: String)
    ensures
        out@ == a@ + b@ + c@ + d@ + e@,
{
    let mut v = chars_of(a);
    append_str(&mut v, b);
    append_str(&mut v, c);
    append_str(&mut v, d);
    append_str(&mut v, e);
    string_of(&v)
}

// ---------------------------------------------------------------------------
// Numbers as text
// ---------------------------------------------------------------------------

/// The character of one digit in a base up to sixteen, in lower case.
pub open spec fn digit_char(d: int) -> char {
    if d == 0 {
        '0'
    } else if d == 1 {
        '1'
    } else if d == 2 {
        '2'
    } else if d == 3 {
        '3'
    } else if d == 4 {
        '4'
    } else if d == 5 {
        '5'
    } else if d == 6 {
        '6'
    } else if d == 7 {
        '7'
    } else if d == 8 {
        '8'
    } else if d == 9 {
        '9'
    } else if d == 10 {
        'a'
    } else if d == 11 {
        'b'
    } else if d == 12 {
        'c'
    } else if d == 13 {
        'd'
    } else if d == 14 {
        'e'
    } else {
        'f'
    }
}

/// The decimal digits of `n`, most significant first, without leading zeros.
pub open spec fn decimal_text(n: nat) -> Seq<char>
    decreases n,
{
    if n < 10 {
        seq![digit_char(n as int)]
    } else {
        decimal_text(n / 10).push(digit_char((n % 10) as int))
    }
}

/// `count` zeros.
pub open spec fn zeros(count: int) -> Seq<char> {
    Seq::new(
        if count > 0 {
            count as nat
        } else {
            0
        },
        |i: int| '0',
    )
}

/// The decimal digits of `n`, padded with zeros on the left to `width` characters.
pub open spec fn padded_decimal(n: nat, width: int) -> Seq<char> {
    zeros(width - decimal_text(n).len()) + decimal_text(n)
}

/// The last `count` hexadecimal digits of `n`, most significant first.
pub open spec fn hex_text(n: nat, count: nat) -> Seq<char>
    decreases count,
{
    if count == 0 {
        Seq::empty()
    } else {
        hex_text(n / 16, (count - 1) as nat).push(digit_char((n % 16) as int))
    }
}

/// The character of the digit `d`.
pub fn digit(d: u8) -> (c: char)
    requires
        d < 16,
    ensures
        c == digit_char(d as int),
{
    if d == 0 {
        '0'
    } else if d == 1 {
        '1'
    } else if d == 2 {
        '2'
    } else if d == 3 {
        '3'
    } else if d == 4 {
        '4'
    } else if d == 5 {
        '5'
    } else if d == 6 {
        '6'
    } else if d == 7 {
        '7'
    } else if d == 8 {
        '8'
    } else if d == 9 {
        '9'
    } else if d == 10 {
        'a'
    } else if d == 11 {
        'b'
    } else if d == 12 {
        'c'
    } else if d == 13 {
        'd'
    } else if d == 14 {
        'e'
    } else {
        'f'
    }
}

/// Appends the decimal digits of `n` to `out`.
pub fn push_decimal(out: &mut Vec<char>, n: u64)
    ensures
        final(out)@ == old(out)@ + decimal_text(n as nat),
    decreases n,
{
    if n < 10 {
        out.push(digit(n as u8));
    } else {
        push_decimal(out, n / 10);
        out.push(digit((n % 10) as u8));
    }
}

/// The decimal digits of `n`.
pub fn decimal(n: u64) -> (out: String)
    ensures
        out@ == decimal_text(n as nat),
{
    let mut v: Vec<char> = Vec::new();
    push_decimal(&mut v, n);
    string_of(&v)
}

/// Appends the decimal digits of `n`, padded with zeros to `width` characters.
pub fn push_padded_decimal(out: &mut Vec<char>, n: u64, width: usize)
    ensures
        final(out)@ == old(out)@ + padded_decimal(n as nat, width as int),
{
    let mut digits: Vec<char> = Vec::new();
    push_decimal(&mut digits, n);
    let mut k: usize = digits.len();
    while k < width
        invariant
            digits.len() <= k,
            k <= width || k == digits.len(),
            out@ == old(out)@ + zeros(k - digits.len()),
        decreases width - k,
    {
        out.push('0');
        k = k + 1;
    }
    append_chars(out, &digits);
}

/// Appends the last `count` hexadecimal digits of `n` to `out`.
pub fn push_hex(out: &mut Vec<char>, n: u64, count: usize)
    ensures
        final(out)@ == old(out)@ + hex_text(n as nat, count as nat),
    decreases count,
{
    if count == 0 {
    } else {
        push_hex(out, n / 16, count - 1);
        out.push(digit((n % 16) as u8));
    }
}

/// The value of a decimal digit character.
pub open spec fn digit_value(c: char) -> Option<int> {
    if '0' <= c && c <= '9' {
        Some((c as u8) - ('0' as u8))
    } else {
        None
    }
}

/// The number that the first `upto` characters of `s` spell in decimal, where
/// they are all digits and the number fits in 64 bits.
pub open spec fn digits_value(s: Seq<char>, upto: int) -> Option<int>
    decreases upto,
{
    if upto <= 0 {
        Some(0)
    } else if upto > s.len() {
        None
    } else {
        match (digits_value(s, upto - 1), digit_value(s[upto - 1])) {
            (Some(high), Some(d)) => if high * 10 + d <= u64::MAX {
                Some(high * 10 + d)
            } else {
                None
            },
            _ => None,
        }
    }
}

/// The number that `s` spells: one or more decimal digits, optionally after
/// a `+` sign, with a value that fits in 64 bits.
pub open spec fn unsigned_value(s: Seq<char>) -> Option<int> {
    if s.len() > 0 && s[0] == '+' {
        if s.len() > 1 {
            digits_value(s.subrange(1, s.len() as int), s.len() - 1)
        } else {
            None
        }
    } else if s.len() > 0 {
        digits_value(s, s.len() as int)
    } else {
        None
    }
}

/// Reads digits from `from` to the end of `v`.
fn parse_digits(v: &Vec<char>, from: usize) -> (r: Option<u64>)
    requires
        from <= v.len(),
    ensures
        match r {
            Some(n) => digits_value(v@.subrange(from as int, v.len() as int), v.len() - from)
                == Some(n as int),
            None => digits_value(v@.subrange(from as int, v.len() as int), v.len() - from)
                is None,
        },
{
    let ghost s = v@.subrange(from as int, v.len() as int);
    let mut acc: u64 = 0;
    let mut i: usize = from;
    while i < v.len()
        invariant
            from <= i <= v.len(),
            s == v@.subrange(from as int, v.len() as int),
            digits_value(s, i - from) == Some(acc as int),
        decreases v.len() - i,
    {
        let c = v[i];
        if !('0' <= c && c <= '9') {
            proof {
                lemma_digits_value_prefix(s, i - from + 1, v.len() - from);
            }
            return None;
        }
        let d: u64 = ((c as u8) - ('0' as u8)) as u64;
        if acc > (u64::MAX - d) / 10 {
            proof {
                lemma_digits_value_prefix(s, i - from + 1, v.len() - from);
            }
            return None;
        }
        acc = acc * 10 + d;
        i = i + 1;
    }
    Some(acc)
}

/// Once a prefix fails to spell a number, every longer prefix fails too.
pub proof fn lemma_digits_value_prefix(s: Seq<char>, short: int, long: int)
    requires
        0 <= short <= long,
        digits_value(s, short) is None,
    ensures
        digits_value(s, long) is None,
    decreases long - short,
{
    if short < long {
        lemma_digits_value_prefix(s, short, long - 1);
    }
}

/// Reads an unsigned decimal number.
pub fn parse_unsigned(v: &Vec<char>) -> (r: Option<u64>)
    ensures
        match r {
            Some(n) => unsigned_value(v@) == Some(n as int),
            None => unsigned_value(v@) is None,
        },
{
    if v.len() > 0 && v[0] == '+' {
        if v.len() > 1 {
            parse_digits(v, 1)
        } else {
            None
        }
    } else if v.len() > 0 {
        assert(v@.subrange(0, v.len() as int) =~= v@);
        parse_digits(v, 0)
    } else {
        None
    }
}

// ---------------------------------------------------------------------------
// Clipping
// ---------------------------------------------------------------------------

/// The text cut to `max` characters, with `...` appended where anything was cut.
pub open spec fn clipped(s: Seq<char>, max: int) -> Seq<char> {
    if 0 <= max < s.len() {
        s.subrange(0, max) + "..."@
    } else {
        s
    }
}

/// Cuts a buffer to `max` characters and marks the cut with `...`.
pub fn clip(v: &Vec<char>, max: usize) -> (out: Vec<char>)
    ensures
        out@ == clipped(v@, max as int),
{
    if max < v.len() {
        let mut out = slice_of(v, 0, max);
        append_str(&mut out, "...");
        out
    } else {
        let out = slice_of(v, 0, v.len());
        out
    }
}

/// The first `max` characters of a text, or all of it where it has no more.
pub open spec fn truncated(s: Seq<char>, max: int) -> Seq<char> {
    if 0 <= max < s.len() {
        s.subrange(0, max)
    } else {
        s
    }
}

/// The first `max` characters of a string, or all of it where it has no
/// more.
pub fn truncate_to(input: &str, max: usize) -> (out: String)
    ensures
        out@ == truncated(input@, max as int),
{
    let v = chars_of(input);
    if max < v.len() {
        string_of(&slice_of(&v, 0, max))
    } else {
        input.to_string()
    }
}

/// Cuts a string to `max` characters and marks the cut with `...`.
pub fn truncate_chars(input: &str, max_chars: usize) -> (out: String)
    ensures
        out@ == clipped(input@, max_chars as int),
{
    let v = chars_of(input);
    let cut = clip(&v, max_chars);
    string_of(&cut)
}

// ---------------------------------------------------------------------------
// Prefixes, last fields, identifiers
// ---------------------------------------------------------------------------

/// What follows `prefix`, where the text starts with it.
pub open spec fn without_prefix(s: Seq<char>, prefix: Seq<char>) -> Option<Seq<char>> {
    if starts_with(s, prefix) {
        Some(s.subrange(prefix.len() as int, s.len() as int))
    } else {
        None
    }
}

/// What follows `prefix`, where the buffer starts with it.
pub fn strip_prefix(v: &Vec<char>, prefix: &Vec<char>) -> (out: Option<Vec<char>>)
    ensures
        match out {
            Some(rest) => without_prefix(v@, prefix@) == Some(rest@),
            None => without_prefix(v@, prefix@) is None,
        },
{
    if has_prefix(v, prefix) {
        Some(slice_of(v, prefix.len(), v.len()))
    } else {
        None
    }
}

/// Where the field after the last `sep` in the first `upto` characters starts.
pub open spec fn last_field_start(s: Seq<char>, sep: char, upto: int) -> int
    decreases upto,
{
    if upto <= 0 || upto > s.len() {
        0
    } else if s[upto - 1] == sep {
        upto
    } else {
        last_field_start(s, sep, upto - 1)
    }
}

/// What follows the last `sep`, or the whole text where it holds none.
pub open spec fn last_field(s: Seq<char>, sep: char) -> Seq<char> {
    s.subrange(last_field_start(s, sep, s.len() as int), s.len() as int)
}

/// What follows the last `sep` in the buffer.
pub fn after_last(v: &Vec<char>, sep: char) -> (out: Vec<char>)
    ensures
        out@ == last_field(v@, sep),
{
    let mut k: usize = v.len();
    while k > 0 && v[k - 1] != sep
        invariant
            k <= v.len(),
            last_field_start(v@, sep, v.len() as int) == last_field_start(v@, sep, k as int),
        decreases k,
    {
        k = k - 1;
    }
    slice_of(v, k, v.len())
}

/// The number an identifier ends in: what follows `prefix` read as an
/// unsigned decimal number, or zero where the identifier has another shape.
pub open spec fn numbered(id: Seq<char>, prefix: Seq<char>) -> nat {
    match without_prefix(id, prefix) {
        Some(rest) => match unsigned_value(rest) {
            Some(n) => n as nat,
            None => 0,
        },
        None => 0,
    }
}

/// The number an identifier ends in.
pub fn number_of(id: &str, prefix: &str) -> (n: u64)
    ensures
        n == numbered(id@, prefix@),
{
    match strip_prefix(&chars_of(id), &chars_of(prefix)) {
        Some(rest) => match parse_unsigned(&rest) {
            Some(n) => n,
            None => 0,
        },
        None => 0,
    }
}

/// The identifier `prefix` followed by `n` in at least six decimal digits.
pub open spec fn numbered_id(prefix: Seq<char>, n: nat) -> Seq<char> {
    prefix + padded_decimal(n, 6)
}

/// The identifier `prefix` followed by `n` in at least six decimal digits.
pub fn make_id(prefix: &str, n: u64) -> (id: String)
    ensures
        id@ == numbered_id(prefix@, n as nat),
{
    let mut v = chars_of(prefix);
    push_padded_decimal(&mut v, n, 6);
    string_of(&v)
}

// ---------------------------------------------------------------------------
// Dictionary order
// ---------------------------------------------------------------------------

/// Whether `a` comes before `b` in dictionary order by character value,
/// given that they agree on their first `from` characters.
pub open spec fn lex_less(a: Seq<char>, b: Seq<char>, from: int) -> bool
    decreases a.len() - from,
{
    if from < 0 || from >= a.len() {
        0 <= from < b.len()
    } else if from >= b.len() {
        false
    } else if a[from] != b[from] {
        (a[from] as u32) < (b[from] as u32)
    } else {
        lex_less(a, b, from + 1)
    }
}

/// Whether two texts hold the same characters at their first `upto` positions.
pub open spec fn agree_upto(a: Seq<char>, b: Seq<char>, upto: int) -> bool {
    upto <= a.len() && upto <= b.len() && forall|k: int| 0 <= k < upto ==> a[k] == b[k]
}

/// Dictionary order decides between any two texts: of two different texts
/// one comes before the other, and never both ways.
pub proof fn lemma_lex_less_decides(a: Seq<char>, b: Seq<char>, from: int)
    requires
        0 <= from,
        agree_upto(a, b, from),
    ensures
        a == b || lex_less(a, b, from) || lex_less(b, a, from),
        !(lex_less(a, b, from) && lex_less(b, a, from)),
        a == b ==> !lex_less(a, b, from),
    decreases a.len() - from,
{
    if from < a.len() && from < b.len() && a[from] == b[from] {
        lemma_lex_less_decides(a, b, from + 1);
    } else if from >= a.len() && from >= b.len() {
        assert(a =~= b);
    } else if from < a.len() && from < b.len() {
        vstd::utf8::char_u32_cast(a[from], a[from] as u32);
        vstd::utf8::char_u32_cast(b[from], b[from] as u32);
    }
}

/// Dictionary order is transitive.
pub proof fn lemma_lex_less_chains(a: Seq<char>, b: Seq<char>, c: Seq<char>, from: int)
    requires
        0 <= from,
        agree_upto(a, b, from),
        agree_upto(b, c, from),
        lex_less(a, b, from),
        lex_less(b, c, from),
    ensures
        lex_less(a, c, from),
    decreases a.len() - from,
{
    if from < a.len() && from < b.len() && from < c.len() && a[from] == b[from] && b[from] == c[from] {
        lemma_lex_less_chains(a, b, c, from + 1);
    }
}

/// Whether `a` comes before `b` in dictionary order by character value.
pub fn text_less(a: &Vec<char>, b: &Vec<char>) -> (r: bool)
    ensures
        r == lex_less(a@, b@, 0),
{
    let mut i: usize = 0;
    while i < a.len() && i < b.len()
        invariant
            i <= a.len(),
            i <= b.len(),
            lex_less(a@, b@, 0) == lex_less(a@, b@, i as int),
        decreases a.len() - i,
    {
        if a[i] != b[i] {
            return (a[i] as u32) < (b[i] as u32);
        }
        i = i + 1;
    }
    i < b.len()
}

// ---------------------------------------------------------------------------
// Reading back what was written
// ---------------------------------------------------------------------------

/// Whether every character is a decimal digit.
pub open spec fn all_digits(s: Seq<char>) -> bool {
    forall|i: int| 0 <= i < s.len() ==> digit_value(#[trigger] s[i]) is Some
}

/// Only the first `upto` characters matter to `digits_value`.
pub proof fn lemma_digits_value_of_prefix(s: Seq<char>, t: Seq<char>, upto: int)
    requires
        0 <= upto <= s.len(),
        upto <= t.len(),
        s.subrange(0, upto) == t.subrange(0, upto),
    ensures
        digits_value(s, upto) == digits_value(t, upto),
    decreases upto,
{
    if upto > 0 {
        assert(s.subrange(0, upto - 1) =~= s.subrange(0, upto).subrange(0, upto - 1));
        assert(t.subrange(0, upto - 1) =~= t.subrange(0, upto).subrange(0, upto - 1));
        lemma_digits_value_of_prefix(s, t, upto - 1);
        assert(s[upto - 1] == s.subrange(0, upto)[upto - 1]);
    }
}

/// The decimal text of a number is made of digits and reads back as the number.
pub proof fn lemma_decimal_text_reads_back(n: nat)
    requires
        n <= u64::MAX,
    ensures
        decimal_text(n).len() >= 1,
        all_digits(decimal_text(n)),
        digits_value(decimal_text(n), decimal_text(n).len() as int) == Some(n as int),
    decreases n,
{
    let s = decimal_text(n);
    if n < 10 {
        assert(digits_value(s, 0) == Some(0int));
    } else {
        let t = decimal_text(n / 10);
        lemma_decimal_text_reads_back(n / 10);
        assert(s.subrange(0, t.len() as int) =~= t.subrange(0, t.len() as int));
        lemma_digits_value_of_prefix(s, t, t.len() as int);
    }
}

/// Zeros in front do not change what a text of digits reads as.
pub proof fn lemma_leading_zeros_read_back(count: int, s: Seq<char>, upto: int)
    requires
        0 <= count,
        0 <= upto <= s.len(),
    ensures
        digits_value(zeros(count) + s, count + upto) == (if upto == 0 {
            Some(0int)
        } else {
            digits_value(s, upto)
        }),
    decreases count + upto,
{
    let z = zeros(count) + s;
    if upto == 0 {
        if count > 0 {
            lemma_leading_zeros_read_back(count - 1, s, 0);
            assert((zeros(count - 1) + s).subrange(0, count - 1) =~= z.subrange(0, count - 1));
            lemma_digits_value_of_prefix(zeros(count - 1) + s, z, count - 1);
        }
    } else {
        lemma_leading_zeros_read_back(count, s, upto - 1);
    }
}

/// A number padded with zeros is made of digits and reads back as the number.
pub proof fn lemma_padded_decimal_reads_back(n: nat, width: int)
    requires
        n <= u64::MAX,
    ensures
        padded_decimal(n, width).len() >= 1,
        all_digits(padded_decimal(n, width)),
        unsigned_value(padded_decimal(n, width)) == Some(n as int),
{
    let s = decimal_text(n);
    lemma_decimal_text_reads_back(n);
    let count = if width - s.len() > 0 {
        width - s.len()
    } else {
        0
    };
    lemma_leading_zeros_read_back(count, s, s.len() as int);
}

/// The last field of `head` followed by a text of digits is that text,
/// where `head` ends in the separator `-`.
pub proof fn lemma_last_field_of_digits(head: Seq<char>, digits: Seq<char>, upto: int)
    requires
        head.len() > 0,
        head[head.len() - 1] == '-',
        all_digits(digits),
        head.len() <= upto <= head.len() + digits.len(),
    ensures
        last_field_start(head + digits, '-', upto) == head.len(),
    decreases upto,
{
    if upto > head.len() {
        lemma_last_field_of_digits(head, digits, upto - 1);
    }
}

// ---------------------------------------------------------------------------
// Splitting
// ---------------------------------------------------------------------------

/// The first position at or after `from` that holds `sep`, or the length of
/// the text where there is none.
pub open spec fn next_sep(s: Seq<char>, sep: char, from: int) -> int
    decreases s.len() - from,
{
    if from < 0 || from >= s.len() {
        s.len() as int
    } else if s[from] == sep {
        from
    } else {
        next_sep(s, sep, from + 1)
    }
}

/// The pieces of the text from `from` on, cut at every `sep`. A text
/// without `sep` is one piece; a text that ends in `sep` ends in an empty
/// piece.
pub open spec fn split_from(s: Seq<char>, sep: char, from: int) -> Seq<Seq<char>>
    decreases s.len() - from,
{
    if from < 0 || from > s.len() {
        Seq::empty()
    } else {
        let end = next_sep(s, sep, from);
        if end < from || end >= s.len() {
            seq![s.subrange(from, s.len() as int)]
        } else {
            seq![s.subrange(from, end)] + split_from(s, sep, end + 1)
        }
    }
}

/// The pieces of the text, cut at every `sep`.
pub open spec fn split(s: Seq<char>, sep: char) -> Seq<Seq<char>> {
    split_from(s, sep, 0)
}

/// Where no character from `from` on is `sep`, the search for it runs to
/// the end of the text.
pub proof fn lemma_next_sep_without(s: Seq<char>, sep: char, from: int)
    requires
        0 <= from <= s.len(),
        forall|k: int| from <= k < s.len() ==> s[k] != sep,
    ensures
        next_sep(s, sep, from) == s.len(),
    decreases s.len() - from,
{
    if from < s.len() {
        lemma_next_sep_without(s, sep, from + 1);
    }
}

/// The search for `sep` stops at its first occurrence.
pub proof fn lemma_next_sep_at(s: Seq<char>, sep: char, from: int, at: int)
    requires
        0 <= from <= at < s.len(),
        s[at] == sep,
        forall|k: int| from <= k < at ==> s[k] != sep,
    ensures
        next_sep(s, sep, from) == at,
    decreases at - from,
{
    if from < at {
        lemma_next_sep_at(s, sep, from + 1, at);
    }
}

/// The position of the next `sep` at or after `from`.
pub fn find_sep(v: &Vec<char>, sep: char, from: usize) -> (end: usize)
    requires
        from <= v.len(),
    ensures
        end == next_sep(v@, sep, from as int),
        from <= end <= v.len(),
{
    let mut i: usize = from;
    while i < v.len() && v[i] != sep
        invariant
            from <= i <= v.len(),
            next_sep(v@, sep, from as int) == next_sep(v@, sep, i as int),
        decreases v.len() - i,
    {
        i = i + 1;
    }
    i
}

/// Cuts the buffer at every `sep`.
pub fn split_on(v: &Vec<char>, sep: char) -> (out: Vec<Vec<char>>)
    ensures
        buffers(out@) == split(v@, sep),
        out.len() >= 1,
{
    let mut out: Vec<Vec<char>> = Vec::new();
    let mut from: usize = 0;
    loop
        invariant_except_break
            from <= v.len(),
            split(v@, sep) == buffers(out@) + split_from(v@, sep, from as int),
        ensures
            buffers(out@) == split(v@, sep),
            out.len() >= 1,
        decreases v.len() - from,
    {
        let end = find_sep(v, sep, from);
        let piece = slice_of(v, from, end);
        out.push(piece);
        if end >= v.len() {
            break ;
        }
        from = end + 1;
    }
    out
}

// ---------------------------------------------------------------------------
// Words and keywords
// ---------------------------------------------------------------------------

/// The first position at or after `from` that holds white space, or the
/// length of the text.
pub open spec fn word_end(s: Seq<char>, from: int) -> int
    decreases s.len() - from,
{
    if 0 <= from < s.len() && !is_space(s[from]) {
        word_end(s, from + 1)
    } else {
        from
    }
}

/// The first word at or after `from`: the longest run of characters that
/// are no white space, or `None` where only white space follows.
pub open spec fn first_word(s: Seq<char>, from: int) -> Option<Seq<char>> {
    let a = skip_spaces(s, from);
    if 0 <= a < s.len() {
        Some(s.subrange(a, word_end(s, a)))
    } else {
        None
    }
}

/// The words of the text from `from` on, in order.
pub open spec fn words_from(s: Seq<char>, from: int) -> Seq<Seq<char>>
    decreases s.len() - from,
{
    let a = skip_spaces(s, from);
    if from <= a < s.len() {
        let b = word_end(s, a);
        if a < b <= s.len() {
            seq![s.subrange(a, b)] + words_from(s, b)
        } else {
            Seq::empty()
        }
    } else {
        Seq::empty()
    }
}

/// The words of the text: its pieces between runs of white space.
pub open spec fn words(s: Seq<char>) -> Seq<Seq<char>> {
    words_from(s, 0)
}

/// The bounds of the first word at or after `from`.
pub fn next_word(v: &Vec<char>, from: usize) -> (r: Option<(usize, usize)>)
    requires
        from <= v.len(),
    ensures
        match r {
            Some((a, b)) => {
                &&& a == skip_spaces(v@, from as int)
                &&& b == word_end(v@, a as int)
                &&& from <= a < b <= v.len()
            },
            None => !(0 <= skip_spaces(v@, from as int) < v.len()),
        },
{
    let mut a: usize = from;
    while a < v.len() && char_is_space(v[a])
        invariant
            from <= a <= v.len(),
            skip_spaces(v@, from as int) == skip_spaces(v@, a as int),
        decreases v.len() - a,
    {
        a = a + 1;
    }
    if a >= v.len() {
        return None;
    }
    let mut b: usize = a;
    while b < v.len() && !char_is_space(v[b])
        invariant
            a <= b <= v.len(),
            word_end(v@, a as int) == word_end(v@, b as int),
        decreases v.len() - b,
    {
        b = b + 1;
    }
    Some((a, b))
}

/// The words of the buffer.
pub fn split_words(v: &Vec<char>) -> (out: Vec<Vec<char>>)
    ensures
        buffers(out@) == words(v@),
{
    let mut out: Vec<Vec<char>> = Vec::new();
    let mut from: usize = 0;
    loop
        invariant_except_break
            from <= v.len(),
            words(v@) == buffers(out@) + words_from(v@, from as int),
        ensures
            buffers(out@) == words(v@),
        decreases v.len() - from,
    {
        match next_word(v, from) {
            None => {
                break ;
            },
            Some((a, b)) => {
                let piece = slice_of(v, a, b);
                out.push(piece);
                from = b;
            },
        }
    }
    out
}

/// Whether `c` is one of the characters of `set`.
pub open spec fn in_set(set: Seq<char>, c: char) -> bool {
    set.contains(c)
}

/// The first position at or after `from` that holds no character of `set`.
pub open spec fn skip_set(s: Seq<char>, set: Seq<char>, from: int) -> int
    decreases s.len() - from,
{
    if 0 <= from < s.len() && in_set(set, s[from]) {
        skip_set(s, set, from + 1)
    } else {
        from
    }
}

/// The end of the text once trailing characters of `set` are dropped,
/// never below `floor`.
pub open spec fn drop_set(s: Seq<char>, set: Seq<char>, floor: int, end: int) -> int
    decreases end - floor,
{
    if floor < end <= s.len() && in_set(set, s[end - 1]) {
        drop_set(s, set, floor, end - 1)
    } else {
        end
    }
}

/// The text without leading and trailing characters of `set`.
pub open spec fn strip_set(s: Seq<char>, set: Seq<char>) -> Seq<char> {
    let a = skip_set(s, set, 0);
    s.subrange(a, drop_set(s, set, a, s.len() as int))
}

/// Whether `c` is one of the characters of `set`.
pub fn set_has(set: &Vec<char>, c: char) -> (r: bool)
    ensures
        r == in_set(set@, c),
{
    let mut i: usize = 0;
    while i < set.len()
        invariant
            i <= set.len(),
            forall|k: int| 0 <= k < i ==> set@[k] != c,
        decreases set.len() - i,
    {
        if set[i] == c {
            return true;
        }
        i = i + 1;
    }
    false
}

/// The buffer without leading and trailing characters of `set`.
pub fn stripped(v: &Vec<char>, set: &Vec<char>) -> (out: Vec<char>)
    ensures
        out@ == strip_set(v@, set@),
{
    let mut a: usize = 0;
    while a < v.len() && set_has(set, v[a])
        invariant
            a <= v.len(),
            skip_set(v@, set@, 0) == skip_set(v@, set@, a as int),
        decreases v.len() - a,
    {
        a = a + 1;
    }
    let mut b: usize = v.len();
    while a < b && set_has(set, v[b - 1])
        invariant
            a <= b <= v.len(),
            drop_set(v@, set@, a as int, v.len() as int) == drop_set(v@, set@, a as int, b as int),
        decreases b - a,
    {
        b = b - 1;
    }
    slice_of(v, a, b)
}

/// What follows the first occurrence of `keyword` in the text, where case
/// is ignored for ASCII letters; `None` where the keyword does not occur.
pub open spec fn after_keyword(s: Seq<char>, keyword: Seq<char>) -> Option<Seq<char>> {
    match find(lower(s), lower(keyword)) {
        Some(at) => Some(s.subrange(at + keyword.len(), s.len() as int)),
        None => None,
    }
}

/// What follows the first occurrence of `keyword`, case ignored.
pub fn slice_after_case_insensitive(haystack: &Vec<char>, needle: &str) -> (out: Option<Vec<char>>)
    ensures
        match out {
            Some(rest) => after_keyword(haystack@, needle@) == Some(rest@),
            None => after_keyword(haystack@, needle@) is None,
        },
{
    let low = to_lower(haystack);
    let key = to_lower(&chars_of(needle));
    match find_chars(&low, &key) {
        Some(at) => Some(slice_of(haystack, at + key.len(), haystack.len())),
        None => None,
    }
}

/// Whether the text holds `keyword`, case ignored for the text. The
/// keyword is taken as it is.
pub open spec fn mentions(s: Seq<char>, keyword: Seq<char>) -> bool {
    contains(lower(s), keyword)
}

/// Whether the buffer holds `keyword`, case ignored for the buffer.
pub fn has_keyword(v: &Vec<char>, keyword: &str) -> (r: bool)
    ensures
        r == mentions(v@, keyword@),
{
    has_substring(&to_lower(v), &chars_of(keyword))
}

// ---------------------------------------------------------------------------
// Lines
// ---------------------------------------------------------------------------

/// A line without the carriage return it may end in.
pub open spec fn without_return(line: Seq<char>) -> Seq<char> {
    if line.len() > 0 && line.last() == '\r' {
        line.drop_last()
    } else {
        line
    }
}

/// How many lines a text has: one per line feed, and one more where
/// anything follows the last line feed.
pub open spec fn line_count(s: Seq<char>) -> int {
    let pieces = split(s, '\n');
    if pieces.len() > 0 && pieces.last().len() == 0 {
        pieces.len() - 1
    } else {
        pieces.len() as int
    }
}

/// The lines of a text: what stands between line feeds, each without the
/// carriage return it may end in. A line feed at the very end starts no
/// further line.
pub open spec fn lines(s: Seq<char>) -> Seq<Seq<char>> {
    Seq::new(line_count(s) as nat, |i: int| without_return(split(s, '\n')[i]))
}

/// The lines of a buffer.
pub fn lines_of(v: &Vec<char>) -> (out: Vec<Vec<char>>)
    ensures
        buffers(out@) == lines(v@),
{
    let pieces = split_on(v, '\n');
    let count: usize = if pieces[pieces.len() - 1].len() == 0 {
        pieces.len() - 1
    } else {
        pieces.len()
    };
    let mut out: Vec<Vec<char>> = Vec::new();
    let mut i: usize = 0;
    while i < count
        invariant
            i <= count <= pieces.len(),
            out@.len() == i,
            buffers(pieces@) == split(v@, '\n'),
            forall|k: int| 0 <= k < i ==> out@[k]@ == without_return(pieces@[k]@),
        decreases count - i,
    {
        let piece = &pieces[i];
        let end: usize = if piece.len() > 0 && piece[piece.len() - 1] == '\r' {
            piece.len() - 1
        } else {
            piece.len()
        };
        let line = slice_of(piece, 0, end);
        out.push(line);
        i = i + 1;
    }
    assert(buffers(out@) =~= lines(v@));
    out
}

/// The text in upper case, as `str::to_uppercase` maps it.
pub uninterp spec fn uppercased(s: Seq<char>) -> Seq<char>;

/// The text in upper case.
///
/// Trusted: calls `str::to_uppercase`, whose mapping follows the Unicode
/// tables of the standard library; the result is the named text
/// `uppercased(s)`, and nothing else is claimed of it.
#[verifier::external_body]
pub(crate) fn to_upper(s: &str) -> (out: String)
    ensures
        out@ == uppercased(s@),
{
    s.to_uppercase()
}

// ---------------------------------------------------------------------------
// Signed numbers
// ---------------------------------------------------------------------------

/// The decimal text of a signed number.
pub open spec fn signed_decimal_text(n: int) -> Seq<char> {
    if n < 0 {
        "-"@ + decimal_text((-n) as nat)
    } else {
        decimal_text(n as nat)
    }
}

/// The decimal text of a signed number.
pub fn signed_decimal(n: i64) -> (out: String)
    ensures
        out@ == signed_decimal_text(n as int),
{
    if n < 0 {
        let magnitude: u64 = ((-(n + 1)) as u64) + 1;
        let mut v = chars_of("-");
        push_decimal(&mut v, magnitude);
        string_of(&v)
    } else {
        decimal(n as u64)
    }
}

} // verus!
