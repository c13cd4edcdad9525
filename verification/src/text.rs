//! Character sequences: conversion from and to strings, decimal numerals,
//! searching, splitting, joining and trimming.
//!
//! Every function works on `char` vectors and slices, and states its result
//! over `Seq<char>`.

use vstd::prelude::*;
use vstd::std_specs::iter::IteratorSpec;
use vstd::string::StringSliceAdditionalSpecFns;
use vstd::utf8::valid_utf8;

verus! {

/// `String::push` of the standard library: the character is appended, and
/// nothing else changes.
pub assume_specification[ std::string::String::push ](s: &mut std::string::String, c: char)
    ensures
        final(s)@ == old(s)@.push(c),
;

/// `std::str::from_utf8`: the bytes as a string where they are valid UTF-8,
/// nothing where they are not.
#[verifier::external_body]
pub(crate) fn utf8_text(bytes: &[u8]) -> (text: Option<&str>)
    ensures
        match text {
            Some(s) => valid_utf8(bytes@) && s.spec_bytes() == bytes@,
            None => !valid_utf8(bytes@),
        },
{
    std::str::from_utf8(bytes).ok()
}

/// The characters of a string, in order.
pub fn chars_of(s: &str) -> (out: Vec<char>)
    ensures
        out@ == s@,
{
    let mut out: Vec<char> = Vec::new();
    for c in it: s.chars()
        invariant
            it.seq() == s@,
            out@ == s@.subrange(0, it.index() as int),
    {
        out.push(c);
        assert(out@ =~= s@.subrange(0, it.index() + 1));
    }
    assert(out@ =~= s@);
    out
}

/// The string made of the given characters, in order.
pub fn text_of(chars: &[char]) -> (out: String)
    ensures
        out@ == chars@,
{
    let mut out = String::new();
    let mut i: usize = 0;
    while i < chars.len()
        invariant
            i <= chars.len(),
            out@ == chars@.subrange(0, i as int),
        decreases chars.len() - i,
    {
        out.push(chars[i]);
        i += 1;
        assert(out@ =~= chars@.subrange(0, i as int));
    }
    assert(out@ =~= chars@);
    out
}

/// Appends `extra` to `out`.
pub fn push_all(out: &mut Vec<char>, extra: &[char])
    ensures
        final(out)@ == old(out)@ + extra@,
{
    let mut i: usize = 0;
    while i < extra.len()
        invariant
            i <= extra.len(),
            out@ == old(out)@ + extra@.subrange(0, i as int),
        decreases extra.len() - i,
    {
        out.push(extra[i]);
        i += 1;
        assert(out@ =~= old(out)@ + extra@.subrange(0, i as int));
    }
    assert(extra@.subrange(0, extra@.len() as int) =~= extra@);
}

/// Appends the characters of `extra` to `out`.
pub fn push_str(out: &mut Vec<char>, extra: &str)
    ensures
        final(out)@ == old(out)@ + extra@,
{
    let chars = chars_of(extra);
    push_all(out, chars.as_slice());
}

/// The part of `chars` from index `from` up to, not including, index `to`.
pub fn copy_range(chars: &[char], from: usize, to: usize) -> (out: Vec<char>)
    requires
        from <= to <= chars@.len(),
    ensures
        out@ == chars@.subrange(from as int, to as int),
{
    let mut out: Vec<char> = Vec::new();
    let mut i: usize = from;
    while i < to
        invariant
            from <= i <= to <= chars@.len(),
            out@ == chars@.subrange(from as int, i as int),
        decreases to - i,
    {
        out.push(chars[i]);
        i += 1;
        assert(out@ =~= chars@.subrange(from as int, i as int));
    }
    out
}

/// Whether two character slices hold the same sequence.
pub fn same_chars(a: &[char], b: &[char]) -> (same: bool)
    ensures
        same == (a@ == b@),
{
    if a.len() != b.len() {
        return false;
    }
    let mut i: usize = 0;
    while i < a.len()
        invariant
            i <= a.len(),
            a.len() == b.len(),
            a@.subrange(0, i as int) == b@.subrange(0, i as int),
        decreases a.len() - i,
    {
        if a[i] != b[i] {
            return false;
        }
        i += 1;
        assert(a@.subrange(0, i as int) =~= a@.subrange(0, i - 1).push(a@[i - 1]));
        assert(b@.subrange(0, i as int) =~= b@.subrange(0, i - 1).push(b@[i - 1]));
    }
    assert(a@ =~= a@.subrange(0, i as int));
    assert(b@ =~= b@.subrange(0, i as int));
    true
}

/// The character that writes the digit `d`.
pub open spec fn digit_char(d: int) -> char {
    ('0' as u8 + d) as char
}

/// Whether `c` is one of the ten decimal digits.
pub open spec fn is_digit(c: char) -> bool {
    '0' <= c <= '9'
}

/// The decimal numeral of `n`: no sign, and no leading zero but for zero
/// itself.
pub open spec fn decimal(n: nat) -> Seq<char>
    decreases n,
{
    if n < 10 {
        seq![digit_char(n as int)]
    } else {
        decimal(n / 10).push(digit_char((n % 10) as int))
    }
}

/// The decimal numeral of `i`, with a minus sign in front of a negative one.
pub open spec fn signed_decimal(i: int) -> Seq<char> {
    if i < 0 {
        seq!['-'] + decimal((-i) as nat)
    } else {
        decimal(i as nat)
    }
}

/// Whether every character of `s` is a decimal digit.
pub open spec fn all_digits(s: Seq<char>) -> bool {
    forall|i: int| 0 <= i < s.len() ==> is_digit(#[trigger] s[i])
}

/// The number that a sequence of decimal digits writes; the empty sequence
/// writes zero.
pub open spec fn digits_value(s: Seq<char>) -> nat
    decreases s.len(),
{
    if s.len() == 0 {
        0
    } else {
        10 * digits_value(s.drop_last()) + (s.last() as u8 - '0' as u8) as nat
    }
}

/// The reading of `s` as an unsigned decimal number of at most `max`: an
/// optional plus sign, then at least one digit. Anything else, or a number
/// above `max`, reads as nothing.
pub open spec fn unsigned_reading(s: Seq<char>, max: nat) -> Option<nat> {
    let body = if s.len() > 0 && s[0] == '+' {
        s.drop_first()
    } else {
        s
    };
    if body.len() > 0 && all_digits(body) && digits_value(body) <= max {
        Some(digits_value(body))
    } else {
        None
    }
}

/// The reading of `s` as a signed decimal number between `min` and `max`: an
/// optional plus or minus sign, then at least one digit.
pub open spec fn signed_reading(s: Seq<char>, min: int, max: int) -> Option<int> {
    let negative = s.len() > 0 && s[0] == '-';
    let body = if s.len() > 0 && (s[0] == '+' || s[0] == '-') {
        s.drop_first()
    } else {
        s
    };
    let value = if negative {
        -(digits_value(body) as int)
    } else {
        digits_value(body) as int
    };
    if body.len() > 0 && all_digits(body) && min <= value <= max {
        Some(value)
    } else {
        None
    }
}

/// A numeral is never empty and holds digits only.
pub proof fn lemma_decimal_digits(n: nat)
    ensures
        decimal(n).len() > 0,
        all_digits(decimal(n)),
    decreases n,
{
    if n >= 10 {
        lemma_decimal_digits(n / 10);
    }
}

/// The digits of a numeral write the number it was made from.
pub proof fn lemma_decimal_value(n: nat)
    ensures
        digits_value(decimal(n)) == n,
    decreases n,
{
    if n < 10 {
        assert(decimal(n).drop_last() =~= Seq::<char>::empty());
        assert(digits_value(decimal(n).drop_last()) == 0);
    } else {
        lemma_decimal_value(n / 10);
        assert(decimal(n).drop_last() =~= decimal(n / 10));
    }
}

/// Reading the numeral of a number gives the number back.
pub proof fn lemma_signed_round_trip(i: int, min: int, max: int)
    requires
        min <= i <= max,
    ensures
        signed_reading(signed_decimal(i), min, max) == Some(i),
{
    if i < 0 {
        let magnitude = (-i) as nat;
        lemma_decimal_digits(magnitude);
        lemma_decimal_value(magnitude);
        assert(signed_decimal(i).drop_first() =~= decimal(magnitude));
    } else {
        lemma_decimal_digits(i as nat);
        lemma_decimal_value(i as nat);
        assert(is_digit(decimal(i as nat)[0]));
    }
}

/// A numeral holds digits, after a minus sign where the number is negative.
pub proof fn lemma_signed_decimal_chars(i: int, k: int)
    requires
        0 <= k < signed_decimal(i).len(),
    ensures
        is_digit(signed_decimal(i)[k]) || signed_decimal(i)[k] == '-',
{
    if i < 0 {
        lemma_decimal_digits((-i) as nat);
        if k > 0 {
            assert(signed_decimal(i)[k] == decimal((-i) as nat)[k - 1]);
        }
    } else {
        lemma_decimal_digits(i as nat);
    }
}

/// A longer digit sequence writes at least as much as any of its prefixes.
pub proof fn lemma_digits_value_prefix(s: Seq<char>, k: int)
    requires
        0 <= k <= s.len(),
    ensures
        digits_value(s.subrange(0, k)) <= digits_value(s),
    decreases s.len(),
{
    if k == s.len() {
        assert(s.subrange(0, k) =~= s);
    } else {
        lemma_digits_value_prefix(s.drop_last(), k);
        assert(s.drop_last().subrange(0, k) =~= s.subrange(0, k));
    }
}

/// Appends the decimal numeral of `n` to `out`.
pub fn push_decimal(out: &mut Vec<char>, n: u64)
    ensures
        final(out)@ == old(out)@ + decimal(n as nat),
{
    let mut digits: Vec<char> = Vec::new();
    let mut rest: u64 = n;
    // `digits` holds the lowest digits of `n`, the lowest first.
    while rest >= 10
        invariant
            decimal(n as nat) == decimal(rest as nat) + digits@.reverse(),
        decreases rest,
    {
        let d: u8 = (rest % 10) as u8;
        let c: char = (48u8 + d) as char;
        proof {
            let before = digits@;
            let after = digits@.push(c);
            assert(decimal(rest as nat) == decimal((rest / 10) as nat).push(c));
            assert(after.reverse() =~= seq![c] + before.reverse());
            assert(decimal((rest / 10) as nat).push(c) + before.reverse() =~= decimal(
                (rest / 10) as nat,
            ) + after.reverse());
        }
        digits.push(c);
        rest = rest / 10;
    }
    let lead: char = (48u8 + rest as u8) as char;
    out.push(lead);
    assert(decimal(rest as nat) =~= seq![lead]);
    let mut i: usize = digits.len();
    while i > 0
        invariant
            i <= digits.len(),
            out@ == old(out)@ + seq![lead] + digits@.reverse().subrange(
                0,
                digits.len() - i,
            ),
        decreases i,
    {
        i -= 1;
        out.push(digits[i]);
        assert(out@ =~= old(out)@ + seq![lead] + digits@.reverse().subrange(
            0,
            digits.len() - i,
        ));
    }
    assert(digits@.reverse().subrange(0, digits.len() as int) =~= digits@.reverse());
    assert(out@ =~= old(out)@ + decimal(n as nat));
}

/// Appends the decimal numeral of `i` to `out`, with a minus sign in front of
/// a negative one.
pub fn push_signed(out: &mut Vec<char>, i: i64)
    ensures
        final(out)@ == old(out)@ + signed_decimal(i as int),
{
    if i < 0 {
        out.push('-');
        let magnitude: u64 = if i == i64::MIN {
            9223372036854775808u64
        } else {
            (-i) as u64
        };
        push_decimal(out, magnitude);
        assert(out@ =~= old(out)@ + signed_decimal(i as int));
    } else {
        push_decimal(out, i as u64);
    }
}

/// Reads a run of digits as a number of at most `max`.
fn read_digits(s: &[char], from: usize, max: u64) -> (value: Option<u64>)
    requires
        from <= s@.len(),
    ensures
        value == (if from < s@.len() && all_digits(s@.subrange(from as int, s@.len() as int))
            && digits_value(s@.subrange(from as int, s@.len() as int)) <= max {
            Some(digits_value(s@.subrange(from as int, s@.len() as int)) as u64)
        } else {
            None
        }),
{
    let ghost body = s@.subrange(from as int, s@.len() as int);
    if from >= s.len() {
        return None;
    }
    let mut acc: u64 = 0;
    let mut i: usize = from;
    while i < s.len()
        invariant
            from <= i <= s@.len(),
            body == s@.subrange(from as int, s@.len() as int),
            all_digits(body.subrange(0, i - from)),
            acc == digits_value(body.subrange(0, i - from)),
            acc <= max,
        decreases s.len() - i,
    {
        let c = s[i];
        let ghost seen = body.subrange(0, i - from + 1);
        proof {
            assert(seen.drop_last() =~= body.subrange(0, i - from));
            assert(seen.last() == c);
            assert(body[i - from] == c);
        }
        if c < '0' || c > '9' {
            assert(!is_digit(body[i - from]));
            return None;
        }
        let d: u64 = (c as u8 - 48u8) as u64;
        proof {
            lemma_digits_value_prefix(body, i - from + 1);
            assert(digits_value(seen) == 10 * acc + d);
        }
        if d > max || acc > (max - d) / 10 {
            return None;
        }
        acc = acc * 10 + d;
        i += 1;
        assert forall|k: int| 0 <= k < seen.len() implies is_digit(#[trigger] seen[k]) by {
            if k < seen.len() - 1 {
                assert(seen[k] == body.subrange(0, i - from - 1)[k]);
            }
        }
    }
    assert(body.subrange(0, i - from) =~= body);
    Some(acc)
}

/// Reads an unsigned decimal number of at most `max`.
pub fn read_unsigned(s: &[char], max: u64) -> (value: Option<u64>)
    ensures
        match value {
            Some(v) => unsigned_reading(s@, max as nat) == Some(v as nat),
            None => unsigned_reading(s@, max as nat) is None,
        },
{
    let from: usize = if s.len() > 0 && s[0] == '+' {
        1
    } else {
        0
    };
    assert(s@.subrange(1, s@.len() as int) =~= s@.drop_first());
    assert(s@.subrange(0, s@.len() as int) =~= s@);
    read_digits(s, from, max)
}

/// Reads a signed decimal number between `min` and `max`.
pub fn read_signed(s: &[char], min: i64, max: i64) -> (value: Option<i64>)
    ensures
        match value {
            Some(v) => signed_reading(s@, min as int, max as int) == Some(v as int),
            None => signed_reading(s@, min as int, max as int) is None,
        },
{
    let negative = s.len() > 0 && s[0] == '-';
    let from: usize = if s.len() > 0 && (s[0] == '+' || s[0] == '-') {
        1
    } else {
        0
    };
    assert(s@.subrange(1, s@.len() as int) =~= s@.drop_first());
    assert(s@.subrange(0, s@.len() as int) =~= s@);
    // No number of 64 signed bits has a magnitude above 2^63.
    let magnitude = match read_digits(s, from, 9223372036854775808u64) {
        Some(magnitude) => magnitude,
        None => {
            return None;
        },
    };
    let value: i64 = if negative {
        if magnitude == 9223372036854775808u64 {
            i64::MIN
        } else {
            -(magnitude as i64)
        }
    } else {
        if magnitude == 9223372036854775808u64 {
            return None;
        }
        magnitude as i64
    };
    if min <= value && value <= max {
        Some(value)
    } else {
        None
    }
}

/// Whether `pattern` stands in `text` at index `i`.
pub open spec fn occurs_at(text: Seq<char>, pattern: Seq<char>, i: int) -> bool {
    0 <= i && i + pattern.len() <= text.len() && text.subrange(i, i + pattern.len()) == pattern
}

/// The lowest index at or after `from` at which `pattern` stands in `text`.
pub open spec fn first_occurrence(text: Seq<char>, pattern: Seq<char>, from: int) -> Option<int>
    decreases text.len() - from + 1,
{
    if from < 0 || from + pattern.len() > text.len() {
        None
    } else if occurs_at(text, pattern, from) {
        Some(from)
    } else {
        first_occurrence(text, pattern, from + 1)
    }
}

/// What `first_occurrence` finds is an occurrence with none before it, and
/// it finds nothing only where there is none.
pub proof fn lemma_first_occurrence(text: Seq<char>, pattern: Seq<char>, from: int)
    requires
        0 <= from,
    ensures
        match first_occurrence(text, pattern, from) {
            Some(i) => from <= i && occurs_at(text, pattern, i) && forall|j: int|
                from <= j < i ==> !occurs_at(text, pattern, j),
            None => forall|j: int| from <= j ==> !occurs_at(text, pattern, j),
        },
    decreases text.len() - from + 1,
{
    if from + pattern.len() <= text.len() && !occurs_at(text, pattern, from) {
        lemma_first_occurrence(text, pattern, from + 1);
    }
}

/// An occurrence with none between `from` and itself is the first one at
/// or after `from`.
pub proof fn lemma_first_occurrence_at(text: Seq<char>, pattern: Seq<char>, from: int, at: int)
    requires
        0 <= from <= at,
        occurs_at(text, pattern, at),
        forall|j: int| from <= j < at ==> !occurs_at(text, pattern, j),
    ensures
        first_occurrence(text, pattern, from) == Some(at),
    decreases at - from,
{
    if from < at {
        lemma_first_occurrence_at(text, pattern, from + 1, at);
    }
}

/// The pieces of `text` from index `from` on, cut at each occurrence of `sep`
/// as they are met from left to right.
pub open spec fn split_from(text: Seq<char>, sep: Seq<char>, from: int) -> Seq<Seq<char>>
    decreases text.len() - from,
{
    match first_occurrence(text, sep, from) {
        Some(i) => if sep.len() > 0 && from <= i && i + sep.len() <= text.len() {
            seq![text.subrange(from, i)] + split_from(text, sep, i + sep.len())
        } else {
            seq![text.subrange(from, text.len() as int)]
        },
        None => seq![text.subrange(from, text.len() as int)],
    }
}

/// The pieces of `text` between the occurrences of `sep`. A text without
/// `sep`, and any text where `sep` is empty, is one piece; a text of n
/// non-overlapping separators and nothing else is n + 1 empty pieces.
pub open spec fn split(text: Seq<char>, sep: Seq<char>) -> Seq<Seq<char>> {
    split_from(text, sep, 0)
}

/// Splitting gives at least one piece.
pub proof fn lemma_split_nonempty(text: Seq<char>, sep: Seq<char>, from: int)
    ensures
        split_from(text, sep, from).len() >= 1,
{
}

/// The views of a sequence of character vectors.
pub open spec fn rows(v: Seq<Vec<char>>) -> Seq<Seq<char>> {
    v.map_values(|row: Vec<char>| row@)
}

/// All parts one after the other.
pub open spec fn concat(parts: Seq<Seq<char>>) -> Seq<char>
    decreases parts.len(),
{
    if parts.len() == 0 {
        Seq::empty()
    } else {
        concat(parts.drop_last()) + parts.last()
    }
}

/// All parts one after the other, with `sep` between each two neighbours.
pub open spec fn join(parts: Seq<Seq<char>>, sep: Seq<char>) -> Seq<char>
    decreases parts.len(),
{
    if parts.len() == 0 {
        Seq::empty()
    } else if parts.len() == 1 {
        parts[0]
    } else {
        join(parts.drop_last(), sep) + sep + parts.last()
    }
}

/// Whether `pattern` stands in `text` at index `i`.
pub fn matches_at(text: &[char], pattern: &[char], i: usize) -> (found: bool)
    ensures
        found == occurs_at(text@, pattern@, i as int),
{
    if pattern.len() > text.len() || i > text.len() - pattern.len() {
        return false;
    }
    let ghost window = text@.subrange(i as int, i + pattern@.len());
    let mut j: usize = 0;
    while j < pattern.len()
        invariant
            j <= pattern@.len(),
            i + pattern@.len() <= text@.len() <= usize::MAX,
            window == text@.subrange(i as int, i + pattern@.len()),
            window.subrange(0, j as int) == pattern@.subrange(0, j as int),
        decreases pattern.len() - j,
    {
        if text[i + j] != pattern[j] {
            assert(window[j as int] != pattern@[j as int]);
            return false;
        }
        j += 1;
        assert(window.subrange(0, j as int) =~= window.subrange(0, j - 1).push(window[j - 1]));
        assert(pattern@.subrange(0, j as int) =~= pattern@.subrange(0, j - 1).push(
            pattern@[j - 1],
        ));
    }
    assert(window =~= window.subrange(0, j as int));
    assert(pattern@ =~= pattern@.subrange(0, j as int));
    true
}

/// Finds the first occurrence of `pattern` in `text` at or after `from`.
pub fn find(text: &[char], pattern: &[char], from: usize) -> (at: Option<usize>)
    ensures
        match at {
            Some(i) => first_occurrence(text@, pattern@, from as int) == Some(i as int),
            None => first_occurrence(text@, pattern@, from as int) is None,
        },
{
    if pattern.len() > text.len() {
        return None;
    }
    let last: usize = text.len() - pattern.len();
    let mut i: usize = from;
    while i <= last
        invariant
            from <= i,
            last == text@.len() - pattern@.len(),
            first_occurrence(text@, pattern@, from as int) == first_occurrence(
                text@,
                pattern@,
                i as int,
            ),
        decreases last - i,
    {
        if matches_at(text, pattern, i) {
            return Some(i);
        }
        if i == last {
            assert(first_occurrence(text@, pattern@, i + 1) is None);
            return None;
        }
        i += 1;
    }
    None
}

/// Cuts `text` at each occurrence of `sep`; an empty `sep` cuts nowhere.
pub fn split_chars(text: &[char], sep: &[char]) -> (pieces: Vec<Vec<char>>)
    ensures
        rows(pieces@) == split(text@, sep@),
{
    let mut pieces: Vec<Vec<char>> = Vec::new();
    let total: usize = text.len();
    if sep.len() == 0 {
        pieces.push(copy_range(text, 0, total));
        assert(rows(pieces@) =~= seq![text@.subrange(0, total as int)]);
        return pieces;
    }
    let mut pos: usize = 0;
    let mut open: bool = true;
    while open
        invariant
            sep@.len() > 0,
            pos <= text@.len() == total,
            open ==> rows(pieces@) + split_from(text@, sep@, pos as int) == split(text@, sep@),
            !open ==> rows(pieces@) == split(text@, sep@),
        decreases text@.len() - pos + (if open { 1int } else { 0int }),
    {
        let ghost before = rows(pieces@);
        proof {
            lemma_first_occurrence(text@, sep@, pos as int);
        }
        match find(text, sep, pos) {
            Some(i) => {
                let piece = copy_range(text, pos, i);
                pieces.push(piece);
                assert(rows(pieces@) =~= before + seq![text@.subrange(pos as int, i as int)]);
                pos = i + sep.len();
            },
            None => {
                let piece = copy_range(text, pos, text.len());
                pieces.push(piece);
                assert(rows(pieces@) =~= before + seq![
                    text@.subrange(pos as int, text@.len() as int),
                ]);
                open = false;
            },
        }
    }
    pieces
}

/// Writes all parts one after the other, with `sep` between each two
/// neighbours.
pub fn join_chars(parts: &Vec<Vec<char>>, sep: &[char]) -> (out: Vec<char>)
    ensures
        out@ == join(rows(parts@), sep@),
{
    let mut out: Vec<char> = Vec::new();
    let mut i: usize = 0;
    while i < parts.len()
        invariant
            i <= parts.len(),
            out@ == join(rows(parts@).subrange(0, i as int), sep@),
        decreases parts.len() - i,
    {
        let ghost done = rows(parts@).subrange(0, i as int);
        let ghost next = rows(parts@).subrange(0, i + 1);
        assert(next.drop_last() =~= done);
        assert(next.last() == parts@[i as int]@);
        if i > 0 {
            push_all(&mut out, sep);
        }
        push_all(&mut out, parts[i].as_slice());
        assert(out@ =~= join(next, sep@));
        i += 1;
    }
    assert(rows(parts@).subrange(0, i as int) =~= rows(parts@));
    out
}

/// Writes the parts from index `from` on, one after the other.
pub fn concat_chars(parts: &Vec<Vec<char>>, from: usize) -> (out: Vec<char>)
    requires
        from <= parts@.len(),
    ensures
        out@ == concat(rows(parts@).subrange(from as int, parts@.len() as int)),
{
    let mut out: Vec<char> = Vec::new();
    let mut i: usize = from;
    while i < parts.len()
        invariant
            from <= i <= parts.len(),
            out@ == concat(rows(parts@).subrange(from as int, i as int)),
        decreases parts.len() - i,
    {
        let ghost done = rows(parts@).subrange(from as int, i as int);
        let ghost next = rows(parts@).subrange(from as int, i + 1);
        assert(next.drop_last() =~= done);
        assert(next.last() == parts@[i as int]@);
        push_all(&mut out, parts[i].as_slice());
        i += 1;
    }
    out
}

/// Whether `c` is white space: a character with the Unicode property
/// `White_Space`.
pub open spec fn is_space(c: char) -> bool {
    let code = c as u32;
    ||| 0x09 <= code <= 0x0D
    ||| code == 0x20
    ||| code == 0x85
    ||| code == 0xA0
    ||| code == 0x1680
    ||| 0x2000 <= code <= 0x200A
    ||| code == 0x2028
    ||| code == 0x2029
    ||| code == 0x202F
    ||| code == 0x205F
    ||| code == 0x3000
}

/// `s` without the NUL characters at its end.
pub open spec fn without_trailing_nul(s: Seq<char>) -> Seq<char>
    decreases s.len(),
{
    if s.len() > 0 && s.last() as u32 == 0 {
        without_trailing_nul(s.drop_last())
    } else {
        s
    }
}

/// `s` without the white space at its end.
pub open spec fn without_trailing_space(s: Seq<char>) -> Seq<char>
    decreases s.len(),
{
    if s.len() > 0 && is_space(s.last()) {
        without_trailing_space(s.drop_last())
    } else {
        s
    }
}

/// What is left of a buffer's text once its NUL padding, and then the white
/// space before that padding, are taken off its end.
pub open spec fn payload(s: Seq<char>) -> Seq<char> {
    without_trailing_space(without_trailing_nul(s))
}

/// Whether `c` is white space.
pub fn space(c: char) -> (yes: bool)
    ensures
        yes == is_space(c),
{
    let code: u32 = c as u32;
    (0x09 <= code && code <= 0x0D) || code == 0x20 || code == 0x85 || code == 0xA0 || code
        == 0x1680 || (0x2000 <= code && code <= 0x200A) || code == 0x2028 || code == 0x2029
        || code == 0x202F || code == 0x205F || code == 0x3000
}

/// The length of the payload of `s`, which is a prefix of `s`.
pub fn payload_len(s: &[char]) -> (len: usize)
    ensures
        len <= s@.len(),
        s@.subrange(0, len as int) == payload(s@),
{
    let mut end: usize = s.len();
    assert(s@.subrange(0, end as int) =~= s@);
    while end > 0 && s[end - 1] as u32 == 0
        invariant
            end <= s@.len(),
            without_trailing_nul(s@.subrange(0, end as int)) == without_trailing_nul(s@),
        decreases end,
    {
        assert(s@.subrange(0, end as int).drop_last() =~= s@.subrange(0, end - 1));
        end -= 1;
    }
    let ghost unpadded = s@.subrange(0, end as int);
    assert(without_trailing_nul(unpadded) == unpadded);
    while end > 0 && space(s[end - 1])
        invariant
            end <= s@.len(),
            without_trailing_space(s@.subrange(0, end as int)) == without_trailing_space(
                unpadded,
            ),
        decreases end,
    {
        assert(s@.subrange(0, end as int).drop_last() =~= s@.subrange(0, end - 1));
        end -= 1;
    }
    end
}

} // verus!
