//! Character-level text primitives: conversion between strings and character
//! vectors, comparison, substring search, whitespace tokens, lines and
//! unsigned decimal numbers.
//!
//! Every function here works on sequences of `char`, so a position is always
//! a character position, never a byte offset.

use vstd::prelude::*;

verus! {

/// Whether `c` carries the Unicode `White_Space` property.
pub open spec fn is_whitespace(c: char) -> bool {
    let n = c as u32;
    ||| 0x09 <= n <= 0x0D
    ||| n == 0x20
    ||| n == 0x85
    ||| n == 0xA0
    ||| n == 0x1680
    ||| 0x2000 <= n <= 0x200A
    ||| n == 0x2028
    ||| n == 0x2029
    ||| n == 0x202F
    ||| n == 0x205F
    ||| n == 0x3000
}

/// Whether `needle` occurs in `hay` starting at position `at`.
pub open spec fn occurs_at(hay: Seq<char>, needle: Seq<char>, at: int) -> bool {
    &&& 0 <= at
    &&& at + needle.len() <= hay.len()
    &&& hay.subrange(at, at + needle.len()) == needle
}

/// Whether `needle` occurs somewhere in `hay`. The empty sequence occurs in
/// every sequence.
pub open spec fn contains(hay: Seq<char>, needle: Seq<char>) -> bool {
    exists|at: int| occurs_at(hay, needle, at)
}

/// Whether `c` occurs in `s`.
pub open spec fn has_char(s: Seq<char>, c: char) -> bool {
    exists|i: int| 0 <= i < s.len() && s[i] == c
}

/// Position of the first `c` in `s` at or after `from`; `s.len()` when there
/// is none.
pub open spec fn find_char(s: Seq<char>, c: char, from: int) -> int
    decreases s.len() - from,
{
    if from < 0 || from >= s.len() {
        s.len() as int
    } else if s[from] == c {
        from
    } else {
        find_char(s, c, from + 1)
    }
}

/// Position of the last `c` in `s`; `-1` when there is none.
pub open spec fn rfind_char(s: Seq<char>, c: char) -> int
    decreases s.len(),
{
    if s.len() == 0 {
        -1
    } else if s.last() == c {
        s.len() - 1
    } else {
        rfind_char(s.drop_last(), c)
    }
}

/// What follows the last `c` in `s`; all of `s` when `c` does not occur.
pub open spec fn after_last(s: Seq<char>, c: char) -> Seq<char> {
    s.subrange(rfind_char(s, c) + 1, s.len() as int)
}

/// `find_char` stays between `from` and the end, and passes over nothing that
/// is `c`.
pub proof fn lemma_find_char(s: Seq<char>, c: char, from: int)
    requires
        0 <= from <= s.len(),
    ensures
        from <= find_char(s, c, from) <= s.len(),
        find_char(s, c, from) < s.len() ==> s[find_char(s, c, from)] == c,
        forall|j: int| from <= j < find_char(s, c, from) ==> s[j] != c,
    decreases s.len() - from,
{
    if from < s.len() && s[from] != c {
        lemma_find_char(s, c, from + 1);
    }
}

/// `line` without one carriage return at its end, if it has one.
pub open spec fn without_carriage_return(line: Seq<char>) -> Seq<char> {
    if line.len() > 0 && line.last() == '\r' {
        line.drop_last()
    } else {
        line
    }
}

/// The lines of `s` that start at or after `from`. A line ends at a line feed,
/// which is not part of it, nor is a carriage return just before that line
/// feed. What follows the last line feed is a line only if it is not empty.
pub open spec fn lines_from(s: Seq<char>, from: int) -> Seq<Seq<char>>
    decreases s.len() - from,
{
    if from < 0 || from >= s.len() {
        Seq::empty()
    } else {
        let end = find_char(s, '\n', from);
        proof {
            lemma_find_char(s, '\n', from);
        }
        if end < s.len() {
            seq![without_carriage_return(s.subrange(from, end))] + lines_from(s, end + 1)
        } else {
            seq![s.subrange(from, end)]
        }
    }
}

/// The lines of `s`.
pub open spec fn lines(s: Seq<char>) -> Seq<Seq<char>> {
    lines_from(s, 0)
}

/// The pieces of `s` between the occurrences of `c` at or after `from`. There
/// is one piece more than there are occurrences, and a piece may be empty.
pub open spec fn split_from(s: Seq<char>, c: char, from: int) -> Seq<Seq<char>>
    decreases s.len() - from,
{
    if from < 0 || from > s.len() {
        Seq::empty()
    } else {
        let end = find_char(s, c, from);
        proof {
            lemma_find_char(s, c, from);
        }
        if end < s.len() {
            seq![s.subrange(from, end)] + split_from(s, c, end + 1)
        } else {
            seq![s.subrange(from, s.len() as int)]
        }
    }
}

/// The pieces of `s` between the occurrences of `c`.
pub open spec fn split_on(s: Seq<char>, c: char) -> Seq<Seq<char>> {
    split_from(s, c, 0)
}

/// Position of the first occurrence of `needle` in `hay` at or after `from`.
pub open spec fn find_text(hay: Seq<char>, needle: Seq<char>, from: int) -> Option<int>
    decreases hay.len() + 1 - from,
{
    if from < 0 || from + needle.len() > hay.len() {
        None
    } else if occurs_at(hay, needle, from) {
        Some(from)
    } else {
        find_text(hay, needle, from + 1)
    }
}

/// Where the text of `s` ends once the whitespace at its end is dropped.
pub open spec fn trimmed_end(s: Seq<char>) -> int
    decreases s.len(),
{
    if s.len() == 0 {
        0
    } else if !is_whitespace(s.last()) {
        s.len() as int
    } else {
        trimmed_end(s.drop_last())
    }
}

/// `s` without the whitespace at its start and at its end.
pub open spec fn trim(s: Seq<char>) -> Seq<char> {
    let start = skip_whitespace(s, 0);
    let end = trimmed_end(s);
    if start < end {
        s.subrange(start, end)
    } else {
        Seq::empty()
    }
}

/// Whether `s` begins with `prefix`.
pub open spec fn starts_with(s: Seq<char>, prefix: Seq<char>) -> bool {
    occurs_at(s, prefix, 0)
}

/// What is left of `s` from `from` on when every occurrence of `pattern` is
/// taken out, the occurrences being looked for from left to right and not
/// overlapping. An empty pattern takes nothing out.
pub open spec fn remove_from(s: Seq<char>, pattern: Seq<char>, from: int) -> Seq<char>
    decreases s.len() - from,
{
    if from < 0 || from >= s.len() {
        Seq::empty()
    } else if pattern.len() > 0 && occurs_at(s, pattern, from) {
        remove_from(s, pattern, from + pattern.len())
    } else {
        seq![s[from]] + remove_from(s, pattern, from + 1)
    }
}

/// `s` without the occurrences of `pattern`.
pub open spec fn remove_all(s: Seq<char>, pattern: Seq<char>) -> Seq<char> {
    remove_from(s, pattern, 0)
}

/// The texts `parts` written one after the other with `separator` between
/// each two.
pub open spec fn joined(parts: Seq<Seq<char>>, separator: Seq<char>) -> Seq<char>
    decreases parts.len(),
{
    if parts.len() == 0 {
        Seq::empty()
    } else if parts.len() == 1 {
        parts[0]
    } else {
        joined(parts.drop_last(), separator) + separator + parts.last()
    }
}

/// The character that writes the digit `d`.
pub open spec fn digit_char(d: nat) -> char {
    "0123456789"@[d as int]
}

/// The decimal digits that write `n`, without leading zeros.
pub open spec fn decimal(n: nat) -> Seq<char>
    decreases n,
{
    if n < 10 {
        seq![digit_char(n)]
    } else {
        decimal(n / 10).push(digit_char(n % 10))
    }
}

/// First position at or after `from` that holds no whitespace; `s.len()` when
/// only whitespace is left.
pub open spec fn skip_whitespace(s: Seq<char>, from: int) -> int
    decreases s.len() - from,
{
    if from < 0 || from >= s.len() {
        s.len() as int
    } else if !is_whitespace(s[from]) {
        from
    } else {
        skip_whitespace(s, from + 1)
    }
}

/// First position at or after `from` that holds whitespace; `s.len()` when
/// none is left.
pub open spec fn token_end(s: Seq<char>, from: int) -> int
    decreases s.len() - from,
{
    if from < 0 || from >= s.len() {
        s.len() as int
    } else if is_whitespace(s[from]) {
        from
    } else {
        token_end(s, from + 1)
    }
}

/// The maximal runs of non-whitespace characters of `s` that start at or
/// after `from`, in order.
pub open spec fn tokens_from(s: Seq<char>, from: int) -> Seq<Seq<char>>
    decreases s.len() - from,
{
    let start = skip_whitespace(s, from);
    if from < 0 || start >= s.len() {
        Seq::empty()
    } else {
        let end = token_end(s, start);
        proof {
            lemma_skip_whitespace_bounds(s, from);
            lemma_token_end_bounds(s, start);
        }
        seq![s.subrange(start, end)] + tokens_from(s, end)
    }
}

/// The whitespace-separated tokens of `s`: none of them is empty and none
/// holds whitespace.
pub open spec fn split_whitespace(s: Seq<char>) -> Seq<Seq<char>> {
    tokens_from(s, 0)
}

/// `skip_whitespace` never moves backwards nor past the end.
pub proof fn lemma_skip_whitespace_bounds(s: Seq<char>, from: int)
    requires
        0 <= from,
    ensures
        from <= skip_whitespace(s, from) || skip_whitespace(s, from) == s.len(),
        skip_whitespace(s, from) <= s.len(),
        skip_whitespace(s, from) < s.len() ==> !is_whitespace(s[skip_whitespace(s, from)]),
    decreases s.len() - from,
{
    if from < s.len() && is_whitespace(s[from]) {
        lemma_skip_whitespace_bounds(s, from + 1);
    }
}

/// A token that starts on a non-whitespace character is not empty and ends
/// within the sequence.
pub proof fn lemma_token_end_bounds(s: Seq<char>, from: int)
    requires
        0 <= from < s.len(),
        !is_whitespace(s[from]),
    ensures
        from < token_end(s, from) <= s.len(),
    decreases s.len() - from,
{
    assert(token_end(s, from) == token_end(s, from + 1));
    if from + 1 < s.len() && !is_whitespace(s[from + 1]) {
        lemma_token_end_bounds(s, from + 1);
    } else if from + 1 < s.len() {
        assert(token_end(s, from + 1) == from + 1);
    } else {
        assert(token_end(s, from + 1) == s.len());
    }
}

/// Whether `c` is an ASCII decimal digit.
pub open spec fn is_digit(c: char) -> bool {
    '0' <= c <= '9'
}

/// Whether `s` holds decimal digits only.
pub open spec fn all_digits(s: Seq<char>) -> bool {
    forall|i: int| 0 <= i < s.len() ==> is_digit(#[trigger] s[i])
}

/// The value of the decimal digit `c`; `0` for any other character.
pub open spec fn digit_value(c: char) -> nat {
    if is_digit(c) {
        (c as u32 - '0' as u32) as nat
    } else {
        0
    }
}

/// The number that the decimal digits `s` write; `0` for the empty sequence.
pub open spec fn digits_value(s: Seq<char>) -> nat
    decreases s.len(),
{
    if s.len() == 0 {
        0
    } else {
        digits_value(s.drop_last()) * 10 + digit_value(s.last())
    }
}

/// The digits of an unsigned decimal literal: one leading `+` is allowed and
/// dropped.
pub open spec fn without_plus(s: Seq<char>) -> Seq<char> {
    if s.len() > 0 && s[0] == '+' {
        s.drop_first()
    } else {
        s
    }
}

/// The value of `s` read as an unsigned decimal number of at most `max`: an
/// optional `+`, then one or more digits. Anything else, or a larger number,
/// reads as `None`.
pub open spec fn parse_unsigned(s: Seq<char>, max: nat) -> Option<nat> {
    let digits = without_plus(s);
    if digits.len() > 0 && all_digits(digits) && digits_value(digits) <= max {
        Some(digits_value(digits))
    } else {
        None
    }
}

/// The unsigned 16-bit number that `s` writes in decimal.
pub open spec fn unsigned16(s: Seq<char>) -> Option<u16> {
    match parse_unsigned(s, 0xFFFF) {
        Some(n) => Some(n as u16),
        None => None,
    }
}

/// The unsigned 32-bit number that `s` writes in decimal.
pub open spec fn unsigned32(s: Seq<char>) -> Option<u32> {
    match parse_unsigned(s, 0xFFFF_FFFF) {
        Some(n) => Some(n as u32),
        None => None,
    }
}

/// The unsigned 64-bit number that `s` writes in decimal.
pub open spec fn unsigned64(s: Seq<char>) -> Option<u64> {
    match parse_unsigned(s, 0xFFFF_FFFF_FFFF_FFFF) {
        Some(n) => Some(n as u64),
        None => None,
    }
}

/// Executable form of `is_whitespace`.
pub fn char_is_whitespace(c: char) -> (r: bool)
    ensures
        r == is_whitespace(c),
{
    let n: u32 = c as u32;
    (0x09 <= n && n <= 0x0D) || n == 0x20 || n == 0x85 || n == 0xA0 || n == 0x1680 || (0x2000 <= n
        && n <= 0x200A) || n == 0x2028 || n == 0x2029 || n == 0x202F || n == 0x205F || n == 0x3000
}

/// The characters of `s`, in order.
pub fn to_chars(s: &str) -> (out: Vec<char>)
    ensures
        out@ == s@,
{
    let mut out: Vec<char> = Vec::new();
    for c in it: s.chars()
        invariant
            it.seq() == s@,
            out@ == it.seq().take(it.index()),
    {
        out.push(c);
    }
    out
}

/// Whether two character vectors hold the same text.
pub fn chars_equal(a: &Vec<char>, b: &Vec<char>) -> (r: bool)
    ensures
        r == (a@ == b@),
{
    if a.len() != b.len() {
        return false;
    }
    let mut i: usize = 0;
    while i < a.len()
        invariant
            a.len() == b.len(),
            i <= a.len(),
            a@.take(i as int) == b@.take(i as int),
        decreases a.len() - i,
    {
        if a[i] != b[i] {
            return false;
        }
        assert(a@.take(i + 1) == a@.take(i as int).push(a@[i as int]));
        assert(b@.take(i + 1) == b@.take(i as int).push(b@[i as int]));
        i += 1;
    }
    assert(a@ == a@.take(a.len() as int));
    assert(b@ == b@.take(b.len() as int));
    true
}

/// Whether two strings hold the same text.
pub fn same_text(a: &str, b: &str) -> (r: bool)
    ensures
        r == (a@ == b@),
{
    let x = to_chars(a);
    let y = to_chars(b);
    chars_equal(&x, &y)
}

/// Whether `needle` stands in `hay` at position `at`.
pub fn chars_occur_at(hay: &Vec<char>, needle: &Vec<char>, at: usize) -> (r: bool)
    requires
        at + needle.len() <= hay.len(),
    ensures
        r == occurs_at(hay@, needle@, at as int),
{
    let mut k: usize = 0;
    while k < needle.len()
        invariant
            at + needle.len() <= hay.len(),
            k <= needle.len(),
            hay@.subrange(at as int, at + k) == needle@.take(k as int),
        decreases needle.len() - k,
    {
        if hay[at + k] != needle[k] {
            assert(hay@.subrange(at as int, at + needle.len())[k as int] != needle@[k as int]);
            return false;
        }
        assert(hay@.subrange(at as int, at + k + 1) == hay@.subrange(at as int, at + k).push(
            hay@[at + k],
        ));
        assert(needle@.take(k + 1) == needle@.take(k as int).push(needle@[k as int]));
        k += 1;
    }
    assert(needle@ == needle@.take(needle.len() as int));
    true
}

/// Whether `needle` occurs in `hay`.
pub fn chars_contain(hay: &Vec<char>, needle: &Vec<char>) -> (r: bool)
    ensures
        r == contains(hay@, needle@),
{
    if needle.len() > hay.len() {
        return false;
    }
    let last: usize = hay.len() - needle.len();
    let mut at: usize = 0;
    loop
        invariant
            last == hay.len() - needle.len(),
            at <= last,
            forall|j: int| 0 <= j < at ==> !occurs_at(hay@, needle@, j),
        decreases last - at,
    {
        if chars_occur_at(hay, needle, at) {
            return true;
        }
        if at == last {
            return false;
        }
        at += 1;
    }
}

/// Whether the text `needle` occurs in the text `hay`.
pub fn str_contains(hay: &str, needle: &str) -> (r: bool)
    ensures
        r == contains(hay@, needle@),
{
    let h = to_chars(hay);
    let n = to_chars(needle);
    chars_contain(&h, &n)
}

/// Whether `c` occurs in `s`.
pub fn chars_have(s: &Vec<char>, c: char) -> (r: bool)
    ensures
        r == has_char(s@, c),
{
    let mut i: usize = 0;
    while i < s.len()
        invariant
            i <= s.len(),
            forall|j: int| 0 <= j < i ==> s@[j] != c,
        decreases s.len() - i,
    {
        if s[i] == c {
            return true;
        }
        i += 1;
    }
    false
}

/// A copy of the characters of `s` from `from` up to, not including, `to`.
pub fn copy_range(s: &Vec<char>, from: usize, to: usize) -> (out: Vec<char>)
    requires
        from <= to <= s.len(),
    ensures
        out@ == s@.subrange(from as int, to as int),
{
    let mut out: Vec<char> = Vec::new();
    let mut i: usize = from;
    while i < to
        invariant
            from <= i <= to <= s.len(),
            out@ == s@.subrange(from as int, i as int),
        decreases to - i,
    {
        out.push(s[i]);
        assert(s@.subrange(from as int, i + 1) == s@.subrange(from as int, i as int).push(
            s@[i as int],
        ));
        i += 1;
    }
    out
}

/// The whitespace-separated tokens of `s`.
pub fn tokens(s: &Vec<char>) -> (out: Vec<Vec<char>>)
    ensures
        out.deep_view() == split_whitespace(s@),
{
    let mut out: Vec<Vec<char>> = Vec::new();
    let mut i: usize = 0;
    loop
        invariant
            i <= s.len(),
            split_whitespace(s@) == out.deep_view() + tokens_from(s@, i as int),
        decreases s.len() - i,
    {
        let ghost before = i;
        while i < s.len() && char_is_whitespace(s[i])
            invariant
                before <= i <= s.len(),
                skip_whitespace(s@, before as int) == skip_whitespace(s@, i as int),
            decreases s.len() - i,
        {
            i += 1;
        }
        if i >= s.len() {
            assert(tokens_from(s@, before as int) == Seq::<Seq<char>>::empty());
            assert(out.deep_view() + Seq::<Seq<char>>::empty() == out.deep_view());
            return out;
        }
        let start: usize = i;
        while i < s.len() && !char_is_whitespace(s[i])
            invariant
                start <= i <= s.len(),
                token_end(s@, start as int) == token_end(s@, i as int),
            decreases s.len() - i,
        {
            i += 1;
        }
        proof {
            lemma_token_end_bounds(s@, start as int);
        }
        let ghost shown = out.deep_view();
        let token = copy_range(s, start, i);
        assert(token.deep_view() =~= token@);
        out.push(token);
        assert(out.deep_view() =~= shown.push(s@.subrange(start as int, i as int)));
        assert(tokens_from(s@, before as int) == seq![s@.subrange(start as int, i as int)]
            + tokens_from(s@, i as int));
        assert(shown + (seq![s@.subrange(start as int, i as int)] + tokens_from(s@, i as int))
            == shown.push(s@.subrange(start as int, i as int)) + tokens_from(s@, i as int));
    }
}

/// Position of the first `c` in `s` at or after `from`; `s.len()` when there
/// is none.
pub fn chars_find(s: &Vec<char>, c: char, from: usize) -> (at: usize)
    requires
        from <= s.len(),
    ensures
        at == find_char(s@, c, from as int),
        from <= at <= s.len(),
{
    let mut i: usize = from;
    while i < s.len() && s[i] != c
        invariant
            from <= i <= s.len(),
            find_char(s@, c, from as int) == find_char(s@, c, i as int),
        decreases s.len() - i,
    {
        i += 1;
    }
    i
}

/// The lines of `s`, each as its characters. The work grows with the length
/// of `s` alone, however many lines there are.
pub fn chars_lines(s: &Vec<char>) -> (out: Vec<Vec<char>>)
    ensures
        out.deep_view() == lines(s@),
{
    let mut out: Vec<Vec<char>> = Vec::new();
    let mut i: usize = 0;
    while i < s.len()
        invariant
            i <= s.len(),
            lines(s@) == out.deep_view() + lines_from(s@, i as int),
        decreases s.len() - i,
    {
        let end: usize = chars_find(s, '\n', i);
        let ghost shown = out.deep_view();
        if end < s.len() {
            let stop: usize = if end > i && s[end - 1] == '\r' {
                end - 1
            } else {
                end
            };
            let line = copy_range(s, i, stop);
            assert(line@ == without_carriage_return(s@.subrange(i as int, end as int))) by {
                let whole = s@.subrange(i as int, end as int);
                if end > i {
                    assert(whole.last() == s@[end - 1]);
                    assert(whole.drop_last() =~= s@.subrange(i as int, end - 1));
                }
            }
            assert(line.deep_view() =~= line@);
            out.push(line);
            assert(out.deep_view() =~= shown.push(
                without_carriage_return(s@.subrange(i as int, end as int)),
            ));
            assert(shown + (seq![without_carriage_return(s@.subrange(i as int, end as int))]
                + lines_from(s@, end + 1)) =~= shown.push(
                without_carriage_return(s@.subrange(i as int, end as int)),
            ) + lines_from(s@, end + 1));
            i = end + 1;
        } else {
            let line = copy_range(s, i, end);
            assert(line.deep_view() =~= line@);
            out.push(line);
            assert(out.deep_view() =~= shown.push(s@.subrange(i as int, end as int)));
            assert(shown + seq![s@.subrange(i as int, end as int)] =~= shown.push(
                s@.subrange(i as int, end as int),
            ));
            assert(lines_from(s@, s.len() as int) == Seq::<Seq<char>>::empty());
            assert(out.deep_view() + Seq::<Seq<char>>::empty() =~= out.deep_view());
            i = s.len();
        }
    }
    assert(lines_from(s@, s.len() as int) == Seq::<Seq<char>>::empty());
    assert(out.deep_view() + Seq::<Seq<char>>::empty() =~= out.deep_view());
    out
}

/// The lines of `s`.
pub fn text_lines<'a>(s: &'a str) -> (out: Vec<&'a str>)
    ensures
        out.deep_view() == lines(s@),
{
    let chars = to_chars(s);
    let mut out: Vec<&'a str> = Vec::new();
    let mut i: usize = 0;
    while i < chars.len()
        invariant
            chars@ == s@,
            i <= chars.len(),
            lines(s@) == out.deep_view() + lines_from(s@, i as int),
        decreases chars.len() - i,
    {
        let end: usize = chars_find(&chars, '\n', i);
        let ghost shown = out.deep_view();
        if end < chars.len() {
            let stop: usize = if end > i && chars[end - 1] == '\r' {
                end - 1
            } else {
                end
            };
            let line: &'a str = s.substring_char(i, stop);
            assert(line@ == without_carriage_return(s@.subrange(i as int, end as int))) by {
                let whole = s@.subrange(i as int, end as int);
                if end > i {
                    assert(whole.last() == s@[end - 1]);
                    assert(whole.drop_last() =~= s@.subrange(i as int, end - 1));
                }
            }
            out.push(line);
            assert(out.deep_view() =~= shown.push(line@));
            assert(shown + (seq![line@] + lines_from(s@, end + 1)) =~= shown.push(line@)
                + lines_from(s@, end + 1));
            i = end + 1;
        } else {
            let line: &'a str = s.substring_char(i, end);
            out.push(line);
            assert(out.deep_view() =~= shown.push(line@));
            assert(shown + seq![line@] =~= shown.push(line@));
            assert(lines_from(s@, chars.len() as int) == Seq::<Seq<char>>::empty());
            assert(out.deep_view() + Seq::<Seq<char>>::empty() =~= out.deep_view());
            i = chars.len();
        }
    }
    assert(lines_from(s@, chars.len() as int) == Seq::<Seq<char>>::empty());
    assert(out.deep_view() + Seq::<Seq<char>>::empty() =~= out.deep_view());
    out
}

/// The pieces of `s` between the occurrences of `c`.
pub fn split_text<'a>(s: &'a str, c: char) -> (out: Vec<&'a str>)
    ensures
        out.deep_view() == split_on(s@, c),
{
    let chars = to_chars(s);
    let mut out: Vec<&'a str> = Vec::new();
    let mut i: usize = 0;
    loop
        invariant
            chars@ == s@,
            i <= chars.len(),
            split_on(s@, c) == out.deep_view() + split_from(s@, c, i as int),
        decreases chars.len() - i,
    {
        let end: usize = chars_find(&chars, c, i);
        let ghost shown = out.deep_view();
        let piece: &'a str = s.substring_char(i, end);
        out.push(piece);
        assert(out.deep_view() =~= shown.push(piece@));
        if end < chars.len() {
            assert(shown + (seq![piece@] + split_from(s@, c, end + 1)) =~= shown.push(piece@)
                + split_from(s@, c, end + 1));
            i = end + 1;
        } else {
            assert(shown + seq![piece@] =~= shown.push(piece@));
            return out;
        }
    }
}

/// `s` without the whitespace at its start and at its end.
pub fn trim_text<'a>(s: &'a str) -> (out: &'a str)
    ensures
        out@ == trim(s@),
{
    let chars = to_chars(s);
    let mut start: usize = 0;
    while start < chars.len() && char_is_whitespace(chars[start])
        invariant
            start <= chars.len(),
            skip_whitespace(chars@, 0) == skip_whitespace(chars@, start as int),
        decreases chars.len() - start,
    {
        start += 1;
    }
    let mut end: usize = chars.len();
    assert(chars@.take(chars.len() as int) == chars@);
    while end > 0 && char_is_whitespace(chars[end - 1])
        invariant
            end <= chars.len(),
            trimmed_end(chars@) == trimmed_end(chars@.take(end as int)),
        decreases end,
    {
        assert(chars@.take(end as int).last() == chars@[end - 1]);
        assert(chars@.take(end as int).drop_last() == chars@.take(end - 1));
        end -= 1;
    }
    assert(trimmed_end(chars@) == end) by {
        if end > 0 {
            assert(chars@.take(end as int).last() == chars@[end - 1]);
        }
    }
    if start < end {
        s.substring_char(start, end)
    } else {
        let empty: &'a str = s.substring_char(0, 0);
        assert(empty@ =~= Seq::<char>::empty());
        empty
    }
}

/// Position of the first occurrence of `needle` in `hay`.
pub fn chars_find_text(hay: &Vec<char>, needle: &Vec<char>) -> (r: Option<usize>)
    ensures
        r is Some == find_text(hay@, needle@, 0) is Some,
        r matches Some(at) ==> find_text(hay@, needle@, 0) == Some(at as int) && at + needle.len()
            <= hay.len(),
{
    if needle.len() > hay.len() {
        return None;
    }
    let last: usize = hay.len() - needle.len();
    let mut at: usize = 0;
    loop
        invariant
            last == hay.len() - needle.len(),
            at <= last,
            find_text(hay@, needle@, 0) == find_text(hay@, needle@, at as int),
        decreases last - at,
    {
        if chars_occur_at(hay, needle, at) {
            return Some(at);
        }
        if at == last {
            assert(find_text(hay@, needle@, at + 1) is None);
            return None;
        }
        at += 1;
    }
}

/// Whether the characters `hay` are the text `literal`.
pub fn chars_are(hay: &Vec<char>, literal: &str) -> (r: bool)
    ensures
        r == (hay@ == literal@),
{
    let other = to_chars(literal);
    chars_equal(hay, &other)
}

/// What follows the last `c` in `s`; a copy of `s` when `c` does not occur.
pub fn chars_after_last(s: &Vec<char>, c: char) -> (out: Vec<char>)
    ensures
        out@ == after_last(s@, c),
{
    let mut i: usize = s.len();
    assert(s@.take(s.len() as int) == s@);
    while i > 0 && s[i - 1] != c
        invariant
            i <= s.len(),
            rfind_char(s@, c) == rfind_char(s@.take(i as int), c),
        decreases i,
    {
        assert(s@.take(i as int).last() == s@[i - 1]);
        assert(s@.take(i as int).drop_last() == s@.take(i - 1));
        i -= 1;
    }
    assert(rfind_char(s@, c) == i - 1) by {
        if i > 0 {
            assert(s@.take(i as int).last() == s@[i - 1]);
        }
    }
    copy_range(s, i, s.len())
}

/// `digits_value` of a sequence that one digit was appended to.
pub proof fn lemma_digits_value_push(s: Seq<char>, c: char)
    ensures
        digits_value(s.push(c)) == digits_value(s) * 10 + digit_value(c),
{
    assert(s.push(c).drop_last() == s);
}

/// A sequence of digits writes a number no smaller than any of its prefixes.
pub proof fn lemma_digits_value_prefix(s: Seq<char>, n: int)
    requires
        all_digits(s),
        0 <= n <= s.len(),
    ensures
        digits_value(s.take(n)) <= digits_value(s),
    decreases s.len() - n,
{
    if n < s.len() {
        lemma_digits_value_prefix(s, n + 1);
        assert(s.take(n + 1) == s.take(n).push(s[n]));
        lemma_digits_value_push(s.take(n), s[n]);
    } else {
        assert(s.take(n) == s);
    }
}

/// Reads `s` as an unsigned decimal number of at most `max`.
pub fn parse_decimal(s: &Vec<char>, max: u64) -> (r: Option<u64>)
    ensures
        r is Some == parse_unsigned(s@, max as nat) is Some,
        r matches Some(n) ==> parse_unsigned(s@, max as nat) == Some(n as nat),
{
    let first: usize = if s.len() > 0 && s[0] == '+' {
        1
    } else {
        0
    };
    let ghost digits = without_plus(s@);
    assert(digits == s@.subrange(first as int, s.len() as int));
    if first >= s.len() {
        return None;
    }
    let mut acc: u128 = 0;
    let mut i: usize = first;
    while i < s.len()
        invariant
            first <= i <= s.len(),
            digits == without_plus(s@),
            digits == s@.subrange(first as int, s.len() as int),
            all_digits(digits.take(i - first)),
            acc == digits_value(digits.take(i - first)),
            acc <= max,
        decreases s.len() - i,
    {
        let c: char = s[i];
        assert(digits[i - first] == c);
        if !('0' <= c && c <= '9') {
            assert(!is_digit(digits[i - first]));
            return None;
        }
        let d: u128 = (c as u32 - '0' as u32) as u128;
        proof {
            assert(digits.take(i - first + 1) =~= digits.take(i - first).push(c));
            lemma_digits_value_push(digits.take(i - first), c);
            assert(d == digit_value(c));
        }
        acc = acc * 10 + d;
        if acc > max as u128 {
            proof {
                if all_digits(digits) {
                    lemma_digits_value_prefix(digits, i - first + 1);
                }
            }
            return None;
        }
        i += 1;
    }
    assert(digits.take(s.len() - first) == digits);
    Some(acc as u64)
}

/// Reads `s` as an unsigned 16-bit decimal number.
pub fn read_u16(s: &Vec<char>) -> (r: Option<u16>)
    ensures
        r == unsigned16(s@),
{
    match parse_decimal(s, 0xFFFF) {
        Some(n) => Some(n as u16),
        None => None,
    }
}

/// Reads `s` as an unsigned 32-bit decimal number.
pub fn read_u32(s: &Vec<char>) -> (r: Option<u32>)
    ensures
        r == unsigned32(s@),
{
    match parse_decimal(s, 0xFFFF_FFFF) {
        Some(n) => Some(n as u32),
        None => None,
    }
}

/// Reads `s` as an unsigned 64-bit decimal number.
pub fn read_u64(s: &Vec<char>) -> (r: Option<u64>)
    ensures
        r == unsigned64(s@),
{
    parse_decimal(s, 0xFFFF_FFFF_FFFF_FFFF)
}

/// Whether `s` begins with `prefix`.
pub fn chars_start_with(s: &Vec<char>, prefix: &Vec<char>) -> (r: bool)
    ensures
        r == starts_with(s@, prefix@),
{
    if prefix.len() > s.len() {
        return false;
    }
    chars_occur_at(s, prefix, 0)
}

/// Whether the text `s` begins with the text `prefix`.
pub fn text_starts_with(s: &str, prefix: &str) -> (r: bool)
    ensures
        r == starts_with(s@, prefix@),
{
    let a = to_chars(s);
    let b = to_chars(prefix);
    chars_start_with(&a, &b)
}

/// `s` without the occurrences of `pattern`.
pub fn text_without(s: &str, pattern: &str) -> (out: String)
    ensures
        out@ == remove_all(s@, pattern@),
{
    let chars = to_chars(s);
    let needle = to_chars(pattern);
    let mut out = String::new();
    let mut i: usize = 0;
    while i < chars.len()
        invariant
            chars@ == s@,
            needle@ == pattern@,
            i <= chars.len(),
            remove_all(s@, pattern@) == out@ + remove_from(s@, pattern@, i as int),
        decreases chars.len() - i,
    {
        let ghost shown = out@;
        if needle.len() > 0 && needle.len() <= chars.len() - i && chars_occur_at(
            &chars,
            &needle,
            i,
        ) {
            i += needle.len();
        } else {
            let piece = s.substring_char(i, i + 1);
            assert(piece@ =~= seq![s@[i as int]]);
            out.append(piece);
            assert(shown + (seq![s@[i as int]] + remove_from(s@, pattern@, i + 1)) =~= (shown
                + piece@) + remove_from(s@, pattern@, i + 1));
            i += 1;
        }
    }
    assert(out@ + Seq::<char>::empty() =~= out@);
    out
}

/// The texts `parts` written one after the other with `separator` between
/// each two.
pub fn join_texts(parts: &Vec<String>, separator: &str) -> (out: String)
    ensures
        out@ == joined(parts.deep_view(), separator@),
{
    let mut out = String::new();
    let mut i: usize = 0;
    while i < parts.len()
        invariant
            i <= parts.len(),
            out@ == joined(parts.deep_view().take(i as int), separator@),
        decreases parts.len() - i,
    {
        let ghost before = parts.deep_view().take(i as int);
        let ghost after = parts.deep_view().take(i + 1);
        assert(after.drop_last() =~= before);
        assert(after.last() == parts@[i as int]@);
        if i > 0 {
            out.append(separator);
        } else {
            assert(out@ =~= Seq::<char>::empty());
        }
        out.append(parts[i].as_str());
        assert(out@ =~= joined(after, separator@));
        i += 1;
    }
    assert(parts.deep_view().take(parts.len() as int) =~= parts.deep_view());
    out
}

/// The decimal digits of `n`, as text.
pub fn decimal_text(n: u32) -> (out: String)
    ensures
        out@ == decimal(n as nat),
{
    proof {
        reveal_strlit("0123456789");
    }
    let mut out = String::new();
    let mut rest: u32 = n;
    while rest >= 10
        invariant
            "0123456789"@.len() == 10,
            decimal(n as nat) == decimal(rest as nat) + out@,
        decreases rest,
    {
        let d: usize = (rest % 10) as usize;
        let piece = "0123456789".substring_char(d, d + 1);
        let ghost c = digit_char((rest % 10) as nat);
        let ghost tail = out@;
        assert(piece@ =~= seq![c]);
        out = piece.to_string().concat(out.as_str());
        assert(decimal((rest / 10) as nat).push(c) + tail =~= decimal((rest / 10) as nat) + (
        seq![c] + tail));
        rest = rest / 10;
    }
    let piece = "0123456789".substring_char(rest as usize, rest as usize + 1);
    assert(piece@ =~= seq![digit_char(rest as nat)]);
    piece.to_string().concat(out.as_str())
}

} // verus!
