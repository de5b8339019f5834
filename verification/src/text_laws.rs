//! Facts about the text primitives: what the tokens of a line are when the
//! line is written as fields with whitespace between them, what follows the
//! last separator of a text that ends in digits, and that a number written
//! in decimal is read back as itself.

use crate::text::{
    after_last, all_digits, decimal, digit_char, digit_value, digits_value, has_char, is_digit,
    is_whitespace, lemma_digits_value_push, lemma_skip_whitespace_bounds, lemma_token_end_bounds,
    parse_unsigned, rfind_char, skip_whitespace, split_whitespace, token_end, tokens_from,
};
use vstd::prelude::*;

verus! {

/// Whether `s` holds whitespace only.
pub open spec fn all_whitespace(s: Seq<char>) -> bool {
    forall|i: int| 0 <= i < s.len() ==> is_whitespace(#[trigger] s[i])
}

/// Whether `s` holds no whitespace.
pub open spec fn no_whitespace(s: Seq<char>) -> bool {
    forall|i: int| 0 <= i < s.len() ==> !is_whitespace(#[trigger] s[i])
}

/// Whether `fields` and `gaps` describe a line: every field is a non-empty
/// run without whitespace, there is one gap before each field and one after
/// the last, every gap is whitespace, and a gap between two fields is not
/// empty.
pub open spec fn is_layout(fields: Seq<Seq<char>>, gaps: Seq<Seq<char>>) -> bool {
    &&& gaps.len() == fields.len() + 1
    &&& forall|i: int| 0 <= i < gaps.len() ==> all_whitespace(#[trigger] gaps[i])
    &&& forall|i: int| 0 < i < fields.len() ==> (#[trigger] gaps[i]).len() > 0
    &&& forall|i: int|
        0 <= i < fields.len() ==> (#[trigger] fields[i]).len() > 0 && no_whitespace(fields[i])
}

/// The line written from position `from` of a layout on: gap, field, gap,
/// field, and the last gap at the end.
pub open spec fn spaced_from(fields: Seq<Seq<char>>, gaps: Seq<Seq<char>>, from: int) -> Seq<char>
    decreases fields.len() - from,
{
    if from < 0 || from >= fields.len() {
        if gaps.len() > 0 {
            gaps.last()
        } else {
            Seq::empty()
        }
    } else {
        gaps[from] + fields[from] + spaced_from(fields, gaps, from + 1)
    }
}

/// The line that a layout writes.
pub open spec fn spaced(fields: Seq<Seq<char>>, gaps: Seq<Seq<char>>) -> Seq<char> {
    spaced_from(fields, gaps, 0)
}

/// Positions move with the text: behind a prefix, whitespace is skipped as
/// it is without the prefix.
pub proof fn lemma_skip_whitespace_shift(pre: Seq<char>, s: Seq<char>, i: int)
    requires
        0 <= i <= s.len(),
    ensures
        skip_whitespace(pre + s, pre.len() + i) == pre.len() + skip_whitespace(s, i),
    decreases s.len() - i,
{
    if i < s.len() {
        assert((pre + s)[pre.len() + i] == s[i]);
        if is_whitespace(s[i]) {
            lemma_skip_whitespace_shift(pre, s, i + 1);
        }
    }
}

/// Behind a prefix, a token ends where it ends without the prefix.
pub proof fn lemma_token_end_shift(pre: Seq<char>, s: Seq<char>, i: int)
    requires
        0 <= i <= s.len(),
    ensures
        token_end(pre + s, pre.len() + i) == pre.len() + token_end(s, i),
    decreases s.len() - i,
{
    if i < s.len() {
        assert((pre + s)[pre.len() + i] == s[i]);
        if !is_whitespace(s[i]) {
            lemma_token_end_shift(pre, s, i + 1);
        }
    }
}

/// Behind a prefix, the tokens are those of the text without the prefix.
pub proof fn lemma_tokens_shift(pre: Seq<char>, s: Seq<char>, i: int)
    requires
        0 <= i <= s.len(),
    ensures
        tokens_from(pre + s, pre.len() + i) == tokens_from(s, i),
    decreases s.len() - i,
{
    let whole = pre + s;
    let n = pre.len() as int;
    lemma_skip_whitespace_shift(pre, s, i);
    lemma_skip_whitespace_bounds(s, i);
    let start = skip_whitespace(s, i);
    if start < s.len() {
        lemma_token_end_shift(pre, s, start);
        lemma_token_end_bounds(s, start);
        let end = token_end(s, start);
        assert(whole.subrange(n + start, n + end) =~= s.subrange(start, end));
        lemma_tokens_shift(pre, s, end);
    }
}

/// Whitespace at the start is skipped up to the first other character.
pub proof fn lemma_skip_leading_whitespace(gap: Seq<char>, rest: Seq<char>, i: int)
    requires
        all_whitespace(gap),
        0 <= i <= gap.len(),
        rest.len() == 0 || !is_whitespace(rest[0]),
    ensures
        skip_whitespace(gap + rest, i) == if rest.len() == 0 {
            (gap + rest).len() as int
        } else {
            gap.len() as int
        },
    decreases gap.len() - i,
{
    if i < gap.len() {
        assert((gap + rest)[i] == gap[i]);
        lemma_skip_leading_whitespace(gap, rest, i + 1);
    } else if rest.len() > 0 {
        assert((gap + rest)[i] == rest[0]);
    }
}

/// A run without whitespace ends where the text ends or whitespace begins.
pub proof fn lemma_token_end_of_run(pre: Seq<char>, run: Seq<char>, rest: Seq<char>, i: int)
    requires
        no_whitespace(run),
        0 <= i <= run.len(),
        rest.len() == 0 || is_whitespace(rest[0]),
    ensures
        token_end(pre + run + rest, pre.len() + i) == pre.len() + run.len(),
    decreases run.len() - i,
{
    let whole = pre + run + rest;
    if i < run.len() {
        assert(whole[pre.len() + i] == run[i]);
        lemma_token_end_of_run(pre, run, rest, i + 1);
    } else if rest.len() > 0 {
        assert(whole[pre.len() + i] == rest[0]);
    }
}

/// A text of whitespace alone has no tokens.
pub proof fn lemma_no_tokens_in_whitespace(gap: Seq<char>)
    requires
        all_whitespace(gap),
    ensures
        split_whitespace(gap) == Seq::<Seq<char>>::empty(),
{
    lemma_skip_leading_whitespace(gap, Seq::empty(), 0);
    assert(gap + Seq::<char>::empty() =~= gap);
}

/// The tokens of whitespace, a run without whitespace, and a rest that is
/// empty or begins with whitespace: the run, then the tokens of the rest.
pub proof fn lemma_tokens_of_gap_and_field(gap: Seq<char>, field: Seq<char>, rest: Seq<char>)
    requires
        all_whitespace(gap),
        field.len() > 0,
        no_whitespace(field),
        rest.len() == 0 || is_whitespace(rest[0]),
    ensures
        split_whitespace(gap + field + rest) == seq![field] + split_whitespace(rest),
{
    let whole = gap + field + rest;
    assert(whole =~= gap + (field + rest));
    assert((field + rest)[0] == field[0]);
    lemma_skip_leading_whitespace(gap, field + rest, 0);
    lemma_token_end_of_run(gap, field, rest, 0);
    assert(whole.subrange(gap.len() as int, (gap.len() + field.len()) as int) =~= field);
    lemma_tokens_shift(gap + field, rest, 0);
}

/// What a layout writes from a position on is empty or begins with
/// whitespace, unless it begins with an empty first gap.
pub proof fn lemma_spaced_begins_with_gap(fields: Seq<Seq<char>>, gaps: Seq<Seq<char>>, from: int)
    requires
        is_layout(fields, gaps),
        0 < from <= fields.len(),
    ensures
        spaced_from(fields, gaps, from).len() == 0 || is_whitespace(
            spaced_from(fields, gaps, from)[0],
        ),
{
    if from < fields.len() {
        let gap = gaps[from];
        assert(gap.len() > 0);
        assert(is_whitespace(gap[0]));
        assert(spaced_from(fields, gaps, from)[0] == gap[0]);
    } else {
        let gap = gaps.last();
        assert(gap == gaps[gaps.len() - 1]);
        if gap.len() > 0 {
            assert(is_whitespace(gap[0]));
        }
    }
}

/// The tokens of what a layout writes from a position on are the fields from
/// that position on.
pub proof fn lemma_tokens_of_spaced_from(fields: Seq<Seq<char>>, gaps: Seq<Seq<char>>, from: int)
    requires
        is_layout(fields, gaps),
        0 <= from <= fields.len(),
    ensures
        split_whitespace(spaced_from(fields, gaps, from)) == fields.skip(from),
    decreases fields.len() - from,
{
    if from < fields.len() {
        let rest = spaced_from(fields, gaps, from + 1);
        lemma_spaced_begins_with_gap(fields, gaps, from + 1);
        lemma_tokens_of_gap_and_field(gaps[from], fields[from], rest);
        lemma_tokens_of_spaced_from(fields, gaps, from + 1);
        assert(seq![fields[from]] + fields.skip(from + 1) =~= fields.skip(from));
    } else {
        assert(gaps.last() == gaps[gaps.len() - 1]);
        lemma_no_tokens_in_whitespace(gaps.last());
        assert(fields.skip(from) =~= Seq::<Seq<char>>::empty());
    }
}

/// The tokens of a line are its fields, however much whitespace stands
/// between them, before the first and after the last.
pub proof fn lemma_tokens_of_spaced(fields: Seq<Seq<char>>, gaps: Seq<Seq<char>>)
    requires
        is_layout(fields, gaps),
    ensures
        split_whitespace(spaced(fields, gaps)) == fields,
{
    lemma_tokens_of_spaced_from(fields, gaps, 0);
    assert(fields.skip(0) =~= fields);
}

/// The last `c` of a text that ends in `c` and a tail without `c` is the one
/// before the tail.
pub proof fn lemma_rfind_before_tail(head: Seq<char>, c: char, tail: Seq<char>)
    requires
        !has_char(tail, c),
    ensures
        rfind_char(head + seq![c] + tail, c) == head.len(),
        after_last(head + seq![c] + tail, c) == tail,
    decreases tail.len(),
{
    let whole = head + seq![c] + tail;
    if tail.len() == 0 {
        assert(whole.last() == c);
    } else {
        assert(whole.last() == tail.last());
        assert(tail[tail.len() - 1] != c);
        assert(whole.drop_last() =~= head + seq![c] + tail.drop_last());
        assert(!has_char(tail.drop_last(), c)) by {
            assert forall|i: int| 0 <= i < tail.drop_last().len() implies tail.drop_last()[i]
                != c by {
                assert(tail.drop_last()[i] == tail[i]);
            }
        }
        lemma_rfind_before_tail(head, c, tail.drop_last());
    }
    assert(whole.subrange((head.len() + 1) as int, whole.len() as int) =~= tail);
}

/// A non-empty run of digits that writes a number within the limit reads as
/// that number.
pub proof fn lemma_digits_parse(digits: Seq<char>, max: nat)
    requires
        digits.len() > 0,
        all_digits(digits),
        digits_value(digits) <= max,
    ensures
        parse_unsigned(digits, max) == Some(digits_value(digits)),
        !has_char(digits, ':'),
{
    assert(is_digit(digits[0]));
    assert(!has_char(digits, ':')) by {
        assert forall|i: int| 0 <= i < digits.len() implies digits[i] != ':' by {
            assert(is_digit(digits[i]));
        }
    }
}

/// The character that writes a digit is a decimal digit of that value.
pub proof fn lemma_digit_char(d: nat)
    requires
        d < 10,
    ensures
        is_digit(digit_char(d)),
        digit_value(digit_char(d)) == d,
{
    reveal_strlit("0123456789");
}

/// The digits that write a number are digits, at least one, and write that
/// number.
pub proof fn lemma_decimal_writes(n: nat)
    ensures
        decimal(n).len() > 0,
        all_digits(decimal(n)),
        digits_value(decimal(n)) == n,
    decreases n,
{
    if n < 10 {
        lemma_digit_char(n);
        lemma_digits_value_push(Seq::empty(), digit_char(n));
        assert(Seq::<char>::empty().push(digit_char(n)) =~= decimal(n));
    } else {
        lemma_decimal_writes(n / 10);
        lemma_digit_char(n % 10);
        lemma_digits_value_push(decimal(n / 10), digit_char(n % 10));
    }
}

/// What is written in decimal is read back as the same number, as long as
/// the number is within the limit of the reader.
pub proof fn lemma_decimal_is_read_back(n: nat, max: nat)
    requires
        n <= max,
    ensures
        parse_unsigned(decimal(n), max) == Some(n),
{
    lemma_decimal_writes(n);
    lemma_digits_parse(decimal(n), max);
}

} // verus!
