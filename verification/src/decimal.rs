//! Decimal text: how numbers are written as digit strings, and read back.

use vstd::prelude::*;
use vstd::string::*;

verus! {

/// `c` is one of the characters `0` to `9`.
pub open spec fn is_digit(c: char) -> bool {
    '0' <= c <= '9'
}

/// Every character of `text` is a decimal digit.
pub open spec fn all_digits(text: Seq<char>) -> bool {
    forall|i: int| 0 <= i < text.len() ==> is_digit(#[trigger] text[i])
}

/// The character that writes the digit `d`.
pub open spec fn digit_char(d: nat) -> char
    recommends
        d < 10,
{
    ('0' as nat + d) as char
}

/// The digit that the character `c` writes.
pub open spec fn digit_of(c: char) -> nat
    recommends
        is_digit(c),
{
    (c as nat - '0' as nat) as nat
}

/// `n` in decimal, without leading zeros; `0` is written "0".
pub open spec fn decimal_digits(n: nat) -> Seq<char>
    decreases n,
{
    if n < 10 {
        seq![digit_char(n)]
    } else {
        decimal_digits(n / 10).push(digit_char(n % 10))
    }
}

/// The number that the digit string `text` writes; leading zeros count for
/// nothing, and the empty string writes 0.
pub open spec fn digits_value(text: Seq<char>) -> nat
    decreases text.len(),
{
    if text.len() == 0 {
        0
    } else {
        10 * digits_value(text.drop_last()) + digit_of(text.last())
    }
}

/// `count` times the character `0`.
pub open spec fn zeros(count: nat) -> Seq<char> {
    Seq::new(count, |i: int| '0')
}

/// `text` with zeros put in front until it is `width` characters long; a text
/// that is already as long, or longer, stays as it is.
pub open spec fn zero_padded(text: Seq<char>, width: nat) -> Seq<char> {
    if text.len() >= width {
        text
    } else {
        zeros((width - text.len()) as nat) + text
    }
}

/// A number's decimal form consists of digits, at least one of them.
pub proof fn lemma_decimal_digits_are_digits(n: nat)
    ensures
        all_digits(decimal_digits(n)),
        decimal_digits(n).len() >= 1,
    decreases n,
{
    if n >= 10 {
        lemma_decimal_digits_are_digits(n / 10);
    }
}

/// Reading a number's decimal form gives the number back.
pub proof fn lemma_decimal_round_trip(n: nat)
    ensures
        digits_value(decimal_digits(n)) == n,
    decreases n,
{
    if n < 10 {
        assert(decimal_digits(n).drop_last() =~= Seq::<char>::empty());
        assert(digits_value(decimal_digits(n).drop_last()) == 0);
    } else {
        lemma_decimal_round_trip(n / 10);
        assert(decimal_digits(n).drop_last() =~= decimal_digits(n / 10));
    }
}

/// Padding keeps digits digits and reaches at least the width asked for.
pub proof fn lemma_zero_padded_digits(text: Seq<char>, width: nat)
    requires
        all_digits(text),
    ensures
        all_digits(zero_padded(text, width)),
        zero_padded(text, width).len() >= width,
        zero_padded(text, width).len() >= text.len(),
{
}

/// Zeros alone write 0.
pub proof fn lemma_zeros_value(count: nat)
    ensures
        digits_value(zeros(count)) == 0,
    decreases count,
{
    if count > 0 {
        lemma_zeros_value((count - 1) as nat);
        assert(zeros(count).drop_last() =~= zeros((count - 1) as nat));
    }
}

/// Leading zeros do not change the number written.
pub proof fn lemma_zero_padded_value(text: Seq<char>, width: nat)
    ensures
        digits_value(zero_padded(text, width)) == digits_value(text),
    decreases text.len(),
{
    if text.len() < width {
        let lead = zeros((width - text.len()) as nat);
        if text.len() == 0 {
            assert(lead + text =~= lead);
            lemma_zeros_value((width - text.len()) as nat);
        } else {
            lemma_zero_padded_value(text.drop_last(), (width - 1) as nat);
            assert((lead + text).drop_last() =~= lead + text.drop_last());
            assert(zero_padded(text.drop_last(), (width - 1) as nat) == lead + text.drop_last());
        }
    }
}

/// What stands behind the first `from` characters writes no more than the
/// whole text.
pub proof fn lemma_suffix_value(text: Seq<char>, from: int)
    requires
        0 <= from <= text.len(),
    ensures
        digits_value(text.subrange(from, text.len() as int)) <= digits_value(text),
    decreases text.len(),
{
    let tail = text.subrange(from, text.len() as int);
    if from < text.len() {
        lemma_suffix_value(text.drop_last(), from);
        assert(tail.drop_last() =~= text.drop_last().subrange(from, text.len() - 1));
    } else {
        assert(tail =~= Seq::<char>::empty());
    }
}

/// A text's beginning writes no more than the whole text.
pub proof fn lemma_prefix_value(text: Seq<char>, upto: int)
    requires
        0 <= upto <= text.len(),
    ensures
        digits_value(text.take(upto)) <= digits_value(text),
    decreases text.len() - upto,
{
    if upto < text.len() {
        lemma_prefix_value(text, upto + 1);
        assert(text.take(upto + 1).drop_last() =~= text.take(upto));
    } else {
        assert(text.take(upto) =~= text);
    }
}

/// `String::from_iter` on a vector of characters: the string holds those
/// characters, in their order.
#[verifier::external_body]
pub(crate) fn string_from_chars(chars: Vec<char>) -> (text: String)
    ensures
        text@ == chars@,
{
    String::from_iter(chars)
}

/// Appends the decimal form of `n` to `out`.
fn push_decimal(n: u64, out: &mut Vec<char>)
    ensures
        final(out)@ == old(out)@ + decimal_digits(n as nat),
    decreases n,
{
    if n >= 10 {
        push_decimal(n / 10, out);
    }
    let digit: u8 = (n % 10) as u8;
    out.push((48u8 + digit) as char);
    assert(out@ =~= old(out)@ + decimal_digits(n as nat));
}

/// `n` in decimal, as `to_string` writes it.
pub fn decimal_string(n: u64) -> (text: String)
    ensures
        text@ == decimal_digits(n as nat),
{
    let mut chars: Vec<char> = Vec::new();
    push_decimal(n, &mut chars);
    assert(chars@ =~= decimal_digits(n as nat));
    string_from_chars(chars)
}

/// The number that a digit string writes.
pub fn parse_digits(text: &str) -> (value: u64)
    requires
        all_digits(text@),
        digits_value(text@) <= u64::MAX,
    ensures
        value == digits_value(text@),
{
    let len = text.unicode_len();
    let mut value: u64 = 0;
    let mut i: usize = 0;
    while i < len
        invariant
            len == text@.len(),
            i <= len,
            all_digits(text@),
            digits_value(text@) <= u64::MAX,
            value == digits_value(text@.take(i as int)),
        decreases len - i,
    {
        let c = text.get_char(i);
        proof {
            lemma_prefix_value(text@, i + 1);
            assert(text@.take(i + 1).drop_last() =~= text@.take(i as int));
            assert(is_digit(text@[i as int]));
        }
        let digit: u8 = c as u8 - 48u8;
        value = value * 10 + digit as u64;
        i = i + 1;
    }
    assert(text@.take(len as int) =~= text@);
    value
}

} // verus!
