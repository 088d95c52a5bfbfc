//! Helpers shared by the decoders and the formatters: zero padding, percent
//! encoding, the indicator digit, and 7-bit text.

use crate::cursor::{
    bits_value, front_spec, lemma_bits_value_bound, lemma_bits_value_of_front, BitCursor,
};
use crate::decimal::{
    all_digits, decimal_digits, decimal_string, digit_of, digits_value, is_digit,
    lemma_decimal_digits_are_digits, lemma_decimal_round_trip, lemma_suffix_value,
    lemma_zero_padded_digits, lemma_zero_padded_value, parse_digits, string_from_chars,
    zero_padded,
};
use crate::error::ParseError;
use pad::{Alignment, PadStr};
use percent_encoding::{utf8_percent_encode, NON_ALPHANUMERIC};
use vstd::arithmetic::power2::lemma2_to64;
use vstd::prelude::*;
use vstd::string::*;
use vstd::utf8::encode_utf8;

verus! {

/// The widest text that [`zero_pad`] is asked for.
pub const MAX_PAD_WIDTH: usize = 0xFFFF;

/// `byte` is an ASCII letter or digit.
pub open spec fn is_ascii_alphanumeric(byte: u8) -> bool {
    ||| 0x30 <= byte <= 0x39
    ||| 0x41 <= byte <= 0x5A
    ||| 0x61 <= byte <= 0x7A
}

/// The character that writes `nibble` in upper-case hexadecimal.
pub open spec fn hex_char(nibble: nat) -> char
    recommends
        nibble < 16,
{
    if nibble < 10 {
        ('0' as nat + nibble) as char
    } else {
        ('A' as nat + nibble - 10) as char
    }
}

/// One byte, percent-encoded: letters and digits stand for themselves, any
/// other byte becomes `%` and two upper-case hexadecimal digits.
pub open spec fn percent_encoded_byte(byte: u8) -> Seq<char> {
    if is_ascii_alphanumeric(byte) {
        seq![byte as char]
    } else {
        seq!['%', hex_char((byte / 16) as nat), hex_char((byte % 16) as nat)]
    }
}

/// A byte string, percent-encoded byte by byte.
pub open spec fn percent_encoded(bytes: Seq<u8>) -> Seq<char>
    decreases bytes.len(),
{
    if bytes.len() == 0 {
        Seq::empty()
    } else {
        percent_encoded(bytes.drop_last()) + percent_encoded_byte(bytes.last())
    }
}

/// `utf8_percent_encode` with the set `NON_ALPHANUMERIC`, collected into a
/// string: the UTF-8 bytes of `input`, percent-encoded but for ASCII letters
/// and digits.
#[verifier::external_body]
pub(crate) fn uri_encode(input: String) -> (encoded: String)
    ensures
        encoded@ == percent_encoded(encode_utf8(input@)),
{
    utf8_percent_encode(&input, NON_ALPHANUMERIC).to_string()
}

/// `PadStr::pad` with the character `0`, right alignment and no truncation,
/// on a string of decimal digits: zeros are put in front until the text is
/// `digits` characters long; a longer text comes back unchanged. The crate
/// measures a text's display width, which for digits is their count.
#[verifier::external_body]
pub(crate) fn zero_pad(input: String, digits: usize) -> (padded: String)
    requires
        all_digits(input@),
        digits <= MAX_PAD_WIDTH,
    ensures
        padded@ == zero_padded(input@, digits as nat),
{
    input.pad(digits, '0', Alignment::Right, false)
}

/// The item field of a partitioned identifier holds an indicator digit in
/// front of the item reference. Written in decimal and padded with zeros to
/// `item_digits` characters, the field's first character is the indicator
/// digit and the rest is the item reference. A field of a single character
/// holds no item reference, and is an error.
pub open spec fn extract_indicator_spec(item: u64, item_digits: nat) -> Result<
    (u64, u8),
    ParseError,
> {
    let text = zero_padded(decimal_digits(item as nat), item_digits);
    if text.len() <= 1 {
        Err(ParseError())
    } else {
        Ok((digits_value(text.skip(1)) as u64, digit_of(text[0]) as u8))
    }
}

/// The indicator digit is a digit, and the item reference is no larger than
/// the field it was taken from. The field holds no item reference exactly
/// where it is a single digit to be written in a single place, or in none.
pub proof fn lemma_extract_indicator_bounds(item: u64, item_digits: nat)
    ensures
        match extract_indicator_spec(item, item_digits) {
            Ok((reference, indicator)) => {
                &&& indicator <= 9
                &&& reference <= item
                &&& reference == digits_value(
                    zero_padded(decimal_digits(item as nat), item_digits).skip(1),
                )
            },
            Err(_) => true,
        },
        extract_indicator_spec(item, item_digits) is Err <==> item <= 9 && item_digits <= 1,
{
    let digits = decimal_digits(item as nat);
    let text = zero_padded(digits, item_digits);
    lemma_decimal_digits_are_digits(item as nat);
    lemma_zero_padded_digits(digits, item_digits);
    lemma_decimal_round_trip(item as nat);
    lemma_zero_padded_value(digits, item_digits);
    if text.len() > 1 {
        lemma_suffix_value(text, 1);
        assert(is_digit(text[0]));
    }
    if item >= 10 {
        lemma_decimal_digits_are_digits(item as nat / 10);
    }
}

/// Splits the item field of a partitioned identifier into the item reference
/// and the indicator digit.
pub fn extract_indicator(item: u64, item_digits: usize) -> (res: Result<(u64, u8), ParseError>)
    requires
        item_digits <= MAX_PAD_WIDTH,
    ensures
        res == extract_indicator_spec(item, item_digits as nat),
{
    proof {
        lemma_decimal_digits_are_digits(item as nat);
        lemma_zero_padded_digits(decimal_digits(item as nat), item_digits as nat);
        lemma_extract_indicator_bounds(item, item_digits as nat);
    }
    let item_str = zero_pad(decimal_string(item), item_digits);
    let text = item_str.as_str();
    let len = text.unicode_len();
    if len <= 1 {
        return Err(ParseError());
    }
    let first = text.get_char(0);
    assert(is_digit(text@[0]));
    let indicator: u8 = first as u8 - 48u8;
    let rest = text.substring_char(1, len);
    proof {
        lemma_suffix_value(text@, 1);
        assert(rest@ == text@.skip(1));
        assert forall|i: int| 0 <= i < rest@.len() implies is_digit(#[trigger] rest@[i]) by {
            assert(rest@[i] == text@[i + 1]);
        }
    }
    let reference = parse_digits(rest);
    Ok((reference, indicator))
}

/// The text that `count` groups of seven bits spell, from bit `start` of
/// `data` on: each group is one ASCII character, and a group of zero bits
/// stands for no character at all, wherever it occurs.
pub open spec fn ascii_text(data: Seq<u8>, start: int, count: nat) -> Seq<char>
    decreases count,
{
    if count == 0 {
        Seq::empty()
    } else {
        let before = ascii_text(data, start, (count - 1) as nat);
        let code = bits_value(data, start + 7 * (count - 1), 7);
        if code == 0 {
            before
        } else {
            before.push(code as char)
        }
    }
}

/// Text that lies within the first `count` bytes is the same in the whole
/// buffer and in its front.
pub proof fn lemma_ascii_text_of_front(data: Seq<u8>, count: nat, start: int, chars: nat)
    requires
        0 <= start,
        start + 7 * chars <= 8 * count,
    ensures
        ascii_text(front_spec(data, count), start, chars) == ascii_text(data, start, chars),
    decreases chars,
{
    if chars > 0 {
        lemma_ascii_text_of_front(data, count, start, (chars - 1) as nat);
        lemma_bits_value_of_front(data, count, start + 7 * (chars - 1), 7);
    }
}

/// The number of whole characters in a field of `bits` bits, of which only
/// `left` bits are there to read.
pub open spec fn text_length(left: int, bits: int) -> nat {
    if left <= bits {
        (left / 7) as nat
    } else {
        (bits / 7) as nat
    }
}

/// Reads a field of 7-bit ASCII text that is `bits` bits wide, or as wide as
/// the bits that are left if those are fewer (GS1 EPC TDS section 14.4.2).
/// Zero characters are left out.
pub fn read_string(cursor: &mut BitCursor, bits: u64) -> (res: Result<String, ParseError>)
    ensures
        final(cursor).data() == old(cursor).data(),
        res matches Ok(text) && text@ == ascii_text(
            old(cursor).data(),
            old(cursor).position() as int,
            text_length(old(cursor).bits_left(), bits as int),
        ),
        final(cursor).position() == old(cursor).position() + 7 * text_length(
            old(cursor).bits_left(),
            bits as int,
        ),
{
    let left = cursor.remaining();
    let num_chars = if left <= bits {
        left / 7
    } else {
        bits / 7
    };
    let ghost data = cursor.data();
    let ghost start = cursor.position() as int;
    let mut chars: Vec<char> = Vec::new();
    let mut i: u64 = 0;
    while i < num_chars
        invariant
            i <= num_chars,
            cursor.data() == data,
            cursor.position() == start + 7 * i,
            start + 7 * num_chars <= 8 * data.len(),
            chars@ == ascii_text(data, start, i as nat),
        decreases num_chars - i,
    {
        proof {
            lemma_bits_value_bound(data, start + 7 * i, 7);
            lemma2_to64();
        }
        let value = cursor.read_uint(7)?;
        if value != 0 {
            chars.push(value as u8 as char);
        }
        i = i + 1;
    }
    Ok(string_from_chars(chars))
}

} // verus!
