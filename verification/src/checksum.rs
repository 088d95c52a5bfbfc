//! The GS1 check digit.
//!
//! GS1 General Specifications, section 7.9.1: counting from the right, the
//! digits at odd places weigh 3 and those at even places weigh 1; the check
//! digit brings the weighted sum up to the next multiple of ten.

use crate::decimal::{all_digits, digit_of, is_digit};
use vstd::prelude::*;
use vstd::string::*;

verus! {

/// The weight of the `place`-th digit from the right, the rightmost digit
/// standing at place 1.
pub open spec fn place_weight(place: nat) -> nat {
    if place % 2 == 1 {
        3
    } else {
        1
    }
}

/// The weighted sum of the `places` rightmost digits of `digits`.
pub open spec fn weighted_sum(digits: Seq<char>, places: nat) -> nat
    recommends
        places <= digits.len(),
    decreases places,
{
    if places == 0 {
        0
    } else {
        weighted_sum(digits, (places - 1) as nat) + place_weight(places) * digit_of(
            digits[digits.len() - places],
        )
    }
}

/// The check digit of a digit string.
pub open spec fn check_digit(digits: Seq<char>) -> nat {
    let rest = weighted_sum(digits, digits.len()) % 10;
    if rest > 0 {
        (10 - rest) as nat
    } else {
        0
    }
}

/// The digits of `input` as numbers.
pub fn int_digits(input: &str) -> (digits: Vec<u16>)
    requires
        all_digits(input@),
    ensures
        digits@.len() == input@.len(),
        forall|i: int| 0 <= i < digits@.len() ==> #[trigger] digits@[i] == digit_of(input@[i]),
{
    let len = input.unicode_len();
    let mut digits: Vec<u16> = Vec::new();
    let mut i: usize = 0;
    while i < len
        invariant
            len == input@.len(),
            i <= len,
            all_digits(input@),
            digits@.len() == i,
            forall|j: int| 0 <= j < i ==> #[trigger] digits@[j] == digit_of(input@[j]),
        decreases len - i,
    {
        let c = input.get_char(i);
        assert(is_digit(input@[i as int]));
        digits.push((c as u8 - 48u8) as u16);
        i = i + 1;
    }
    digits
}

/// Sums taken modulo ten give the weighted sum modulo ten.
proof fn lemma_reduced_sums(odd_sum: nat, even_sum: nat)
    ensures
        (3 * (odd_sum % 10) + even_sum % 10) % 10 == (3 * odd_sum + even_sum) % 10,
{
}

/// Adding to a sum taken modulo ten.
proof fn lemma_reduced_add(sum: nat, digit: nat)
    ensures
        (sum % 10 + digit) % 10 == (sum + digit) % 10,
{
}

/// One more place adds its digit, three times over at an odd place.
proof fn lemma_weighted_sum_step(digits: Seq<char>, places: nat)
    requires
        places >= 1,
    ensures
        places % 2 == 1 ==> weighted_sum(digits, places) == weighted_sum(
            digits,
            (places - 1) as nat,
        ) + 3 * digit_of(digits[digits.len() - places]),
        places % 2 == 0 ==> weighted_sum(digits, places) == weighted_sum(
            digits,
            (places - 1) as nat,
        ) + digit_of(digits[digits.len() - places]),
{
}

/// Calculates the GS1 check digit of a string of decimal digits.
///
/// The string may have any length; the empty string has check digit 0.
pub fn gs1_checksum(input: &str) -> (check: u8)
    requires
        all_digits(input@),
    ensures
        check == check_digit(input@),
        check <= 9,
{
    let digits = int_digits(input);
    let len = digits.len();
    let mut even: u16 = 0;
    let mut odd: u16 = 0;
    let ghost mut even_sum: nat = 0;
    let ghost mut odd_sum: nat = 0;
    let mut done: usize = 0;
    while done < len
        invariant
            len == digits@.len(),
            len == input@.len(),
            done <= len,
            all_digits(input@),
            forall|j: int| 0 <= j < len ==> #[trigger] digits@[j] == digit_of(input@[j]),
            odd == odd_sum % 10,
            even == even_sum % 10,
            3 * odd_sum + even_sum == weighted_sum(input@, done as nat),
        decreases len - done,
    {
        let curr = digits[len - 1 - done];
        proof {
            assert(curr == digit_of(input@[len - 1 - done]));
            assert(is_digit(input@[len - 1 - done]));
            lemma_weighted_sum_step(input@, (done + 1) as nat);
        }
        if done % 2 == 1 {
            proof {
                lemma_reduced_add(even_sum, curr as nat);
                even_sum = even_sum + curr as nat;
            }
            even = (even + curr) % 10;
        } else {
            proof {
                lemma_reduced_add(odd_sum, curr as nat);
                odd_sum = odd_sum + curr as nat;
            }
            odd = (odd + curr) % 10;
        }
        done = done + 1;
    }
    proof {
        lemma_reduced_sums(odd_sum, even_sum);
    }
    let mut check = (3 * odd + even) % 10;
    if check > 0 {
        check = 10 - check;
    }
    check as u8
}

} // verus!
