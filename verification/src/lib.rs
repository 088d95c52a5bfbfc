//! Decoding of GS1 identifiers as carried by Gen2 RFID tags.
//!
//! [GS1](https://www.gs1.org/) identifiers (GTIN, SSCC, GRAI, ...) are written
//! to RFID tags in the binary layouts of the EPC Tag Data Standard. This crate
//! turns such a payload into a typed identifier and renders it as a pure
//! identity URI, a tag URI and, where the general specifications define one, a
//! GS1 element string.
//!
//! Every function states what it returns over mathematical models: digit
//! strings are `Seq<char>`, buffers are `Seq<u8>`, and a field of a payload is
//! the number that its bits spell ([`cursor::bits_value`]).

use crate::checksum::{check_digit, gs1_checksum};
use crate::decimal::{
    all_digits, decimal_digits, decimal_string, lemma_decimal_digits_are_digits,
    lemma_zero_padded_digits, zero_padded,
};
use crate::general::ApplicationIdentifier;
use crate::util::zero_pad;
use vstd::prelude::*;
use vstd::string::*;

pub mod checksum;
pub mod cursor;
pub mod decimal;
pub mod epc;
pub mod error;
pub mod general;
pub mod util;

verus! {

/// An identifier that can be written as a GS1 element string.
pub trait GS1 {
    /// The digit counts that the identifier carries leave each of its fields
    /// a width: none exceeds the digits that the fields share.
    spec fn gs1_valid(&self) -> bool;

    /// The element string, for example `(01) 80614141123458 (21) 6789`.
    spec fn element_string(&self) -> Seq<char>;

    /// Returns the GS1 element string of this identifier.
    fn to_gs1(&self) -> (text: String)
        requires
            self.gs1_valid(),
        ensures
            text@ == self.element_string(),
    ;
}

/// Global Trade Item Number
///
/// The most-used GS1 identifier, a superset of UPC, EAN and ISBN codes
/// (GS1 General Specifications, section 3.3.2).
#[derive(PartialEq, Eq, Debug, Structural)]
pub struct GTIN {
    /// Company identifier
    pub company: u64,
    /// Number of digits in the decimal representation of the company identifier
    pub company_digits: usize,
    /// Item (product) identifier
    pub item: u64,
    /// Indicator digit in case of GTIN-14, otherwise zero
    pub indicator: u8,
}

impl GTIN {
    /// The company prefix has at most twelve digits, which leaves the item
    /// reference the rest of twelve.
    pub open spec fn digits_fit(&self) -> bool {
        self.company_digits <= 12
    }

    /// The digit counts fit, and the indicator is one digit.
    pub open spec fn wf(&self) -> bool {
        &&& self.digits_fit()
        &&& self.indicator <= 9
    }

    /// The company prefix, padded to its digit count.
    pub open spec fn company_text(&self) -> Seq<char> {
        zero_padded(decimal_digits(self.company as nat), self.company_digits as nat)
    }

    /// The item reference, padded to what the company prefix leaves of twelve
    /// digits.
    pub open spec fn item_text(&self) -> Seq<char> {
        zero_padded(decimal_digits(self.item as nat), (12 - self.company_digits) as nat)
    }

    /// The digits that the check digit is computed over: indicator, company
    /// prefix, item reference.
    pub open spec fn digits(&self) -> Seq<char> {
        decimal_digits(self.indicator as nat) + self.company_text() + self.item_text()
    }

    /// The digits of a GTIN are digits.
    pub proof fn lemma_digits_are_digits(&self)
        ensures
            all_digits(self.company_text()),
            all_digits(self.item_text()),
            all_digits(self.digits()),
    {
        lemma_decimal_digits_are_digits(self.indicator as nat);
        lemma_decimal_digits_are_digits(self.company as nat);
        lemma_decimal_digits_are_digits(self.item as nat);
        lemma_zero_padded_digits(decimal_digits(self.company as nat), self.company_digits as nat);
        lemma_zero_padded_digits(
            decimal_digits(self.item as nat),
            (12 - self.company_digits) as nat,
        );
    }

    /// The company prefix, padded to its digit count.
    pub fn company_string(&self) -> (text: String)
        requires
            self.digits_fit(),
        ensures
            text@ == self.company_text(),
    {
        proof {
            lemma_decimal_digits_are_digits(self.company as nat);
        }
        zero_pad(decimal_string(self.company), self.company_digits)
    }

    /// The item reference, padded to what the company prefix leaves of twelve
    /// digits.
    pub fn item_string(&self) -> (text: String)
        requires
            self.digits_fit(),
        ensures
            text@ == self.item_text(),
    {
        proof {
            lemma_decimal_digits_are_digits(self.item as nat);
        }
        zero_pad(decimal_string(self.item), 12 - self.company_digits)
    }
}

impl GS1 for GTIN {
    open spec fn gs1_valid(&self) -> bool {
        self.digits_fit()
    }

    open spec fn element_string(&self) -> Seq<char> {
        ApplicationIdentifier::GTIN.prefix_spec() + self.digits() + decimal_digits(
            check_digit(self.digits()),
        )
    }

    fn to_gs1(&self) -> (text: String) {
        let mut element_string = decimal_string(self.indicator as u64);
        element_string.append(self.company_string().as_str());
        element_string.append(self.item_string().as_str());
        proof {
            self.lemma_digits_are_digits();
        }
        let check = gs1_checksum(element_string.as_str());
        let mut text = ApplicationIdentifier::GTIN.prefix();
        text.append(element_string.as_str());
        text.append(decimal_string(check as u64).as_str());
        text
    }
}

} // verus!
