//! Application identifiers of the GS1 general specifications.

use crate::decimal::{
    decimal_digits, decimal_string, lemma_decimal_digits_are_digits, zero_padded,
};
use crate::util::zero_pad;
use vstd::prelude::*;
use vstd::string::*;

verus! {

/// The application identifiers that this crate knows by name
/// (GS1 General Specifications, figure 3.2-1).
#[derive(Debug, Clone, Copy, PartialEq, Eq, Structural)]
pub enum ApplicationIdentifier {
    SSCC,
    GTIN,
    GTINContent,
    Batch,
    ProductionDate,
    DueDate,
    PackagingDate,
    BestBeforeDate,
    SellByDate,
    ExpirationDate,
    InternalProductVariant,
    SerialNumber,
}

impl ApplicationIdentifier {
    /// The identifier's number.
    pub open spec fn code_spec(self) -> u16 {
        match self {
            ApplicationIdentifier::SSCC => 0,
            ApplicationIdentifier::GTIN => 1,
            ApplicationIdentifier::GTINContent => 2,
            ApplicationIdentifier::Batch => 10,
            ApplicationIdentifier::ProductionDate => 11,
            ApplicationIdentifier::DueDate => 12,
            ApplicationIdentifier::PackagingDate => 13,
            ApplicationIdentifier::BestBeforeDate => 15,
            ApplicationIdentifier::SellByDate => 16,
            ApplicationIdentifier::ExpirationDate => 17,
            ApplicationIdentifier::InternalProductVariant => 20,
            ApplicationIdentifier::SerialNumber => 21,
        }
    }

    /// How the identifier is written in front of its value in an element
    /// string: in parentheses, padded with a zero to two digits, and followed
    /// by a space.
    pub open spec fn prefix_spec(self) -> Seq<char> {
        "("@ + zero_padded(decimal_digits(self.code_spec() as nat), 2) + ") "@
    }

    /// The identifier's number.
    #[verifier::when_used_as_spec(code_spec)]
    pub fn code(self) -> (code: u16)
        ensures
            code == self.code_spec(),
    {
        match self {
            ApplicationIdentifier::SSCC => 0,
            ApplicationIdentifier::GTIN => 1,
            ApplicationIdentifier::GTINContent => 2,
            ApplicationIdentifier::Batch => 10,
            ApplicationIdentifier::ProductionDate => 11,
            ApplicationIdentifier::DueDate => 12,
            ApplicationIdentifier::PackagingDate => 13,
            ApplicationIdentifier::BestBeforeDate => 15,
            ApplicationIdentifier::SellByDate => 16,
            ApplicationIdentifier::ExpirationDate => 17,
            ApplicationIdentifier::InternalProductVariant => 20,
            ApplicationIdentifier::SerialNumber => 21,
        }
    }

    /// The identifier as it stands in front of its value in an element string.
    pub fn prefix(self) -> (text: String)
        ensures
            text@ == self.prefix_spec(),
    {
        proof {
            lemma_decimal_digits_are_digits(self.code_spec() as nat);
        }
        let mut text = "(".to_string();
        text.append(zero_pad(decimal_string(self.code() as u64), 2).as_str());
        text.append(") ");
        text
    }
}

} // verus!
