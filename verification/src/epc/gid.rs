//! General Identifier
//!
//! A manager number that GS1 assigns, an object class that this manager
//! assigns, and a serial number, which together identify a single item.

use crate::cursor::{bits_value, front, front_spec, lemma_bits_value_of_front, BitCursor};
use crate::decimal::{decimal_digits, decimal_string};
use crate::epc::{EPCValue, EPC};
use crate::error::ParseError;
use vstd::prelude::*;
use vstd::string::*;

verus! {

/// 96-bit General Identifier
///
/// A manager number, an object class, and a numeric serial number.
#[derive(PartialEq, Eq, Debug, Structural)]
pub struct GID96 {
    /// General Manager Number
    pub manager: u32,
    /// Object Class
    pub class: u32,
    /// Item serial number
    pub serial: u64,
}

impl GID96 {
    /// Manager number, object class and serial number as they stand in the
    /// URIs.
    pub open spec fn fields(&self) -> Seq<char> {
        decimal_digits(self.manager as nat) + "."@ + decimal_digits(self.class as nat) + "."@
            + decimal_digits(self.serial as nat)
    }

    /// The fields as they stand in the URIs.
    fn fields_string(&self) -> (text: String)
        ensures
            text@ == self.fields(),
    {
        let mut text = decimal_string(self.manager as u64);
        text.append(".");
        text.append(decimal_string(self.class as u64).as_str());
        text.append(".");
        text.append(decimal_string(self.serial).as_str());
        text
    }
}

impl EPC for GID96 {
    open spec fn epc_valid(&self) -> bool {
        true
    }

    open spec fn uri(&self) -> Seq<char> {
        "urn:epc:id:gid:"@ + self.fields()
    }

    open spec fn tag_uri(&self) -> Seq<char> {
        "urn:epc:tag:gid-96:"@ + self.fields()
    }

    open spec fn value(&self) -> EPCValue<'_> {
        EPCValue::GID96(self)
    }

    // GS1 EPC TDS section 6.3.16
    fn to_uri(&self) -> (text: String) {
        let mut text = "urn:epc:id:gid:".to_string();
        text.append(self.fields_string().as_str());
        text
    }

    fn to_tag_uri(&self) -> (text: String) {
        let mut text = "urn:epc:tag:gid-96:".to_string();
        text.append(self.fields_string().as_str());
        text
    }

    fn get_value(&self) -> (value: EPCValue<'_>) {
        EPCValue::GID96(self)
    }
}

/// The identifier that a GID-96 payload holds: 28 bits of manager number, 24
/// bits of object class and 36 bits of serial number
/// (GS1 EPC TDS section 14.6.12). A shorter payload is malformed.
pub open spec fn gid96_spec(data: Seq<u8>) -> Result<GID96, ParseError> {
    if 8 * data.len() < 88 {
        Err(ParseError())
    } else {
        Ok(
            GID96 {
                manager: bits_value(data, 0, 28) as u32,
                class: bits_value(data, 28, 24) as u32,
                serial: bits_value(data, 52, 36) as u64,
            },
        )
    }
}

/// What a GID-96 payload holds is found in its first 11 bytes: what follows
/// them changes nothing.
pub proof fn lemma_gid96_reads_front(data: Seq<u8>)
    ensures
        gid96_spec(front_spec(data, 11)) == gid96_spec(data),
{
    lemma_bits_value_of_front(data, 11, 0, 28);
    lemma_bits_value_of_front(data, 11, 28, 24);
    lemma_bits_value_of_front(data, 11, 52, 36);
}

/// Decodes the payload of a GID-96 tag, header byte left off
/// (GS1 EPC TDS section 14.6.12).
pub fn decode_gid96(data: &[u8]) -> (res: Result<GID96, ParseError>)
    ensures
        res == gid96_spec(data@),
{
    proof {
        lemma_gid96_reads_front(data@);
    }
    let mut cursor = BitCursor::new(front(data, 11));
    let manager = cursor.read_u32(28)?;
    let class = cursor.read_u32(24)?;
    let serial = cursor.read_uint(36)?;
    Ok(GID96 { manager, class, serial })
}

} // verus!
