//! Global Returnable Asset Identifier
//!
//! A company prefix that GS1 assigns, an asset type that this company
//! assigns, and a serial number, which together identify a single asset.

use crate::cursor::{
    bits_value, front, front_spec, lemma_bits_value_bound, lemma_bits_value_of_front, BitCursor,
};
use crate::decimal::{decimal_digits, decimal_string};
use crate::epc::{EPCValue, EPC};
use crate::error::ParseError;
use vstd::arithmetic::power2::lemma2_to64;
use vstd::prelude::*;
use vstd::string::*;

verus! {

/// The width of one field of a partitioned identifier.
#[derive(Debug, PartialEq, Eq, Structural)]
pub struct Partition {
    /// The field's width on the tag, in bits.
    pub bits: u8,
    /// The field's width in text, in decimal digits.
    pub digits: u8,
}

/// The widths of the two fields that a partition value governs.
#[derive(Debug, PartialEq, Eq, Structural)]
pub struct GraiPartition {
    pub company_prefix: Partition,
    pub asset_type: Partition,
}

/// The widths of company prefix and asset type, for each partition value
/// that the standard assigns (GS1 EPC TDS table 14-14). The value 7 is not
/// assigned.
pub open spec fn partition_spec(partition_value: u8) -> Result<GraiPartition, ParseError> {
    match partition_value {
        0 => Ok(
            GraiPartition {
                company_prefix: Partition { bits: 40, digits: 12 },
                asset_type: Partition { bits: 4, digits: 0 },
            },
        ),
        1 => Ok(
            GraiPartition {
                company_prefix: Partition { bits: 37, digits: 11 },
                asset_type: Partition { bits: 7, digits: 1 },
            },
        ),
        2 => Ok(
            GraiPartition {
                company_prefix: Partition { bits: 34, digits: 10 },
                asset_type: Partition { bits: 10, digits: 2 },
            },
        ),
        3 => Ok(
            GraiPartition {
                company_prefix: Partition { bits: 30, digits: 9 },
                asset_type: Partition { bits: 14, digits: 3 },
            },
        ),
        4 => Ok(
            GraiPartition {
                company_prefix: Partition { bits: 27, digits: 8 },
                asset_type: Partition { bits: 17, digits: 4 },
            },
        ),
        5 => Ok(
            GraiPartition {
                company_prefix: Partition { bits: 24, digits: 7 },
                asset_type: Partition { bits: 20, digits: 5 },
            },
        ),
        6 => Ok(
            GraiPartition {
                company_prefix: Partition { bits: 20, digits: 6 },
                asset_type: Partition { bits: 24, digits: 6 },
            },
        ),
        _ => Err(ParseError()),
    }
}

/// For every partition value that the standard assigns, company prefix and
/// asset type have 12 digits and 44 bits between them.
pub proof fn lemma_partition_budget(partition_value: u8)
    requires
        partition_value <= 6,
    ensures
        partition_spec(partition_value) matches Ok(widths) && widths.company_prefix.digits
            + widths.asset_type.digits == 12 && widths.company_prefix.bits
            + widths.asset_type.bits == 44,
{
}

/// The widths of company prefix and asset type for a partition value
/// (GS1 EPC TDS table 14-14).
pub fn decode_partition_value(partition_value: u8) -> (res: Result<GraiPartition, ParseError>)
    ensures
        res == partition_spec(partition_value),
{
    match partition_value {
        0 => Ok(
            GraiPartition {
                company_prefix: Partition { bits: 40, digits: 12 },
                asset_type: Partition { bits: 4, digits: 0 },
            },
        ),
        1 => Ok(
            GraiPartition {
                company_prefix: Partition { bits: 37, digits: 11 },
                asset_type: Partition { bits: 7, digits: 1 },
            },
        ),
        2 => Ok(
            GraiPartition {
                company_prefix: Partition { bits: 34, digits: 10 },
                asset_type: Partition { bits: 10, digits: 2 },
            },
        ),
        3 => Ok(
            GraiPartition {
                company_prefix: Partition { bits: 30, digits: 9 },
                asset_type: Partition { bits: 14, digits: 3 },
            },
        ),
        4 => Ok(
            GraiPartition {
                company_prefix: Partition { bits: 27, digits: 8 },
                asset_type: Partition { bits: 17, digits: 4 },
            },
        ),
        5 => Ok(
            GraiPartition {
                company_prefix: Partition { bits: 24, digits: 7 },
                asset_type: Partition { bits: 20, digits: 5 },
            },
        ),
        6 => Ok(
            GraiPartition {
                company_prefix: Partition { bits: 20, digits: 6 },
                asset_type: Partition { bits: 24, digits: 6 },
            },
        ),
        _ => Err(ParseError()),
    }
}

/// 96-bit Global Returnable Asset Identifier
///
/// A company prefix, an asset type, and a numeric serial number.
#[derive(PartialEq, Eq, Debug, Structural)]
pub struct GRAI96 {
    /// Filter
    pub filter: u8,
    /// Partition
    pub partition: u8,
    /// GS1 Company Prefix
    pub company_prefix: u64,
    /// Asset type
    pub asset_type: u32,
    /// Serial number
    pub serial: u64,
}

impl GRAI96 {
    /// Filter and partition are values that the standard assigns.
    pub open spec fn wf(&self) -> bool {
        &&& self.filter <= 7
        &&& self.partition <= 6
    }

    /// Company prefix, asset type and serial number as they stand in the
    /// URIs.
    pub open spec fn fields(&self) -> Seq<char> {
        decimal_digits(self.company_prefix as nat) + "."@ + decimal_digits(self.asset_type as nat)
            + "."@ + decimal_digits(self.serial as nat)
    }

    /// The fields as they stand in the URIs.
    fn fields_string(&self) -> (text: String)
        ensures
            text@ == self.fields(),
    {
        let mut text = decimal_string(self.company_prefix);
        text.append(".");
        text.append(decimal_string(self.asset_type as u64).as_str());
        text.append(".");
        text.append(decimal_string(self.serial).as_str());
        text
    }
}

impl EPC for GRAI96 {
    open spec fn epc_valid(&self) -> bool {
        true
    }

    open spec fn uri(&self) -> Seq<char> {
        "urn:epc:id:grai:"@ + self.fields()
    }

    open spec fn tag_uri(&self) -> Seq<char> {
        "urn:epc:tag:grai-96:"@ + decimal_digits(self.filter as nat) + "."@ + self.fields()
    }

    open spec fn value(&self) -> EPCValue<'_> {
        EPCValue::GRAI96(self)
    }

    // GS1 EPC TDS section 14.6.4
    fn to_uri(&self) -> (text: String) {
        let mut text = "urn:epc:id:grai:".to_string();
        text.append(self.fields_string().as_str());
        text
    }

    fn to_tag_uri(&self) -> (text: String) {
        let mut text = "urn:epc:tag:grai-96:".to_string();
        text.append(decimal_string(self.filter as u64).as_str());
        text.append(".");
        text.append(self.fields_string().as_str());
        text
    }

    fn get_value(&self) -> (value: EPCValue<'_>) {
        EPCValue::GRAI96(self)
    }
}

/// The identifier that a GRAI-96 payload holds: 3 bits of filter, 3 bits of
/// partition, company prefix and asset type in the widths that the partition
/// gives, and 38 bits of serial number (GS1 EPC TDS section 14.6.4). The
/// payload is malformed where it is shorter, or where the partition is not
/// assigned.
pub open spec fn grai96_spec(data: Seq<u8>) -> Result<GRAI96, ParseError> {
    let partition = bits_value(data, 3, 3) as u8;
    match partition_spec(partition) {
        Err(e) => Err(e),
        Ok(widths) => if 8 * data.len() < 88 {
            Err(ParseError())
        } else {
            Ok(
                GRAI96 {
                    filter: bits_value(data, 0, 3) as u8,
                    partition,
                    company_prefix: bits_value(data, 6, widths.company_prefix.bits as nat) as u64,
                    asset_type: bits_value(
                        data,
                        6 + widths.company_prefix.bits,
                        widths.asset_type.bits as nat,
                    ) as u32,
                    serial: bits_value(data, 50, 38) as u64,
                },
            )
        },
    }
}

/// A payload whose partition value is 7 holds no GRAI.
pub proof fn lemma_unassigned_partition(data: Seq<u8>)
    requires
        bits_value(data, 3, 3) == 7,
    ensures
        grai96_spec(data) == Err::<GRAI96, ParseError>(ParseError()),
{
}

/// What a GRAI-96 payload holds is found in its first 11 bytes: what follows
/// them changes nothing.
pub proof fn lemma_grai96_reads_front(data: Seq<u8>)
    ensures
        grai96_spec(front_spec(data, 11)) == grai96_spec(data),
{
    lemma_bits_value_of_front(data, 11, 0, 3);
    lemma_bits_value_of_front(data, 11, 3, 3);
    lemma_bits_value_of_front(data, 11, 50, 38);
    match partition_spec(bits_value(data, 3, 3) as u8) {
        Ok(widths) => {
            lemma_bits_value_of_front(data, 11, 6, widths.company_prefix.bits as nat);
            lemma_bits_value_of_front(
                data,
                11,
                6 + widths.company_prefix.bits,
                widths.asset_type.bits as nat,
            );
        },
        Err(_) => {},
    }
}

/// Decodes the payload of a GRAI-96 tag, header byte left off
/// (GS1 EPC TDS section 14.6.4).
pub fn decode_grai96(data: &[u8]) -> (res: Result<GRAI96, ParseError>)
    ensures
        res == grai96_spec(data@),
        res matches Ok(grai) ==> grai.wf(),
{
    let head = front(data, 11);
    let mut cursor = BitCursor::new(head);
    proof {
        lemma_grai96_reads_front(data@);
        lemma_bits_value_bound(head@, 0, 3);
        lemma_bits_value_bound(head@, 3, 3);
        lemma2_to64();
    }
    let filter = cursor.read_u8(3)?;
    let partition = cursor.read_u8(3)?;
    let grai_partition = decode_partition_value(partition)?;
    let company_prefix = cursor.read_uint(grai_partition.company_prefix.bits)?;
    let asset_type = cursor.read_u32(grai_partition.asset_type.bits)?;
    let serial = cursor.read_uint(38)?;
    Ok(GRAI96 { filter, partition, company_prefix, asset_type, serial })
}

} // verus!
