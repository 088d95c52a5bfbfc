//! Serial Shipping Container Code
//!
//! The identifier of a logistics unit: a company prefix and a serial
//! reference, with an extension digit in front.

use crate::checksum::{check_digit, gs1_checksum};
use crate::cursor::{
    bits_value, front, front_spec, lemma_bits_value_bound, lemma_bits_value_of_front, BitCursor,
};
use crate::decimal::{
    all_digits, decimal_digits, decimal_string, lemma_decimal_digits_are_digits,
    lemma_zero_padded_digits, zero_padded,
};
use crate::epc::{EPCValue, EPC};
use crate::error::ParseError;
use crate::general::ApplicationIdentifier;
use crate::util::{
    extract_indicator, extract_indicator_spec, lemma_extract_indicator_bounds, zero_pad,
};
use crate::GS1;
use vstd::arithmetic::power2::lemma2_to64;
use vstd::prelude::*;
use vstd::string::*;

verus! {

/// 96-bit Serial Shipping Container Code
#[derive(PartialEq, Eq, Debug, Structural)]
pub struct SSCC96 {
    /// Filter value to allow RFID readers to select the type of tag to read.
    pub filter: u8,
    /// Partition value, which gives the widths of company prefix and serial
    /// reference.
    pub partition: u8,
    /// Extension digit
    pub indicator: u8,
    /// Company identifier
    pub company: u64,
    /// Serial reference
    pub serial: u64,
}

/// The number of bits of the company prefix and of the serial field, for each
/// partition value that the standard assigns (GS1 EPC TDS table 14-5). The
/// value 7 is not assigned.
pub open spec fn partition_bits_spec(partition: u8) -> Result<(u8, u8), ParseError> {
    match partition {
        0 => Ok((40, 18)),
        1 => Ok((37, 21)),
        2 => Ok((34, 24)),
        3 => Ok((30, 28)),
        4 => Ok((27, 31)),
        5 => Ok((24, 34)),
        6 => Ok((20, 48)),
        _ => Err(ParseError()),
    }
}

/// The number of decimal digits of the company prefix.
pub open spec fn company_digits_spec(partition: u8) -> nat {
    (12 - partition) as nat
}

/// The number of decimal digits of the serial field, extension digit
/// included.
pub open spec fn item_digits_spec(partition: u8) -> nat {
    (17 - company_digits_spec(partition)) as nat
}

/// For every partition value that the standard assigns, company prefix and
/// serial field have 17 digits between them.
pub proof fn lemma_partition_budget(partition: u8)
    requires
        partition <= 6,
    ensures
        company_digits_spec(partition) + item_digits_spec(partition) == 17,
        partition_bits_spec(partition) is Ok,
{
}

/// The number of decimal digits of the company prefix
/// (GS1 EPC TDS table 14-5).
pub fn company_digits(partition: u8) -> (digits: usize)
    requires
        partition <= 12,
    ensures
        digits == company_digits_spec(partition),
{
    12 - partition as usize
}

/// The number of decimal digits of the serial field, extension digit
/// included.
pub fn item_digits(partition: u8) -> (digits: usize)
    requires
        partition <= 12,
    ensures
        digits == item_digits_spec(partition),
{
    17 - company_digits(partition)
}

/// The number of bits of the company prefix and of the serial field
/// (GS1 EPC TDS table 14-5).
pub fn partition_bits(partition: u8) -> (res: Result<(u8, u8), ParseError>)
    ensures
        res == partition_bits_spec(partition),
{
    match partition {
        0 => Ok((40, 18)),
        1 => Ok((37, 21)),
        2 => Ok((34, 24)),
        3 => Ok((30, 28)),
        4 => Ok((27, 31)),
        5 => Ok((24, 34)),
        6 => Ok((20, 48)),
        _ => Err(ParseError()),
    }
}

impl SSCC96 {
    /// The partition leaves both fields a width.
    pub open spec fn digits_fit(&self) -> bool {
        self.partition <= 12
    }

    /// Filter and partition are values that the standard assigns, and the
    /// extension digit is one digit.
    pub open spec fn wf(&self) -> bool {
        &&& self.filter <= 7
        &&& self.partition <= 6
        &&& self.indicator <= 9
    }

    /// The company prefix, padded to its digit count.
    pub open spec fn company_text(&self) -> Seq<char> {
        zero_padded(decimal_digits(self.company as nat), company_digits_spec(self.partition))
    }

    /// The serial reference, padded to its digit count.
    pub open spec fn serial_text(&self) -> Seq<char> {
        zero_padded(
            decimal_digits(self.serial as nat),
            (item_digits_spec(self.partition) - 1) as nat,
        )
    }

    /// Company prefix, extension digit and serial reference as they stand in
    /// the URIs.
    pub open spec fn fields(&self) -> Seq<char> {
        self.company_text() + "."@ + decimal_digits(self.indicator as nat) + self.serial_text()
    }

    /// The digits that the check digit is computed over: extension digit,
    /// company prefix, serial reference.
    pub open spec fn digits(&self) -> Seq<char> {
        decimal_digits(self.indicator as nat) + self.company_text() + self.serial_text()
    }

    /// The digits of an SSCC are digits.
    pub proof fn lemma_digits_are_digits(&self)
        ensures
            all_digits(self.digits()),
    {
        lemma_decimal_digits_are_digits(self.indicator as nat);
        lemma_decimal_digits_are_digits(self.company as nat);
        lemma_decimal_digits_are_digits(self.serial as nat);
        lemma_zero_padded_digits(
            decimal_digits(self.company as nat),
            company_digits_spec(self.partition),
        );
        lemma_zero_padded_digits(
            decimal_digits(self.serial as nat),
            (item_digits_spec(self.partition) - 1) as nat,
        );
    }

    /// The company prefix, padded to its digit count.
    fn company_string(&self) -> (text: String)
        requires
            self.digits_fit(),
        ensures
            text@ == self.company_text(),
    {
        proof {
            lemma_decimal_digits_are_digits(self.company as nat);
        }
        zero_pad(decimal_string(self.company), company_digits(self.partition))
    }

    /// The serial reference, padded to its digit count.
    fn serial_string(&self) -> (text: String)
        requires
            self.digits_fit(),
        ensures
            text@ == self.serial_text(),
    {
        proof {
            lemma_decimal_digits_are_digits(self.serial as nat);
        }
        zero_pad(decimal_string(self.serial), item_digits(self.partition) - 1)
    }

    /// The fields as they stand in the URIs.
    fn fields_string(&self) -> (text: String)
        requires
            self.digits_fit(),
        ensures
            text@ == self.fields(),
    {
        let mut text = self.company_string();
        text.append(".");
        text.append(decimal_string(self.indicator as u64).as_str());
        text.append(self.serial_string().as_str());
        text
    }
}

impl EPC for SSCC96 {
    open spec fn epc_valid(&self) -> bool {
        self.digits_fit()
    }

    open spec fn uri(&self) -> Seq<char> {
        "urn:epc:id:sscc:"@ + self.fields()
    }

    open spec fn tag_uri(&self) -> Seq<char> {
        "urn:epc:tag:sscc-96:"@ + decimal_digits(self.filter as nat) + "."@ + self.fields()
    }

    open spec fn value(&self) -> EPCValue<'_> {
        EPCValue::SSCC96(self)
    }

    // GS1 EPC TDS section 6.3.2
    fn to_uri(&self) -> (text: String) {
        let mut text = "urn:epc:id:sscc:".to_string();
        text.append(self.fields_string().as_str());
        text
    }

    fn to_tag_uri(&self) -> (text: String) {
        let mut text = "urn:epc:tag:sscc-96:".to_string();
        text.append(decimal_string(self.filter as u64).as_str());
        text.append(".");
        text.append(self.fields_string().as_str());
        text
    }

    fn get_value(&self) -> (value: EPCValue<'_>) {
        EPCValue::SSCC96(self)
    }
}

impl GS1 for SSCC96 {
    open spec fn gs1_valid(&self) -> bool {
        self.digits_fit()
    }

    open spec fn element_string(&self) -> Seq<char> {
        ApplicationIdentifier::SSCC.prefix_spec() + self.digits() + decimal_digits(
            check_digit(self.digits()),
        )
    }

    fn to_gs1(&self) -> (text: String) {
        let mut element_string = decimal_string(self.indicator as u64);
        element_string.append(self.company_string().as_str());
        element_string.append(self.serial_string().as_str());
        proof {
            self.lemma_digits_are_digits();
        }
        let check = gs1_checksum(element_string.as_str());
        let mut text = ApplicationIdentifier::SSCC.prefix();
        text.append(element_string.as_str());
        text.append(decimal_string(check as u64).as_str());
        text
    }
}

/// The identifier that an SSCC-96 payload holds: 3 bits of filter, 3 bits of
/// partition, then company prefix and serial field in the widths that the
/// partition gives (GS1 EPC TDS section 14.5.2). The serial field holds the
/// extension digit in front of the serial reference. The payload is malformed
/// where it is shorter than its fields, where the partition is not assigned,
/// or where the serial field holds no serial reference.
pub open spec fn sscc96_spec(data: Seq<u8>) -> Result<SSCC96, ParseError> {
    let partition = bits_value(data, 3, 3) as u8;
    match partition_bits_spec(partition) {
        Err(e) => Err(e),
        Ok((company_bits, serial_bits)) => if 8 * data.len() < 6 + company_bits + serial_bits {
            Err(ParseError())
        } else {
            let field = bits_value(data, 6 + company_bits, serial_bits as nat) as u64;
            match extract_indicator_spec(field, item_digits_spec(partition)) {
                Err(e) => Err(e),
                Ok((serial, indicator)) => Ok(
                    SSCC96 {
                        filter: bits_value(data, 0, 3) as u8,
                        partition,
                        indicator,
                        company: bits_value(data, 6, company_bits as nat) as u64,
                        serial,
                    },
                ),
            }
        },
    }
}

/// A payload whose partition value is 7 holds no SSCC.
pub proof fn lemma_unassigned_partition(data: Seq<u8>)
    requires
        bits_value(data, 3, 3) == 7,
    ensures
        sscc96_spec(data) == Err::<SSCC96, ParseError>(ParseError()),
{
}

/// An SSCC-96 payload holds an SSCC unless its partition value is 7 or it is
/// shorter than its fields. The serial field has five digits or more, so that
/// it always holds a serial reference behind the extension digit.
pub proof fn lemma_sscc96_failures(data: Seq<u8>)
    ensures
        sscc96_spec(data) is Err <==> match partition_bits_spec(bits_value(data, 3, 3) as u8) {
            Ok((company_bits, serial_bits)) => 8 * data.len() < 6 + company_bits + serial_bits,
            Err(_) => true,
        },
        partition_bits_spec(bits_value(data, 3, 3) as u8) is Err <==> bits_value(data, 3, 3) == 7,
{
    lemma_bits_value_bound(data, 3, 3);
    lemma2_to64();
    let partition = bits_value(data, 3, 3) as u8;
    match partition_bits_spec(partition) {
        Ok((company_bits, serial_bits)) => {
            let field = bits_value(data, 6 + company_bits, serial_bits as nat) as u64;
            lemma_extract_indicator_bounds(field, item_digits_spec(partition));
        },
        Err(_) => {},
    }
}

/// What an SSCC-96 payload holds is found in its first 11 bytes: what
/// follows them changes nothing.
pub proof fn lemma_sscc96_reads_front(data: Seq<u8>)
    ensures
        sscc96_spec(front_spec(data, 11)) == sscc96_spec(data),
{
    lemma_bits_value_of_front(data, 11, 0, 3);
    lemma_bits_value_of_front(data, 11, 3, 3);
    match partition_bits_spec(bits_value(data, 3, 3) as u8) {
        Ok((company_bits, serial_bits)) => {
            lemma_bits_value_of_front(data, 11, 6, company_bits as nat);
            lemma_bits_value_of_front(data, 11, 6 + company_bits, serial_bits as nat);
        },
        Err(_) => {},
    }
}

/// Decodes the payload of an SSCC-96 tag, header byte left off
/// (GS1 EPC TDS section 14.5.2).
pub fn decode_sscc96(data: &[u8]) -> (res: Result<SSCC96, ParseError>)
    ensures
        res == sscc96_spec(data@),
        res matches Ok(sscc) ==> sscc.wf(),
{
    let head = front(data, 11);
    let mut cursor = BitCursor::new(head);
    proof {
        lemma_sscc96_reads_front(data@);
        lemma_bits_value_bound(head@, 0, 3);
        lemma_bits_value_bound(head@, 3, 3);
        lemma2_to64();
    }
    let filter = cursor.read_u8(3)?;
    let partition = cursor.read_u8(3)?;
    let (company_bits, serial_bits) = partition_bits(partition)?;
    let company = cursor.read_uint(company_bits)?;
    let serial = cursor.read_uint(serial_bits)?;
    proof {
        lemma_extract_indicator_bounds(serial, item_digits_spec(partition));
    }
    let (serial, indicator) = extract_indicator(serial, item_digits(partition))?;
    Ok(SSCC96 { filter, partition, indicator, company, serial })
}

} // verus!
