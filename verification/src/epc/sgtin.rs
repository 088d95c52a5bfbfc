//! Serialised Global Trade Item Number
//!
//! A GTIN together with a serial number, which identifies a single item.

use crate::cursor::{
    bits_value, front, front_spec, lemma_bits_value_bound, lemma_bits_value_of_front, BitCursor,
};
use crate::decimal::{decimal_digits, decimal_string};
use crate::epc::{EPCValue, EPC};
use crate::error::ParseError;
use crate::general::ApplicationIdentifier;
use crate::util::{
    ascii_text, extract_indicator, extract_indicator_spec, lemma_ascii_text_of_front,
    lemma_extract_indicator_bounds, percent_encoded, read_string, text_length, uri_encode,
};
use crate::{GS1, GTIN};
use vstd::arithmetic::power2::lemma2_to64;
use vstd::prelude::*;
use vstd::string::*;
use vstd::utf8::encode_utf8;

verus! {

/// 96-bit Serialised Global Trade Item Number
///
/// A GTIN, a filter value (which RFID readers use), and a numeric serial
/// number.
#[derive(PartialEq, Eq, Debug, Structural)]
pub struct SGTIN96 {
    /// Filter value to allow RFID readers to select the type of tag to read.
    pub filter: u8,
    /// Global Trade Item Number
    pub gtin: GTIN,
    /// Item serial number
    pub serial: u64,
}

/// 198-bit Serialised Global Trade Item Number
///
/// A GTIN, a filter value (which RFID readers use), and an alphanumeric
/// serial number, which the tag holds in 7-bit ASCII.
#[derive(PartialEq, Debug)]
pub struct SGTIN198 {
    /// Filter value to allow RFID readers to select tags to read
    pub filter: u8,
    /// Global Trade Item Number
    pub gtin: GTIN,
    /// Alphanumeric serial number
    pub serial: String,
}

/// What an [`SGTIN198`] holds.
pub struct SGTIN198View {
    pub filter: u8,
    pub gtin: GTIN,
    pub serial: Seq<char>,
}

impl View for SGTIN198 {
    type V = SGTIN198View;

    open spec fn view(&self) -> SGTIN198View {
        SGTIN198View { filter: self.filter, gtin: self.gtin, serial: self.serial@ }
    }
}

/// Company prefix, indicator digit, item reference and serial number as they
/// stand in the URIs of an SGTIN.
pub open spec fn sgtin_fields(gtin: GTIN, serial: Seq<char>) -> Seq<char> {
    gtin.company_text() + "."@ + decimal_digits(gtin.indicator as nat) + gtin.item_text() + "."@
        + serial
}

/// The fields of an SGTIN as they stand in its URIs.
fn sgtin_fields_string(gtin: &GTIN, serial: &str) -> (text: String)
    requires
        gtin.digits_fit(),
    ensures
        text@ == sgtin_fields(*gtin, serial@),
{
    let mut text = gtin.company_string();
    text.append(".");
    text.append(decimal_string(gtin.indicator as u64).as_str());
    text.append(gtin.item_string().as_str());
    text.append(".");
    text.append(serial);
    text
}

impl SGTIN96 {
    /// The filter is a 3-bit value and the GTIN is well-formed.
    pub open spec fn wf(&self) -> bool {
        &&& self.filter <= 7
        &&& self.gtin.wf()
    }
}

impl EPC for SGTIN96 {
    open spec fn epc_valid(&self) -> bool {
        self.gtin.digits_fit()
    }

    open spec fn uri(&self) -> Seq<char> {
        "urn:epc:id:sgtin:"@ + sgtin_fields(self.gtin, decimal_digits(self.serial as nat))
    }

    open spec fn tag_uri(&self) -> Seq<char> {
        "urn:epc:tag:sgtin-96:"@ + decimal_digits(self.filter as nat) + "."@ + sgtin_fields(
            self.gtin,
            decimal_digits(self.serial as nat),
        )
    }

    open spec fn value(&self) -> EPCValue<'_> {
        EPCValue::SGTIN96(self)
    }

    // GS1 EPC TDS section 6.3.1
    fn to_uri(&self) -> (text: String) {
        let mut text = "urn:epc:id:sgtin:".to_string();
        let serial = decimal_string(self.serial);
        text.append(sgtin_fields_string(&self.gtin, serial.as_str()).as_str());
        text
    }

    fn to_tag_uri(&self) -> (text: String) {
        let mut text = "urn:epc:tag:sgtin-96:".to_string();
        text.append(decimal_string(self.filter as u64).as_str());
        text.append(".");
        let serial = decimal_string(self.serial);
        text.append(sgtin_fields_string(&self.gtin, serial.as_str()).as_str());
        text
    }

    fn get_value(&self) -> (value: EPCValue<'_>) {
        EPCValue::SGTIN96(self)
    }
}

impl GS1 for SGTIN96 {
    open spec fn gs1_valid(&self) -> bool {
        self.gtin.digits_fit()
    }

    open spec fn element_string(&self) -> Seq<char> {
        self.gtin.element_string() + " "@ + ApplicationIdentifier::SerialNumber.prefix_spec()
            + decimal_digits(self.serial as nat)
    }

    fn to_gs1(&self) -> (text: String) {
        let mut text = self.gtin.to_gs1();
        text.append(" ");
        text.append(ApplicationIdentifier::SerialNumber.prefix().as_str());
        text.append(decimal_string(self.serial).as_str());
        text
    }
}

impl SGTIN198 {
    /// The filter is a 3-bit value and the GTIN is well-formed.
    pub open spec fn wf(&self) -> bool {
        &&& self.filter <= 7
        &&& self.gtin.wf()
    }
}

impl EPC for SGTIN198 {
    open spec fn epc_valid(&self) -> bool {
        self.gtin.digits_fit()
    }

    open spec fn uri(&self) -> Seq<char> {
        "urn:epc:id:sgtin:"@ + sgtin_fields(self.gtin, percent_encoded(encode_utf8(self.serial@)))
    }

    open spec fn tag_uri(&self) -> Seq<char> {
        "urn:epc:tag:sgtin-198:"@ + decimal_digits(self.filter as nat) + "."@ + sgtin_fields(
            self.gtin,
            percent_encoded(encode_utf8(self.serial@)),
        )
    }

    open spec fn value(&self) -> EPCValue<'_> {
        EPCValue::SGTIN198(self)
    }

    // GS1 EPC TDS section 6.3.1
    fn to_uri(&self) -> (text: String) {
        let mut text = "urn:epc:id:sgtin:".to_string();
        let serial = uri_encode(self.serial.clone());
        text.append(sgtin_fields_string(&self.gtin, serial.as_str()).as_str());
        text
    }

    fn to_tag_uri(&self) -> (text: String) {
        let mut text = "urn:epc:tag:sgtin-198:".to_string();
        text.append(decimal_string(self.filter as u64).as_str());
        text.append(".");
        let serial = uri_encode(self.serial.clone());
        text.append(sgtin_fields_string(&self.gtin, serial.as_str()).as_str());
        text
    }

    fn get_value(&self) -> (value: EPCValue<'_>) {
        EPCValue::SGTIN198(self)
    }
}

impl GS1 for SGTIN198 {
    open spec fn gs1_valid(&self) -> bool {
        self.gtin.digits_fit()
    }

    open spec fn element_string(&self) -> Seq<char> {
        self.gtin.element_string() + " "@ + ApplicationIdentifier::SerialNumber.prefix_spec()
            + self.serial@
    }

    fn to_gs1(&self) -> (text: String) {
        let mut text = self.gtin.to_gs1();
        text.append(" ");
        text.append(ApplicationIdentifier::SerialNumber.prefix().as_str());
        text.append(self.serial.as_str());
        text
    }
}

/// The number of bits of the company prefix and of the item field, for each
/// partition value that the standard assigns (GS1 EPC TDS table 14-2). The
/// value 7 is not assigned.
pub open spec fn partition_bits_spec(partition: u8) -> Result<(u8, u8), ParseError> {
    match partition {
        0 => Ok((40, 4)),
        1 => Ok((37, 7)),
        2 => Ok((34, 10)),
        3 => Ok((30, 14)),
        4 => Ok((27, 17)),
        5 => Ok((24, 20)),
        6 => Ok((20, 24)),
        _ => Err(ParseError()),
    }
}

/// The number of decimal digits of the company prefix.
pub open spec fn company_digits_spec(partition: u8) -> nat {
    (12 - partition) as nat
}

/// The number of decimal digits of the item field, indicator digit included.
pub open spec fn item_digits_spec(partition: u8) -> nat {
    (13 - company_digits_spec(partition)) as nat
}

/// For every partition value that the standard assigns, company prefix and
/// item field have 13 digits and 44 bits between them.
pub proof fn lemma_partition_budget(partition: u8)
    requires
        partition <= 6,
    ensures
        company_digits_spec(partition) + item_digits_spec(partition) == 13,
        partition_bits_spec(partition) matches Ok((company_bits, item_bits)) && company_bits
            + item_bits == 44,
{
}

/// The number of decimal digits of the company prefix
/// (GS1 EPC TDS table 14-2).
pub fn company_digits(partition: u8) -> (digits: usize)
    requires
        partition <= 12,
    ensures
        digits == company_digits_spec(partition),
{
    12 - partition as usize
}

/// The number of decimal digits of the item field, indicator digit included.
pub fn item_digits(partition: u8) -> (digits: usize)
    requires
        partition <= 12,
    ensures
        digits == item_digits_spec(partition),
{
    13 - company_digits(partition)
}

/// The number of bits of the company prefix and of the item field
/// (GS1 EPC TDS table 14-2).
pub fn partition_bits(partition: u8) -> (res: Result<(u8, u8), ParseError>)
    ensures
        res == partition_bits_spec(partition),
{
    match partition {
        0 => Ok((40, 4)),
        1 => Ok((37, 7)),
        2 => Ok((34, 10)),
        3 => Ok((30, 14)),
        4 => Ok((27, 17)),
        5 => Ok((24, 20)),
        6 => Ok((20, 24)),
        _ => Err(ParseError()),
    }
}

/// The GTIN that the first 50 bits of an SGTIN payload hold: 3 bits of
/// filter, 3 bits of partition, then company prefix and item field in the
/// widths that the partition gives. The payload is malformed where it is
/// shorter, where the partition is not assigned, or where the item field
/// holds no item reference.
pub open spec fn gtin_spec(data: Seq<u8>) -> Result<GTIN, ParseError> {
    let partition = bits_value(data, 3, 3) as u8;
    if 8 * data.len() < 50 {
        Err(ParseError())
    } else {
        match partition_bits_spec(partition) {
            Err(e) => Err(e),
            Ok((company_bits, item_bits)) => {
                let field = bits_value(data, 6 + company_bits, item_bits as nat) as u64;
                match extract_indicator_spec(field, item_digits_spec(partition)) {
                    Err(e) => Err(e),
                    Ok((item, indicator)) => Ok(
                        GTIN {
                            company: bits_value(data, 6, company_bits as nat) as u64,
                            company_digits: company_digits_spec(partition) as usize,
                            item,
                            indicator,
                        },
                    ),
                }
            },
        }
    }
}

/// The identifier that an SGTIN-96 payload holds: the GTIN, and a serial
/// number of 38 bits behind it (GS1 EPC TDS section 14.5.1).
pub open spec fn sgtin96_spec(data: Seq<u8>) -> Result<SGTIN96, ParseError> {
    match gtin_spec(data) {
        Err(e) => Err(e),
        Ok(gtin) => if 8 * data.len() < 88 {
            Err(ParseError())
        } else {
            Ok(
                SGTIN96 {
                    filter: bits_value(data, 0, 3) as u8,
                    gtin,
                    serial: bits_value(data, 50, 38) as u64,
                },
            )
        },
    }
}

/// The identifier that an SGTIN-198 payload holds: the GTIN, and behind it a
/// serial number of up to 20 characters of 7 bits, fewer where the payload
/// ends before (GS1 EPC TDS section 14.5.1.2).
pub open spec fn sgtin198_spec(data: Seq<u8>) -> Result<SGTIN198View, ParseError> {
    match gtin_spec(data) {
        Err(e) => Err(e),
        Ok(gtin) => Ok(
            SGTIN198View {
                filter: bits_value(data, 0, 3) as u8,
                gtin,
                serial: ascii_text(data, 50, text_length(8 * data.len() - 50, 140)),
            },
        ),
    }
}

/// A payload whose partition value is 7 holds no SGTIN.
pub proof fn lemma_unassigned_partition(data: Seq<u8>)
    requires
        bits_value(data, 3, 3) == 7,
    ensures
        sgtin96_spec(data) == Err::<SGTIN96, ParseError>(ParseError()),
        sgtin198_spec(data) == Err::<SGTIN198View, ParseError>(ParseError()),
{
}

/// An SGTIN payload holds a GTIN unless it is shorter than 50 bits, or its
/// partition value is 7, or its partition value is 0 and its item field is
/// below ten: that field has one digit, which is the indicator digit, and
/// nothing is left for an item reference.
pub proof fn lemma_gtin_failures(data: Seq<u8>)
    ensures
        gtin_spec(data) is Err <==> {
            ||| 8 * data.len() < 50
            ||| bits_value(data, 3, 3) == 7
            ||| bits_value(data, 3, 3) == 0 && bits_value(data, 46, 4) <= 9
        },
{
    lemma_bits_value_bound(data, 3, 3);
    lemma2_to64();
    let partition = bits_value(data, 3, 3) as u8;
    match partition_bits_spec(partition) {
        Ok((company_bits, item_bits)) => {
            lemma_bits_value_bound(data, 6 + company_bits, item_bits as nat);
            let field = bits_value(data, 6 + company_bits, item_bits as nat) as u64;
            lemma_extract_indicator_bounds(field, item_digits_spec(partition));
        },
        Err(_) => {},
    }
}

/// The GTIN of an SGTIN payload is found in its first 7 bytes: what follows
/// them changes nothing.
pub proof fn lemma_gtin_reads_front(data: Seq<u8>, count: nat)
    requires
        count >= 7,
    ensures
        gtin_spec(front_spec(data, count)) == gtin_spec(data),
{
    lemma_bits_value_of_front(data, count, 3, 3);
    match partition_bits_spec(bits_value(data, 3, 3) as u8) {
        Ok((company_bits, item_bits)) => {
            lemma_bits_value_of_front(data, count, 6, company_bits as nat);
            lemma_bits_value_of_front(data, count, 6 + company_bits, item_bits as nat);
        },
        Err(_) => {},
    }
}

/// What an SGTIN-96 payload holds is found in its first 11 bytes: what
/// follows them changes nothing.
pub proof fn lemma_sgtin96_reads_front(data: Seq<u8>)
    ensures
        sgtin96_spec(front_spec(data, 11)) == sgtin96_spec(data),
{
    lemma_gtin_reads_front(data, 11);
    lemma_bits_value_of_front(data, 11, 0, 3);
    lemma_bits_value_of_front(data, 11, 50, 38);
}

/// What an SGTIN-198 payload holds is found in its first 24 bytes: what
/// follows them changes nothing.
pub proof fn lemma_sgtin198_reads_front(data: Seq<u8>)
    ensures
        sgtin198_spec(front_spec(data, 24)) == sgtin198_spec(data),
{
    lemma_gtin_reads_front(data, 24);
    lemma_bits_value_of_front(data, 24, 0, 3);
    if data.len() > 24 {
        lemma_ascii_text_of_front(data, 24, 50, 20);
    }
}

/// Reads filter and GTIN from the start of an SGTIN payload.
fn read_gtin(cursor: &mut BitCursor) -> (res: Result<(u8, GTIN), ParseError>)
    requires
        old(cursor).position() == 0,
    ensures
        final(cursor).data() == old(cursor).data(),
        match res {
            Ok((filter, gtin)) => {
                &&& gtin_spec(old(cursor).data()) == Ok::<GTIN, ParseError>(gtin)
                &&& filter == bits_value(old(cursor).data(), 0, 3)
                &&& filter <= 7
                &&& gtin.wf()
                &&& final(cursor).position() == 50
            },
            Err(e) => gtin_spec(old(cursor).data()) == Err::<GTIN, ParseError>(e),
        },
{
    let ghost data = cursor.data();
    proof {
        lemma_bits_value_bound(data, 0, 3);
        lemma_bits_value_bound(data, 3, 3);
        lemma2_to64();
    }
    let filter = cursor.read_u8(3)?;
    let partition = cursor.read_u8(3)?;
    let (company_bits, item_bits) = partition_bits(partition)?;
    let company = cursor.read_uint(company_bits)?;
    let item = cursor.read_uint(item_bits)?;
    proof {
        lemma_extract_indicator_bounds(item, item_digits_spec(partition));
    }
    let (item, indicator) = extract_indicator(item, item_digits(partition))?;
    Ok(
        (
            filter,
            GTIN { company, company_digits: company_digits(partition), item, indicator },
        ),
    )
}

/// Decodes the payload of an SGTIN-96 tag, header byte left off
/// (GS1 EPC TDS section 14.5.1).
pub fn decode_sgtin96(data: &[u8]) -> (res: Result<SGTIN96, ParseError>)
    ensures
        res == sgtin96_spec(data@),
        res matches Ok(sgtin) ==> sgtin.wf(),
{
    proof {
        lemma_sgtin96_reads_front(data@);
    }
    let mut cursor = BitCursor::new(front(data, 11));
    let (filter, gtin) = read_gtin(&mut cursor)?;
    let serial = cursor.read_uint(38)?;
    Ok(SGTIN96 { filter, gtin, serial })
}

/// Decodes the payload of an SGTIN-198 tag, header byte left off
/// (GS1 EPC TDS section 14.5.1.2).
pub fn decode_sgtin198(data: &[u8]) -> (res: Result<SGTIN198, ParseError>)
    ensures
        match res {
            Ok(sgtin) => sgtin198_spec(data@) == Ok::<SGTIN198View, ParseError>(sgtin@)
                && sgtin.wf(),
            Err(e) => sgtin198_spec(data@) == Err::<SGTIN198View, ParseError>(e),
        },
{
    proof {
        lemma_sgtin198_reads_front(data@);
    }
    let mut cursor = BitCursor::new(front(data, 24));
    let (filter, gtin) = read_gtin(&mut cursor)?;
    let serial = read_string(&mut cursor, 140)?;
    Ok(SGTIN198 { filter, gtin, serial })
}

} // verus!
