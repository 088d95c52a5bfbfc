//! GS1 Electronic Product Codes
//!
//! EPCs represent GS1 identifiers on Gen2 RFID tags, as laid down in the
//! [GS1 EPC Tag Data Standard](https://www.gs1.org/standards/epc-rfid/tds).
//!
//! [`decode_binary`] reads the header byte of a payload and hands the rest to
//! the decoder of the layout that the header names. What it returns is
//! stated by [`decode_spec`].

use crate::cursor::bits_value;
use crate::error::{Error, ParseError, UnimplementedError};
use vstd::prelude::*;
use vstd::slice::{slice_subrange, slice_to_vec};

pub mod gid;
pub mod grai;
pub mod sgtin;
pub mod sscc;
pub mod tid;

verus! {

/// The binary layouts that a header byte can name (GS1 EPC TDS table 14-1).
#[derive(Debug, Eq, PartialEq, Copy, Clone, Structural)]
pub enum EPCBinaryHeader {
    Unprogrammed,
    GDTI96,
    GSRN96,
    GSRNP96,
    USDoD96,
    SGTIN96,
    SSCC96,
    SGLN96,
    GRAI96,
    GIAI96,
    GID96,
    SGTIN198,
    GRAI170,
    GIAI202,
    SGLN195,
    GDTI113,
    ADIVAR,
    CPI96,
    CPIVAR,
    GDTI174,
    SGCN96,
    ITIP110,
    ITIP212,
}

impl EPCBinaryHeader {
    /// The layout that a header byte names, if it names one. Every other
    /// byte is reserved; among them `0xE2`, which marks the tag
    /// identification memory and never an EPC.
    pub open spec fn from_byte_spec(byte: u8) -> Option<EPCBinaryHeader> {
        match byte {
            0x00 => Some(EPCBinaryHeader::Unprogrammed),
            0x2C => Some(EPCBinaryHeader::GDTI96),
            0x2D => Some(EPCBinaryHeader::GSRN96),
            0x2E => Some(EPCBinaryHeader::GSRNP96),
            0x2F => Some(EPCBinaryHeader::USDoD96),
            0x30 => Some(EPCBinaryHeader::SGTIN96),
            0x31 => Some(EPCBinaryHeader::SSCC96),
            0x32 => Some(EPCBinaryHeader::SGLN96),
            0x33 => Some(EPCBinaryHeader::GRAI96),
            0x34 => Some(EPCBinaryHeader::GIAI96),
            0x35 => Some(EPCBinaryHeader::GID96),
            0x36 => Some(EPCBinaryHeader::SGTIN198),
            0x37 => Some(EPCBinaryHeader::GRAI170),
            0x38 => Some(EPCBinaryHeader::GIAI202),
            0x39 => Some(EPCBinaryHeader::SGLN195),
            0x3A => Some(EPCBinaryHeader::GDTI113),
            0x3B => Some(EPCBinaryHeader::ADIVAR),
            0x3C => Some(EPCBinaryHeader::CPI96),
            0x3D => Some(EPCBinaryHeader::CPIVAR),
            0x3E => Some(EPCBinaryHeader::GDTI174),
            0x3F => Some(EPCBinaryHeader::SGCN96),
            0x40 => Some(EPCBinaryHeader::ITIP110),
            0x41 => Some(EPCBinaryHeader::ITIP212),
            _ => None,
        }
    }

    /// The layout that a header byte names, if it names one.
    pub fn from_byte(byte: u8) -> (header: Option<EPCBinaryHeader>)
        ensures
            header == Self::from_byte_spec(byte),
    {
        match byte {
            0x00 => Some(EPCBinaryHeader::Unprogrammed),
            0x2C => Some(EPCBinaryHeader::GDTI96),
            0x2D => Some(EPCBinaryHeader::GSRN96),
            0x2E => Some(EPCBinaryHeader::GSRNP96),
            0x2F => Some(EPCBinaryHeader::USDoD96),
            0x30 => Some(EPCBinaryHeader::SGTIN96),
            0x31 => Some(EPCBinaryHeader::SSCC96),
            0x32 => Some(EPCBinaryHeader::SGLN96),
            0x33 => Some(EPCBinaryHeader::GRAI96),
            0x34 => Some(EPCBinaryHeader::GIAI96),
            0x35 => Some(EPCBinaryHeader::GID96),
            0x36 => Some(EPCBinaryHeader::SGTIN198),
            0x37 => Some(EPCBinaryHeader::GRAI170),
            0x38 => Some(EPCBinaryHeader::GIAI202),
            0x39 => Some(EPCBinaryHeader::SGLN195),
            0x3A => Some(EPCBinaryHeader::GDTI113),
            0x3B => Some(EPCBinaryHeader::ADIVAR),
            0x3C => Some(EPCBinaryHeader::CPI96),
            0x3D => Some(EPCBinaryHeader::CPIVAR),
            0x3E => Some(EPCBinaryHeader::GDTI174),
            0x3F => Some(EPCBinaryHeader::SGCN96),
            0x40 => Some(EPCBinaryHeader::ITIP110),
            0x41 => Some(EPCBinaryHeader::ITIP212),
            _ => None,
        }
    }
}

/// An identifier that can be represented as an EPC.
pub trait EPC {
    /// The digit counts that the identifier carries leave each of its fields
    /// a width: none exceeds the digits that the fields share.
    spec fn epc_valid(&self) -> bool;

    /// The pure identity URI.
    spec fn uri(&self) -> Seq<char>;

    /// The tag URI.
    spec fn tag_uri(&self) -> Seq<char>;

    /// The identifier, tagged with its kind.
    spec fn value(&self) -> EPCValue<'_>;

    /// Returns the EPC pure identity URI of this identifier.
    ///
    /// Example: `urn:epc:id:sgtin:0614141.812345.6789`
    fn to_uri(&self) -> (text: String)
        requires
            self.epc_valid(),
        ensures
            text@ == self.uri(),
    ;

    /// Returns the EPC tag URI of this identifier.
    ///
    /// It holds what the pure identity URI holds, and the data that belongs
    /// to the tag rather than to the identifier.
    ///
    /// Example: `urn:epc:tag:sgtin-96:3.0614141.812345.6789`
    fn to_tag_uri(&self) -> (text: String)
        requires
            self.epc_valid(),
        ensures
            text@ == self.tag_uri(),
    ;

    /// Returns the identifier in an `EPCValue`, by which its kind can be
    /// told.
    fn get_value(&self) -> (value: EPCValue<'_>)
        ensures
            value == self.value(),
    ;
}

/// An unprogrammed tag (with the header byte 0x00)
#[derive(PartialEq, Debug)]
pub struct Unprogrammed {
    /// What follows the header byte.
    pub data: Vec<u8>,
}

impl View for Unprogrammed {
    type V = Seq<u8>;

    open spec fn view(&self) -> Seq<u8> {
        self.data@
    }
}

impl EPC for Unprogrammed {
    open spec fn epc_valid(&self) -> bool {
        true
    }

    open spec fn uri(&self) -> Seq<char> {
        "urn:epc:id:unprogrammed"@
    }

    open spec fn tag_uri(&self) -> Seq<char> {
        "urn:epc:tag:unprogrammed"@
    }

    open spec fn value(&self) -> EPCValue<'_> {
        EPCValue::Unprogrammed(self)
    }

    fn to_uri(&self) -> (text: String) {
        "urn:epc:id:unprogrammed".to_string()
    }

    fn to_tag_uri(&self) -> (text: String) {
        "urn:epc:tag:unprogrammed".to_string()
    }

    fn get_value(&self) -> (value: EPCValue<'_>) {
        EPCValue::Unprogrammed(self)
    }
}

/// A tagged union of references to the identifiers that can be decoded.
#[derive(PartialEq, Debug)]
pub enum EPCValue<'a> {
    Unprogrammed(&'a Unprogrammed),
    SGTIN96(&'a sgtin::SGTIN96),
    SGTIN198(&'a sgtin::SGTIN198),
    SSCC96(&'a sscc::SSCC96),
    GID96(&'a gid::GID96),
    GRAI96(&'a grai::GRAI96),
}

/// A decoded identifier, of one of the layouts that this crate decodes.
#[derive(PartialEq, Debug)]
pub enum Identifier {
    Unprogrammed(Unprogrammed),
    SGTIN96(sgtin::SGTIN96),
    SGTIN198(sgtin::SGTIN198),
    SSCC96(sscc::SSCC96),
    GID96(gid::GID96),
    GRAI96(grai::GRAI96),
}

/// What an [`Identifier`] holds.
pub enum IdentifierView {
    Unprogrammed(Seq<u8>),
    SGTIN96(sgtin::SGTIN96),
    SGTIN198(sgtin::SGTIN198View),
    SSCC96(sscc::SSCC96),
    GID96(gid::GID96),
    GRAI96(grai::GRAI96),
}

impl View for Identifier {
    type V = IdentifierView;

    open spec fn view(&self) -> IdentifierView {
        match self {
            Identifier::Unprogrammed(id) => IdentifierView::Unprogrammed(id@),
            Identifier::SGTIN96(id) => IdentifierView::SGTIN96(*id),
            Identifier::SGTIN198(id) => IdentifierView::SGTIN198(id@),
            Identifier::SSCC96(id) => IdentifierView::SSCC96(*id),
            Identifier::GID96(id) => IdentifierView::GID96(*id),
            Identifier::GRAI96(id) => IdentifierView::GRAI96(*id),
        }
    }
}

impl Identifier {
    /// The identifier's fields lie in the ranges that its layout gives them.
    pub open spec fn wf(&self) -> bool {
        match self {
            Identifier::Unprogrammed(_) => true,
            Identifier::SGTIN96(id) => id.wf(),
            Identifier::SGTIN198(id) => id.wf(),
            Identifier::SSCC96(id) => id.wf(),
            Identifier::GID96(_) => true,
            Identifier::GRAI96(id) => id.wf(),
        }
    }
}

impl EPC for Identifier {
    open spec fn epc_valid(&self) -> bool {
        match self {
            Identifier::Unprogrammed(id) => id.epc_valid(),
            Identifier::SGTIN96(id) => id.epc_valid(),
            Identifier::SGTIN198(id) => id.epc_valid(),
            Identifier::SSCC96(id) => id.epc_valid(),
            Identifier::GID96(id) => id.epc_valid(),
            Identifier::GRAI96(id) => id.epc_valid(),
        }
    }

    open spec fn uri(&self) -> Seq<char> {
        match self {
            Identifier::Unprogrammed(id) => id.uri(),
            Identifier::SGTIN96(id) => id.uri(),
            Identifier::SGTIN198(id) => id.uri(),
            Identifier::SSCC96(id) => id.uri(),
            Identifier::GID96(id) => id.uri(),
            Identifier::GRAI96(id) => id.uri(),
        }
    }

    open spec fn tag_uri(&self) -> Seq<char> {
        match self {
            Identifier::Unprogrammed(id) => id.tag_uri(),
            Identifier::SGTIN96(id) => id.tag_uri(),
            Identifier::SGTIN198(id) => id.tag_uri(),
            Identifier::SSCC96(id) => id.tag_uri(),
            Identifier::GID96(id) => id.tag_uri(),
            Identifier::GRAI96(id) => id.tag_uri(),
        }
    }

    open spec fn value(&self) -> EPCValue<'_> {
        match self {
            Identifier::Unprogrammed(id) => EPCValue::Unprogrammed(id),
            Identifier::SGTIN96(id) => EPCValue::SGTIN96(id),
            Identifier::SGTIN198(id) => EPCValue::SGTIN198(id),
            Identifier::SSCC96(id) => EPCValue::SSCC96(id),
            Identifier::GID96(id) => EPCValue::GID96(id),
            Identifier::GRAI96(id) => EPCValue::GRAI96(id),
        }
    }

    fn to_uri(&self) -> (text: String) {
        match self {
            Identifier::Unprogrammed(id) => id.to_uri(),
            Identifier::SGTIN96(id) => id.to_uri(),
            Identifier::SGTIN198(id) => id.to_uri(),
            Identifier::SSCC96(id) => id.to_uri(),
            Identifier::GID96(id) => id.to_uri(),
            Identifier::GRAI96(id) => id.to_uri(),
        }
    }

    fn to_tag_uri(&self) -> (text: String) {
        match self {
            Identifier::Unprogrammed(id) => id.to_tag_uri(),
            Identifier::SGTIN96(id) => id.to_tag_uri(),
            Identifier::SGTIN198(id) => id.to_tag_uri(),
            Identifier::SSCC96(id) => id.to_tag_uri(),
            Identifier::GID96(id) => id.to_tag_uri(),
            Identifier::GRAI96(id) => id.to_tag_uri(),
        }
    }

    fn get_value(&self) -> (value: EPCValue<'_>) {
        match self {
            Identifier::Unprogrammed(id) => EPCValue::Unprogrammed(id),
            Identifier::SGTIN96(id) => EPCValue::SGTIN96(id),
            Identifier::SGTIN198(id) => EPCValue::SGTIN198(id),
            Identifier::SSCC96(id) => EPCValue::SSCC96(id),
            Identifier::GID96(id) => EPCValue::GID96(id),
            Identifier::GRAI96(id) => EPCValue::GRAI96(id),
        }
    }
}

/// The layout that a payload's first byte names, and the bytes behind it. A
/// payload that is empty, or whose first byte names no layout, is malformed.
pub open spec fn take_header_spec(data: Seq<u8>) -> Result<(Seq<u8>, EPCBinaryHeader), ParseError> {
    if data.len() == 0 {
        Err(ParseError())
    } else {
        match EPCBinaryHeader::from_byte_spec(data[0]) {
            Some(header) => Ok((data.skip(1), header)),
            None => Err(ParseError()),
        }
    }
}

/// Splits a payload into its header and the bytes behind it.
pub fn take_header(data: &[u8]) -> (res: Result<(&[u8], EPCBinaryHeader), ParseError>)
    ensures
        match res {
            Ok((rest, header)) => take_header_spec(data@) == Ok::<
                (Seq<u8>, EPCBinaryHeader),
                ParseError,
            >((rest@, header)),
            Err(e) => take_header_spec(data@) == Err::<(Seq<u8>, EPCBinaryHeader), ParseError>(e),
        },
{
    if data.len() == 0 {
        return Err(ParseError());
    }
    match EPCBinaryHeader::from_byte(data[0]) {
        Some(header) => Ok((slice_subrange(data, 1, data.len()), header)),
        None => Err(ParseError()),
    }
}

/// A decoder's verdict as the verdict on the whole payload.
pub open spec fn lift<T>(
    decoded: Result<T, ParseError>,
    wrap: spec_fn(T) -> IdentifierView,
) -> Result<IdentifierView, Error> {
    match decoded {
        Ok(id) => Ok(wrap(id)),
        Err(e) => Err(Error::Parse(e)),
    }
}

/// What a payload decodes to.
///
/// - A payload whose header names one of the layouts SGTIN-96, SGTIN-198,
///   SSCC-96, GRAI-96 and GID-96 holds what that layout's decoder finds in
///   the bytes behind the header, or is malformed where the decoder says so.
/// - A payload whose header is `0x00` is an unprogrammed tag, and holds the
///   bytes behind the header as they are.
/// - A payload whose header names another layout of the standard is
///   well-formed, but not decoded.
/// - Any other payload, the empty one too, is malformed.
pub open spec fn decode_spec(data: Seq<u8>) -> Result<IdentifierView, Error> {
    match take_header_spec(data) {
        Err(e) => Err(Error::Parse(e)),
        Ok((rest, header)) => match header {
            EPCBinaryHeader::SGTIN96 => lift(
                sgtin::sgtin96_spec(rest),
                |id| IdentifierView::SGTIN96(id),
            ),
            EPCBinaryHeader::SGTIN198 => lift(
                sgtin::sgtin198_spec(rest),
                |id| IdentifierView::SGTIN198(id),
            ),
            EPCBinaryHeader::SSCC96 => lift(
                sscc::sscc96_spec(rest),
                |id| IdentifierView::SSCC96(id),
            ),
            EPCBinaryHeader::GRAI96 => lift(
                grai::grai96_spec(rest),
                |id| IdentifierView::GRAI96(id),
            ),
            EPCBinaryHeader::GID96 => lift(gid::gid96_spec(rest), |id| IdentifierView::GID96(id)),
            EPCBinaryHeader::Unprogrammed => Ok(IdentifierView::Unprogrammed(rest)),
            _ => Err(Error::Unimplemented(UnimplementedError())),
        },
    }
}

/// Decodes a binary EPC, as received from an RFID tag.
///
/// The result is an identifier exactly where [`decode_spec`] finds one, and
/// then holds what `decode_spec` says; else it is the error that
/// `decode_spec` gives. A decoded identifier is well-formed.
pub fn decode_binary(data: &[u8]) -> (res: Result<Identifier, Error>)
    ensures
        match res {
            Ok(id) => decode_spec(data@) == Ok::<IdentifierView, Error>(id@) && id.wf(),
            Err(e) => decode_spec(data@) == Err::<IdentifierView, Error>(e),
        },
{
    let (rest, header) = match take_header(data) {
        Ok(parts) => parts,
        Err(e) => {
            return Err(Error::Parse(e));
        },
    };
    let decoded = match header {
        EPCBinaryHeader::SGTIN96 => match sgtin::decode_sgtin96(rest) {
            Ok(id) => Ok(Identifier::SGTIN96(id)),
            Err(e) => Err(e),
        },
        EPCBinaryHeader::SGTIN198 => match sgtin::decode_sgtin198(rest) {
            Ok(id) => Ok(Identifier::SGTIN198(id)),
            Err(e) => Err(e),
        },
        EPCBinaryHeader::SSCC96 => match sscc::decode_sscc96(rest) {
            Ok(id) => Ok(Identifier::SSCC96(id)),
            Err(e) => Err(e),
        },
        EPCBinaryHeader::GRAI96 => match grai::decode_grai96(rest) {
            Ok(id) => Ok(Identifier::GRAI96(id)),
            Err(e) => Err(e),
        },
        EPCBinaryHeader::GID96 => match gid::decode_gid96(rest) {
            Ok(id) => Ok(Identifier::GID96(id)),
            Err(e) => Err(e),
        },
        EPCBinaryHeader::Unprogrammed => Ok(
            Identifier::Unprogrammed(Unprogrammed { data: slice_to_vec(rest) }),
        ),
        _unimplemented => {
            return Err(Error::Unimplemented(UnimplementedError()));
        },
    };
    match decoded {
        Ok(id) => Ok(id),
        Err(e) => Err(Error::Parse(e)),
    }
}

/// A payload with the header byte `0x00` always decodes, to an unprogrammed
/// tag that carries the bytes behind the header as they are.
pub proof fn lemma_unprogrammed_header(data: Seq<u8>)
    requires
        data.len() >= 1,
        data[0] == 0x00,
    ensures
        decode_spec(data) == Ok::<IdentifierView, Error>(IdentifierView::Unprogrammed(data.skip(1))),
{
}

/// A payload with the header byte `0xE2`, which is reserved for the tag
/// identification memory, is always malformed.
pub proof fn lemma_reserved_header(data: Seq<u8>)
    requires
        data.len() >= 1,
        data[0] == 0xE2,
    ensures
        decode_spec(data) == Err::<IdentifierView, Error>(Error::Parse(ParseError())),
{
}

/// The empty payload is malformed.
pub proof fn lemma_empty_payload()
    ensures
        decode_spec(Seq::<u8>::empty()) == Err::<IdentifierView, Error>(
            Error::Parse(ParseError()),
        ),
{
}

/// A payload of a partitioned layout whose partition value is 7 is always
/// malformed, whichever of those layouts its header names.
pub proof fn lemma_unassigned_partition(data: Seq<u8>)
    requires
        data.len() >= 1,
        data[0] == 0x30 || data[0] == 0x36 || data[0] == 0x31 || data[0] == 0x33,
        bits_value(data.skip(1), 3, 3) == 7,
    ensures
        decode_spec(data) == Err::<IdentifierView, Error>(Error::Parse(ParseError())),
{
    sgtin::lemma_unassigned_partition(data.skip(1));
    sscc::lemma_unassigned_partition(data.skip(1));
    grai::lemma_unassigned_partition(data.skip(1));
}

/// In each partitioned layout, and for every partition value that the
/// standard assigns, the two partitioned fields have as many decimal digits
/// between them as the layout's identifier has: 13 for SGTIN, 17 for SSCC,
/// 12 for GRAI.
pub proof fn lemma_digit_budgets(partition: u8)
    requires
        partition <= 6,
    ensures
        sgtin::company_digits_spec(partition) + sgtin::item_digits_spec(partition) == 13,
        sscc::company_digits_spec(partition) + sscc::item_digits_spec(partition) == 17,
        grai::partition_spec(partition) matches Ok(widths) && widths.company_prefix.digits
            + widths.asset_type.digits == 12,
{
    sgtin::lemma_partition_budget(partition);
    sscc::lemma_partition_budget(partition);
    grai::lemma_partition_budget(partition);
}

/// A layout of the standard that this crate does not decode is reported as
/// such, and never as malformed.
pub proof fn lemma_unimplemented_layout(data: Seq<u8>)
    requires
        data.len() >= 1,
        EPCBinaryHeader::from_byte_spec(data[0]) matches Some(header) && header
            != EPCBinaryHeader::Unprogrammed && header != EPCBinaryHeader::SGTIN96 && header
            != EPCBinaryHeader::SGTIN198 && header != EPCBinaryHeader::SSCC96 && header
            != EPCBinaryHeader::GRAI96 && header != EPCBinaryHeader::GID96,
    ensures
        decode_spec(data) == Err::<IdentifierView, Error>(
            Error::Unimplemented(UnimplementedError()),
        ),
{
}

} // verus!
