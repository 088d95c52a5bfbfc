//! Tag identification memory
//!
//! The TID is a memory area on a Gen2 RFID tag which holds the manufacturer
//! and the capabilities of the tag.
//!
//! A Gen2 tag refuses a read beyond the end of its memory, so the TID is read
//! and decoded step by step. The TID structure (4 bytes) says whether the
//! XTID header (2 bytes) is there to read; the XTID header says which further
//! structures are.
//!
//! # Reference
//! GS1 EPC TDS Section 16

use crate::cursor::{
    bits_value, front, front_spec, lemma_bits_value_bound, lemma_bits_value_of_front,
    BitCursor,
};
use crate::error::ParseError;
use vstd::arithmetic::power2::lemma2_to64;
use vstd::prelude::*;

verus! {

/// Tag Identification
#[derive(PartialEq, Eq, Debug, Copy, Clone, Structural)]
pub struct TID {
    /// Whether the Tag implements Extended Tag Identification
    pub xtid: bool,
    /// Whether the Tag supports the Authenticate and/or Challenge commands
    pub security: bool,
    /// Whether the Tag supports the FileOpen command
    pub file: bool,
    /// Mask-designer (manufacturer) identifier
    pub mdid: u16,
    /// Tag-manufacturer-defined Tag Model Number
    pub tmid: u16,
}

/// The TID structure that the first 32 bits of the TID memory hold: the
/// class identifier `0xE2`, three flags, 9 bits of mask designer and 12 bits
/// of model number. Data that is shorter, or starts with another byte, is
/// malformed.
pub open spec fn tid_spec(data: Seq<u8>) -> Result<TID, ParseError> {
    if 8 * data.len() < 32 || bits_value(data, 0, 8) != 0xE2 {
        Err(ParseError())
    } else {
        Ok(
            TID {
                xtid: bits_value(data, 8, 1) != 0,
                security: bits_value(data, 9, 1) != 0,
                file: bits_value(data, 10, 1) != 0,
                mdid: bits_value(data, 11, 9) as u16,
                tmid: bits_value(data, 20, 12) as u16,
            },
        )
    }
}

/// The TID structure is found in the first 4 bytes: what follows them changes
/// nothing.
pub proof fn lemma_tid_reads_front(data: Seq<u8>)
    ensures
        tid_spec(front_spec(data, 4)) == tid_spec(data),
{
    lemma_bits_value_of_front(data, 4, 0, 8);
    lemma_bits_value_of_front(data, 4, 8, 1);
    lemma_bits_value_of_front(data, 4, 9, 1);
    lemma_bits_value_of_front(data, 4, 10, 1);
    lemma_bits_value_of_front(data, 4, 11, 9);
    lemma_bits_value_of_front(data, 4, 20, 12);
}

/// Decodes the TID structure from bytes
///
/// The TID structure is held in the first 4 bytes (2 words) of the TID memory.
///
/// Reference: GS1 EPC TDS Section 16.2
pub fn decode_tid(data: &[u8]) -> (res: Result<TID, ParseError>)
    ensures
        res == tid_spec(data@),
{
    proof {
        lemma_tid_reads_front(data@);
    }
    let mut cursor = BitCursor::new(front(data, 4));
    if cursor.read_u8(8)? != 0xE2 {
        return Err(ParseError());
    }
    let xtid = cursor.read_bool()?;
    let security = cursor.read_bool()?;
    let file = cursor.read_bool()?;
    let mdid = cursor.read_u16(9)?;
    let tmid = cursor.read_u16(12)?;
    Ok(TID { xtid, security, file, mdid, tmid })
}

/// Extended Tag ID header
#[derive(PartialEq, Eq, Debug, Copy, Clone, Structural)]
pub struct XTIDHeader {
    /// Whether a further XTID header is present - always false
    pub extended_header: bool,
    /// Whether the XTID includes the User Memory and Block PermaLock segment
    pub user_memory_permalock: bool,
    /// Whether the XTID includes the BlockWrite and BlockErase segment
    pub blockwrite_blockerase: bool,
    /// Whether the XTID includes the Optional Command Support segment
    pub optional_command_support: bool,
    /// The serial number size, in bits
    pub serial_size: u16,
}

/// The size of the serial number, in bits, that a 3-bit serialisation field
/// stands for: none for 0, else 48 bits and 16 more for each step above 1.
pub open spec fn serial_size_spec(field: nat) -> nat {
    if field == 0 {
        0
    } else {
        (48 + 16 * (field - 1)) as nat
    }
}

/// The XTID header that the first 16 bits of the data hold: the extension
/// flag, 9 bits that are reserved and not looked at, three segment flags, and
/// 3 bits for the size of the serial number. Shorter data is malformed.
pub open spec fn xtid_header_spec(data: Seq<u8>) -> Result<XTIDHeader, ParseError> {
    if 8 * data.len() < 16 {
        Err(ParseError())
    } else {
        Ok(
            XTIDHeader {
                extended_header: bits_value(data, 0, 1) != 0,
                user_memory_permalock: bits_value(data, 10, 1) != 0,
                blockwrite_blockerase: bits_value(data, 11, 1) != 0,
                optional_command_support: bits_value(data, 12, 1) != 0,
                serial_size: serial_size_spec(bits_value(data, 13, 3)) as u16,
            },
        )
    }
}

/// The XTID header is found in the first 2 bytes: what follows them changes
/// nothing.
pub proof fn lemma_xtid_header_reads_front(data: Seq<u8>)
    ensures
        xtid_header_spec(front_spec(data, 2)) == xtid_header_spec(data),
{
    lemma_bits_value_of_front(data, 2, 0, 1);
    lemma_bits_value_of_front(data, 2, 10, 1);
    lemma_bits_value_of_front(data, 2, 11, 1);
    lemma_bits_value_of_front(data, 2, 12, 1);
    lemma_bits_value_of_front(data, 2, 13, 3);
}

/// Decodes the XTID header from bytes
///
/// The XTID structure is 2 bytes (1 word) long and starts from the 5th byte
/// (3rd word) of the TID memory, if the XTID bit is set in the TID structure.
///
/// Reference: GS1 EPC TDS Section 16.2.1
pub fn decode_xtid_header(data: &[u8]) -> (res: Result<XTIDHeader, ParseError>)
    ensures
        res == xtid_header_spec(data@),
{
    let head = front(data, 2);
    proof {
        lemma_xtid_header_reads_front(data@);
    }
    let mut cursor = BitCursor::new(head);
    let extended_header = cursor.read_bool()?;
    // Reserved for future use: should be zero, but often is not.
    let _rfu = cursor.read_u16(9)?;
    let user_memory_permalock = cursor.read_bool()?;
    let blockwrite_blockerase = cursor.read_bool()?;
    let optional_command_support = cursor.read_bool()?;
    proof {
        lemma_bits_value_bound(head@, 13, 3);
        lemma2_to64();
    }
    let mut serial: u16 = cursor.read_u8(3)? as u16;
    if serial != 0 {
        serial = 48 + 16 * (serial - 1);
    }
    Ok(
        XTIDHeader {
            extended_header,
            user_memory_permalock,
            blockwrite_blockerase,
            optional_command_support,
            serial_size: serial,
        },
    )
}

/// The manufacturer that a mask designer identifier stands for, by the
/// [listing of GS1](https://www.gs1.org/epcglobal/standards/mdid); `Unknown`
/// for an identifier that the listing does not hold.
pub open spec fn mdid_name_spec(mdid: u16) -> &'static str {
    match mdid {
        0b000000001 => "Impinj",
        0b000000010 => "Texas Instruments",
        0b000000011 => "Alien Technology",
        0b000000100 => "Intelleflex",
        0b000000101 => "Atmel",
        0b000000110 => "NXP Semiconductors",
        0b000000111 => "ST Microelectronics",
        0b000001000 => "EP Microelectronics",
        0b000001001 => "Motorola (formerly Symbol Technologies)",
        0b000001010 => "Sentech Snd Bhd",
        0b000001011 => "EM Microelectronics",
        0b000001100 => "Renesas Technology Corp.",
        0b000001101 => "Mstar",
        0b000001110 => "Tyco International",
        0b000001111 => "Quanray Electronics",
        0b000010000 => "Fujitsu",
        0b000010001 => "LSIS",
        0b000010010 => "CAEN RFID srl",
        0b000010011 => "Productivity Engineering GmbH",
        0b000010100 => "Federal Electric Corp.",
        0b000010101 => "ON Semiconductor",
        0b000010110 => "Ramtron",
        0b000010111 => "Tego",
        0b000011000 => "Ceitec S.A.",
        0b000011001 => "CPA Wernher von Braun",
        0b000011010 => "TransCore",
        0b000011011 => "Nationz",
        0b000011100 => "Invengo",
        0b000011101 => "Kiloway",
        0b000011110 => "Longjing Microelectronics Co. Ltd.",
        0b000011111 => "Chipus Microelectronics",
        0b000100000 => "ORIDAO",
        0b000100001 => "Maintag",
        0b000100010 => "Yangzhou Daoyuan Microelectronics Co. Ltd",
        0b000100011 => "Gate Elektronik",
        0b000100100 => "RFMicron, Inc.",
        0b000100101 => "RST-Invent LLC",
        0b000100110 => "Crystone Technology",
        0b000100111 => "Shanghai Fudan Microelectronics Group ",
        0b000101000 => "Farsens",
        0b000101001 => "Giesecke & Devrient GmbH",
        0b000101010 => "AWID",
        0b000101011 => "Unitec Semicondutores S/A",
        0b000101100 => "Q-Free ASA",
        0b000101101 => "Valid S.A.",
        0b000101110 => "Fraunhofer IPMS",
        0b000101111 => "ams AG",
        0b000110000 => "Angstrem JSC",
        0b000110001 => "Honeywell",
        0b000110010 => "Huada Semiconductor Co. Ltd (HDSC)",
        0b000110011 => "Lapis Semiconductor Co., Ltd.",
        0b000110100 => "PJSC Mikron",
        0b000110101 => "Hangzhou Landa Microelectronics Co., Ltd.",
        0b000110110 => "Nanjing NARI Micro-Electronic Technology Co., Ltd.",
        0b000110111 => "Southwest Integrated Circuit Design Co., Ltd.",
        0b000111000 => "Silictec",
        0b000111001 => "Nation RFID",
        0b000111010 => "Asygn",
        0b000111011 => "Suzhou HCTech Technology Co., Ltd.",
        0b000111100 => "AXEM Technology",
        _ => "Unknown",
    }
}

/// Look up a mask designer ID and return the manufacturer's name
///
/// The identifiers are written in binary, as the listing writes them.
pub fn mdid_name(mdid: &u16) -> (name: &str)
    ensures
        name == mdid_name_spec(*mdid),
{
    match *mdid {
        0b000000001 => "Impinj",
        0b000000010 => "Texas Instruments",
        0b000000011 => "Alien Technology",
        0b000000100 => "Intelleflex",
        0b000000101 => "Atmel",
        0b000000110 => "NXP Semiconductors",
        0b000000111 => "ST Microelectronics",
        0b000001000 => "EP Microelectronics",
        0b000001001 => "Motorola (formerly Symbol Technologies)",
        0b000001010 => "Sentech Snd Bhd",
        0b000001011 => "EM Microelectronics",
        0b000001100 => "Renesas Technology Corp.",
        0b000001101 => "Mstar",
        0b000001110 => "Tyco International",
        0b000001111 => "Quanray Electronics",
        0b000010000 => "Fujitsu",
        0b000010001 => "LSIS",
        0b000010010 => "CAEN RFID srl",
        0b000010011 => "Productivity Engineering GmbH",
        0b000010100 => "Federal Electric Corp.",
        0b000010101 => "ON Semiconductor",
        0b000010110 => "Ramtron",
        0b000010111 => "Tego",
        0b000011000 => "Ceitec S.A.",
        0b000011001 => "CPA Wernher von Braun",
        0b000011010 => "TransCore",
        0b000011011 => "Nationz",
        0b000011100 => "Invengo",
        0b000011101 => "Kiloway",
        0b000011110 => "Longjing Microelectronics Co. Ltd.",
        0b000011111 => "Chipus Microelectronics",
        0b000100000 => "ORIDAO",
        0b000100001 => "Maintag",
        0b000100010 => "Yangzhou Daoyuan Microelectronics Co. Ltd",
        0b000100011 => "Gate Elektronik",
        0b000100100 => "RFMicron, Inc.",
        0b000100101 => "RST-Invent LLC",
        0b000100110 => "Crystone Technology",
        0b000100111 => "Shanghai Fudan Microelectronics Group ",
        0b000101000 => "Farsens",
        0b000101001 => "Giesecke & Devrient GmbH",
        0b000101010 => "AWID",
        0b000101011 => "Unitec Semicondutores S/A",
        0b000101100 => "Q-Free ASA",
        0b000101101 => "Valid S.A.",
        0b000101110 => "Fraunhofer IPMS",
        0b000101111 => "ams AG",
        0b000110000 => "Angstrem JSC",
        0b000110001 => "Honeywell",
        0b000110010 => "Huada Semiconductor Co. Ltd (HDSC)",
        0b000110011 => "Lapis Semiconductor Co., Ltd.",
        0b000110100 => "PJSC Mikron",
        0b000110101 => "Hangzhou Landa Microelectronics Co., Ltd.",
        0b000110110 => "Nanjing NARI Micro-Electronic Technology Co., Ltd.",
        0b000110111 => "Southwest Integrated Circuit Design Co., Ltd.",
        0b000111000 => "Silictec",
        0b000111001 => "Nation RFID",
        0b000111010 => "Asygn",
        0b000111011 => "Suzhou HCTech Technology Co., Ltd.",
        0b000111100 => "AXEM Technology",
        _ => "Unknown",
    }
}

/// The model that a mask designer identifier and a model number stand for,
/// as far as data sheets tell; `Unknown` for any other pair.
pub open spec fn tmid_name_spec(mdid: u16, tmid: u16) -> &'static str {
    match (mdid, tmid) {
        // Impinj
        (0x1, 0x100) => "Monza 4D",
        (0x1, 0x105) => "Monza 4QT",
        (0x1, 0x10C) => "Monza 4E",
        (0x1, 0x130) => "Monza 5",
        (0x1, 0x160) => "Monza R6",
        // Alien
        (0x3, 0x412) => "Higgs-3",
        (0x3, 0x414) => "Higgs-4",
        // NXP
        (0x6, 0x003) => "UCODE G2XM",
        (0x6, 0x004) => "UCODE G2XL",
        (0x6, 0x806) => "UCODE G2iL",
        (0x6, 0x807) => "UCODE G2iL+",
        (0x6, 0x80A) => "UCODE G2iM",
        (0x6, 0x80D) => "UCODE i2c",
        (0x6, 0x88D) => "UCODE i2c",
        (0x6, 0x810) => "UCODE 7",
        (0x6, 0x890) => "UCODE 7",
        (0x6, 0x891) => "UCODE 7m",
        (0x6, 0x894) => "UCODE 8",
        (0x6, 0x906) => "UCODE G2iL",
        (0x6, 0x907) => "UCODE G2iL+",
        (0x6, 0x994) => "UCODE 8m",
        (0x6, 0xB06) => "UCODE G2iL",
        (0x6, 0xB07) => "UCODE G2iL+",
        // RFMicron
        (0x24, 0x401) => "Magnus S2",
        (0x24, 0x402) => "Magnus S2",
        (0x24, 0x403) => "Magnus S2",
        _ => "Unknown",
    }
}

/// Look up the model name of a tag given the MDID and TMID.
///
/// The names come from data sheets: the table is not complete.
pub fn tmid_name(mdid: &u16, tmid: &u16) -> (name: &'static str)
    ensures
        name == tmid_name_spec(*mdid, *tmid),
{
    match (*mdid, *tmid) {
        // Impinj
        (0x1, 0x100) => "Monza 4D",
        (0x1, 0x105) => "Monza 4QT",
        (0x1, 0x10C) => "Monza 4E",
        (0x1, 0x130) => "Monza 5",
        (0x1, 0x160) => "Monza R6",
        // Alien
        (0x3, 0x412) => "Higgs-3",
        (0x3, 0x414) => "Higgs-4",
        // NXP
        (0x6, 0x003) => "UCODE G2XM",
        (0x6, 0x004) => "UCODE G2XL",
        (0x6, 0x806) => "UCODE G2iL",
        (0x6, 0x807) => "UCODE G2iL+",
        (0x6, 0x80A) => "UCODE G2iM",
        (0x6, 0x80D) => "UCODE i2c",
        (0x6, 0x88D) => "UCODE i2c",
        (0x6, 0x810) => "UCODE 7",
        (0x6, 0x890) => "UCODE 7",
        (0x6, 0x891) => "UCODE 7m",
        (0x6, 0x894) => "UCODE 8",
        (0x6, 0x906) => "UCODE G2iL",
        (0x6, 0x907) => "UCODE G2iL+",
        (0x6, 0x994) => "UCODE 8m",
        (0x6, 0xB06) => "UCODE G2iL",
        (0x6, 0xB07) => "UCODE G2iL+",
        // RFMicron
        (0x24, 0x401) => "Magnus S2",
        (0x24, 0x402) => "Magnus S2",
        (0x24, 0x403) => "Magnus S2",
        _ => "Unknown",
    }
}

} // verus!
