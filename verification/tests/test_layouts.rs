use gs1::epc::gid::{decode_gid96, GID96};
use gs1::epc::grai::{decode_grai96, decode_partition_value, GRAI96};
use gs1::epc::sgtin::{decode_sgtin198, decode_sgtin96, SGTIN198, SGTIN96};
use gs1::epc::sscc::{decode_sscc96, SSCC96};
use gs1::epc::{
    decode_binary, take_header, EPCBinaryHeader, EPCValue, Identifier, Unprogrammed, EPC,
};
use gs1::error::{Error, ParseError, UnimplementedError};
use gs1::general::ApplicationIdentifier;
use gs1::{GS1, GTIN};

#[test]
fn digit_budget_of_each_family() {
    for partition in 0..=6u8 {
        assert_eq!(
            gs1::epc::sgtin::company_digits(partition) + gs1::epc::sgtin::item_digits(partition),
            13
        );
        assert_eq!(
            gs1::epc::sscc::company_digits(partition) + gs1::epc::sscc::item_digits(partition),
            17
        );
        let widths = decode_partition_value(partition).unwrap();
        assert_eq!(widths.company_prefix.digits + widths.asset_type.digits, 12);
        assert_eq!(widths.company_prefix.bits + widths.asset_type.bits, 44);
        let (company_bits, item_bits) = gs1::epc::sgtin::partition_bits(partition).unwrap();
        assert_eq!(company_bits + item_bits, 44);
    }
}

#[test]
fn partition_tables() {
    assert_eq!(gs1::epc::sgtin::partition_bits(0), Ok((40, 4)));
    assert_eq!(gs1::epc::sgtin::partition_bits(5), Ok((24, 20)));
    assert_eq!(gs1::epc::sgtin::partition_bits(6), Ok((20, 24)));
    assert_eq!(gs1::epc::sscc::partition_bits(0), Ok((40, 18)));
    assert_eq!(gs1::epc::sscc::partition_bits(5), Ok((24, 34)));
    assert_eq!(gs1::epc::sgtin::company_digits(5), 7);
    assert_eq!(gs1::epc::sgtin::item_digits(5), 6);
    assert_eq!(gs1::epc::sscc::company_digits(5), 7);
    assert_eq!(gs1::epc::sscc::item_digits(5), 10);
    let widths = decode_partition_value(3).unwrap();
    assert_eq!(widths.company_prefix.bits, 30);
    assert_eq!(widths.company_prefix.digits, 9);
    assert_eq!(widths.asset_type.bits, 14);
    assert_eq!(widths.asset_type.digits, 3);
}

#[test]
fn partition_seven_is_refused_by_every_table() {
    for partition in 7..=255u8 {
        assert_eq!(gs1::epc::sgtin::partition_bits(partition), Err(ParseError()));
        assert_eq!(gs1::epc::sscc::partition_bits(partition), Err(ParseError()));
        assert_eq!(decode_partition_value(partition), Err(ParseError()));
    }
}

#[test]
fn partition_seven_is_a_parse_failure_in_every_family() {
    for header in [0x30u8, 0x36, 0x31, 0x33] {
        for filter in 0..8u8 {
            let mut data = [0u8; 25];
            data[0] = header;
            data[1] = (filter << 5) | 0b0001_1100;
            assert_eq!(
                decode_binary(&data),
                Err(Error::Parse(ParseError())),
                "header {:#x}",
                header
            );
        }
    }
    let rest = [0x7Cu8, 0, 0, 0, 0, 0, 0, 0, 0, 0, 0];
    assert_eq!(decode_sgtin96(&rest), Err(ParseError()));
    assert_eq!(decode_sgtin198(&rest), Err(ParseError()));
    assert_eq!(decode_sscc96(&rest), Err(ParseError()));
    assert_eq!(decode_grai96(&rest), Err(ParseError()));
}

#[test]
fn unprogrammed_header_carries_the_rest_verbatim() {
    let data = [0u8, 176, 122, 20, 12, 95, 156, 81, 64, 0, 3, 238];
    let id = decode_binary(&data).unwrap();
    assert_eq!(
        id,
        Identifier::Unprogrammed(Unprogrammed {
            data: vec![176, 122, 20, 12, 95, 156, 81, 64, 0, 3, 238]
        })
    );
    assert_eq!(id.to_uri(), "urn:epc:id:unprogrammed");
    assert_eq!(id.to_tag_uri(), "urn:epc:tag:unprogrammed");

    // The header alone, and any length behind it.
    assert_eq!(
        decode_binary(&[0u8]),
        Ok(Identifier::Unprogrammed(Unprogrammed { data: vec![] }))
    );
    for len in 1..40usize {
        let mut data = vec![0u8];
        for i in 0..len {
            data.push((i * 7 + 1) as u8);
        }
        match decode_binary(&data).unwrap().get_value() {
            EPCValue::Unprogrammed(tag) => assert_eq!(tag.data, data[1..].to_vec()),
            _ => panic!("Invalid type"),
        }
    }
}

#[test]
fn reserved_header_is_a_parse_failure() {
    for len in 1..30usize {
        let mut data = vec![0xFFu8; len];
        data[0] = 0xE2;
        assert_eq!(decode_binary(&data), Err(Error::Parse(ParseError())));
    }
}

#[test]
fn empty_payload_is_a_parse_failure() {
    assert_eq!(decode_binary(&[]), Err(Error::Parse(ParseError())));
    assert_eq!(take_header(&[]), Err(ParseError()));
}

#[test]
fn every_header_byte_has_one_of_three_outcomes() {
    let decoded = [0x00u8, 0x30, 0x31, 0x33, 0x35, 0x36];
    for byte in 0..=255u8 {
        let mut data = [0u8; 25];
        data[0] = byte;
        let known = byte == 0 || (0x2C..=0x41).contains(&byte);
        match decode_binary(&data) {
            Ok(_) => assert!(decoded.contains(&byte), "header {:#x}", byte),
            Err(Error::Unimplemented(UnimplementedError())) => {
                assert!(known && !decoded.contains(&byte), "header {:#x}", byte)
            }
            Err(Error::Parse(ParseError())) => {
                // An all-zero payload of SGTIN partition 0 holds no item reference.
                assert!(!known || byte == 0x30 || byte == 0x36, "header {:#x}", byte)
            }
        }
    }
}

#[test]
fn take_header_splits_off_the_first_byte() {
    let data = [0x35u8, 1, 2, 3];
    let (rest, header) = take_header(&data).unwrap();
    assert_eq!(header, EPCBinaryHeader::GID96);
    assert_eq!(rest, &[1u8, 2, 3]);
    assert_eq!(take_header(&[0x41]).unwrap().1, EPCBinaryHeader::ITIP212);
    assert_eq!(take_header(&[0x2C]).unwrap().1, EPCBinaryHeader::GDTI96);
    assert_eq!(take_header(&[0x42]), Err(ParseError()));
    assert_eq!(take_header(&[0x2B]), Err(ParseError()));
    assert_eq!(take_header(&[0x01]), Err(ParseError()));
    assert_eq!(EPCBinaryHeader::from_byte(0x36), Some(EPCBinaryHeader::SGTIN198));
    assert_eq!(EPCBinaryHeader::from_byte(0xE2), None);
}

#[test]
fn recognised_but_undecoded_layouts_are_unimplemented() {
    for header in [
        0x2Cu8, 0x2D, 0x2E, 0x2F, 0x32, 0x34, 0x37, 0x38, 0x39, 0x3A, 0x3B, 0x3C, 0x3D, 0x3E,
        0x3F, 0x40, 0x41,
    ] {
        assert_eq!(
            decode_binary(&[header, 1, 2, 3]),
            Err(Error::Unimplemented(UnimplementedError()))
        );
        assert_eq!(
            decode_binary(&[header]),
            Err(Error::Unimplemented(UnimplementedError()))
        );
    }
}

#[test]
fn truncated_payloads_are_parse_failures() {
    let full = [
        vec![0x30u8, 0x74, 0x25, 0x7B, 0xF7, 0x19, 0x4E, 0x40, 0x00, 0x00, 0x1A, 0x85],
        vec![0x31, 0x74, 0x25, 0x7B, 0xF4, 0x49, 0x96, 0x02, 0xD2],
        vec![0x35, 0x00, 0xE8, 0x6F, 0x80, 0x00, 0xA9, 0xE0, 0x00, 0x00, 0x05, 0x86],
        vec![0x33, 0x76, 0x45, 0x1F, 0xD4, 0x0C, 0x0E, 0x40, 0x00, 0x00, 0x16, 0x2E],
    ];
    for payload in full.iter() {
        assert!(decode_binary(payload).is_ok());
        for len in 1..payload.len() {
            assert_eq!(
                decode_binary(&payload[..len]),
                Err(Error::Parse(ParseError())),
                "header {:#x}, {} bytes",
                payload[0],
                len
            );
        }
    }
}

#[test]
fn sgtin96_with_a_one_digit_item_field() {
    // Partition 0: the item field has 4 bits and one digit.
    let data = [0x30u8, 0x40, 0x72, 0xFA, 0x64, 0x68, 0x53, 0x00, 0x00, 0x00, 0x00, 0x05];
    let id = decode_binary(&data).unwrap();
    assert_eq!(
        id,
        Identifier::SGTIN96(SGTIN96 {
            filter: 2,
            gtin: GTIN { company: 123456789012, company_digits: 12, item: 2, indicator: 1 },
            serial: 5,
        })
    );
    assert_eq!(id.to_uri(), "urn:epc:id:sgtin:123456789012.12.5");
    assert_eq!(id.to_tag_uri(), "urn:epc:tag:sgtin-96:2.123456789012.12.5");
    match id.get_value() {
        EPCValue::SGTIN96(sgtin) => {
            assert_eq!(sgtin.to_gs1(), "(01) 112345678901223 (21) 5")
        }
        _ => panic!("Invalid type"),
    }

    // An item field that is a single digit holds no item reference.
    let data = [0x30u8, 0x40, 0x72, 0xFA, 0x64, 0x68, 0x51, 0xC0, 0x00, 0x00, 0x00, 0x05];
    assert_eq!(decode_binary(&data), Err(Error::Parse(ParseError())));
}

#[test]
fn sgtin96_partition_six() {
    let data = [0x30u8, 0xF8, 0x00, 0x0A, 0x84, 0xB5, 0xA1, 0xFF, 0xFF, 0xFF, 0xFF, 0xFF];
    let sgtin = decode_sgtin96(&data[1..]).unwrap();
    assert_eq!(
        sgtin,
        SGTIN96 {
            filter: 7,
            gtin: GTIN { company: 42, company_digits: 6, item: 234567, indicator: 1 },
            serial: 274877906943,
        }
    );
    assert_eq!(sgtin.to_uri(), "urn:epc:id:sgtin:000042.1234567.274877906943");
    assert_eq!(
        sgtin.to_tag_uri(),
        "urn:epc:tag:sgtin-96:7.000042.1234567.274877906943"
    );
    assert_eq!(sgtin.to_gs1(), "(01) 10000422345670 (21) 274877906943");
}

#[test]
fn sgtin96_item_field_wider_than_its_digits() {
    let data = [0x30u8, 0x1B, 0xD0, 0x8F, 0xFF, 0xFF, 0xFF, 0xC0, 0x00, 0x00, 0x00, 0x00];
    let sgtin = decode_sgtin96(&data[1..]).unwrap();
    assert_eq!(sgtin.gtin.indicator, 1);
    assert_eq!(sgtin.gtin.item, 6777215);
    assert_eq!(sgtin.gtin.company, 999999);
    assert_eq!(sgtin.to_uri(), "urn:epc:id:sgtin:999999.16777215.0");
    assert_eq!(sgtin.to_gs1(), "(01) 199999967772156 (21) 0");
}

#[test]
fn sgtin198_serial_ends_with_the_payload() {
    // 'A', NUL, 'b' and no more.
    let data = [0x36u8, 0x74, 0x25, 0x7B, 0xF6, 0xB7, 0xA6, 0x60, 0x80, 0xC4];
    let sgtin = decode_sgtin198(&data[1..]).unwrap();
    assert_eq!(
        sgtin,
        SGTIN198 {
            filter: 3,
            gtin: GTIN { company: 614141, company_digits: 7, item: 12345, indicator: 7 },
            serial: "Ab".to_string(),
        }
    );
    assert_eq!(sgtin.to_uri(), "urn:epc:id:sgtin:0614141.712345.Ab");
    assert_eq!(sgtin.to_gs1(), "(01) 70614141123451 (21) Ab");

    // The GTIN alone: an empty serial.
    let data = [0x36u8, 0x74, 0x25, 0x7B, 0xF6, 0xB7, 0xA6, 0x40];
    let sgtin = decode_sgtin198(&data[1..]).unwrap();
    assert_eq!(sgtin.serial, "");
    assert_eq!(sgtin.to_tag_uri(), "urn:epc:tag:sgtin-198:3.0614141.712345.");

    // One byte less, and the GTIN is cut short.
    assert_eq!(decode_sgtin198(&data[1..7]), Err(ParseError()));
}

#[test]
fn sgtin198_serial_of_full_width() {
    let data = [
        0x36u8, 0x34, 0x25, 0x7B, 0xF6, 0xB7, 0xA6, 0x60, 0xC2, 0x87, 0x12, 0x2C, 0x68, 0xF2,
        0x24, 0xCA, 0x97, 0x32, 0x6C, 0xE9, 0xF4, 0x28, 0xD2, 0xA7, 0x50,
    ];
    match decode_binary(&data).unwrap().get_value() {
        EPCValue::SGTIN198(sgtin) => {
            assert_eq!(sgtin.filter, 1);
            assert_eq!(sgtin.serial, "ABCDEFGHIJKLMNOPQRST");
        }
        _ => panic!("Invalid type"),
    }
    // Bytes behind the 20th character are not part of the serial.
    let mut longer = data.to_vec();
    longer.extend_from_slice(&[0xFF, 0xFF, 0xFF]);
    match decode_binary(&longer).unwrap().get_value() {
        EPCValue::SGTIN198(sgtin) => assert_eq!(sgtin.serial, "ABCDEFGHIJKLMNOPQRST"),
        _ => panic!("Invalid type"),
    }
}

#[test]
fn sgtin198_serial_is_percent_encoded_in_uris_only() {
    let sgtin = SGTIN198 {
        filter: 1,
        gtin: GTIN { company: 614141, company_digits: 7, item: 12345, indicator: 7 },
        serial: "A-z 0%\u{e9}".to_string(),
    };
    assert_eq!(
        sgtin.to_uri(),
        "urn:epc:id:sgtin:0614141.712345.A%2Dz%200%25%C3%A9"
    );
    assert_eq!(
        sgtin.to_tag_uri(),
        "urn:epc:tag:sgtin-198:1.0614141.712345.A%2Dz%200%25%C3%A9"
    );
    assert_eq!(sgtin.to_gs1(), "(01) 70614141123451 (21) A-z 0%\u{e9}");
}

#[test]
fn sscc96_partitions() {
    let data = [0x31u8, 0x23, 0xA3, 0x52, 0x94, 0x3F, 0xFC, 0x30, 0x39, 0x00, 0x00, 0x00];
    let sscc = decode_sscc96(&data[1..]).unwrap();
    assert_eq!(
        sscc,
        SSCC96 { filter: 1, partition: 0, indicator: 1, company: 999999999999, serial: 2345 }
    );
    assert_eq!(sscc.to_uri(), "urn:epc:id:sscc:999999999999.12345");
    assert_eq!(sscc.to_tag_uri(), "urn:epc:tag:sscc-96:1.999999999999.12345");
    assert_eq!(sscc.to_gs1(), "(00) 199999999999923451");

    let data = [0x31u8, 0x1A, 0x57, 0xBF, 0x40, 0x00, 0xB7, 0xF7, 0x07, 0x0D, 0x40, 0x00];
    let sscc = decode_sscc96(&data[1..]).unwrap();
    assert_eq!(
        sscc,
        SSCC96 { filter: 0, partition: 6, indicator: 1, company: 614141, serial: 2345678901 }
    );
    assert_eq!(sscc.to_uri(), "urn:epc:id:sscc:614141.12345678901");
    assert_eq!(sscc.to_gs1(), "(00) 161414123456789019");
}

#[test]
fn sscc96_pads_company_and_serial() {
    let sscc = SSCC96 { filter: 3, partition: 5, indicator: 0, company: 614, serial: 42 };
    assert_eq!(sscc.to_uri(), "urn:epc:id:sscc:0000614.0000000042");
    assert_eq!(sscc.to_tag_uri(), "urn:epc:tag:sscc-96:3.0000614.0000000042");
    // 3 * (2 + 0 + 0 + 0 + 0 + 1 + 0 + 0 + 0) + (4 + 0 + 0 + 0 + 0 + 4 + 6 + 0) = 23
    assert_eq!(sscc.to_gs1(), "(00) 000006140000000427");
}

#[test]
fn gid96_fields() {
    let data = [0x35u8, 0xFF, 0xFF, 0xFF, 0xFF, 0xFF, 0xFF, 0xFF, 0xFF, 0xFF, 0xFF, 0xFF];
    let gid = decode_gid96(&data[1..]).unwrap();
    assert_eq!(
        gid,
        GID96 { manager: 268435455, class: 16777215, serial: 68719476735 }
    );
    assert_eq!(gid.to_uri(), "urn:epc:id:gid:268435455.16777215.68719476735");
    assert_eq!(gid.to_tag_uri(), "urn:epc:tag:gid-96:268435455.16777215.68719476735");
    assert_eq!(decode_gid96(&data[1..11]), Err(ParseError()));
}

#[test]
fn grai96_fields() {
    let data = [0x33u8, 0xA3, 0xFF, 0xFF, 0xFF, 0xFF, 0xFF, 0xFF, 0xFF, 0xFF, 0xFF, 0xFF];
    let grai = decode_grai96(&data[1..]).unwrap();
    assert_eq!(
        grai,
        GRAI96 {
            filter: 5,
            partition: 0,
            company_prefix: 1099511627775,
            asset_type: 15,
            serial: 274877906943,
        }
    );
    assert_eq!(grai.to_uri(), "urn:epc:id:grai:1099511627775.15.274877906943");
    assert_eq!(
        grai.to_tag_uri(),
        "urn:epc:tag:grai-96:5.1099511627775.15.274877906943"
    );
}

#[test]
fn gtin_element_string() {
    let gtin = GTIN { company: 614141, company_digits: 7, item: 12345, indicator: 8 };
    assert_eq!(gtin.to_gs1(), "(01) 80614141123458");
    let gtin = GTIN { company: 0, company_digits: 12, item: 0, indicator: 0 };
    assert_eq!(gtin.to_gs1(), "(01) 000000000000000");
    let gtin = GTIN { company: 4006381, company_digits: 7, item: 33393, indicator: 0 };
    assert_eq!(gtin.to_gs1(), "(01) 04006381333931");
}

#[test]
fn application_identifiers() {
    assert_eq!(ApplicationIdentifier::SSCC.code(), 0);
    assert_eq!(ApplicationIdentifier::GTIN.code(), 1);
    assert_eq!(ApplicationIdentifier::GTINContent.code(), 2);
    assert_eq!(ApplicationIdentifier::Batch.code(), 10);
    assert_eq!(ApplicationIdentifier::ProductionDate.code(), 11);
    assert_eq!(ApplicationIdentifier::DueDate.code(), 12);
    assert_eq!(ApplicationIdentifier::PackagingDate.code(), 13);
    assert_eq!(ApplicationIdentifier::BestBeforeDate.code(), 15);
    assert_eq!(ApplicationIdentifier::SellByDate.code(), 16);
    assert_eq!(ApplicationIdentifier::ExpirationDate.code(), 17);
    assert_eq!(ApplicationIdentifier::InternalProductVariant.code(), 20);
    assert_eq!(ApplicationIdentifier::SerialNumber.code(), 21);
    assert_eq!(ApplicationIdentifier::SSCC.prefix(), "(00) ");
    assert_eq!(ApplicationIdentifier::GTIN.prefix(), "(01) ");
    assert_eq!(ApplicationIdentifier::SerialNumber.prefix(), "(21) ");
}

#[test]
fn error_messages() {
    assert_eq!(ParseError().message(), "parse error");
    assert_eq!(UnimplementedError().message(), "unimplemented");
    assert_eq!(Error::Parse(ParseError()).message(), "parse error");
    assert_eq!(
        Error::Unimplemented(UnimplementedError()).message(),
        "unimplemented"
    );
}

#[test]
fn decoding_is_a_function_of_the_bytes() {
    let data = hex::decode("3074257BF7194E4000001A85").unwrap();
    assert_eq!(decode_binary(&data), decode_binary(&data));
    // Bytes behind the 96 bits change nothing.
    let mut longer = data.clone();
    longer.extend_from_slice(&[1, 2, 3]);
    assert_eq!(decode_binary(&data), decode_binary(&longer));
}
