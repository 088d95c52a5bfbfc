use gs1::cursor::BitCursor;
use gs1::decimal::{decimal_string, parse_digits};
use gs1::error::ParseError;
use gs1::util::{extract_indicator, read_string};

#[test]
fn decimal_string_writes_numbers_as_to_string_does() {
    assert_eq!(decimal_string(0), "0");
    assert_eq!(decimal_string(7), "7");
    assert_eq!(decimal_string(10), "10");
    assert_eq!(decimal_string(1234567890), "1234567890");
    assert_eq!(decimal_string(u64::MAX), "18446744073709551615");
    for n in 0..3000u64 {
        assert_eq!(decimal_string(n), n.to_string());
    }
}

#[test]
fn parse_digits_reads_numbers_back() {
    assert_eq!(parse_digits(""), 0);
    assert_eq!(parse_digits("0"), 0);
    assert_eq!(parse_digits("000123"), 123);
    assert_eq!(parse_digits("18446744073709551615"), u64::MAX);
    for n in 0..3000u64 {
        assert_eq!(parse_digits(&decimal_string(n)), n);
    }
}

#[test]
fn indicator_is_the_first_digit_of_the_padded_field() {
    assert_eq!(extract_indicator(812345, 6), Ok((12345, 8)));
    assert_eq!(extract_indicator(951968, 7), Ok((951968, 0)));
    assert_eq!(extract_indicator(5, 3), Ok((5, 0)));
    assert_eq!(extract_indicator(100, 3), Ok((0, 1)));
    assert_eq!(extract_indicator(0, 4), Ok((0, 0)));
}

#[test]
fn indicator_of_a_field_wider_than_its_digits() {
    assert_eq!(extract_indicator(1234567, 4), Ok((234567, 1)));
    assert_eq!(extract_indicator(15, 1), Ok((5, 1)));
    assert_eq!(extract_indicator(15, 0), Ok((5, 1)));
    assert_eq!(
        extract_indicator(u64::MAX, 20),
        Ok((8446744073709551615, 1))
    );
}

#[test]
fn indicator_of_a_single_character_is_an_error() {
    for item in 0..10u64 {
        assert_eq!(extract_indicator(item, 1), Err(ParseError()));
        assert_eq!(extract_indicator(item, 0), Err(ParseError()));
    }
}

#[test]
fn indicator_is_always_a_digit() {
    for item in 0..5000u64 {
        for digits in 2..6usize {
            let (reference, indicator) = extract_indicator(item, digits).unwrap();
            assert!(indicator <= 9);
            assert!(reference <= item);
        }
    }
}

#[test]
fn read_string_leaves_zero_characters_out() {
    // 'A', NUL, 'b', then 3 bits of padding.
    let data = [0x82u8, 0x03, 0x10];
    let mut cursor = BitCursor::new(&data);
    assert_eq!(read_string(&mut cursor, 140), Ok("Ab".to_string()));
    assert_eq!(cursor.remaining(), 3);
}

#[test]
fn read_string_stops_at_the_field_width() {
    let data = [0x82u8, 0x03, 0x10];
    let mut cursor = BitCursor::new(&data);
    assert_eq!(read_string(&mut cursor, 14), Ok("A".to_string()));
    assert_eq!(cursor.remaining(), 10);

    // 13 bits hold one whole character.
    let mut cursor = BitCursor::new(&data);
    assert_eq!(read_string(&mut cursor, 13), Ok("A".to_string()));
    assert_eq!(cursor.remaining(), 17);

    let mut cursor = BitCursor::new(&data);
    assert_eq!(read_string(&mut cursor, 6), Ok(String::new()));
    assert_eq!(cursor.remaining(), 24);
}

#[test]
fn read_string_of_empty_buffer() {
    let data: [u8; 0] = [];
    let mut cursor = BitCursor::new(&data);
    assert_eq!(read_string(&mut cursor, 140), Ok(String::new()));
}

#[test]
fn read_string_reads_every_ascii_character() {
    // 0x7F, 0x01: 1111111 0000001, then 2 bits of padding.
    let data = [0xFEu8, 0x04];
    let mut cursor = BitCursor::new(&data);
    assert_eq!(read_string(&mut cursor, 140), Ok("\u{7F}\u{01}".to_string()));
}
