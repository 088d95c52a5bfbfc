use gs1::checksum::{gs1_checksum, int_digits};

#[test]
fn checksum_test_gs1_checksum() {
    assert_eq!(0, gs1_checksum(&"0360843951968".to_string()));
    assert_eq!(8, gs1_checksum(&"8061414112345".to_string()));
}

#[test]
fn sgtin_test_gs1_checksum() {
    assert_eq!(0, gs1_checksum(&"0360843951968".to_string()));
    assert_eq!(8, gs1_checksum(&"8061414112345".to_string()));
}

#[test]
fn checksum_of_empty_string_is_zero() {
    assert_eq!(0, gs1_checksum(""));
}

#[test]
fn checksum_weighs_rightmost_digit_three_times() {
    // 3 * 1 = 3, so the check digit is 7.
    assert_eq!(7, gs1_checksum("1"));
    // 3 * 2 + 1 * 1 = 7, so the check digit is 3.
    assert_eq!(3, gs1_checksum("12"));
    // 3 * 0 + 1 * 9 = 9, so the check digit is 1.
    assert_eq!(1, gs1_checksum("90"));
}

#[test]
fn checksum_of_known_codes() {
    // GTIN-13 4006381333931 and SSCC 106141412345678908, check digit left off.
    assert_eq!(1, gs1_checksum("400638133393"));
    assert_eq!(8, gs1_checksum("10614141234567890"));
    assert_eq!(1, gs1_checksum("7061414112345"));
}

#[test]
fn checksum_is_always_a_digit() {
    for n in 0..2000u32 {
        let text = n.to_string();
        assert!(gs1_checksum(&text) <= 9);
    }
}

#[test]
fn checksum_of_long_input() {
    // 70000 nines: 35000 at odd places, 35000 at even places.
    // 3 * 9 * 35000 + 9 * 35000 = 1260000, a multiple of ten.
    let text = "9".repeat(70000);
    assert_eq!(0, gs1_checksum(&text));
}

#[test]
fn int_digits_gives_each_digit() {
    assert_eq!(vec![0u16, 3, 6, 0, 9], int_digits("03609"));
    assert_eq!(Vec::<u16>::new(), int_digits(""));
}
