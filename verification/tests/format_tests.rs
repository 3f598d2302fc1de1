use pico_climate::text::{format_hex_byte, format_i64, format_milli, format_u64, unique_hostname};

#[test]
fn u64_digits() {
    assert_eq!(format_u64(0), "0");
    assert_eq!(format_u64(7), "7");
    assert_eq!(format_u64(10), "10");
    assert_eq!(format_u64(1234567890), "1234567890");
    assert_eq!(format_u64(u64::MAX), "18446744073709551615");
}

#[test]
fn i64_digits() {
    assert_eq!(format_i64(0), "0");
    assert_eq!(format_i64(-1), "-1");
    assert_eq!(format_i64(i64::MIN), "-9223372036854775808");
    assert_eq!(format_i64(i64::MAX), "9223372036854775807");
}

#[test]
fn milli_whole_numbers_have_no_point() {
    assert_eq!(format_milli(0), "0");
    assert_eq!(format_milli(12000), "12");
    assert_eq!(format_milli(-12000), "-12");
    assert_eq!(format_milli(1000000), "1000");
}

#[test]
fn milli_trims_trailing_zeros() {
    assert_eq!(format_milli(21500), "21.5");
    assert_eq!(format_milli(-12100), "-12.1");
    assert_eq!(format_milli(120), "0.12");
    assert_eq!(format_milli(100), "0.1");
}

#[test]
fn milli_keeps_significant_fraction_digits() {
    assert_eq!(format_milli(1), "0.001");
    assert_eq!(format_milli(-45), "-0.045");
    assert_eq!(format_milli(999), "0.999");
    assert_eq!(format_milli(3125), "3.125");
}

#[test]
fn milli_extremes() {
    assert_eq!(format_milli(i64::MIN), "-9223372036854775.808");
    assert_eq!(format_milli(i64::MAX), "9223372036854775.807");
}

#[test]
fn hex_bytes() {
    assert_eq!(format_hex_byte(0x00), "00");
    assert_eq!(format_hex_byte(0x0f), "0f");
    assert_eq!(format_hex_byte(0xab), "ab");
    assert_eq!(format_hex_byte(0xff), "ff");
}

#[test]
fn hostname_uses_last_four_id_bytes() {
    let uid: [u8; 8] = [1, 2, 3, 4, 0xde, 0xad, 0xbe, 0xef];
    assert_eq!(unique_hostname(&uid), "pico-climate-deadbeef");
}
