use profile_lookup::format_accent_color;
use profile_lookup::format_bool;
use profile_lookup::format_dec;
use profile_lookup::format_hex;

#[test]
fn accent_color_is_hash_and_six_lowercase_hex_digits() {
    assert_eq!(format_accent_color(0xABCDEF), "#abcdef");
}

#[test]
fn accent_color_zero_pads_to_six_digits() {
    assert_eq!(format_accent_color(0), "#000000");
    assert_eq!(format_accent_color(0xFF), "#0000ff");
    assert_eq!(format_accent_color(0x1E0FA3), "#1e0fa3");
}

#[test]
fn accent_color_wider_than_six_digits_keeps_every_digit() {
    assert_eq!(format_accent_color(0x1234567), "#1234567");
    assert_eq!(format_accent_color(u32::MAX), "#ffffffff");
}

#[test]
fn hex_with_width_one_writes_the_digits_alone() {
    assert_eq!(format_hex(0, 1), "0");
    assert_eq!(format_hex(255, 1), "ff");
    assert_eq!(format_hex(255, 2), "ff");
    assert_eq!(format_hex(255, 4), "00ff");
}

#[test]
fn decimal_matches_the_usual_writing() {
    assert_eq!(format_dec(0), "0");
    assert_eq!(format_dec(7), "7");
    assert_eq!(format_dec(4194304), "4194304");
    assert_eq!(format_dec(u64::MAX), "18446744073709551615");
}

#[test]
fn booleans_display_as_words() {
    assert_eq!(format_bool(true), "true");
    assert_eq!(format_bool(false), "false");
}
