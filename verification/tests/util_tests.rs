use gb_core::util::{
    get_u16, get_u32, get_u64, get_u8, hexdump_slice, switch_u16, u16_from_2u8s, u16_to_2u8s,
    u32_to_4u8s, u64_to_8u8s,
};

#[test]
fn get_u8_reads_single_byte() {
    let bytes = [0x12u8, 0x34, 0x56];
    assert_eq!(get_u8(&bytes, 0), 0x12);
    assert_eq!(get_u8(&bytes, 2), 0x56);
}

#[test]
fn get_u16_is_little_endian() {
    let bytes = [0x34u8, 0x12, 0xFF];
    assert_eq!(get_u16(&bytes, 0), 0x1234);
    assert_eq!(get_u16(&bytes, 1), 0xFF12);
}

#[test]
fn get_u32_is_little_endian() {
    let bytes = [0x78u8, 0x56, 0x34, 0x12];
    assert_eq!(get_u32(&bytes, 0), 0x12345678);
}

#[test]
fn get_u64_is_little_endian() {
    let bytes = [0xEFu8, 0xCD, 0xAB, 0x89, 0x67, 0x45, 0x23, 0x01];
    assert_eq!(get_u64(&bytes, 0), 0x0123456789ABCDEF);
}

#[test]
fn switch_u16_swaps_bytes() {
    assert_eq!(switch_u16(0x1234), 0x3412);
    assert_eq!(switch_u16(0x00FF), 0xFF00);
    assert_eq!(switch_u16(switch_u16(0xBEEF)), 0xBEEF);
}

#[test]
fn u16_to_2u8s_splits_high_first() {
    assert_eq!(u16_to_2u8s(0x1234), (0x12, 0x34));
    assert_eq!(u16_to_2u8s(0x00FF), (0x00, 0xFF));
}

#[test]
fn u16_from_2u8s_takes_low_first() {
    assert_eq!(u16_from_2u8s((0x34, 0x12)), 0x1234);
    let (hi, lo) = u16_to_2u8s(0xABCD);
    assert_eq!(u16_from_2u8s((lo, hi)), 0xABCD);
}

#[test]
fn u32_to_4u8s_splits_high_first() {
    assert_eq!(u32_to_4u8s(0x12345678), (0x12, 0x34, 0x56, 0x78));
}

#[test]
fn u64_to_8u8s_splits_high_first() {
    assert_eq!(
        u64_to_8u8s(0x0123456789ABCDEF),
        (0x01, 0x23, 0x45, 0x67, 0x89, 0xAB, 0xCD, 0xEF)
    );
}

#[test]
fn hexdump_formats_short_slice() {
    assert_eq!(hexdump_slice(&[]), "");
    assert_eq!(hexdump_slice(&[0xCE]), "CE");
    assert_eq!(hexdump_slice(&[0xCE, 0xED, 0x0A]), "CE ED 0A");
}

#[test]
fn hexdump_breaks_after_sixteen_bytes() {
    let bytes: Vec<u8> = (0u8..18u8).collect();
    let dump = hexdump_slice(&bytes);
    assert_eq!(
        dump,
        "00 01 02 03 04 05 06 07 08 09 0A 0B 0C 0D 0E 0F\n        10 11"
    );
}

#[test]
fn hexdump_makes_three_rows_of_a_logo_sized_slice() {
    let bytes = [0xABu8; 48];
    let dump = hexdump_slice(&bytes);
    assert_eq!(dump.matches('\n').count(), 2);
    let row = "AB ".repeat(15) + "AB";
    let expected = format!("{}\n        {}\n        {}", row, row, row);
    assert_eq!(dump, expected);
}
