use penumbra::patching::{
    bytes_to_hex, contains_bytes, find_pattern, parse_pattern, patch, patch_pattern,
    patch_pattern_str, patch_ptr, patch_string, read_le16, read_le32, u32_le_bytes, HEX_NOT_FOUND,
};

#[test]
fn parse_pattern_plain_and_wildcards() {
    let p = parse_pattern("DEADBEEF").unwrap();
    assert_eq!(p, vec![Some(0xDE), Some(0xAD), Some(0xBE), Some(0xEF)]);
    let p = parse_pattern("0aXX, ff-:xx").unwrap();
    assert_eq!(p, vec![Some(0x0A), None, Some(0xFF), None]);
}

#[test]
fn parse_pattern_skips_unicode_whitespace() {
    let p = parse_pattern("DE\u{00A0}AD\u{2003}BE EF").unwrap();
    assert_eq!(p, vec![Some(0xDE), Some(0xAD), Some(0xBE), Some(0xEF)]);
}

#[test]
fn parse_pattern_rejects_odd_and_bad_digits() {
    assert!(parse_pattern("ABC").is_err());
    assert!(parse_pattern("G1").is_err());
    assert!(parse_pattern("1X").is_err());
}

#[test]
fn find_pattern_first_match_at_or_after_offset() {
    let data = [0x00, 0xAA, 0xBB, 0x00, 0xAA, 0xBB, 0xCC];
    assert_eq!(find_pattern(&data, "AABB", 0), 1);
    assert_eq!(find_pattern(&data, "AABB", 2), 4);
    assert_eq!(find_pattern(&data, "AAXXCC", 0), 4);
    assert_eq!(find_pattern(&data, "AABB", 5), HEX_NOT_FOUND);
    assert_eq!(find_pattern(&data, "99", 0), HEX_NOT_FOUND);
    assert_eq!(find_pattern(&data, "", 0), HEX_NOT_FOUND);
    assert_eq!(find_pattern(&data, "ZZ", 0), HEX_NOT_FOUND);
}

#[test]
fn patch_overwrites_only_non_wildcard_bytes() {
    let mut data = vec![0x11, 0x22, 0x33, 0x44, 0x55];
    patch(&mut data, 1, "AAXXCC").unwrap();
    assert_eq!(data, vec![0x11, 0xAA, 0x33, 0xCC, 0x55]);
}

#[test]
fn patch_out_of_bounds_leaves_data_unchanged() {
    let mut data = vec![0x11, 0x22];
    assert!(patch(&mut data, 1, "AABB").is_err());
    assert_eq!(data, vec![0x11, 0x22]);
}

#[test]
fn patch_pattern_str_patches_at_first_match() {
    let mut data = vec![0x00, 0xAA, 0xBB, 0xAA, 0xBB];
    let pos = patch_pattern_str(&mut data, "AABB", "01XX").unwrap();
    assert_eq!(pos, 1);
    assert_eq!(data, vec![0x00, 0x01, 0xBB, 0xAA, 0xBB]);
}

#[test]
fn patch_pattern_writes_little_endian_word() {
    let mut data = vec![0xDE, 0xAD, 0xBE, 0xEF, 0x00];
    let pos = patch_pattern(&mut data, "DEADBEEF", 0x11223344).unwrap();
    assert_eq!(pos, 0);
    assert_eq!(data, vec![0x44, 0x33, 0x22, 0x11, 0x00]);
}

#[test]
fn bytes_to_hex_is_uppercase_two_digits_per_byte() {
    assert_eq!(bytes_to_hex(&[0x00, 0x0F, 0xA5, 0xFF]), "000FA5FF");
    assert_eq!(bytes_to_hex(&[]), "");
}

#[test]
fn contains_bytes_finds_first_occurrence() {
    let data = b"abcabc";
    assert_eq!(contains_bytes(data, b"bc"), 1);
    assert_eq!(contains_bytes(data, b"ca"), 2);
    assert_eq!(contains_bytes(data, b"zz"), HEX_NOT_FOUND);
    assert_eq!(contains_bytes(b"", b"a"), HEX_NOT_FOUND);
}

#[test]
fn patch_string_replaces_and_zero_pads() {
    let mut data = b"xxCMD:SET-RSCyy".to_vec();
    patch_string(&mut data, "CMD:SET-RSC", "CMD:BOOT-TO");
    assert_eq!(&data, b"xxCMD:BOOT-TOyy");

    let mut data = b"aFOObFOOc".to_vec();
    patch_string(&mut data, "FOO", "Z");
    assert_eq!(data, b"aZ\x00\x00bZ\x00\x00c".to_vec());
}

#[test]
fn patch_string_ignores_longer_replacement() {
    let mut data = b"abc".to_vec();
    patch_string(&mut data, "b", "XY");
    assert_eq!(&data, b"abc");
}

#[test]
fn patch_ptr_writes_rebased_thumb_address() {
    let mut data = vec![0; 8];
    patch_ptr(&mut data, 2, 0x100, 0x40000000, true);
    assert_eq!(data, vec![0, 0, 0x01, 0x01, 0x00, 0x40, 0, 0]);
    let mut data = vec![0; 4];
    patch_ptr(&mut data, 0, 0x100, 0x40000000, false);
    assert_eq!(data, vec![0x00, 0x01, 0x00, 0x40]);
}

#[test]
fn little_endian_readers() {
    let data = [0x44, 0x33, 0x22, 0x11];
    assert_eq!(read_le32(&data, 0), 0x11223344);
    assert_eq!(read_le16(&data, 0), 0x3344);
    assert_eq!(u32_le_bytes(0x11223344), vec![0x44, 0x33, 0x22, 0x11]);
}
