use penumbra::analysis::{Arch, CodeAnalyzer};
use penumbra::arm::{encode_bl_arm, force_return as arm_force_return, to_thumb_addr};
use penumbra::arm64::{encode_bl, force_return as a64_force_return};
use penumbra::xmlexts::prepare_extensions as xml_prepare_extensions;
use penumbra::dapatch::{
    arch_of, find_sej_base, get_v6_payload, is_arm64, patch_lock_state, DAEntryRegion,
};

fn word(w: u32) -> [u8; 4] {
    w.to_le_bytes()
}

#[test]
fn arm64_is_detected_by_the_first_instruction() {
    assert!(is_arm64(&[0xC6, 0x01, 0x00, 0x58, 0x00]));
    assert!(!is_arm64(&[0xC6, 0x01, 0x00, 0x58]));
    assert!(!is_arm64(&[0x38, 0xB5, 0x05, 0x46, 0x00]));
    assert_eq!(arch_of(&[0xC6, 0x01, 0x00, 0x58, 0x00]), Arch::Aarch64);
    assert_eq!(arch_of(&[0x00; 8]), Arch::Arm);
}

#[test]
fn v6_payload_refuses_short_blobs() {
    assert!(get_v6_payload(&[0x50; 31], true).is_err());
    assert!(get_v6_payload(&[], false).is_err());
}

#[test]
fn v6_payload_refuses_a_wrong_magic() {
    let mut blob = vec![0u8; 64];
    blob[..11].copy_from_slice(b"PENUMBRAV6X");
    assert!(get_v6_payload(&blob, true).is_err());
}

#[test]
fn v6_payload_extracts_the_architecture_slice() {
    // Header: magic, 5 bytes pad, arm7 {off,len}, arm64 {off,len}; each
    // recorded offset is +8 and each length is -8 to skip a local magic.
    let mut blob = vec![0u8; 96];
    blob[..11].copy_from_slice(b"PENUMBRAV6P");
    blob[16..20].copy_from_slice(&32u32.to_le_bytes()); // arm7 off -> 40
    blob[20..24].copy_from_slice(&12u32.to_le_bytes()); // arm7 len -> 4
    blob[24..28].copy_from_slice(&48u32.to_le_bytes()); // arm64 off -> 56
    blob[28..32].copy_from_slice(&16u32.to_le_bytes()); // arm64 len -> 8
    blob[40..44].copy_from_slice(&[0xA1, 0xA2, 0xA3, 0xA4]);
    blob[56..64].copy_from_slice(&[1, 2, 3, 4, 5, 6, 7, 8]);

    assert_eq!(get_v6_payload(&blob, false).unwrap(), vec![0xA1, 0xA2, 0xA3, 0xA4]);
    assert_eq!(get_v6_payload(&blob, true).unwrap(), vec![1, 2, 3, 4, 5, 6, 7, 8]);

    blob[28..32].copy_from_slice(&200u32.to_le_bytes()); // slice would run out
    assert!(get_v6_payload(&blob, true).is_err());
}

#[test]
fn sej_base_is_rebuilt_from_the_immediate_pair() {
    // AArch64: MOV w8, #0x8 ; MOV w9, #0 ; MOVK w8, #0x1000, lsl 16.
    let mut data = vec![0xC6, 0x01, 0x00, 0x58, 0, 0, 0, 0];
    data.extend_from_slice(&[0x08, 0x01, 0x80, 0x52]);
    data.extend_from_slice(&[0x09, 0x00, 0x80, 0x52]);
    data.extend_from_slice(&[0x08, 0x00, 0xA2, 0x72]);
    assert_eq!(find_sej_base(&data), 0x10000000);
}

#[test]
fn sej_base_defaults_when_no_anchor_is_present() {
    let data = vec![0xC6, 0x01, 0x00, 0x58, 0, 0, 0, 0];
    assert_eq!(find_sej_base(&data), 0x1000A000);
    assert_eq!(find_sej_base(&[0u8; 16]), 0x1000A000);
}

#[test]
fn bl_encodings_are_position_relative() {
    assert_eq!(encode_bl(0x1000, 0x2000).unwrap(), 0x94000400);
    assert_eq!(encode_bl(0x2000, 0x1000).unwrap(), 0x97FFFC00);
    assert!(encode_bl(0, 2).is_err());
    assert_eq!(encode_bl_arm(0x1000, 0x2000).unwrap(), 0xEB0003FE);
    assert!(encode_bl_arm(0, 0x10000002).is_err());
}

#[test]
fn force_return_writes_the_stub_words() {
    let mut data = vec![0xFFu8; 12];
    a64_force_return(&mut data, 0, 0).unwrap();
    assert_eq!(&data[0..4], &word(0xD2800000));
    assert_eq!(&data[4..8], &word(0xD65F03C0));
    assert_eq!(&data[8..12], &[0xFF; 4]);

    let mut data = vec![0xFFu8; 8];
    arm_force_return(&mut data, 0, 0, false).unwrap();
    assert_eq!(&data[0..4], &word(0xE3A00000));
    assert_eq!(&data[4..8], &word(0xE12FFF1E));

    let mut data = vec![0xFFu8; 4];
    arm_force_return(&mut data, 0, 7, true).unwrap();
    assert_eq!(&data, &[0x07, 0x20, 0x70, 0x47]);

    let mut short = vec![0u8; 4];
    assert!(a64_force_return(&mut short, 0, 0).is_err());
    assert_eq!(short, vec![0u8; 4]);
}

#[test]
fn thumb_addresses_set_the_interworking_bit() {
    assert_eq!(to_thumb_addr(0x100, 0x40000000), 0x40000101);
}

#[test]
fn lock_state_patch_lands_on_the_function_prologue() {
    // AArch64 DA2 image at 0x100000: marker word, a NOP, the function
    // prologue, a NOP, an ADRP+ADD pair materialising the diagnostic
    // string's address, then the string itself at offset 0x50.
    let mut data = vec![0u8; 0x70];
    data[0..4].copy_from_slice(&[0xC6, 0x01, 0x00, 0x58]);
    data[4..8].copy_from_slice(&word(0xD503201F));
    data[8..12].copy_from_slice(&word(0xA9BF7BFD)); // stp x29, x30, [sp, #-16]!
    data[12..16].copy_from_slice(&word(0xD503201F));
    data[16..20].copy_from_slice(&word(0x90000001)); // adrp x1, page
    data[20..24].copy_from_slice(&word(0x91014021)); // add x1, x1, #0x50
    let s = b"[%s] sec_get_seccfg\0";
    data[0x50..0x50 + s.len()].copy_from_slice(s);

    let analyzer = CodeAnalyzer::new(data.clone(), 0x100000, Arch::Aarch64);
    let mut region = DAEntryRegion::new(0x100000, data, 0).unwrap();
    let patched = patch_lock_state(&mut region, &analyzer, true).unwrap();
    assert!(patched);
    assert_eq!(
        &region.data[8..20],
        &[0x1F, 0x00, 0x00, 0xB9, 0x00, 0x00, 0x80, 0xD2, 0xC0, 0x03, 0x5F, 0xD6]
    );
    // Everything before the prologue is untouched.
    assert_eq!(&region.data[0..4], &[0xC6, 0x01, 0x00, 0x58]);
}

#[test]
fn lock_state_patch_reports_false_without_the_anchor() {
    let data = vec![0u8; 0x40];
    let analyzer = CodeAnalyzer::new(data.clone(), 0x100000, Arch::Aarch64);
    let mut region = DAEntryRegion::new(0x100000, data.clone(), 0).unwrap();
    let patched = patch_lock_state(&mut region, &analyzer, true).unwrap();
    assert!(!patched);
    assert_eq!(region.data, data);
}

#[test]
fn analyzer_finds_bl_instructions_and_targets() {
    // AArch64: BL forward by 0x10 at offset 8.
    let mut data = vec![0u8; 32];
    data[8..12].copy_from_slice(&word(0x94000004));
    let a = CodeAnalyzer::new(data, 0x1000, Arch::Aarch64);
    assert_eq!(a.get_next_bl_from_off(0).unwrap(), 8);
    assert_eq!(a.get_bl_target(8).unwrap(), 0x1000 + 8 + 16);
    assert_eq!(a.get_bl_target_offset(8).unwrap(), 24);
    assert!(a.get_next_bl_from_off(12).is_none());
}

#[test]
fn region_construction_checks_the_signature_length() {
    assert!(DAEntryRegion::new(0, vec![0; 4], 8).is_err());
    let r = DAEntryRegion::new(0x1000, vec![0; 16], 4).unwrap();
    assert_eq!(r.addr, 0x1000);
    assert_eq!(r.sig_len, 4);
}

#[test]
fn xml_extensions_need_a_valid_container_and_symbols() {
    // A malformed container is refused outright.
    assert!(xml_prepare_extensions(&[0u8; 64], 0x40000000, &[0u8; 16]).is_none());
    // A valid container over an image without the symbol anchors is refused.
    let mut blob = vec![0u8; 96];
    blob[..11].copy_from_slice(b"PENUMBRAV6P");
    blob[16..20].copy_from_slice(&32u32.to_le_bytes());
    blob[20..24].copy_from_slice(&16u32.to_le_bytes());
    blob[24..28].copy_from_slice(&48u32.to_le_bytes());
    blob[28..32].copy_from_slice(&16u32.to_le_bytes());
    blob[40..44].copy_from_slice(&[0x11; 4]);
    assert!(xml_prepare_extensions(&[0u8; 64], 0x40000000, &blob).is_none());
}
