use penumbra::port::{find_mtk_port, known_ports, port_connection_type, ConnectionType};
use penumbra::storage::{build_partition_list, chunk_lengths, is_pl_part, Partition, PartitionKind};
use penumbra::seccfg::{algo_order, sej_flags, LockFlag, SecCfgV4, SecCfgV4Algo};
use penumbra::xflash::{
    is_ext_ack, make_frame_header, next_stage, parse_frame_header, prepare_extensions, Cmd,
    DaStage, DataType, EXT_UPLOAD_ADDR, XFLASH_MAGIC,
};

#[test]
fn discovery_classifies_a_brom_descriptor() {
    assert_eq!(port_connection_type(0x0E8D, 0x0003), Some(ConnectionType::Brom));
    assert_eq!(port_connection_type(0x0E8D, 0x2001), Some(ConnectionType::Da));
    assert_eq!(port_connection_type(0x22D9, 0x0006), Some(ConnectionType::Preloader));
    assert_eq!(port_connection_type(0x1234, 0x5678), None);
    assert_eq!(known_ports().len(), 13);
}

#[test]
fn discovery_returns_the_first_known_port() {
    let devices = vec![(0x1111, 0x2222), (0x0E8D, 0x0003), (0x0E8D, 0x2001)];
    let (idx, ct) = find_mtk_port(&devices).unwrap();
    assert_eq!(idx, 1);
    assert_eq!(ct, ConnectionType::Brom);
    assert!(find_mtk_port(&vec![(1, 2)]).is_none());
}

#[test]
fn frame_headers_are_twelve_little_endian_bytes() {
    let hdr = make_frame_header(DataType::ProtocolFlow, 0x20);
    assert_eq!(hdr.len(), 12);
    assert_eq!(&hdr[0..4], &XFLASH_MAGIC.to_le_bytes());
    assert_eq!(&hdr[4..8], &1u32.to_le_bytes());
    assert_eq!(&hdr[8..12], &0x20u32.to_le_bytes());
    assert_eq!(Cmd::DeviceCtrl.code(), 0x010009);
    assert_eq!(Cmd::ExtAck.code(), 0x0F0000);
    assert_eq!(EXT_UPLOAD_ADDR, 0x68000000);
}

#[test]
fn extension_ack_is_the_fixed_word() {
    assert!(is_ext_ack(&[0xA4, 0xA3, 0xA2, 0xA1]));
    assert!(is_ext_ack(&[0xA4, 0xA3, 0xA2, 0xA1, 0x00]));
    assert!(!is_ext_ack(&[0xA1, 0xA2, 0xA3, 0xA4]));
    assert!(!is_ext_ack(&[0xA4, 0xA3]));
}

#[test]
fn upload_stages_move_strictly_forward() {
    let mut stage = DaStage::New;
    let expect = [
        DaStage::Da1Uploaded,
        DaStage::CarbonaraApplied,
        DaStage::Da2Uploaded,
        DaStage::HeapBaitApplied,
        DaStage::ExtensionsUploaded,
        DaStage::Ready,
        DaStage::Ready,
    ];
    for e in expect {
        stage = next_stage(stage);
        assert_eq!(stage, e);
    }
}

#[test]
fn extensions_are_prepared_from_the_anchors() {
    let base = 0x40000000u32;
    let mut da2 = vec![0u8; 0x100];
    // register_devctrl anchor at 0x10, first MMC anchor at 0x30.
    da2[0x10..0x16].copy_from_slice(&[0x38, 0xB5, 0x05, 0x46, 0x0C, 0x20]);
    da2[0x30..0x35].copy_from_slice(&[0x4B, 0x4F, 0xF4, 0x3C, 0x72]);

    let mut payload = vec![0u8; 16];
    payload[0..4].copy_from_slice(&[0x11; 4]);
    payload[4..8].copy_from_slice(&[0x22; 4]);

    let out = prepare_extensions(&da2, base, &payload).unwrap();
    assert_eq!(out.len(), payload.len());
    // Slot one: the devctrl registration offset, rebased, with the Thumb bit.
    assert_eq!(&out[0..4], &((base + 0x10) | 1).to_le_bytes());
    // Slot two: the MMC anchor backs up one byte.
    assert_eq!(&out[4..8], &((base + 0x2F) | 1).to_le_bytes());
    assert_eq!(&out[8..], &payload[8..]);
}

#[test]
fn extensions_need_the_required_anchors() {
    let da2 = vec![0u8; 0x40];
    let payload = vec![0u8; 8];
    assert!(prepare_extensions(&da2, 0, &payload).is_none());
}

#[test]
fn seccfg_header_round_trips() {
    let cfg = SecCfgV4 {
        lock_state: 3,
        hash: vec![0xAB; 32],
        encrypted_hash: vec![0xCD; 32],
        algo: None,
    };
    let blob = cfg.create();
    assert_eq!(blob.len(), 200);
    let parsed = SecCfgV4::parse_header(&blob).unwrap();
    assert_eq!(parsed.lock_state, 3);
    assert_eq!(parsed.hash, vec![0xAB; 32]);
    assert_eq!(parsed.encrypted_hash, vec![0xCD; 32]);
    assert!(parsed.get_algo().is_none());
}

#[test]
fn seccfg_rejects_bad_headers() {
    assert!(SecCfgV4::parse_header(&[0u8; 100]).is_err());
    let mut blob = vec![0u8; 200];
    blob[0..4].copy_from_slice(&0x4D4D4D4Du32.to_le_bytes());
    blob[4..8].copy_from_slice(&2u32.to_le_bytes());
    assert!(SecCfgV4::parse_header(&blob).is_err());
}

#[test]
fn algorithm_identification_memoises_the_match() {
    let mut cfg = SecCfgV4 {
        lock_state: 1,
        hash: vec![0x11; 32],
        encrypted_hash: vec![0x99; 32],
        algo: None,
    };
    // The fixed try order, and the flag tuple the identified algorithm uses
    // for every later SEJ call.
    let order = algo_order();
    assert_eq!(
        order,
        vec![SecCfgV4Algo::SW, SecCfgV4Algo::HW, SecCfgV4Algo::HWv3, SecCfgV4Algo::HWv4]
    );
    assert_eq!(sej_flags(SecCfgV4Algo::SW), (false, false, false));
    assert_eq!(sej_flags(SecCfgV4Algo::HW), (false, true, true));
    assert_eq!(sej_flags(SecCfgV4Algo::HWv3), (true, true, false));
    assert_eq!(sej_flags(SecCfgV4Algo::HWv4), (false, true, false));

    // A decrypted hash equal to the stored one identifies the algorithm.
    let dec = vec![0x11; 32];
    assert!(cfg.algo_matches(&dec));
    assert!(!cfg.algo_matches(&vec![0x12; 32]));
    cfg.set_algo(SecCfgV4Algo::HWv3);
    assert_eq!(cfg.get_algo(), Some(SecCfgV4Algo::HWv3));

    cfg.set_lock_state(LockFlag::Unlocked);
    assert_eq!(cfg.lock_state, 3);
    cfg.set_lock_state(LockFlag::Locked);
    assert_eq!(cfg.lock_state, 1);
}

#[test]
fn partition_list_wraps_the_gpt_entries() {
    let gpt = vec![
        Partition::new("boot".into(), 0x2000000, 0x8000, PartitionKind::User),
        Partition::new("seccfg".into(), 0x40000, 0x3000000, PartitionKind::User),
    ];
    let list = build_partition_list(
        0x40000,
        0x40000,
        0x10000000,
        PartitionKind::Boot1,
        PartitionKind::Boot2,
        PartitionKind::User,
        gpt,
    );
    assert_eq!(list.len(), 6);
    assert_eq!(list[0].name, "preloader");
    assert_eq!(list[0].kind, PartitionKind::Boot1);
    assert_eq!(list[2].name, "PGPT");
    assert_eq!(list[3].name, "boot");
    assert_eq!(list[4].name, "seccfg");
    assert_eq!(list[5].name, "SGPT");
    assert_eq!(list[5].address, 0x10000000 - 32768);
    assert!(is_pl_part("preloader"));
    assert!(is_pl_part("preloader_backup"));
    assert!(!is_pl_part("boot"));
    assert_eq!(PartitionKind::User.as_str(), "EMMC-USER");
}

#[test]
fn gpt_entries_fall_back_to_the_secondary_table() {
    let pgpt = vec![Partition::new("boot".into(), 0x1000, 0, PartitionKind::User)];
    let sgpt = vec![Partition::new("system".into(), 0x2000, 0, PartitionKind::User)];
    let chosen = penumbra::storage::choose_gpt_entries(pgpt, sgpt);
    assert_eq!(chosen[0].name, "boot");
    let sgpt = vec![Partition::new("system".into(), 0x2000, 0, PartitionKind::User)];
    let chosen = penumbra::storage::choose_gpt_entries(Vec::new(), sgpt);
    assert_eq!(chosen[0].name, "system");
}

#[test]
fn bulk_transfers_chunk_to_the_packet_size() {
    assert_eq!(chunk_lengths(0, 0x8000), Vec::<usize>::new());
    assert_eq!(chunk_lengths(0x8000, 0x8000), vec![0x8000]);
    assert_eq!(chunk_lengths(0x8001, 0x8000), vec![0x8000, 1]);
    assert_eq!(chunk_lengths(5, 2), vec![2, 2, 1]);
}

#[test]
fn frame_headers_parse_back_to_their_fields() {
    let hdr = make_frame_header(DataType::Message, 0x1234);
    let (magic, dt, len) = parse_frame_header(&hdr).unwrap();
    assert_eq!(magic, XFLASH_MAGIC);
    assert_eq!(dt, 2);
    assert_eq!(len, 0x1234);
    assert!(parse_frame_header(&[0u8; 11]).is_none());
}
