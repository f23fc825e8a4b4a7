//! The XFlash DA wire protocol: the 12-byte little-endian frame header, the
//! command words, the extension payload relocation, and the DA upload state
//! machine.

use vstd::prelude::*;
use crate::patching::{
    find_pattern,
    is_first_pat_match,
    no_pat_match,
    pat_matches_at,
    patch_ptr,
    read_le32,
    spec_pattern,
    spec_u32_at,
    u32_le,
    u32_le_bytes,
    HEX_NOT_FOUND,
};

verus! {

/// Magic every XFlash frame starts with.
pub const XFLASH_MAGIC: u32 = 0xFEEEEEEF;

/// What a frame carries: protocol flow words or bulk data.
#[derive(Debug, Copy, Clone, Eq, PartialEq, Structural)]
pub enum DataType {
    ProtocolFlow,
    Message,
}

impl DataType {
    /// The wire word of this data type.
    pub open spec fn spec_code(self) -> u32 {
        match self {
            DataType::ProtocolFlow => 1,
            DataType::Message => 2,
        }
    }

    /// The wire word of this data type.
    pub fn code(self) -> (r: u32)
        ensures
            r == self.spec_code(),
    {
        match self {
            DataType::ProtocolFlow => 1,
            DataType::Message => 2,
        }
    }
}

/// The XFlash command words the engine sends, the extension commands of the
/// injected payload included.
#[derive(Debug, Copy, Clone, Eq, PartialEq, Structural)]
pub enum Cmd {
    Download,
    Upload,
    Format,
    BootTo,
    DeviceCtrl,
    InitExtRam,
    SwitchUsbSpeed,
    ReadOtp,
    WriteOtp,
    WriteEfuse,
    ReadEfuse,
    Shutdown,
    ExtAck,
    ExtReadMem,
    ExtWriteMem,
    ExtReadRegister,
    ExtWriteRegister,
    ExtSej,
    ExtSetSejBase,
}

impl Cmd {
    /// The wire word of this command.
    pub open spec fn spec_code(self) -> u32 {
        match self {
            Cmd::Download => 0x010001,
            Cmd::Upload => 0x010002,
            Cmd::Format => 0x010003,
            Cmd::BootTo => 0x010008,
            Cmd::DeviceCtrl => 0x010009,
            Cmd::InitExtRam => 0x01000A,
            Cmd::SwitchUsbSpeed => 0x01000B,
            Cmd::ReadOtp => 0x01000C,
            Cmd::WriteOtp => 0x01000D,
            Cmd::WriteEfuse => 0x01000E,
            Cmd::ReadEfuse => 0x01000F,
            Cmd::Shutdown => 0x010007,
            Cmd::ExtAck => 0x0F0000,
            Cmd::ExtReadMem => 0x0F0001,
            Cmd::ExtWriteMem => 0x0F0002,
            Cmd::ExtReadRegister => 0x0F0003,
            Cmd::ExtWriteRegister => 0x0F0004,
            Cmd::ExtSej => 0x0F0005,
            Cmd::ExtSetSejBase => 0x0F0006,
        }
    }

    /// The wire word of this command.
    pub fn code(self) -> (r: u32)
        ensures
            r == self.spec_code(),
    {
        match self {
            Cmd::Download => 0x010001,
            Cmd::Upload => 0x010002,
            Cmd::Format => 0x010003,
            Cmd::BootTo => 0x010008,
            Cmd::DeviceCtrl => 0x010009,
            Cmd::InitExtRam => 0x01000A,
            Cmd::SwitchUsbSpeed => 0x01000B,
            Cmd::ReadOtp => 0x01000C,
            Cmd::WriteOtp => 0x01000D,
            Cmd::WriteEfuse => 0x01000E,
            Cmd::ReadEfuse => 0x01000F,
            Cmd::Shutdown => 0x010007,
            Cmd::ExtAck => 0x0F0000,
            Cmd::ExtReadMem => 0x0F0001,
            Cmd::ExtWriteMem => 0x0F0002,
            Cmd::ExtReadRegister => 0x0F0003,
            Cmd::ExtWriteRegister => 0x0F0004,
            Cmd::ExtSej => 0x0F0005,
            Cmd::ExtSetSejBase => 0x0F0006,
        }
    }
}

/// The 12-byte little-endian frame header: magic, data type, payload length.
pub open spec fn spec_frame_header(data_type: DataType, length: u32) -> Seq<u8> {
    u32_le(XFLASH_MAGIC) + u32_le(data_type.spec_code()) + u32_le(length)
}

/// Builds the 12-byte frame header that precedes every XFlash packet.
pub fn make_frame_header(data_type: DataType, length: u32) -> (r: Vec<u8>)
    ensures
        r@ == spec_frame_header(data_type, length),
{
    let mut out = u32_le_bytes(XFLASH_MAGIC);
    let mut dt = u32_le_bytes(data_type.code());
    let mut len = u32_le_bytes(length);
    out.append(&mut dt);
    out.append(&mut len);
    proof {
        assert(out@ =~= spec_frame_header(data_type, length));
    }
    out
}

/// The acknowledgement word the booted extensions reply with, read
/// little-endian from the first four bytes.
pub open spec fn spec_is_ext_ack(ack: Seq<u8>) -> bool {
    ack.len() >= 4 && ack[0] == 0xA4 && ack[1] == 0xA3 && ack[2] == 0xA2 && ack[3] == 0xA1
}

/// True when an extension acknowledgement holds the expected word.
pub fn is_ext_ack(ack: &[u8]) -> (r: bool)
    ensures
        r == spec_is_ext_ack(ack@),
{
    ack.len() >= 4 && ack[0] == 0xA4 && ack[1] == 0xA3 && ack[2] == 0xA2 && ack[3] == 0xA1
}

/// Address the extension payload is uploaded to and booted from.
pub const EXT_UPLOAD_ADDR: u32 = 0x68000000;

/// `i` lies inside the first-match window of one of the payload's
/// relocation sentinels.
pub open spec fn in_sentinel_window(payload: Seq<u8>, i: int) -> bool {
    ||| (exists|s: int|
        #[trigger] is_first_pat_match(payload, spec_pattern("11111111"@), s) && s <= i < s + 4)
    ||| (exists|s: int|
        #[trigger] is_first_pat_match(payload, spec_pattern("22222222"@), s) && s <= i < s + 4)
    ||| (exists|s: int|
        #[trigger] is_first_pat_match(payload, spec_pattern("33333333"@), s) && s <= i < s + 4)
    ||| (exists|s: int|
        #[trigger] is_first_pat_match(payload, spec_pattern("44444444"@), s) && s <= i < s + 4)
    ||| (exists|s: int|
        #[trigger] is_first_pat_match(payload, spec_pattern("55555555"@), s) && s <= i < s + 4)
    ||| (exists|s: int|
        #[trigger] is_first_pat_match(payload, spec_pattern("66666666"@), s) && s <= i < s + 4)
    ||| (exists|s: int|
        #[trigger] is_first_pat_match(payload, spec_pattern("77777777"@), s) && s <= i < s + 4)
}

/// Relocates the XFlash extension payload against a DA2 image: resolves the
/// MMC, UFS and dispatcher symbols by their byte-pattern anchors and writes
/// their Thumb addresses over the payload's sentinel slots. Returns `None`
/// exactly when a required anchor (the devctrl registration, or both MMC
/// card anchors) is absent from the image; an optional anchor that is absent
/// leaves its slot unpatched.
pub fn prepare_extensions(da2: &[u8], da2address: u32, payload: &[u8]) -> (r: Option<Vec<u8>>)
    ensures
        r is Some <==> !no_pat_match(da2@, "38B505460C20"@) && (!no_pat_match(da2@, "4B4FF43C72"@)
            || !no_pat_match(da2@, "A3EB0013181A02EB0010"@)),
        r matches Some(out) ==> out@.len() == payload@.len(),
        r matches Some(out) ==> forall|i: int|
            0 <= i < payload@.len() && !in_sentinel_window(payload@, i) ==> out@[i]
                == payload@[i],
        r matches Some(out) ==> forall|s: int, p: int|
            #![trigger is_first_pat_match(payload@, spec_pattern("11111111"@), s),
                is_first_pat_match(da2@, spec_pattern("38B505460C20"@), p)]
            (is_first_pat_match(payload@, spec_pattern("11111111"@), s) && is_first_pat_match(
                da2@,
                spec_pattern("38B505460C20"@),
                p,
            ) && p + da2address <= u32::MAX) ==> out@.subrange(s, s + 4) =~= u32_le(
                ((p + da2address) as u32) | 1,
            ),
        r matches Some(out) ==> forall|s: int, p: int|
            #![trigger is_first_pat_match(payload@, spec_pattern("11111111"@), s),
                is_first_pat_match(da2@, spec_pattern("38B505460C20"@), p)]
            (is_first_pat_match(payload@, spec_pattern("11111111"@), s) && is_first_pat_match(
                da2@,
                spec_pattern("38B505460C20"@),
                p,
            )) ==> slot_final(payload@, out@, s, p, da2address as int),
        r matches Some(out) ==> forall|s: int, v: int|
            #![trigger is_first_pat_match(payload@, spec_pattern("22222222"@), s),
                mmc_value_is(da2@, v)]
            (is_first_pat_match(payload@, spec_pattern("22222222"@), s) && mmc_value_is(
                da2@,
                v,
            )) ==> slot_final(payload@, out@, s, v, da2address as int),
        r matches Some(out) ==> forall|s: int, v: int|
            #![trigger is_first_pat_match(payload@, spec_pattern("33333333"@), s),
                set_part_value_is(da2@, v)]
            (is_first_pat_match(payload@, spec_pattern("33333333"@), s) && set_part_value_is(
                da2@,
                v,
            )) ==> slot_final(payload@, out@, s, v, da2address as int),
        r matches Some(out) ==> forall|s: int, v: int|
            #![trigger is_first_pat_match(payload@, spec_pattern("44444444"@), s),
                rpmb_value_is(da2@, v)]
            (is_first_pat_match(payload@, spec_pattern("44444444"@), s) && rpmb_value_is(
                da2@,
                v,
            )) ==> slot_final(payload@, out@, s, v, da2address as int),
        r matches Some(out) ==> forall|s: int, g: u32, v: int|
            #![trigger is_first_pat_match(payload@, spec_pattern("55555555"@), s),
                ufs_g_is(da2@, g), queue_value_is(da2@, g, v)]
            (is_first_pat_match(payload@, spec_pattern("55555555"@), s) && ufs_g_is(da2@, g)
                && queue_value_is(da2@, g, v)) ==> slot_final(
                payload@,
                out@,
                s,
                v,
                da2address as int,
            ),
        r matches Some(out) ==> forall|s: int, g: u32, v: int|
            #![trigger is_first_pat_match(payload@, spec_pattern("66666666"@), s),
                ufs_g_is(da2@, g), tag_value_is(da2@, g, v)]
            (is_first_pat_match(payload@, spec_pattern("66666666"@), s) && ufs_g_is(da2@, g)
                && tag_value_is(da2@, g, v)) ==> slot_final(
                payload@,
                out@,
                s,
                v,
                da2address as int,
            ),
        r matches Some(out) ==> forall|s: int, g: u32|
            #![trigger is_first_pat_match(payload@, spec_pattern("77777777"@), s),
                ufs_g_is(da2@, g)]
            (is_first_pat_match(payload@, spec_pattern("77777777"@), s) && ufs_g_is(
                da2@,
                g,
            )) ==> slot_final(payload@, out@, s, g as int, da2address as int),
{
    proof {
        lemma_ext_anchors();
    }
    let dlen = da2.len();
    let mut da_ext_data: Vec<u8> = vstd::slice::slice_to_vec(payload);

    let register_devctrl = find_pattern(da2, "38B505460C20", 0);
    if register_devctrl == HEX_NOT_FOUND {
        return None;
    }

    let mmc_get_card = resolve_mmc_get_card(da2);
    if mmc_get_card == HEX_NOT_FOUND {
        return None;
    }
    let mmc_set_part_config = resolve_set_part_config(da2);
    let mmc_rpmb_send_command = resolve_rpmb(da2);
    let (g_ufs_hba, ufs_tag_pos, ufs_queue_pos) = resolve_ufs(da2);

    let register_ptr = find_pattern(da_ext_data.as_slice(), "11111111", 0);
    let mmc_get_card_ptr = find_pattern(da_ext_data.as_slice(), "22222222", 0);
    let mmc_set_part_config_ptr = find_pattern(da_ext_data.as_slice(), "33333333", 0);
    let mmc_rpmb_send_command_ptr = find_pattern(da_ext_data.as_slice(), "44444444", 0);
    let ufshcd_queuecommand_ptr = find_pattern(da_ext_data.as_slice(), "55555555", 0);
    let ufshcd_get_free_tag_ptr = find_pattern(da_ext_data.as_slice(), "66666666", 0);
    let ptr_g_ufs_hba_ptr = find_pattern(da_ext_data.as_slice(), "77777777", 0);

    apply_slots(
        &mut da_ext_data,
        register_ptr,
        register_devctrl,
        mmc_get_card_ptr,
        mmc_get_card,
        mmc_set_part_config_ptr,
        mmc_set_part_config,
        mmc_rpmb_send_command_ptr,
        mmc_rpmb_send_command,
        ufshcd_queuecommand_ptr,
        ufs_queue_pos,
        ufshcd_get_free_tag_ptr,
        ufs_tag_pos,
        ptr_g_ufs_hba_ptr,
        g_ufs_hba as usize,
        da2address,
    );

    proof {
        lemma_sentinel_consts();
        assert forall|s: int, p: int|
            (is_first_pat_match(payload@, spec_pattern("11111111"@), s) && is_first_pat_match(
                da2@,
                spec_pattern("38B505460C20"@),
                p,
            ) && p + da2address <= u32::MAX) implies da_ext_data@.subrange(s, s + 4) =~= u32_le(
            ((p + da2address) as u32) | 1,
        ) by {
            assert(crate::patching::pat_matches_at(payload@, spec_pattern("11111111"@), s));
            assert(register_ptr != HEX_NOT_FOUND && s == register_ptr) by {
                if register_ptr == HEX_NOT_FOUND {
                    assert(!crate::patching::pat_matches_at(
                        payload@,
                        spec_pattern("11111111"@),
                        s,
                    ));
                } else {
                    assert(crate::patching::pat_matches_at(
                        payload@,
                        spec_pattern("11111111"@),
                        register_ptr as int,
                    ));
                }
            }
            assert(p == register_devctrl) by {
                assert(crate::patching::pat_matches_at(
                    da2@,
                    spec_pattern("38B505460C20"@),
                    register_devctrl as int,
                ));
            }
        }
        assert forall|s: int, p: int|
            (is_first_pat_match(payload@, spec_pattern("11111111"@), s) && is_first_pat_match(
                da2@,
                spec_pattern("38B505460C20"@),
                p,
            )) implies slot_final(payload@, da_ext_data@, s, p, da2address as int) by {
            crate::patching::lemma_first_pat_match_unique(
                payload@,
                spec_pattern("11111111"@),
                s,
                register_ptr as int,
            );
            assert(is_first_pat_match(da2@, spec_pattern("38B505460C20"@), register_devctrl as int));
            crate::patching::lemma_first_pat_match_unique(
                da2@,
                spec_pattern("38B505460C20"@),
                p,
                register_devctrl as int,
            );
        }
        assert forall|s: int, v: int|
            (is_first_pat_match(payload@, spec_pattern("22222222"@), s) && mmc_value_is(da2@, v)) implies slot_final(payload@, da_ext_data@, s, v, da2address as int) by {
            if mmc_get_card_ptr == HEX_NOT_FOUND {
                assert(crate::patching::pat_matches_at(payload@, spec_pattern("22222222"@), s));
            } else {
                crate::patching::lemma_first_pat_match_unique(
                    payload@,
                    spec_pattern("22222222"@),
                    s,
                    mmc_get_card_ptr as int,
                );
            }
            lemma_mmc_value_unique(da2@, v, mmc_get_card as int);
        }
        assert forall|s: int, v: int|
            (is_first_pat_match(payload@, spec_pattern("33333333"@), s) && set_part_value_is(da2@, v)) implies slot_final(payload@, da_ext_data@, s, v, da2address as int) by {
            if mmc_set_part_config_ptr == HEX_NOT_FOUND {
                assert(crate::patching::pat_matches_at(payload@, spec_pattern("33333333"@), s));
            } else {
                crate::patching::lemma_first_pat_match_unique(
                    payload@,
                    spec_pattern("33333333"@),
                    s,
                    mmc_set_part_config_ptr as int,
                );
            }
            lemma_set_part_value_unique(da2@, v, mmc_set_part_config as int);
        }
        assert forall|s: int, v: int|
            (is_first_pat_match(payload@, spec_pattern("44444444"@), s) && rpmb_value_is(da2@, v)) implies slot_final(payload@, da_ext_data@, s, v, da2address as int) by {
            if mmc_rpmb_send_command_ptr == HEX_NOT_FOUND {
                assert(crate::patching::pat_matches_at(payload@, spec_pattern("44444444"@), s));
            } else {
                crate::patching::lemma_first_pat_match_unique(
                    payload@,
                    spec_pattern("44444444"@),
                    s,
                    mmc_rpmb_send_command_ptr as int,
                );
            }
            lemma_rpmb_value_unique(da2@, v, mmc_rpmb_send_command as int);
        }
        assert forall|s: int, g: u32, v: int|
            (is_first_pat_match(payload@, spec_pattern("55555555"@), s) && ufs_g_is(da2@, g) && queue_value_is(da2@, g, v)) implies slot_final(payload@, da_ext_data@, s, v, da2address as int) by {
            if ufshcd_queuecommand_ptr == HEX_NOT_FOUND {
                assert(crate::patching::pat_matches_at(payload@, spec_pattern("55555555"@), s));
            } else {
                crate::patching::lemma_first_pat_match_unique(
                    payload@,
                    spec_pattern("55555555"@),
                    s,
                    ufshcd_queuecommand_ptr as int,
                );
            }
            lemma_ufs_g_unique(da2@, g, g_ufs_hba);
            lemma_queue_value_unique(da2@, g_ufs_hba, v, ufs_queue_pos as int);
        }
        assert forall|s: int, g: u32, v: int|
            (is_first_pat_match(payload@, spec_pattern("66666666"@), s) && ufs_g_is(da2@, g) && tag_value_is(da2@, g, v)) implies slot_final(payload@, da_ext_data@, s, v, da2address as int) by {
            if ufshcd_get_free_tag_ptr == HEX_NOT_FOUND {
                assert(crate::patching::pat_matches_at(payload@, spec_pattern("66666666"@), s));
            } else {
                crate::patching::lemma_first_pat_match_unique(
                    payload@,
                    spec_pattern("66666666"@),
                    s,
                    ufshcd_get_free_tag_ptr as int,
                );
            }
            lemma_ufs_g_unique(da2@, g, g_ufs_hba);
            lemma_tag_value_unique(da2@, g_ufs_hba, v, ufs_tag_pos as int);
        }
        assert forall|s: int, g: u32|
            (is_first_pat_match(payload@, spec_pattern("77777777"@), s) && ufs_g_is(da2@, g)) implies slot_final(payload@, da_ext_data@, s, g as int, da2address as int) by {
            if ptr_g_ufs_hba_ptr == HEX_NOT_FOUND {
                assert(crate::patching::pat_matches_at(payload@, spec_pattern("77777777"@), s));
            } else {
                crate::patching::lemma_first_pat_match_unique(
                    payload@,
                    spec_pattern("77777777"@),
                    s,
                    ptr_g_ufs_hba_ptr as int,
                );
            }
            lemma_ufs_g_unique(da2@, g, g_ufs_hba);
        }
    }
    Some(da_ext_data)
}

/// A slot write happens: both the slot and the symbol were found, the slot
/// lies inside the payload, and the rebased address fits the 32-bit space.
pub open spec fn slot_written(plen: int, slot: int, value: int, base: int) -> bool {
    &&& slot != HEX_NOT_FOUND
    &&& value != HEX_NOT_FOUND
    &&& plen >= 4
    &&& slot + 4 <= plen
    &&& value + base <= u32::MAX
}


/// A write confined to one sentinel's window leaves every other sentinel's
/// window untouched.
proof fn lemma_window_preserved(
    payload0: Seq<u8>,
    pre: Seq<u8>,
    post: Seq<u8>,
    wslot: int,
    wbyte: u8,
    oslot: int,
    obyte: u8,
)
    requires
        wbyte != obyte,
        pat_matches_at(payload0, sentinel_pat(obyte), oslot),
        pre.len() == payload0.len(),
        post.len() == pre.len(),
        post == pre || (pat_matches_at(payload0, sentinel_pat(wbyte), wslot) && (forall|i: int|
            0 <= i < pre.len() && !(wslot <= i < wslot + 4) ==> post[i] == pre[i])),
    ensures
        post.subrange(oslot, oslot + 4) == pre.subrange(oslot, oslot + 4),
{
    if post != pre {
        lemma_sentinel_windows_disjoint(payload0, wbyte, obyte, wslot, oslot);
        assert(post.subrange(oslot, oslot + 4) =~= pre.subrange(oslot, oslot + 4));
    }
}

/// What one relocation slot holds after the writes: the rebased Thumb
/// pointer when the write happened, its original bytes otherwise.
pub open spec fn slot_final(orig: Seq<u8>, out: Seq<u8>, slot: int, value: int, base: int) -> bool {
    if slot_written(orig.len() as int, slot, value, base) {
        out.subrange(slot, slot + 4) =~= u32_le((((value + base) as u32) | 1) as u32)
    } else if slot != HEX_NOT_FOUND && 0 <= slot && slot + 4 <= orig.len() {
        out.subrange(slot, slot + 4) == orig.subrange(slot, slot + 4)
    } else {
        true
    }
}

/// Writes the seven resolved symbols over their sentinel slots, the
/// dispatcher slot last. Every write lands inside the first-match window of
/// its sentinel, so bytes outside those windows stay; the dispatcher slot,
/// once written, holds the rebased Thumb address.
#[verifier::rlimit(100)]
#[verifier::spinoff_prover]
fn apply_slots(
    data: &mut Vec<u8>,
    register_ptr: usize,
    register_devctrl: usize,
    s22: usize,
    v22: usize,
    s33: usize,
    v33: usize,
    s44: usize,
    v44: usize,
    s55: usize,
    v55: usize,
    s66: usize,
    v66: usize,
    s77: usize,
    v77: usize,
    base: u32,
)
    requires
        register_ptr != HEX_NOT_FOUND ==> is_first_pat_match(
            old(data)@,
            spec_pattern("11111111"@),
            register_ptr as int,
        ),
        s22 != HEX_NOT_FOUND ==> is_first_pat_match(
            old(data)@,
            spec_pattern("22222222"@),
            s22 as int,
        ),
        s33 != HEX_NOT_FOUND ==> is_first_pat_match(
            old(data)@,
            spec_pattern("33333333"@),
            s33 as int,
        ),
        s44 != HEX_NOT_FOUND ==> is_first_pat_match(
            old(data)@,
            spec_pattern("44444444"@),
            s44 as int,
        ),
        s55 != HEX_NOT_FOUND ==> is_first_pat_match(
            old(data)@,
            spec_pattern("55555555"@),
            s55 as int,
        ),
        s66 != HEX_NOT_FOUND ==> is_first_pat_match(
            old(data)@,
            spec_pattern("66666666"@),
            s66 as int,
        ),
        s77 != HEX_NOT_FOUND ==> is_first_pat_match(
            old(data)@,
            spec_pattern("77777777"@),
            s77 as int,
        ),
    ensures
        final(data)@.len() == old(data)@.len(),
        forall|i: int|
            0 <= i < old(data)@.len() && !in_sentinel_window(old(data)@, i) ==> final(data)@[i]
                == old(data)@[i],
        slot_final(old(data)@, final(data)@, register_ptr as int, register_devctrl as int, base as int),
        slot_final(old(data)@, final(data)@, s22 as int, v22 as int, base as int),
        slot_final(old(data)@, final(data)@, s33 as int, v33 as int, base as int),
        slot_final(old(data)@, final(data)@, s44 as int, v44 as int, base as int),
        slot_final(old(data)@, final(data)@, s55 as int, v55 as int, base as int),
        slot_final(old(data)@, final(data)@, s66 as int, v66 as int, base as int),
        slot_final(old(data)@, final(data)@, s77 as int, v77 as int, base as int),
        slot_written(
            old(data)@.len() as int,
            register_ptr as int,
            register_devctrl as int,
            base as int,
        ) ==> final(data)@.subrange(register_ptr as int, register_ptr + 4) =~= u32_le(
            ((register_devctrl + base) as u32) | 1,
        ),
{
    let ghost payload0 = data@;
    proof {
        lemma_sentinel_consts();
    }
    let ghost pre1 = data@;
    apply_slot(data, s22, v22, base);
    proof {
        lemma_outside_windows(payload0, pre1, data@, s22 as int, "22222222"@);
        if s33 != HEX_NOT_FOUND {
            lemma_window_preserved(
                payload0,
                pre1,
                data@,
                s22 as int,
                0x22,
                s33 as int,
                0x33,
            );
        }
        if s44 != HEX_NOT_FOUND {
            lemma_window_preserved(
                payload0,
                pre1,
                data@,
                s22 as int,
                0x22,
                s44 as int,
                0x44,
            );
        }
        if s55 != HEX_NOT_FOUND {
            lemma_window_preserved(
                payload0,
                pre1,
                data@,
                s22 as int,
                0x22,
                s55 as int,
                0x55,
            );
        }
        if s66 != HEX_NOT_FOUND {
            lemma_window_preserved(
                payload0,
                pre1,
                data@,
                s22 as int,
                0x22,
                s66 as int,
                0x66,
            );
        }
        if s77 != HEX_NOT_FOUND {
            lemma_window_preserved(
                payload0,
                pre1,
                data@,
                s22 as int,
                0x22,
                s77 as int,
                0x77,
            );
        }
        if register_ptr != HEX_NOT_FOUND {
            lemma_window_preserved(
                payload0,
                pre1,
                data@,
                s22 as int,
                0x22,
                register_ptr as int,
                0x11,
            );
        }
    }
    let ghost pre2 = data@;
    apply_slot(data, s33, v33, base);
    proof {
        lemma_outside_windows(payload0, pre2, data@, s33 as int, "33333333"@);
        if s22 != HEX_NOT_FOUND {
            lemma_window_preserved(
                payload0,
                pre2,
                data@,
                s33 as int,
                0x33,
                s22 as int,
                0x22,
            );
        }
        if s44 != HEX_NOT_FOUND {
            lemma_window_preserved(
                payload0,
                pre2,
                data@,
                s33 as int,
                0x33,
                s44 as int,
                0x44,
            );
        }
        if s55 != HEX_NOT_FOUND {
            lemma_window_preserved(
                payload0,
                pre2,
                data@,
                s33 as int,
                0x33,
                s55 as int,
                0x55,
            );
        }
        if s66 != HEX_NOT_FOUND {
            lemma_window_preserved(
                payload0,
                pre2,
                data@,
                s33 as int,
                0x33,
                s66 as int,
                0x66,
            );
        }
        if s77 != HEX_NOT_FOUND {
            lemma_window_preserved(
                payload0,
                pre2,
                data@,
                s33 as int,
                0x33,
                s77 as int,
                0x77,
            );
        }
        if register_ptr != HEX_NOT_FOUND {
            lemma_window_preserved(
                payload0,
                pre2,
                data@,
                s33 as int,
                0x33,
                register_ptr as int,
                0x11,
            );
        }
    }
    let ghost pre3 = data@;
    apply_slot(data, s44, v44, base);
    proof {
        lemma_outside_windows(payload0, pre3, data@, s44 as int, "44444444"@);
        if s22 != HEX_NOT_FOUND {
            lemma_window_preserved(
                payload0,
                pre3,
                data@,
                s44 as int,
                0x44,
                s22 as int,
                0x22,
            );
        }
        if s33 != HEX_NOT_FOUND {
            lemma_window_preserved(
                payload0,
                pre3,
                data@,
                s44 as int,
                0x44,
                s33 as int,
                0x33,
            );
        }
        if s55 != HEX_NOT_FOUND {
            lemma_window_preserved(
                payload0,
                pre3,
                data@,
                s44 as int,
                0x44,
                s55 as int,
                0x55,
            );
        }
        if s66 != HEX_NOT_FOUND {
            lemma_window_preserved(
                payload0,
                pre3,
                data@,
                s44 as int,
                0x44,
                s66 as int,
                0x66,
            );
        }
        if s77 != HEX_NOT_FOUND {
            lemma_window_preserved(
                payload0,
                pre3,
                data@,
                s44 as int,
                0x44,
                s77 as int,
                0x77,
            );
        }
        if register_ptr != HEX_NOT_FOUND {
            lemma_window_preserved(
                payload0,
                pre3,
                data@,
                s44 as int,
                0x44,
                register_ptr as int,
                0x11,
            );
        }
    }
    let ghost pre4 = data@;
    apply_slot(data, s55, v55, base);
    proof {
        lemma_outside_windows(payload0, pre4, data@, s55 as int, "55555555"@);
        if s22 != HEX_NOT_FOUND {
            lemma_window_preserved(
                payload0,
                pre4,
                data@,
                s55 as int,
                0x55,
                s22 as int,
                0x22,
            );
        }
        if s33 != HEX_NOT_FOUND {
            lemma_window_preserved(
                payload0,
                pre4,
                data@,
                s55 as int,
                0x55,
                s33 as int,
                0x33,
            );
        }
        if s44 != HEX_NOT_FOUND {
            lemma_window_preserved(
                payload0,
                pre4,
                data@,
                s55 as int,
                0x55,
                s44 as int,
                0x44,
            );
        }
        if s66 != HEX_NOT_FOUND {
            lemma_window_preserved(
                payload0,
                pre4,
                data@,
                s55 as int,
                0x55,
                s66 as int,
                0x66,
            );
        }
        if s77 != HEX_NOT_FOUND {
            lemma_window_preserved(
                payload0,
                pre4,
                data@,
                s55 as int,
                0x55,
                s77 as int,
                0x77,
            );
        }
        if register_ptr != HEX_NOT_FOUND {
            lemma_window_preserved(
                payload0,
                pre4,
                data@,
                s55 as int,
                0x55,
                register_ptr as int,
                0x11,
            );
        }
    }
    let ghost pre5 = data@;
    apply_slot(data, s66, v66, base);
    proof {
        lemma_outside_windows(payload0, pre5, data@, s66 as int, "66666666"@);
        if s22 != HEX_NOT_FOUND {
            lemma_window_preserved(
                payload0,
                pre5,
                data@,
                s66 as int,
                0x66,
                s22 as int,
                0x22,
            );
        }
        if s33 != HEX_NOT_FOUND {
            lemma_window_preserved(
                payload0,
                pre5,
                data@,
                s66 as int,
                0x66,
                s33 as int,
                0x33,
            );
        }
        if s44 != HEX_NOT_FOUND {
            lemma_window_preserved(
                payload0,
                pre5,
                data@,
                s66 as int,
                0x66,
                s44 as int,
                0x44,
            );
        }
        if s55 != HEX_NOT_FOUND {
            lemma_window_preserved(
                payload0,
                pre5,
                data@,
                s66 as int,
                0x66,
                s55 as int,
                0x55,
            );
        }
        if s77 != HEX_NOT_FOUND {
            lemma_window_preserved(
                payload0,
                pre5,
                data@,
                s66 as int,
                0x66,
                s77 as int,
                0x77,
            );
        }
        if register_ptr != HEX_NOT_FOUND {
            lemma_window_preserved(
                payload0,
                pre5,
                data@,
                s66 as int,
                0x66,
                register_ptr as int,
                0x11,
            );
        }
    }
    let ghost pre6 = data@;
    apply_slot(data, s77, v77, base);
    proof {
        lemma_outside_windows(payload0, pre6, data@, s77 as int, "77777777"@);
        if s22 != HEX_NOT_FOUND {
            lemma_window_preserved(
                payload0,
                pre6,
                data@,
                s77 as int,
                0x77,
                s22 as int,
                0x22,
            );
        }
        if s33 != HEX_NOT_FOUND {
            lemma_window_preserved(
                payload0,
                pre6,
                data@,
                s77 as int,
                0x77,
                s33 as int,
                0x33,
            );
        }
        if s44 != HEX_NOT_FOUND {
            lemma_window_preserved(
                payload0,
                pre6,
                data@,
                s77 as int,
                0x77,
                s44 as int,
                0x44,
            );
        }
        if s55 != HEX_NOT_FOUND {
            lemma_window_preserved(
                payload0,
                pre6,
                data@,
                s77 as int,
                0x77,
                s55 as int,
                0x55,
            );
        }
        if s66 != HEX_NOT_FOUND {
            lemma_window_preserved(
                payload0,
                pre6,
                data@,
                s77 as int,
                0x77,
                s66 as int,
                0x66,
            );
        }
        if register_ptr != HEX_NOT_FOUND {
            lemma_window_preserved(
                payload0,
                pre6,
                data@,
                s77 as int,
                0x77,
                register_ptr as int,
                0x11,
            );
        }
    }
    let ghost pre7 = data@;
    apply_slot(data, register_ptr, register_devctrl, base);
    proof {
        lemma_outside_windows(payload0, pre7, data@, register_ptr as int, "11111111"@);
        if s22 != HEX_NOT_FOUND {
            lemma_window_preserved(
                payload0,
                pre7,
                data@,
                register_ptr as int,
                0x11,
                s22 as int,
                0x22,
            );
        }
        if s33 != HEX_NOT_FOUND {
            lemma_window_preserved(
                payload0,
                pre7,
                data@,
                register_ptr as int,
                0x11,
                s33 as int,
                0x33,
            );
        }
        if s44 != HEX_NOT_FOUND {
            lemma_window_preserved(
                payload0,
                pre7,
                data@,
                register_ptr as int,
                0x11,
                s44 as int,
                0x44,
            );
        }
        if s55 != HEX_NOT_FOUND {
            lemma_window_preserved(
                payload0,
                pre7,
                data@,
                register_ptr as int,
                0x11,
                s55 as int,
                0x55,
            );
        }
        if s66 != HEX_NOT_FOUND {
            lemma_window_preserved(
                payload0,
                pre7,
                data@,
                register_ptr as int,
                0x11,
                s66 as int,
                0x66,
            );
        }
        if s77 != HEX_NOT_FOUND {
            lemma_window_preserved(
                payload0,
                pre7,
                data@,
                register_ptr as int,
                0x11,
                s77 as int,
                0x77,
            );
        }
    }
}

/// A slot write preserves every byte outside the sentinel windows of the
/// original payload.
proof fn lemma_outside_windows(
    payload0: Seq<u8>,
    pre: Seq<u8>,
    post: Seq<u8>,
    slot: int,
    sent: Seq<char>,
)
    requires
        sent == "11111111"@ || sent == "22222222"@ || sent == "33333333"@ || sent == "44444444"@
            || sent == "55555555"@ || sent == "66666666"@ || sent == "77777777"@,
        slot != HEX_NOT_FOUND ==> is_first_pat_match(payload0, spec_pattern(sent), slot),
        post.len() == pre.len(),
        post == pre || (slot != HEX_NOT_FOUND && 0 <= slot && slot + 4 <= pre.len() && (forall|
            i: int,
        |
            0 <= i < pre.len() && !(slot <= i < slot + 4) ==> post[i] == pre[i])),
    ensures
        forall|i: int|
            0 <= i < pre.len() && !in_sentinel_window(payload0, i) ==> post[i] == pre[i],
{
    assert forall|i: int|
        0 <= i < pre.len() && !in_sentinel_window(payload0, i) implies post[i] == pre[i] by {
        if post != pre && slot <= i < slot + 4 {
            assert(is_first_pat_match(payload0, spec_pattern(sent), slot));
            assert(in_sentinel_window(payload0, i));
        }
    }
}

/// Writes a resolved symbol's Thumb address over a sentinel slot; a slot or
/// symbol that was not found, or an address outside the 32-bit space, leaves
/// the payload unchanged.
fn apply_slot(payload: &mut Vec<u8>, slot: usize, value: usize, base: u32)
    ensures
        final(payload)@.len() == old(payload)@.len(),
        slot_written(old(payload)@.len() as int, slot as int, value as int, base as int) ==> {
            &&& final(payload)@.subrange(slot as int, slot + 4) =~= u32_le(
                ((value + base) as u32) | 1,
            )
            &&& forall|i: int|
                0 <= i < old(payload)@.len() && !(slot <= i < slot + 4) ==> final(payload)@[i]
                    == old(payload)@[i]
        },
        !slot_written(old(payload)@.len() as int, slot as int, value as int, base as int)
            ==> final(payload)@ == old(payload)@,
{
    if slot == HEX_NOT_FOUND || value == HEX_NOT_FOUND {
        return ;
    }
    if payload.len() < 4 || slot > payload.len() - 4 {
        return ;
    }
    if value > u32::MAX as usize || value as u32 > u32::MAX - base {
        return ;
    }
    let ghost before = payload@;
    patch_ptr(payload, slot, value as u32, base, true);
    proof {
        assert(payload@.subrange(slot as int, slot + 4) =~= u32_le(((value + base) as u32) | 1));
        assert(forall|i: int|
            0 <= i < before.len() && !(slot <= i < slot + 4) ==> payload@[i] == before[i]);
    }
}

/// The extension anchors and the dispatcher sentinel are valid hex
/// patterns of the stated lengths.
proof fn lemma_ext_anchors()
    ensures
        crate::patching::pattern_parses("38B505460C20"@),
        spec_pattern("38B505460C20"@).len() == 6,
        crate::patching::pattern_parses("4B4FF43C72"@),
        spec_pattern("4B4FF43C72"@).len() == 5,
        crate::patching::pattern_parses("A3EB0013181A02EB0010"@),
        spec_pattern("A3EB0013181A02EB0010"@).len() == 10,
        crate::patching::pattern_parses("11111111"@),
        spec_pattern("11111111"@).len() == 4,
        crate::patching::pattern_parses("C3690A4610B5"@),
        spec_pattern("C3690A4610B5"@).len() == 6,
        crate::patching::pattern_parses("C36913F00103"@),
        spec_pattern("C36913F00103"@).len() == 6,
        crate::patching::pattern_parses("F8B506469DF81850"@),
        spec_pattern("F8B506469DF81850"@).len() == 8,
        crate::patching::pattern_parses("2DE9F0414FF6FD74"@),
        spec_pattern("2DE9F0414FF6FD74"@).len() == 8,
        crate::patching::pattern_parses("20460BB0BDE8F08300BF"@),
        spec_pattern("20460BB0BDE8F08300BF"@).len() == 10,
        crate::patching::pattern_parses("20460DB0BDE8F083"@),
        spec_pattern("20460DB0BDE8F083"@).len() == 8,
        crate::patching::pattern_parses("214602F002FB1BE600BF"@),
        spec_pattern("214602F002FB1BE600BF"@).len() == 10,
        crate::patching::pattern_parses("B52EB190F8"@),
        spec_pattern("B52EB190F8"@).len() == 5,
        crate::patching::pattern_parses("2DE9F8430127"@),
        spec_pattern("2DE9F8430127"@).len() == 6,
{
    reveal_strlit("38B505460C20");
    reveal_strlit("4B4FF43C72");
    reveal_strlit("A3EB0013181A02EB0010");
    reveal_strlit("11111111");
    reveal_strlit("C3690A4610B5");
    reveal_strlit("C36913F00103");
    reveal_strlit("F8B506469DF81850");
    reveal_strlit("2DE9F0414FF6FD74");
    reveal_strlit("20460BB0BDE8F08300BF");
    reveal_strlit("20460DB0BDE8F083");
    reveal_strlit("214602F002FB1BE600BF");
    reveal_strlit("B52EB190F8");
    reveal_strlit("2DE9F8430127");
    crate::patching::lemma_literal_pattern("38B505460C20"@);
    crate::patching::lemma_literal_pattern("4B4FF43C72"@);
    crate::patching::lemma_literal_pattern("A3EB0013181A02EB0010"@);
    crate::patching::lemma_literal_pattern("11111111"@);
    crate::patching::lemma_literal_pattern("C3690A4610B5"@);
    crate::patching::lemma_literal_pattern("C36913F00103"@);
    crate::patching::lemma_literal_pattern("F8B506469DF81850"@);
    crate::patching::lemma_literal_pattern("2DE9F0414FF6FD74"@);
    crate::patching::lemma_literal_pattern("20460BB0BDE8F08300BF"@);
    crate::patching::lemma_literal_pattern("20460DB0BDE8F083"@);
    crate::patching::lemma_literal_pattern("214602F002FB1BE600BF"@);
    crate::patching::lemma_literal_pattern("B52EB190F8"@);
    crate::patching::lemma_literal_pattern("2DE9F8430127"@);
}

/// Stage of the DA upload state machine. Each transition moves strictly
/// forward; a failure forces a reboot and a fresh connection instead of a
/// backward step.
#[derive(Debug, Copy, Clone, Eq, PartialEq, Structural)]
pub enum DaStage {
    New,
    Da1Uploaded,
    CarbonaraApplied,
    Da2Uploaded,
    HeapBaitApplied,
    ExtensionsUploaded,
    Ready,
}

/// Order of the upload stages.
pub open spec fn stage_rank(s: DaStage) -> int {
    match s {
        DaStage::New => 0,
        DaStage::Da1Uploaded => 1,
        DaStage::CarbonaraApplied => 2,
        DaStage::Da2Uploaded => 3,
        DaStage::HeapBaitApplied => 4,
        DaStage::ExtensionsUploaded => 5,
        DaStage::Ready => 6,
    }
}

/// The stage that follows a successful transition; `Ready` is final.
pub fn next_stage(s: DaStage) -> (r: DaStage)
    ensures
        s != DaStage::Ready ==> stage_rank(r) == stage_rank(s) + 1,
        s == DaStage::Ready ==> r == DaStage::Ready,
{
    match s {
        DaStage::New => DaStage::Da1Uploaded,
        DaStage::Da1Uploaded => DaStage::CarbonaraApplied,
        DaStage::CarbonaraApplied => DaStage::Da2Uploaded,
        DaStage::Da2Uploaded => DaStage::HeapBaitApplied,
        DaStage::HeapBaitApplied => DaStage::ExtensionsUploaded,
        DaStage::ExtensionsUploaded => DaStage::Ready,
        DaStage::Ready => DaStage::Ready,
    }
}

/// Advancing the state machine never moves a stage backward.
pub proof fn lemma_stage_monotonic(s: DaStage)
    ensures
        stage_rank(s) <= stage_rank(
            match s {
                DaStage::New => DaStage::Da1Uploaded,
                DaStage::Da1Uploaded => DaStage::CarbonaraApplied,
                DaStage::CarbonaraApplied => DaStage::Da2Uploaded,
                DaStage::Da2Uploaded => DaStage::HeapBaitApplied,
                DaStage::HeapBaitApplied => DaStage::ExtensionsUploaded,
                DaStage::ExtensionsUploaded => DaStage::Ready,
                DaStage::Ready => DaStage::Ready,
            },
        ),
{
}

/// Splits a 12-byte frame header into its fields: the magic word, the raw
/// data type, and the announced payload length.
pub fn parse_frame_header(hdr: &[u8]) -> (r: Option<(u32, u32, u32)>)
    ensures
        r is Some <==> hdr@.len() >= 12,
        r matches Some(f) ==> f.0 == crate::patching::spec_u32_at(hdr@, 0) && f.1
            == crate::patching::spec_u32_at(hdr@, 4) && f.2 == crate::patching::spec_u32_at(
            hdr@,
            8,
        ),
{
    if hdr.len() < 12 {
        return None;
    }
    Some((read_le32(hdr, 0), read_le32(hdr, 4), read_le32(hdr, 8)))
}


/// The MMC card-query offset: one byte before its first anchor, or ten
/// bytes before the fallback anchor.
pub open spec fn mmc_value_is(d: Seq<u8>, v: int) -> bool {
    ||| (exists|p: int|
        #[trigger] is_first_pat_match(d, spec_pattern("4B4FF43C72"@), p) && v == (if p >= 1 {
            p - 1
        } else {
            0
        }))
    ||| (no_pat_match(d, "4B4FF43C72"@) && (exists|p: int|
        #[trigger] is_first_pat_match(d, spec_pattern("A3EB0013181A02EB0010"@), p) && v == (
        if p >= 10 {
            p - 10
        } else {
            0
        })))
}

/// The byte condition that qualifies a partition-config anchor match.
pub open spec fn set_part_cond(d: Seq<u8>, p: int) -> bool {
    p + 22 <= d.len() && d[p + 20] == 0xB3 && d[p + 21] == 0x21
}

/// `p` is the first qualified partition-config anchor match.
pub open spec fn is_first_set_part_match(d: Seq<u8>, p: int) -> bool {
    &&& pat_matches_at(d, spec_pattern("C3690A4610B5"@), p)
    &&& set_part_cond(d, p)
    &&& forall|j: int|
        0 <= j < p ==> !(pat_matches_at(d, spec_pattern("C3690A4610B5"@), j) && set_part_cond(
            d,
            j,
        ))
}

/// No qualified partition-config anchor match exists.
pub open spec fn no_set_part_match(d: Seq<u8>) -> bool {
    forall|j: int|
        j >= 0 ==> !(pat_matches_at(d, spec_pattern("C3690A4610B5"@), j) && set_part_cond(d, j))
}

/// The partition-config offset: the first qualified anchor match, the
/// fallback anchor's first occurrence, or absent.
pub open spec fn set_part_value_is(d: Seq<u8>, v: int) -> bool {
    ||| (exists|p: int| #[trigger] is_first_set_part_match(d, p) && v == p)
    ||| (no_set_part_match(d) && (exists|p: int|
        #[trigger] is_first_pat_match(d, spec_pattern("C36913F00103"@), p) && v == p))
    ||| (no_set_part_match(d) && no_pat_match(d, "C36913F00103"@) && v == HEX_NOT_FOUND)
}

/// The RPMB command offset: the first occurrence of either anchor, or
/// absent.
pub open spec fn rpmb_value_is(d: Seq<u8>, v: int) -> bool {
    ||| (exists|p: int|
        #[trigger] is_first_pat_match(d, spec_pattern("F8B506469DF81850"@), p) && v == p)
    ||| (no_pat_match(d, "F8B506469DF81850"@) && (exists|p: int|
        #[trigger] is_first_pat_match(d, spec_pattern("2DE9F0414FF6FD74"@), p) && v == p))
    ||| (no_pat_match(d, "F8B506469DF81850"@) && no_pat_match(d, "2DE9F0414FF6FD74"@) && v
        == HEX_NOT_FOUND)
}

/// The first UFS return-anchor match leaves room for its pointer literal.
pub open spec fn ufs_hit1(d: Seq<u8>) -> bool {
    exists|p: int|
        #[trigger] is_first_pat_match(d, spec_pattern("20460BB0BDE8F08300BF"@), p) && p + 14
            <= d.len()
}

pub open spec fn ufs_hit2(d: Seq<u8>) -> bool {
    exists|p: int|
        #[trigger] is_first_pat_match(d, spec_pattern("20460DB0BDE8F083"@), p) && p + 12
            <= d.len()
}

pub open spec fn ufs_hit3(d: Seq<u8>) -> bool {
    exists|p: int|
        #[trigger] is_first_pat_match(d, spec_pattern("214602F002FB1BE600BF"@), p) && p + 22
            <= d.len()
}

/// The UFS host-adapter pointer: the 32-bit literal after the first of the
/// three return anchors, or zero when none fits.
pub open spec fn ufs_g_is(d: Seq<u8>, g: u32) -> bool {
    ||| (exists|p: int|
        #[trigger] is_first_pat_match(d, spec_pattern("20460BB0BDE8F08300BF"@), p) && p + 14
            <= d.len() && g == spec_u32_at(d, p + 10))
    ||| (!ufs_hit1(d) && (exists|p: int|
        #[trigger] is_first_pat_match(d, spec_pattern("20460DB0BDE8F083"@), p) && p + 12
            <= d.len() && g == spec_u32_at(d, p + 8)))
    ||| (!ufs_hit1(d) && !ufs_hit2(d) && (exists|p: int|
        #[trigger] is_first_pat_match(d, spec_pattern("214602F002FB1BE600BF"@), p) && p + 22
            <= d.len() && g == spec_u32_at(d, p + 18)))
    ||| (!ufs_hit1(d) && !ufs_hit2(d) && !ufs_hit3(d) && g == 0)
}

/// The UFS tag-allocator offset: its anchor's first occurrence, only on a
/// UFS part.
pub open spec fn tag_value_is(d: Seq<u8>, g: u32, v: int) -> bool {
    if g == 0 {
        v == HEX_NOT_FOUND
    } else {
        ||| (exists|p: int|
            #[trigger] is_first_pat_match(d, spec_pattern("B52EB190F8"@), p) && v == p)
        ||| (no_pat_match(d, "B52EB190F8"@) && v == HEX_NOT_FOUND)
    }
}

/// The UFS queue-command offset: its anchor's first occurrence, only on a
/// UFS part.
pub open spec fn queue_value_is(d: Seq<u8>, g: u32, v: int) -> bool {
    if g == 0 {
        v == HEX_NOT_FOUND
    } else {
        ||| (exists|p: int|
            #[trigger] is_first_pat_match(d, spec_pattern("2DE9F8430127"@), p) && v == p)
        ||| (no_pat_match(d, "2DE9F8430127"@) && v == HEX_NOT_FOUND)
    }
}

/// Resolves the MMC card-query offset from its two anchors; `HEX_NOT_FOUND`
/// exactly when both are absent.
fn resolve_mmc_get_card(da2: &[u8]) -> (r: usize)
    ensures
        r != HEX_NOT_FOUND ==> mmc_value_is(da2@, r as int),
        r == HEX_NOT_FOUND <==> no_pat_match(da2@, "4B4FF43C72"@) && no_pat_match(
            da2@,
            "A3EB0013181A02EB0010"@,
        ),
{
    proof {
        lemma_ext_anchors();
    }
    let pos = find_pattern(da2, "4B4FF43C72", 0);
    if pos != HEX_NOT_FOUND {
        proof {
            assert(is_first_pat_match(da2@, spec_pattern("4B4FF43C72"@), pos as int));
        }
        if pos >= 1 {
            pos - 1
        } else {
            0
        }
    } else {
        let pos2 = find_pattern(da2, "A3EB0013181A02EB0010", 0);
        if pos2 != HEX_NOT_FOUND {
            proof {
                assert(is_first_pat_match(
                    da2@,
                    spec_pattern("A3EB0013181A02EB0010"@),
                    pos2 as int,
                ));
            }
            if pos2 >= 10 {
                pos2 - 10
            } else {
                0
            }
        } else {
            HEX_NOT_FOUND
        }
    }
}

/// Resolves the partition-config offset: the qualified anchor scan, then
/// the fallback anchor.
fn resolve_set_part_config(da2: &[u8]) -> (r: usize)
    ensures
        set_part_value_is(da2@, r as int),
{
    proof {
        lemma_ext_anchors();
    }
    let dlen = da2.len();
    let mut search_offset: usize = 0;
    let mut found: usize = HEX_NOT_FOUND;
    while search_offset < dlen
        invariant_except_break
            found == HEX_NOT_FOUND,
        invariant
            dlen == da2@.len(),
            forall|j: int|
                0 <= j < search_offset ==> !(pat_matches_at(
                    da2@,
                    spec_pattern("C3690A4610B5"@),
                    j,
                ) && set_part_cond(da2@, j)),
        ensures
            found != HEX_NOT_FOUND ==> is_first_set_part_match(da2@, found as int),
            found == HEX_NOT_FOUND ==> no_set_part_match(da2@),
        decreases dlen - search_offset,
    {
        proof {
            lemma_ext_anchors();
        }
        let pos = find_pattern(da2, "C3690A4610B5", search_offset);
        if pos == HEX_NOT_FOUND {
            proof {
                assert forall|j: int|
                    j >= 0 implies !(pat_matches_at(da2@, spec_pattern("C3690A4610B5"@), j)
                    && set_part_cond(da2@, j)) by {
                    if j >= search_offset {
                        assert(!pat_matches_at(da2@, spec_pattern("C3690A4610B5"@), j));
                    }
                }
            }
            break ;
        }
        if dlen >= 22 && pos <= dlen - 22 && da2[pos + 20] == 0xB3 && da2[pos + 21] == 0x21 {
            found = pos;
            proof {
                assert(is_first_set_part_match(da2@, pos as int));
            }
            break ;
        }
        proof {
            assert(!set_part_cond(da2@, pos as int));
        }
        search_offset = pos + 1;
    }
    if found == HEX_NOT_FOUND {
        let fall = find_pattern(da2, "C36913F00103", 0);
        proof {
            if fall != HEX_NOT_FOUND {
                assert(is_first_pat_match(da2@, spec_pattern("C36913F00103"@), fall as int));
            }
        }
        fall
    } else {
        found
    }
}

/// Resolves the RPMB command offset from its two anchors.
fn resolve_rpmb(da2: &[u8]) -> (r: usize)
    ensures
        rpmb_value_is(da2@, r as int),
{
    proof {
        lemma_ext_anchors();
    }
    let first = find_pattern(da2, "F8B506469DF81850", 0);
    if first != HEX_NOT_FOUND {
        proof {
            assert(is_first_pat_match(da2@, spec_pattern("F8B506469DF81850"@), first as int));
        }
        return first;
    }
    let second = find_pattern(da2, "2DE9F0414FF6FD74", 0);
    proof {
        if second != HEX_NOT_FOUND {
            assert(is_first_pat_match(da2@, spec_pattern("2DE9F0414FF6FD74"@), second as int));
        }
    }
    second
}

/// Resolves the UFS host-adapter pointer and, on a UFS part, the tag and
/// queue offsets.
fn resolve_ufs(da2: &[u8]) -> (r: (u32, usize, usize))
    ensures
        ufs_g_is(da2@, r.0),
        tag_value_is(da2@, r.0, r.1 as int),
        queue_value_is(da2@, r.0, r.2 as int),
{
    proof {
        lemma_ext_anchors();
    }
    let dlen = da2.len();
    let mut g_ufs_hba: u32 = 0;
    let p1 = find_pattern(da2, "20460BB0BDE8F08300BF", 0);
    if p1 != HEX_NOT_FOUND && p1 <= dlen && dlen - p1 >= 14 {
        g_ufs_hba = read_le32(da2, p1 + 10);
        proof {
            assert(is_first_pat_match(da2@, spec_pattern("20460BB0BDE8F08300BF"@), p1 as int));
        }
    } else {
        proof {
            assert(!ufs_hit1(da2@)) by {
                if ufs_hit1(da2@) {
                    let p = choose|p: int|
                        #[trigger] is_first_pat_match(
                            da2@,
                            spec_pattern("20460BB0BDE8F08300BF"@),
                            p,
                        ) && p + 14 <= da2@.len();
                    if p1 == HEX_NOT_FOUND {
                        assert(!pat_matches_at(
                            da2@,
                            spec_pattern("20460BB0BDE8F08300BF"@),
                            p,
                        ));
                    } else {
                        assert(is_first_pat_match(
                            da2@,
                            spec_pattern("20460BB0BDE8F08300BF"@),
                            p1 as int,
                        ));
                        crate::patching::lemma_first_pat_match_unique(
                            da2@,
                            spec_pattern("20460BB0BDE8F08300BF"@),
                            p,
                            p1 as int,
                        );
                    }
                }
            }
        }
        let p2 = find_pattern(da2, "20460DB0BDE8F083", 0);
        if p2 != HEX_NOT_FOUND && p2 <= dlen && dlen - p2 >= 12 {
            g_ufs_hba = read_le32(da2, p2 + 8);
            proof {
                assert(is_first_pat_match(da2@, spec_pattern("20460DB0BDE8F083"@), p2 as int));
            }
        } else {
            proof {
                assert(!ufs_hit2(da2@)) by {
                    if ufs_hit2(da2@) {
                        let p = choose|p: int|
                            #[trigger] is_first_pat_match(
                                da2@,
                                spec_pattern("20460DB0BDE8F083"@),
                                p,
                            ) && p + 12 <= da2@.len();
                        if p2 == HEX_NOT_FOUND {
                            assert(!pat_matches_at(da2@, spec_pattern("20460DB0BDE8F083"@), p));
                        } else {
                            assert(is_first_pat_match(
                                da2@,
                                spec_pattern("20460DB0BDE8F083"@),
                                p2 as int,
                            ));
                            crate::patching::lemma_first_pat_match_unique(
                                da2@,
                                spec_pattern("20460DB0BDE8F083"@),
                                p,
                                p2 as int,
                            );
                        }
                    }
                }
            }
            let p3 = find_pattern(da2, "214602F002FB1BE600BF", 0);
            if p3 != HEX_NOT_FOUND && p3 <= dlen && dlen - p3 >= 22 {
                g_ufs_hba = read_le32(da2, p3 + 18);
                proof {
                    assert(is_first_pat_match(
                        da2@,
                        spec_pattern("214602F002FB1BE600BF"@),
                        p3 as int,
                    ));
                }
            } else {
                proof {
                    assert(!ufs_hit3(da2@)) by {
                        if ufs_hit3(da2@) {
                            let p = choose|p: int|
                                #[trigger] is_first_pat_match(
                                    da2@,
                                    spec_pattern("214602F002FB1BE600BF"@),
                                    p,
                                ) && p + 22 <= da2@.len();
                            if p3 == HEX_NOT_FOUND {
                                assert(!pat_matches_at(
                                    da2@,
                                    spec_pattern("214602F002FB1BE600BF"@),
                                    p,
                                ));
                            } else {
                                assert(is_first_pat_match(
                                    da2@,
                                    spec_pattern("214602F002FB1BE600BF"@),
                                    p3 as int,
                                ));
                                crate::patching::lemma_first_pat_match_unique(
                                    da2@,
                                    spec_pattern("214602F002FB1BE600BF"@),
                                    p,
                                    p3 as int,
                                );
                            }
                        }
                    }
                }
            }
        }
    }

    let has_ufs = g_ufs_hba != 0;
    let ufs_tag_pos = if has_ufs {
        let t = find_pattern(da2, "B52EB190F8", 0);
        proof {
            if t != HEX_NOT_FOUND {
                assert(is_first_pat_match(da2@, spec_pattern("B52EB190F8"@), t as int));
            }
        }
        t
    } else {
        HEX_NOT_FOUND
    };
    let ufs_queue_pos = if has_ufs {
        let q = find_pattern(da2, "2DE9F8430127", 0);
        proof {
            if q != HEX_NOT_FOUND {
                assert(is_first_pat_match(da2@, spec_pattern("2DE9F8430127"@), q as int));
            }
        }
        q
    } else {
        HEX_NOT_FOUND
    };
    (g_ufs_hba, ufs_tag_pos, ufs_queue_pos)
}

/// The constant four-byte pattern a relocation sentinel parses to.
pub open spec fn sentinel_pat(b: u8) -> Seq<Option<u8>> {
    Seq::new(4, |i: int| Some(b))
}

/// A run of one byte whose two hex digits agree renders to a run of that
/// digit.
proof fn lemma_hex_of_const(v: u8, n: nat)
    requires
        crate::patching::hex_digit_char(v as int / 16) == crate::patching::hex_digit_char(
            v as int % 16,
        ),
    ensures
        crate::patching::hex_of(Seq::new(n, |i: int| v)) =~= Seq::new(
            2 * n,
            |i: int| crate::patching::hex_digit_char(v as int / 16),
        ),
    decreases n,
{
    if n > 0 {
        lemma_hex_of_const(v, (n - 1) as nat);
        assert(Seq::new(n, |i: int| v).drop_last() =~= Seq::new((n - 1) as nat, |i: int| v));
        assert(Seq::new(n, |i: int| v).last() == v);
    }
}

/// Each relocation sentinel's pattern is four copies of its byte.
proof fn lemma_sentinel_consts()
    ensures
        spec_pattern("11111111"@) == sentinel_pat(0x11),
        spec_pattern("22222222"@) == sentinel_pat(0x22),
        spec_pattern("33333333"@) == sentinel_pat(0x33),
        spec_pattern("44444444"@) == sentinel_pat(0x44),
        spec_pattern("55555555"@) == sentinel_pat(0x55),
        spec_pattern("66666666"@) == sentinel_pat(0x66),
        spec_pattern("77777777"@) == sentinel_pat(0x77),
        crate::patching::pattern_parses("11111111"@),
        crate::patching::pattern_parses("22222222"@),
        crate::patching::pattern_parses("33333333"@),
        crate::patching::pattern_parses("44444444"@),
        crate::patching::pattern_parses("55555555"@),
        crate::patching::pattern_parses("66666666"@),
        crate::patching::pattern_parses("77777777"@),
{
    reveal_strlit("11111111");
    reveal_strlit("22222222");
    reveal_strlit("33333333");
    reveal_strlit("44444444");
    reveal_strlit("55555555");
    reveal_strlit("66666666");
    reveal_strlit("77777777");
    lemma_one_sentinel_const("11111111"@, 0x11);
    lemma_one_sentinel_const("22222222"@, 0x22);
    lemma_one_sentinel_const("33333333"@, 0x33);
    lemma_one_sentinel_const("44444444"@, 0x44);
    lemma_one_sentinel_const("55555555"@, 0x55);
    lemma_one_sentinel_const("66666666"@, 0x66);
    lemma_one_sentinel_const("77777777"@, 0x77);
}

/// An eight-fold repetition of a digit parses to four copies of the byte
/// both of whose digits are that digit.
proof fn lemma_one_sentinel_const(s: Seq<char>, v: u8)
    requires
        s.len() == 8,
        forall|i: int|
            0 <= i < s.len() ==> #[trigger] s[i] == crate::patching::hex_digit_char(v as int / 16),
        v as int / 16 == v as int % 16,
        v < 0x80,
    ensures
        spec_pattern(s) == sentinel_pat(v),
        crate::patching::pattern_parses(s),
{
    lemma_hex_of_const(v, 4);
    assert(s =~= crate::patching::hex_of(Seq::new(4, |i: int| v)));
    crate::patching::lemma_hex_pattern(Seq::new(4, |i: int| v));
    assert(spec_pattern(s) =~= sentinel_pat(v));
}

/// Matches of two different sentinels never overlap: every byte of one
/// window carries that sentinel's byte, and the bytes differ.
proof fn lemma_sentinel_windows_disjoint(d: Seq<u8>, b1: u8, b2: u8, s1: int, s2: int)
    requires
        b1 != b2,
        pat_matches_at(d, sentinel_pat(b1), s1),
        pat_matches_at(d, sentinel_pat(b2), s2),
    ensures
        s1 + 4 <= s2 || s2 + 4 <= s1,
{
    if !(s1 + 4 <= s2 || s2 + 4 <= s1) {
        let m = if s1 >= s2 {
            s1
        } else {
            s2
        };
        assert(s1 <= m < s1 + 4 && s2 <= m < s2 + 4);
        assert(sentinel_pat(b1)[m - s1] == Some(b1));
        assert(sentinel_pat(b2)[m - s2] == Some(b2));
        assert(d[m] == b1 && d[m] == b2);
    }
}

/// Each resolved value is a function of the image: the value predicates
/// admit one value apiece.
proof fn lemma_mmc_value_unique(d: Seq<u8>, v1: int, v2: int)
    requires
        mmc_value_is(d, v1),
        mmc_value_is(d, v2),
    ensures
        v1 == v2,
{
    assert forall|p1: int, p2: int|
        is_first_pat_match(d, spec_pattern("4B4FF43C72"@), p1) && is_first_pat_match(
            d,
            spec_pattern("4B4FF43C72"@),
            p2,
        ) implies p1 == p2 by {
        crate::patching::lemma_first_pat_match_unique(d, spec_pattern("4B4FF43C72"@), p1, p2);
    }
    assert forall|p1: int, p2: int|
        is_first_pat_match(d, spec_pattern("A3EB0013181A02EB0010"@), p1) && is_first_pat_match(
            d,
            spec_pattern("A3EB0013181A02EB0010"@),
            p2,
        ) implies p1 == p2 by {
        crate::patching::lemma_first_pat_match_unique(
            d,
            spec_pattern("A3EB0013181A02EB0010"@),
            p1,
            p2,
        );
    }
}

proof fn lemma_first_set_part_unique(d: Seq<u8>, p1: int, p2: int)
    requires
        is_first_set_part_match(d, p1),
        is_first_set_part_match(d, p2),
    ensures
        p1 == p2,
{
    if p1 < p2 {
        assert(!(pat_matches_at(d, spec_pattern("C3690A4610B5"@), p1) && set_part_cond(d, p1)));
    }
    if p2 < p1 {
        assert(!(pat_matches_at(d, spec_pattern("C3690A4610B5"@), p2) && set_part_cond(d, p2)));
    }
}

proof fn lemma_set_part_value_unique(d: Seq<u8>, v1: int, v2: int)
    requires
        set_part_value_is(d, v1),
        set_part_value_is(d, v2),
    ensures
        v1 == v2,
{
    assert forall|p1: int, p2: int|
        is_first_set_part_match(d, p1) && is_first_set_part_match(d, p2) implies p1 == p2 by {
        lemma_first_set_part_unique(d, p1, p2);
    }
    assert forall|p1: int, p2: int|
        is_first_pat_match(d, spec_pattern("C36913F00103"@), p1) && is_first_pat_match(
            d,
            spec_pattern("C36913F00103"@),
            p2,
        ) implies p1 == p2 by {
        crate::patching::lemma_first_pat_match_unique(d, spec_pattern("C36913F00103"@), p1, p2);
    }
}

proof fn lemma_rpmb_value_unique(d: Seq<u8>, v1: int, v2: int)
    requires
        rpmb_value_is(d, v1),
        rpmb_value_is(d, v2),
    ensures
        v1 == v2,
{
    assert forall|p1: int, p2: int|
        is_first_pat_match(d, spec_pattern("F8B506469DF81850"@), p1) && is_first_pat_match(
            d,
            spec_pattern("F8B506469DF81850"@),
            p2,
        ) implies p1 == p2 by {
        crate::patching::lemma_first_pat_match_unique(
            d,
            spec_pattern("F8B506469DF81850"@),
            p1,
            p2,
        );
    }
    assert forall|p1: int, p2: int|
        is_first_pat_match(d, spec_pattern("2DE9F0414FF6FD74"@), p1) && is_first_pat_match(
            d,
            spec_pattern("2DE9F0414FF6FD74"@),
            p2,
        ) implies p1 == p2 by {
        crate::patching::lemma_first_pat_match_unique(
            d,
            spec_pattern("2DE9F0414FF6FD74"@),
            p1,
            p2,
        );
    }
}

proof fn lemma_ufs_g_unique(d: Seq<u8>, g1: u32, g2: u32)
    requires
        ufs_g_is(d, g1),
        ufs_g_is(d, g2),
    ensures
        g1 == g2,
{
    assert forall|p1: int, p2: int|
        is_first_pat_match(d, spec_pattern("20460BB0BDE8F08300BF"@), p1) && is_first_pat_match(
            d,
            spec_pattern("20460BB0BDE8F08300BF"@),
            p2,
        ) implies p1 == p2 by {
        crate::patching::lemma_first_pat_match_unique(
            d,
            spec_pattern("20460BB0BDE8F08300BF"@),
            p1,
            p2,
        );
    }
    assert forall|p1: int, p2: int|
        is_first_pat_match(d, spec_pattern("20460DB0BDE8F083"@), p1) && is_first_pat_match(
            d,
            spec_pattern("20460DB0BDE8F083"@),
            p2,
        ) implies p1 == p2 by {
        crate::patching::lemma_first_pat_match_unique(
            d,
            spec_pattern("20460DB0BDE8F083"@),
            p1,
            p2,
        );
    }
    assert forall|p1: int, p2: int|
        is_first_pat_match(d, spec_pattern("214602F002FB1BE600BF"@), p1) && is_first_pat_match(
            d,
            spec_pattern("214602F002FB1BE600BF"@),
            p2,
        ) implies p1 == p2 by {
        crate::patching::lemma_first_pat_match_unique(
            d,
            spec_pattern("214602F002FB1BE600BF"@),
            p1,
            p2,
        );
    }
}

proof fn lemma_tag_value_unique(d: Seq<u8>, g: u32, v1: int, v2: int)
    requires
        tag_value_is(d, g, v1),
        tag_value_is(d, g, v2),
    ensures
        v1 == v2,
{
    if g != 0 {
        assert forall|p1: int, p2: int|
            is_first_pat_match(d, spec_pattern("B52EB190F8"@), p1) && is_first_pat_match(
                d,
                spec_pattern("B52EB190F8"@),
                p2,
            ) implies p1 == p2 by {
            crate::patching::lemma_first_pat_match_unique(d, spec_pattern("B52EB190F8"@), p1, p2);
        }
    }
}

proof fn lemma_queue_value_unique(d: Seq<u8>, g: u32, v1: int, v2: int)
    requires
        queue_value_is(d, g, v1),
        queue_value_is(d, g, v2),
    ensures
        v1 == v2,
{
    if g != 0 {
        assert forall|p1: int, p2: int|
            is_first_pat_match(d, spec_pattern("2DE9F8430127"@), p1) && is_first_pat_match(
                d,
                spec_pattern("2DE9F8430127"@),
                p2,
            ) implies p1 == p2 by {
            crate::patching::lemma_first_pat_match_unique(d, spec_pattern("2DE9F8430127"@), p1, p2);
        }
    }
}

} // verus!
