//! In-memory patching of the second-stage Download Agent: architecture
//! detection, the v6 extension payload container, SEJ base recovery, and the
//! security bypass patches.

use vstd::prelude::*;
use vstd::string::StringSliceAdditionalSpecFns;
use crate::analysis::{
    Arch,
    CodeAnalyzer,
    found_func_for,
    is_first_bl_from,
    no_func_for_string,
    xref_of_string,
};
use crate::arm;
use crate::arm64;
use crate::error::Error;
use crate::patching::{
    apply_patch,
    bytes_to_hex,
    exact_pat,
    find_pattern,
    is_first_pat_match,
    no_pat_match,
    lemma_hex_pattern,
    pat_matches_at,
    patch,
    read_le32,
    replace_from,
    spec_pattern,
    spec_u32_at,
    u32_le,
    u32_le_bytes,
    patch_string,
    HEX_NOT_FOUND,
};

verus! {

/// One region of a vendor DA archive: its load address, its bytes, and the
/// length of the trailing signature inside them.
pub struct DAEntryRegion {
    pub addr: u32,
    pub data: Vec<u8>,
    pub sig_len: u32,
}

impl DAEntryRegion {
    /// The bytes hold at least the signature, and the region fits the 32-bit
    /// address space from its load address on.
    pub open spec fn wf(&self) -> bool {
        &&& self.data@.len() >= self.sig_len
        &&& self.addr as int + self.data@.len() <= 0xFFFFFFFF
    }

    pub fn new(addr: u32, data: Vec<u8>, sig_len: u32) -> (r: Result<DAEntryRegion, Error>)
        ensures
            r matches Ok(region) ==> region.wf() && region.addr == addr && region.data == data
                && region.sig_len == sig_len,
            r is Err ==> data@.len() < sig_len || addr as int + data@.len() > 0xFFFFFFFF,
    {
        if data.len() < sig_len as usize {
            return Err(Error::penumbra("DA region shorter than its signature"));
        }
        if data.len() > u32::MAX as usize || addr > u32::MAX - data.len() as u32 {
            return Err(Error::penumbra("DA region exceeds the address space"));
        }
        Ok(DAEntryRegion { addr, data, sig_len })
    }
}

/// The architecture a DA image's first instruction marks.
pub open spec fn spec_da2_arch(d: Seq<u8>) -> Arch {
    if spec_is_arm64(d) {
        Arch::Aarch64
    } else {
        Arch::Arm
    }
}

/// The first instruction marks AArch64 code.
pub open spec fn spec_is_arm64(d: Seq<u8>) -> bool {
    d.len() > 4 && d.subrange(0, 4) =~= seq![0xC6u8, 0x01u8, 0x00u8, 0x58u8]
}

/// True when the image starts with the AArch64 DA2 prologue instruction.
pub fn is_arm64(data: &[u8]) -> (r: bool)
    ensures
        r == spec_is_arm64(data@),
{
    let r = data.len() > 4 && data[0] == 0xC6 && data[1] == 0x01 && data[2] == 0x00 && data[3]
        == 0x58;
    proof {
        if data@.len() > 4 {
            assert(data@.subrange(0, 4) =~= seq![data@[0], data@[1], data@[2], data@[3]]);
        }
    }
    r
}

/// The architecture of a DA image.
pub fn arch_of(data: &[u8]) -> (r: Arch)
    ensures
        r == (if spec_is_arm64(data@) {
            Arch::Aarch64
        } else {
            Arch::Arm
        }),
{
    if is_arm64(data) {
        Arch::Aarch64
    } else {
        Arch::Arm
    }
}

/// Magic the v6 extension payload container starts with.
pub open spec fn v6_magic() -> Seq<u8> {
    seq![
        0x50u8,
        0x45u8,
        0x4Eu8,
        0x55u8,
        0x4Du8,
        0x42u8,
        0x52u8,
        0x41u8,
        0x56u8,
        0x36u8,
        0x50u8,
    ]
}

/// The container header is present: at least 32 bytes, starting with the
/// magic.
pub open spec fn v6_header_ok(d: Seq<u8>) -> bool {
    d.len() >= 32 && d.subrange(0, 11) =~= v6_magic()
}

/// Start of the architecture's slice inside the container; the recorded
/// offset skips a local 8-byte magic.
pub open spec fn v6_slice_start(d: Seq<u8>, is64: bool) -> int {
    spec_u32_at(d, if is64 {
        24
    } else {
        16
    }) + 8
}

/// Recorded length field of the architecture's slice, magic included.
pub open spec fn v6_raw_len(d: Seq<u8>, is64: bool) -> int {
    spec_u32_at(d, if is64 {
        28
    } else {
        20
    }) as int
}

/// The architecture's slice of the container.
pub open spec fn v6_slice(d: Seq<u8>, is64: bool) -> Seq<u8> {
    d.subrange(v6_slice_start(d, is64), v6_slice_start(d, is64) + (v6_raw_len(d, is64) - 8))
}

/// The container holds a usable slice for the architecture.
pub open spec fn v6_payload_ok(d: Seq<u8>, is64: bool) -> bool {
    &&& v6_header_ok(d)
    &&& v6_raw_len(d, is64) >= 8
    &&& v6_slice_start(d, is64) + (v6_raw_len(d, is64) - 8) <= d.len()
}

/// Extracts the architecture's slice of the v6 extension payload container.
/// Refuses any blob shorter than 32 bytes, any blob whose first 11 bytes are
/// not the magic, and any blob whose recorded slice does not fit.
pub fn get_v6_payload(data: &[u8], is_arm64: bool) -> (r: Result<Vec<u8>, Error>)
    ensures
        r is Ok <==> v6_payload_ok(data@, is_arm64),
        r matches Ok(v) ==> v@ == v6_slice(data@, is_arm64),
{
    if data.len() < 32 {
        return Err(Error::penumbra("Data too short to contain a valid v6 header"));
    }
    let magic: [u8; 11] = [0x50, 0x45, 0x4E, 0x55, 0x4D, 0x42, 0x52, 0x41, 0x56, 0x36, 0x50];
    let mut k: usize = 0;
    while k < 11
        invariant
            data@.len() >= 32,
            k <= 11,
            magic@ =~= v6_magic(),
            forall|m: int| 0 <= m < k ==> data@[m] == v6_magic()[m],
        decreases 11 - k,
    {
        if data[k] != magic[k] {
            proof {
                assert(data@.subrange(0, 11)[k as int] == data@[k as int]);
            }
            return Err(Error::penumbra("Invalid v6 payload magic"));
        }
        k += 1;
    }
    proof {
        assert(data@.subrange(0, 11) =~= v6_magic());
    }

    let off_field: usize = if is_arm64 {
        24
    } else {
        16
    };
    let len_field: usize = if is_arm64 {
        28
    } else {
        20
    };
    let raw_off = read_le32(data, off_field);
    let raw_len = read_le32(data, len_field);
    if raw_len < 8 {
        return Err(Error::penumbra("v6 payload slice is too short"));
    }
    let start_u64: u64 = raw_off as u64 + 8;
    let len_u64: u64 = raw_len as u64 - 8;
    if start_u64 + len_u64 > data.len() as u64 {
        return Err(Error::penumbra("v6 payload slice exceeds the container"));
    }
    let start = start_u64 as usize;
    let slice_len = len_u64 as usize;

    let dlen = data.len();
    let mut out: Vec<u8> = Vec::new();
    let mut i: usize = 0;
    while i < slice_len
        invariant
            dlen == data@.len(),
            start + slice_len <= dlen,
            start + slice_len <= data@.len(),
            i <= slice_len,
            out@ =~= data@.subrange(start as int, start + i),
        decreases slice_len - i,
    {
        out.push(data[start + i]);
        proof {
            assert(out@ =~= data@.subrange(start as int, start + i + 1));
        }
        i += 1;
    }
    Ok(out)
}

/// The SEJ base encoded by the AArch64 `MOV`/`MOVK` pair at `off`, masked to
/// its 4 KB page.
pub open spec fn sej_from_a64(d: Seq<u8>, off: int) -> u32 {
    let low = (spec_u32_at(d, off) >> 5) & 0xFFFF;
    let high = (spec_u32_at(d, off + 8) >> 5) & 0xFFFF;
    ((high << 16) | low) & 0xFFFFF000
}

/// The SEJ base encoded by the A32 `MOVW`/`MOVT` pair at `off`, masked to
/// its 4 KB page.
pub open spec fn sej_from_arm(d: Seq<u8>, off: int) -> u32 {
    let movw = spec_u32_at(d, off);
    let movt = spec_u32_at(d, off + 8);
    let low = (((movw >> 16) & 0xF) << 12) | (movw & 0xFFF);
    let high = (((movt >> 16) & 0xF) << 12) | (movt & 0xFFF);
    ((high << 16) | low) & 0xFFFFF000
}

/// Recovers the SEJ crypto block's base address from the DA image: the
/// immediate-load pair located by the architecture's anchor pattern, or the
/// conventional default when no anchor is present.
pub fn find_sej_base(data: &[u8]) -> (r: u32)
    ensures
        spec_is_arm64(data@) ==> {
            &&& forall|p: int|
                is_first_pat_match(data@, spec_pattern("0801XX52XX00805208XXXX72"@), p)
                    ==> r == sej_from_a64(data@, p)
            &&& no_pat_match(data@, "0801XX52XX00805208XXXX72"@) ==> {
                &&& forall|p: int|
                    is_first_pat_match(data@, spec_pattern("0901XX52XX031faa09XXXX72"@), p)
                        ==> r == sej_from_a64(data@, p)
                &&& no_pat_match(data@, "0901XX52XX031faa09XXXX72"@) ==> r == 0x1000A000
            }
        },
        !spec_is_arm64(data@) ==> {
            &&& forall|p: int|
                is_first_pat_match(data@, spec_pattern("0800XXE30210A0E3XXXX41E3"@), p)
                    ==> r == sej_from_arm(data@, p)
            &&& no_pat_match(data@, "0800XXE30210A0E3XXXX41E3"@) ==> r == 0x1000A000
        },
{
    let dlen = data.len();
    proof {
        lemma_pattern_len_24();
    }
    if is_arm64(data) {
        let off1 = find_pattern(data, "0801XX52XX00805208XXXX72", 0);
        if off1 != HEX_NOT_FOUND {
            proof {
                assert forall|p: int|
                    is_first_pat_match(
                        data@,
                        spec_pattern("0801XX52XX00805208XXXX72"@),
                        p,
                    ) implies p == off1 as int by {
                    assert(pat_matches_at(data@, spec_pattern("0801XX52XX00805208XXXX72"@), p));
                    assert(pat_matches_at(
                        data@,
                        spec_pattern("0801XX52XX00805208XXXX72"@),
                        off1 as int,
                    ));
                }
            }
            assert(off1 + 12 <= dlen);
            let mov = read_le32(data, off1);
            let movk = read_le32(data, off1 + 8);
            let low = (mov >> 5) & 0xFFFF;
            let high = (movk >> 5) & 0xFFFF;
            return ((high << 16) | low) & 0xFFFFF000;
        }
        let off2 = find_pattern(data, "0901XX52XX031faa09XXXX72", 0);
        if off2 != HEX_NOT_FOUND {
            proof {
                assert forall|p: int|
                    is_first_pat_match(
                        data@,
                        spec_pattern("0901XX52XX031faa09XXXX72"@),
                        p,
                    ) implies p == off2 as int by {
                    assert(pat_matches_at(data@, spec_pattern("0901XX52XX031faa09XXXX72"@), p));
                    assert(pat_matches_at(
                        data@,
                        spec_pattern("0901XX52XX031faa09XXXX72"@),
                        off2 as int,
                    ));
                }
            }
            assert(off2 + 12 <= dlen);
            let mov = read_le32(data, off2);
            let movk = read_le32(data, off2 + 8);
            let low = (mov >> 5) & 0xFFFF;
            let high = (movk >> 5) & 0xFFFF;
            return ((high << 16) | low) & 0xFFFFF000;
        }
        0x1000A000
    } else {
        let off = find_pattern(data, "0800XXE30210A0E3XXXX41E3", 0);
        if off != HEX_NOT_FOUND {
            proof {
                assert forall|p: int|
                    is_first_pat_match(
                        data@,
                        spec_pattern("0800XXE30210A0E3XXXX41E3"@),
                        p,
                    ) implies p == off as int by {
                    assert(pat_matches_at(data@, spec_pattern("0800XXE30210A0E3XXXX41E3"@), p));
                    assert(pat_matches_at(
                        data@,
                        spec_pattern("0800XXE30210A0E3XXXX41E3"@),
                        off as int,
                    ));
                }
            }
            assert(off + 12 <= dlen);
            let movw = read_le32(data, off);
            let movt = read_le32(data, off + 8);
            let low = (((movw >> 16) & 0xF) << 12) | (movw & 0xFFF);
            let high = (((movt >> 16) & 0xF) << 12) | (movt & 0xFFF);
            return ((high << 16) | low) & 0xFFFFF000;
        }
        0x1000A000
    }
}

/// The three SEJ anchor patterns each parse, to twelve bytes.
proof fn lemma_pattern_len_24()
    ensures
        crate::patching::pattern_parses("0801XX52XX00805208XXXX72"@),
        crate::patching::pattern_parses("0901XX52XX031faa09XXXX72"@),
        crate::patching::pattern_parses("0800XXE30210A0E3XXXX41E3"@),
        spec_pattern("0801XX52XX00805208XXXX72"@).len() == 12,
        spec_pattern("0901XX52XX031faa09XXXX72"@).len() == 12,
        spec_pattern("0800XXE30210A0E3XXXX41E3"@).len() == 12,
{
    reveal_strlit("0801XX52XX00805208XXXX72");
    reveal_strlit("0901XX52XX031faa09XXXX72");
    reveal_strlit("0800XXE30210A0E3XXXX41E3");
    lemma_anchor_len("0801XX52XX00805208XXXX72"@);
    lemma_anchor_len("0901XX52XX031faa09XXXX72"@);
    lemma_anchor_len("0800XXE30210A0E3XXXX41E3"@);
}

/// A 24-character anchor of valid digit pairs, with no separator
/// characters, parses to 12 bytes.
proof fn lemma_anchor_len(s: Seq<char>)
    requires
        s.len() == 24,
        forall|i: int| 0 <= i < s.len() ==> !crate::patching::spec_is_pat_sep(#[trigger] s[i]),
        forall|i: int|
            0 <= i < s.len() / 2 ==> crate::patching::pair_ok(#[trigger] s[2 * i], s[2 * i + 1]),
    ensures
        crate::patching::pattern_parses(s),
        spec_pattern(s).len() == 12,
{
    crate::patching::lemma_strip_seps_id(s);
    crate::patching::lemma_pat_of_len(s);
}

/// The marker string `DA.SLA\0ENABLED\0` as a hex pattern: its presence
/// means the DA enforces SLA.
proof fn lemma_sla_marker()
    ensures
        crate::patching::pattern_parses("44412E534C4100454E41424C454400"@),
        spec_pattern("44412E534C4100454E41424C454400"@).len() == 15,
{
    reveal_strlit("44412E534C4100454E41424C454400");
    crate::patching::lemma_literal_pattern("44412E534C4100454E41424C454400"@);
}

/// The marker string `CMD:BOOT-TO\0` as a hex pattern: its presence means
/// the DA already accepts boot-to payloads.
proof fn lemma_boot_to_marker()
    ensures
        crate::patching::pattern_parses("434D443A424F4F542D544F00"@),
        spec_pattern("434D443A424F4F542D544F00"@).len() == 12,
{
    reveal_strlit("434D443A424F4F542D544F00");
    crate::patching::lemma_literal_pattern("434D443A424F4F542D544F00"@);
}

/// The relocation sentinel `11111111` as a hex pattern.
proof fn lemma_sentinel_pattern()
    ensures
        crate::patching::pattern_parses("11111111"@),
        spec_pattern("11111111"@).len() == 4,
{
    reveal_strlit("11111111");
    crate::patching::lemma_literal_pattern("11111111"@);
}

/// The immediate-return stub of the architecture.
pub open spec fn ret0_stub(is64: bool) -> Seq<u8> {
    if is64 {
        arm64::a64_ret0_stub()
    } else {
        arm::arm_ret0_stub()
    }
}

/// Overwrites the prologue of the function that prints `sec_get_seccfg`
/// diagnostics with a stub that stores "unlocked" through its first argument
/// and returns success. Succeeds exactly when the function is located and
/// the stub fits; `Ok(false)`, with the region unchanged, exactly when the
/// function cannot be located in the analyzer's image.
pub fn patch_lock_state(da: &mut DAEntryRegion, analyzer: &CodeAnalyzer, is_arm64: bool) -> (r:
    Result<bool, Error>)
    requires
        analyzer.wf(),
    ensures
        final(da).addr == old(da).addr && final(da).sig_len == old(da).sig_len,
        r matches Ok(true) ==> exists|f: int|
            #[trigger] found_func_for(
                analyzer.data@,
                analyzer.arch,
                analyzer.base as int,
                "[%s] sec_get_seccfg".spec_bytes(),
                f,
            ) && f + ret0_stub(is_arm64).len() <= old(da).data@.len() && final(da).data@
                == apply_patch(old(da).data@, f, exact_pat(ret0_stub(is_arm64))),
        r matches Ok(false) <==> no_func_for_string(
            analyzer.data@,
            analyzer.arch,
            analyzer.base as int,
            "[%s] sec_get_seccfg".spec_bytes(),
        ),
        r matches Ok(false) ==> final(da).data@ == old(da).data@,
        (exists|f: int|
            #[trigger] found_func_for(
                analyzer.data@,
                analyzer.arch,
                analyzer.base as int,
                "[%s] sec_get_seccfg".spec_bytes(),
                f,
            ) && f + ret0_stub(is_arm64).len() <= old(da).data@.len()) ==> r matches Ok(true),
        r is Err ==> final(da).data@ == old(da).data@ && (exists|f: int|
            #[trigger] found_func_for(
                analyzer.data@,
                analyzer.arch,
                analyzer.base as int,
                "[%s] sec_get_seccfg".spec_bytes(),
                f,
            ) && f + ret0_stub(is_arm64).len() > old(da).data@.len()),
        r is Ok ==> lock_state_ok_rel(
            analyzer.data@,
            analyzer.arch,
            analyzer.base as int,
            is_arm64,
            old(da).data@,
            final(da).data@,
        ),
{
    let ghost ad = analyzer.data@;
    let ghost arch = analyzer.arch;
    let ghost base = analyzer.base as int;
    let ghost sb = "[%s] sec_get_seccfg".spec_bytes();
    proof {
        reveal_strlit("[%s] sec_get_seccfg");
        assert("[%s] sec_get_seccfg"@.len() == 19);
        crate::xml::lemma_encode_nonempty("[%s] sec_get_seccfg"@);
    }

    let mut stub: Vec<u8> = Vec::new();
    if is_arm64 {
        stub.push(0x1F);
        stub.push(0x00);
        stub.push(0x00);
        stub.push(0xB9);
        stub.push(0x00);
        stub.push(0x00);
        stub.push(0x80);
        stub.push(0xD2);
        stub.push(0xC0);
        stub.push(0x03);
        stub.push(0x5F);
        stub.push(0xD6);
        proof {
            assert(stub@ =~= ret0_stub(is_arm64));
        }
    } else {
        stub.push(0x00);
        stub.push(0x20);
        stub.push(0xA0);
        stub.push(0xE3);
        stub.push(0x04);
        stub.push(0x00);
        stub.push(0x80);
        stub.push(0xE8);
        stub.push(0x00);
        stub.push(0x00);
        stub.push(0xA0);
        stub.push(0xE3);
        stub.push(0x1E);
        stub.push(0xFF);
        stub.push(0x2F);
        stub.push(0xE1);
        proof {
            assert(stub@ =~= ret0_stub(is_arm64));
        }
    }

    let off = match analyzer.find_function_from_string("[%s] sec_get_seccfg") {
        Some(o) => o,
        None => {
            return Ok(false);
        },
    };

    let hex = bytes_to_hex(stub.as_slice());
    proof {
        lemma_hex_pattern(stub@);
    }
    match patch(&mut da.data, off, hex.as_str()) {
        Ok(()) => Ok(true),
        Err(e) => {
            proof {
                assert forall|f: int|
                    #[trigger] found_func_for(ad, arch, base, sb, f) implies f + ret0_stub(
                    is_arm64,
                ).len() > old(da).data@.len() by {
                    crate::analysis::lemma_found_func_unique(ad, arch, base, sb, f, off as int);
                }
            }
            Err(e)
        },
    }
}

/// The eight-byte immediate-return words of the architecture: `mov r0/x0,
/// #0` then the return instruction.
pub open spec fn ret0_words(is64: bool) -> Seq<u8> {
    if is64 {
        u32_le(0xD2800000) + u32_le(0xD65F03C0)
    } else {
        u32_le(0xE3A00000) + u32_le(0xE12FFF1E)
    }
}

/// The data with the immediate-return words written at `off`, unchanged
/// when they do not fit.
pub open spec fn ret_stub_at(d: Seq<u8>, off: int, is64: bool) -> Seq<u8> {
    if 0 <= off && off + 8 <= d.len() {
        d.subrange(0, off) + ret0_words(is64) + d.subrange(off + 8, d.len() as int)
    } else {
        d
    }
}

/// The data after one policy call was neutered: when the `BL` at `b`
/// branches inside the analyzer's image, its target gets the return stub.
pub open spec fn policy_step(
    d: Seq<u8>,
    ad: Seq<u8>,
    arch: Arch,
    base: int,
    b: int,
    is64: bool,
) -> Seq<u8> {
    if crate::analysis::bl_target_in_image(ad, arch, b, base) {
        ret_stub_at(d, crate::analysis::spec_bl_target(ad, arch, b, base) - base, is64)
    } else {
        d
    }
}

/// The four `BL` calls of the security-policy function, in order: policy
/// index, hash binding, verify, download.
pub open spec fn sec_policy_chain(
    ad: Seq<u8>,
    arch: Arch,
    base: int,
    f: int,
    b1: int,
    b2: int,
    b3: int,
    b4: int,
) -> bool {
    &&& found_func_for(ad, arch, base, "==========security policy==========".spec_bytes(), f)
    &&& crate::analysis::is_first_bl_from(ad, arch, f, b1)
    &&& crate::analysis::is_first_bl_from(ad, arch, b1 + 4, b2)
    &&& crate::analysis::is_first_bl_from(ad, arch, b2 + 4, b3)
    &&& crate::analysis::is_first_bl_from(ad, arch, b3 + 4, b4)
}

/// A policy call whose stub cannot be placed: its `BL` branches outside the
/// image, or the stub would not fit at the target.
pub open spec fn policy_step_blocked(
    d: Seq<u8>,
    ad: Seq<u8>,
    arch: Arch,
    base: int,
    b: int,
) -> bool {
    ||| !crate::analysis::bl_target_in_image(ad, arch, b, base)
    ||| crate::analysis::spec_bl_target(ad, arch, b, base) - base + 8 > d.len()
}

/// Neutering one policy call: resolves the `BL` target in the analyzer's
/// image and writes the return stub over it; reports whether the stub was
/// placed.
fn apply_policy_stub(data: &mut Vec<u8>, analyzer: &CodeAnalyzer, b: usize, is64: bool) -> (r:
    bool)
    requires
        analyzer.wf(),
    ensures
        final(data)@ == policy_step(
            old(data)@,
            analyzer.data@,
            analyzer.arch,
            analyzer.base as int,
            b as int,
            is64,
        ),
        r <==> !policy_step_blocked(
            old(data)@,
            analyzer.data@,
            analyzer.arch,
            analyzer.base as int,
            b as int,
        ),
{
    let off = match analyzer.get_bl_target_offset(b) {
        Some(o) => o,
        None => {
            return false;
        },
    };
    if is64 {
        match arm64::force_return(data, off, 0) {
            Ok(()) => {
                proof {
                    assert(data@ =~= policy_step(
                        old(data)@,
                        analyzer.data@,
                        analyzer.arch,
                        analyzer.base as int,
                        b as int,
                        is64,
                    ));
                }
                true
            },
            Err(_) => false,
        }
    } else {
        match arm::force_return(data, off, 0, false) {
            Ok(()) => {
                proof {
                    assert(data@ =~= policy_step(
                        old(data)@,
                        analyzer.data@,
                        analyzer.arch,
                        analyzer.base as int,
                        b as int,
                        is64,
                    ));
                }
                true
            },
            Err(_) => false,
        }
    }
}

/// Finds the security-policy function in the analyzer's image, walks its
/// first four `BL` calls (policy index, hash binding, verify, download),
/// and overwrites the targets of the last three with immediate-return
/// stubs. Never errs; reports whether any target was patched, and patches
/// whenever the chain is present and some target can take the stub.
#[verifier::rlimit(100)]
pub fn patch_sec_policy(da: &mut DAEntryRegion, analyzer: &CodeAnalyzer, is_arm64: bool) -> (r:
    Result<bool, Error>)
    requires
        analyzer.wf(),
    ensures
        final(da).addr == old(da).addr && final(da).sig_len == old(da).sig_len,
        final(da).data@.len() == old(da).data@.len(),
        r is Ok,
        r matches Ok(true) ==> exists|f: int, b1: int, b2: int, b3: int, b4: int|
            {
                &&& #[trigger] sec_policy_chain(
                    analyzer.data@,
                    analyzer.arch,
                    analyzer.base as int,
                    f,
                    b1,
                    b2,
                    b3,
                    b4,
                )
                &&& !(policy_step_blocked(old(da).data@, analyzer.data@, analyzer.arch, analyzer.base as int, b2)
                    && policy_step_blocked(old(da).data@, analyzer.data@, analyzer.arch, analyzer.base as int, b3)
                    && policy_step_blocked(old(da).data@, analyzer.data@, analyzer.arch, analyzer.base as int, b4))
                &&& final(da).data@ == policy_step(
                    policy_step(
                        policy_step(
                            old(da).data@,
                            analyzer.data@,
                            analyzer.arch,
                            analyzer.base as int,
                            b2,
                            is_arm64,
                        ),
                        analyzer.data@,
                        analyzer.arch,
                        analyzer.base as int,
                        b3,
                        is_arm64,
                    ),
                    analyzer.data@,
                    analyzer.arch,
                    analyzer.base as int,
                    b4,
                    is_arm64,
                )
            },
        (exists|f: int, b1: int, b2: int, b3: int, b4: int|
            {
                &&& #[trigger] sec_policy_chain(
                    analyzer.data@,
                    analyzer.arch,
                    analyzer.base as int,
                    f,
                    b1,
                    b2,
                    b3,
                    b4,
                )
                &&& !(policy_step_blocked(old(da).data@, analyzer.data@, analyzer.arch, analyzer.base as int, b2)
                    && policy_step_blocked(old(da).data@, analyzer.data@, analyzer.arch, analyzer.base as int, b3)
                    && policy_step_blocked(old(da).data@, analyzer.data@, analyzer.arch, analyzer.base as int, b4))
            }) ==> r matches Ok(true),
        r matches Ok(false) ==> final(da).data@ == old(da).data@,
        r matches Ok(false) ==> {
            let ad = analyzer.data@;
            let arch = analyzer.arch;
            let base = analyzer.base as int;
            let sb = "==========security policy==========".spec_bytes();
            ||| no_func_for_string(ad, arch, base, sb)
            ||| exists|f: int|
                #[trigger] found_func_for(ad, arch, base, sb, f)
                    && crate::analysis::no_bl_from(ad, arch, f)
            ||| exists|f: int, b1: int, b2: int, b3: int, b4: int|
                {
                    &&& #[trigger] sec_policy_chain(ad, arch, base, f, b1, b2, b3, b4)
                    &&& policy_step_blocked(old(da).data@, ad, arch, base, b2)
                    &&& policy_step_blocked(old(da).data@, ad, arch, base, b3)
                    &&& policy_step_blocked(old(da).data@, ad, arch, base, b4)
                }
            ||| exists|f: int, b1: int|
                {
                    &&& #[trigger] found_func_for(ad, arch, base, sb, f)
                    &&& #[trigger] crate::analysis::is_first_bl_from(ad, arch, f, b1)
                    &&& (crate::analysis::no_bl_from(ad, arch, b1 + 4) || (exists|b2: int|
                        {
                            &&& #[trigger] crate::analysis::is_first_bl_from(ad, arch, b1 + 4, b2)
                            &&& (crate::analysis::no_bl_from(ad, arch, b2 + 4) || (exists|b3: int|
                                #[trigger] crate::analysis::is_first_bl_from(ad, arch, b2 + 4, b3)
                                    && crate::analysis::no_bl_from(ad, arch, b3 + 4)))
                        }))
                }
        },
        r is Ok ==> sec_policy_ok_rel(
            analyzer.data@,
            analyzer.arch,
            analyzer.base as int,
            is_arm64,
            old(da).data@,
            final(da).data@,
        ),
{
    let ghost ad = analyzer.data@;
    let ghost arch = analyzer.arch;
    let ghost base = analyzer.base as int;
    let ghost sb = "==========security policy==========".spec_bytes();
    proof {
        reveal_strlit("==========security policy==========");
        assert("==========security policy=========="@.len() == 35);
        crate::xml::lemma_encode_nonempty("==========security policy=========="@);
    }
    let dlen = analyzer.data.len();

    let func = match analyzer.find_function_from_string("==========security policy==========") {
        Some(f) => f,
        None => {
            return Ok(false);
        },
    };

    let policy_idx_bl = match analyzer.get_next_bl_from_off(func) {
        Some(b) => b,
        None => {
            proof {
                assert forall|f: int, b1: int, b2: int, b3: int, b4: int|
                    !#[trigger] sec_policy_chain(ad, arch, base, f, b1, b2, b3, b4) by {
                    if sec_policy_chain(ad, arch, base, f, b1, b2, b3, b4) {
                        crate::analysis::lemma_found_func_unique(ad, arch, base, sb, f, func as int);
                        assert(crate::analysis::is_bl_at(ad, arch, b1));
                        assert(false);
                    }
                }
            }
            return Ok(false);
        },
    };
    let hash_binding_bl = match analyzer.get_next_bl_from_off(policy_idx_bl + 4) {
        Some(b) => b,
        None => {
            proof {
                assert forall|f: int, b1: int, b2: int, b3: int, b4: int|
                    !#[trigger] sec_policy_chain(ad, arch, base, f, b1, b2, b3, b4) by {
                    if sec_policy_chain(ad, arch, base, f, b1, b2, b3, b4) {
                        crate::analysis::lemma_found_func_unique(ad, arch, base, sb, f, func as int);
                        crate::analysis::lemma_first_bl_unique(ad, arch, f, b1, policy_idx_bl as int);
                        assert(crate::analysis::is_bl_at(ad, arch, b2));
                        assert(false);
                    }
                }
            }
            proof {
                assert(found_func_for(ad, arch, base, sb, func as int)
                    && crate::analysis::is_first_bl_from(ad, arch, func as int, policy_idx_bl as int));
            }
            return Ok(false);
        },
    };
    let verify_bl = match analyzer.get_next_bl_from_off(hash_binding_bl + 4) {
        Some(b) => b,
        None => {
            proof {
                assert forall|f: int, b1: int, b2: int, b3: int, b4: int|
                    !#[trigger] sec_policy_chain(ad, arch, base, f, b1, b2, b3, b4) by {
                    if sec_policy_chain(ad, arch, base, f, b1, b2, b3, b4) {
                        crate::analysis::lemma_found_func_unique(ad, arch, base, sb, f, func as int);
                        crate::analysis::lemma_first_bl_unique(ad, arch, f, b1, policy_idx_bl as int);
                        crate::analysis::lemma_first_bl_unique(ad, arch, b1 + 4, b2, hash_binding_bl as int);
                        assert(crate::analysis::is_bl_at(ad, arch, b3));
                        assert(false);
                    }
                }
            }
            proof {
                assert(crate::analysis::is_first_bl_from(
                    ad,
                    arch,
                    policy_idx_bl + 4,
                    hash_binding_bl as int,
                ));
                assert(found_func_for(ad, arch, base, sb, func as int)
                    && crate::analysis::is_first_bl_from(ad, arch, func as int, policy_idx_bl as int));
            }
            return Ok(false);
        },
    };
    let download_bl = match analyzer.get_next_bl_from_off(verify_bl + 4) {
        Some(b) => b,
        None => {
            proof {
                assert forall|f: int, b1: int, b2: int, b3: int, b4: int|
                    !#[trigger] sec_policy_chain(ad, arch, base, f, b1, b2, b3, b4) by {
                    if sec_policy_chain(ad, arch, base, f, b1, b2, b3, b4) {
                        crate::analysis::lemma_found_func_unique(ad, arch, base, sb, f, func as int);
                        crate::analysis::lemma_first_bl_unique(ad, arch, f, b1, policy_idx_bl as int);
                        crate::analysis::lemma_first_bl_unique(ad, arch, b1 + 4, b2, hash_binding_bl as int);
                        crate::analysis::lemma_first_bl_unique(ad, arch, b2 + 4, b3, verify_bl as int);
                        assert(crate::analysis::is_bl_at(ad, arch, b4));
                        assert(false);
                    }
                }
            }
            proof {
                assert(crate::analysis::is_first_bl_from(
                    ad,
                    arch,
                    hash_binding_bl + 4,
                    verify_bl as int,
                ));
                assert(crate::analysis::is_first_bl_from(
                    ad,
                    arch,
                    policy_idx_bl + 4,
                    hash_binding_bl as int,
                ));
                assert(found_func_for(ad, arch, base, sb, func as int)
                    && crate::analysis::is_first_bl_from(ad, arch, func as int, policy_idx_bl as int));
            }
            return Ok(false);
        },
    };

    let mut patched_any = false;
    let d0 = Ghost(da.data@);
    let targets: [usize; 3] = [hash_binding_bl, verify_bl, download_bl];
    let ghost tseq = seq![hash_binding_bl as int, verify_bl as int, download_bl as int];
    let mut t: usize = 0;
    while t < 3
        invariant
            analyzer.wf(),
            ad == analyzer.data@,
            arch == analyzer.arch,
            base == analyzer.base as int,
            targets@ =~= seq![hash_binding_bl, verify_bl, download_bl],
            tseq =~= seq![hash_binding_bl as int, verify_bl as int, download_bl as int],
            da.addr == old(da).addr && da.sig_len == old(da).sig_len,
            da.data@.len() == d0@.len(),
            t <= 3,
            sec_policy_chain(
                ad,
                arch,
                base,
                func as int,
                policy_idx_bl as int,
                hash_binding_bl as int,
                verify_bl as int,
                download_bl as int,
            ),
            d0@ == old(da).data@,
            da.data@ == spec_policy_steps(d0@, ad, arch, base, tseq, t as int, is_arm64),
            patched_any ==> (exists|k: int|
                0 <= k < t && !policy_step_blocked(d0@, ad, arch, base, #[trigger] tseq[k])),
            !patched_any ==> (forall|k: int|
                0 <= k < t ==> policy_step_blocked(d0@, ad, arch, base, tseq[k])),
            !patched_any ==> da.data@ == d0@,
        decreases 3 - t,
    {
        let ghost pre = da.data@;
        let ok = apply_policy_stub(&mut da.data, analyzer, targets[t], is_arm64);
        proof {
            assert(policy_step_blocked(pre, ad, arch, base, tseq[t as int])
                == policy_step_blocked(d0@, ad, arch, base, tseq[t as int]));
        }
        if ok {
            patched_any = true;
        }
        proof {
            assert(da.data@ =~= spec_policy_steps(d0@, ad, arch, base, tseq, t + 1, is_arm64));
        }
        t += 1;
    }

    proof {
        assert forall|f: int, b1: int, b2: int, b3: int, b4: int|
            #[trigger] sec_policy_chain(ad, arch, base, f, b1, b2, b3, b4) implies f == func && b1
            == policy_idx_bl && b2 == hash_binding_bl && b3 == verify_bl && b4
            == download_bl by {
            crate::analysis::lemma_found_func_unique(ad, arch, base, sb, f, func as int);
            crate::analysis::lemma_first_bl_unique(ad, arch, f, b1, policy_idx_bl as int);
            crate::analysis::lemma_first_bl_unique(ad, arch, b1 + 4, b2, hash_binding_bl as int);
            crate::analysis::lemma_first_bl_unique(ad, arch, b2 + 4, b3, verify_bl as int);
            crate::analysis::lemma_first_bl_unique(ad, arch, b3 + 4, b4, download_bl as int);
        }
        if patched_any {
            reveal_with_fuel(spec_policy_steps, 4);
            assert(spec_policy_steps(d0@, ad, arch, base, tseq, 3, is_arm64) == policy_step(
                policy_step(
                    policy_step(d0@, ad, arch, base, tseq[0], is_arm64),
                    ad,
                    arch,
                    base,
                    tseq[1],
                    is_arm64,
                ),
                ad,
                arch,
                base,
                tseq[2],
                is_arm64,
            ));
        }
    }
    Ok(patched_any)
}

/// The data after the first `k` policy calls were neutered.
pub open spec fn spec_policy_steps(
    d: Seq<u8>,
    ad: Seq<u8>,
    arch: Arch,
    base: int,
    targets: Seq<int>,
    k: int,
    is64: bool,
) -> Seq<u8>
    decreases k,
{
    if k <= 0 {
        d
    } else {
        policy_step(
            spec_policy_steps(d, ad, arch, base, targets, k - 1, is64),
            ad,
            arch,
            base,
            targets[k - 1],
            is64,
        )
    }
}

/// The displacement from `from` to `to` fits the architecture's `BL`
/// immediate and alignment.
pub open spec fn bl_encodable(is64: bool, from: int, to: int) -> bool {
    if is64 {
        (to - from) % 4 == 0 && -0x2000000 <= (to - from) / 4 < 0x2000000
    } else {
        (to - from - 8) % 4 == 0 && -0x800000 <= (to - from - 8) / 4 < 0x800000
    }
}

/// When the DA carries the SLA marker, retargets the `BL` that follows the
/// xref of the firmware-info command so that it calls the command-
/// registration function again, which disables DA-SLA enforcement. A DA
/// without the marker needs no patch; with the marker, the patch succeeds
/// exactly when the three lookups succeed, the addresses fit, the `BL`
/// encodes and the word fits the region.
#[verifier::rlimit(60)]
pub fn patch_da_sla(da: &mut DAEntryRegion, analyzer: &CodeAnalyzer, is_arm64: bool) -> (r: Result<
    bool,
    Error,
>)
    requires
        analyzer.wf(),
        old(da).wf(),
        analyzer.base == old(da).addr,
    ensures
        final(da).addr == old(da).addr && final(da).sig_len == old(da).sig_len,
        no_pat_match(old(da).data@, "44412E534C4100454E41424C454400"@) ==> (r matches Ok(true)
            && final(da).data@ == old(da).data@),
        r matches Ok(true) ==> (final(da).data@ == old(da).data@ && no_pat_match(
            old(da).data@,
            "44412E534C4100454E41424C454400"@,
        )) || (exists|f: int, c: int, b: int|
            {
                &&& #[trigger] found_func_for(
                    analyzer.data@,
                    analyzer.arch,
                    analyzer.base as int,
                    "CMD:REBOOT".spec_bytes(),
                    f,
                )
                &&& #[trigger] xref_of_string(
                    analyzer.data@,
                    analyzer.arch,
                    analyzer.base as int,
                    "CMD:SECURITY-GET-DEV-FW-INFO".spec_bytes(),
                    c,
                )
                &&& #[trigger] is_first_bl_from(analyzer.data@, analyzer.arch, c, b)
                &&& b + 4 <= old(da).data@.len()
                &&& final(da).data@ == apply_patch(
                    old(da).data@,
                    b,
                    exact_pat(
                        u32_le(
                            if is_arm64 {
                                crate::arm64::spec_bl(
                                    b + old(da).addr as int,
                                    f + old(da).addr as int,
                                )
                            } else {
                                crate::arm::spec_bl_arm(
                                    b + old(da).addr as int,
                                    f + old(da).addr as int,
                                )
                            },
                        ),
                    ),
                )
            }),
        (!no_pat_match(old(da).data@, "44412E534C4100454E41424C454400"@) && exists|
            f: int,
            c: int,
            b: int,
        |
            {
                &&& #[trigger] found_func_for(
                    analyzer.data@,
                    analyzer.arch,
                    analyzer.base as int,
                    "CMD:REBOOT".spec_bytes(),
                    f,
                )
                &&& #[trigger] xref_of_string(
                    analyzer.data@,
                    analyzer.arch,
                    analyzer.base as int,
                    "CMD:SECURITY-GET-DEV-FW-INFO".spec_bytes(),
                    c,
                )
                &&& #[trigger] is_first_bl_from(analyzer.data@, analyzer.arch, c, b)
                &&& f + old(da).addr <= u32::MAX
                &&& b + old(da).addr <= u32::MAX
                &&& bl_encodable(is_arm64, b + old(da).addr as int, f + old(da).addr as int)
                &&& b + 4 <= old(da).data@.len()
            }) ==> r matches Ok(true),
        r matches Ok(false) ==> final(da).data@ == old(da).data@,
        r is Err ==> final(da).data@ == old(da).data@ && (exists|f: int, c: int, b: int|
            {
                &&& #[trigger] found_func_for(
                    analyzer.data@,
                    analyzer.arch,
                    analyzer.base as int,
                    "CMD:REBOOT".spec_bytes(),
                    f,
                )
                &&& #[trigger] xref_of_string(
                    analyzer.data@,
                    analyzer.arch,
                    analyzer.base as int,
                    "CMD:SECURITY-GET-DEV-FW-INFO".spec_bytes(),
                    c,
                )
                &&& #[trigger] is_first_bl_from(analyzer.data@, analyzer.arch, c, b)
                &&& (!bl_encodable(is_arm64, b + old(da).addr as int, f + old(da).addr as int)
                    || b + 4 > old(da).data@.len())
            }),
        r is Ok ==> da_sla_ok_rel(
            analyzer.data@,
            analyzer.arch,
            analyzer.base as int,
            old(da).addr as int,
            is_arm64,
            old(da).data@,
            final(da).data@,
        ),
{
    let ghost ad = analyzer.data@;
    let ghost arch = analyzer.arch;
    let ghost base = analyzer.base as int;
    let ghost sbr = "CMD:REBOOT".spec_bytes();
    let ghost sbc = "CMD:SECURITY-GET-DEV-FW-INFO".spec_bytes();
    proof {
        lemma_sla_marker();
        reveal_strlit("CMD:REBOOT");
        assert("CMD:REBOOT"@.len() == 10);
        crate::xml::lemma_encode_nonempty("CMD:REBOOT"@);
        reveal_strlit("CMD:SECURITY-GET-DEV-FW-INFO");
        assert("CMD:SECURITY-GET-DEV-FW-INFO"@.len() == 28);
        crate::xml::lemma_encode_nonempty("CMD:SECURITY-GET-DEV-FW-INFO"@);
    }
    let sla_str_offset = find_pattern(da.data.as_slice(), "44412E534C4100454E41424C454400", 0);
    if sla_str_offset == HEX_NOT_FOUND {
        return Ok(true);
    }

    let register_all_cmds_off = match analyzer.find_function_from_string("CMD:REBOOT") {
        Some(f) => f,
        None => {
            return Ok(false);
        },
    };

    let cmd_offset = match analyzer.find_string_xref("CMD:SECURITY-GET-DEV-FW-INFO") {
        Some(c) => c,
        None => {
            proof {
                assert forall|f: int, c: int, b: int|
                    !(#[trigger] found_func_for(ad, arch, base, sbr, f)
                        && #[trigger] xref_of_string(ad, arch, base, sbc, c)
                        && #[trigger] is_first_bl_from(ad, arch, c, b)) by {
                    if xref_of_string(ad, arch, base, sbc, c) {
                        let p = choose|p: int|
                            #[trigger] crate::patching::is_first_bytes_match(ad, sbc, p)
                                && crate::analysis::is_first_xref_to(ad, arch, base, base + p, c);
                        assert(crate::analysis::no_stepped_xref_to(ad, arch, base, base + p));
                        assert(!crate::analysis::xref_at(ad, arch, c, base, base + p));
                    }
                }
            }
            return Ok(false);
        },
    };

    let bl_to_patch_off = match analyzer.get_next_bl_from_off(cmd_offset) {
        Some(b) => b,
        None => {
            proof {
                assert forall|f: int, c: int, b: int|
                    !(#[trigger] found_func_for(ad, arch, base, sbr, f)
                        && #[trigger] xref_of_string(ad, arch, base, sbc, c)
                        && #[trigger] is_first_bl_from(ad, arch, c, b)) by {
                    if xref_of_string(ad, arch, base, sbc, c) && is_first_bl_from(ad, arch, c, b) {
                        crate::analysis::lemma_xref_of_string_unique(
                            ad,
                            arch,
                            base,
                            sbc,
                            c,
                            cmd_offset as int,
                        );
                        assert(crate::analysis::is_bl_at(ad, arch, b));
                    }
                }
            }
            return Ok(false);
        },
    };

    if bl_to_patch_off > u32::MAX as usize - da.addr as usize || register_all_cmds_off
        > u32::MAX as usize - da.addr as usize {
        proof {
            lemma_sla_unique(
                ad,
                arch,
                base,
                register_all_cmds_off as int,
                cmd_offset as int,
                bl_to_patch_off as int,
            );
        }
        return Ok(false);
    }

    let from_va = bl_to_patch_off as u32 + da.addr;
    let to_va = register_all_cmds_off as u32 + da.addr;
    let bl_patch = if is_arm64 {
        match crate::arm64::encode_bl(from_va, to_va) {
            Ok(w) => w,
            Err(e) => {
                proof {
                    lemma_sla_unique(
                        ad,
                        arch,
                        base,
                        register_all_cmds_off as int,
                        cmd_offset as int,
                        bl_to_patch_off as int,
                    );
                }
                return Err(e);
            },
        }
    } else {
        match crate::arm::encode_bl_arm(from_va, to_va) {
            Ok(w) => w,
            Err(e) => {
                proof {
                    lemma_sla_unique(
                        ad,
                        arch,
                        base,
                        register_all_cmds_off as int,
                        cmd_offset as int,
                        bl_to_patch_off as int,
                    );
                }
                return Err(e);
            },
        }
    };

    let bytes = u32_le_bytes(bl_patch);
    let hex = bytes_to_hex(bytes.as_slice());
    proof {
        lemma_hex_pattern(u32_le(bl_patch));
    }
    match patch(&mut da.data, bl_to_patch_off, hex.as_str()) {
        Ok(()) => Ok(true),
        Err(e) => {
            proof {
                lemma_sla_unique(
                    ad,
                    arch,
                    base,
                    register_all_cmds_off as int,
                    cmd_offset as int,
                    bl_to_patch_off as int,
                );
            }
            Err(e)
        },
    }
}

/// The three DA-SLA anchors are unique: any chain the contract quantifies
/// over is the one the body located.
proof fn lemma_sla_unique(ad: Seq<u8>, arch: Arch, base: int, f0: int, c0: int, b0: int)
    requires
        found_func_for(ad, arch, base, "CMD:REBOOT".spec_bytes(), f0),
        xref_of_string(ad, arch, base, "CMD:SECURITY-GET-DEV-FW-INFO".spec_bytes(), c0),
        is_first_bl_from(ad, arch, c0, b0),
    ensures
        forall|f: int, c: int, b: int|
            (#[trigger] found_func_for(ad, arch, base, "CMD:REBOOT".spec_bytes(), f)
                && #[trigger] xref_of_string(
                ad,
                arch,
                base,
                "CMD:SECURITY-GET-DEV-FW-INFO".spec_bytes(),
                c,
            ) && #[trigger] is_first_bl_from(ad, arch, c, b)) ==> f == f0 && c == c0 && b == b0,
{
    assert forall|f: int, c: int, b: int|
        (#[trigger] found_func_for(ad, arch, base, "CMD:REBOOT".spec_bytes(), f)
            && #[trigger] xref_of_string(
            ad,
            arch,
            base,
            "CMD:SECURITY-GET-DEV-FW-INFO".spec_bytes(),
            c,
        ) && #[trigger] is_first_bl_from(ad, arch, c, b)) implies f == f0 && c == c0 && b
        == b0 by {
        crate::analysis::lemma_found_func_unique(
            ad,
            arch,
            base,
            "CMD:REBOOT".spec_bytes(),
            f,
            f0,
        );
        crate::analysis::lemma_xref_of_string_unique(
            ad,
            arch,
            base,
            "CMD:SECURITY-GET-DEV-FW-INFO".spec_bytes(),
            c,
            c0,
        );
        crate::analysis::lemma_first_bl_unique(ad, arch, c0, b, b0);
    }
}

/// The `CMD:SET-RSC` and `CMD:BOOT-TO` command names as byte strings.
proof fn lemma_cmd_names()
    ensures
        "CMD:SET-RSC".spec_bytes().len() == 11,
        "CMD:BOOT-TO".spec_bytes().len() == 11,
{
    reveal_strlit("CMD:SET-RSC");
    reveal_strlit("CMD:BOOT-TO");
    broadcast use vstd::string::is_ascii_spec_bytes;

    assert(vstd::string::is_ascii("CMD:SET-RSC"));
    assert(vstd::string::is_ascii("CMD:BOOT-TO"));
}

/// Everything the boot-to injection needs is present: the marker is
/// absent, the container is usable, the download function and the `RSC
/// file` handler are located, the dispatcher sentinel exists, the rebased
/// address fits, and the payload fits the handler.
pub open spec fn boot_to_ready(
    ad: Seq<u8>,
    arch: Arch,
    base: int,
    addr: int,
    pre: Seq<u8>,
    blob: Seq<u8>,
    is64: bool,
) -> bool {
    &&& no_pat_match(pre, "434D443A424F4F542D544F00"@)
    &&& v6_payload_ok(blob, is64)
    &&& (exists|dl: int|
        #[trigger] found_func_for(ad, arch, base, "Download host file:%s".spec_bytes(), dl) && dl
            + addr <= u32::MAX)
    &&& (exists|ptr: int|
        #[trigger] is_first_pat_match(v6_slice(blob, is64), spec_pattern("11111111"@), ptr))
    &&& (exists|rsc: int|
        #[trigger] found_func_for(ad, arch, base, "RSC file".spec_bytes(), rsc) && rsc + (
        v6_raw_len(blob, is64) - 8) <= pre.len())
}

/// The located `RSC file` handler cannot take the payload: it runs past the
/// end of the region.
pub open spec fn boot_to_rsc_oob(
    ad: Seq<u8>,
    arch: Arch,
    base: int,
    blob: Seq<u8>,
    is64: bool,
    prelen: int,
) -> bool {
    exists|rsc: int|
        #[trigger] found_func_for(ad, arch, base, "RSC file".spec_bytes(), rsc) && rsc + (
        v6_raw_len(blob, is64) - 8) > prelen
}

/// When the DA lacks the `CMD:BOOT-TO` marker, relocates the architecture's
/// slice of the v6 extension payload with the address of the DA's
/// `download_file` function, writes it over the body of the `RSC file`
/// handler, and renames the exposed `CMD:SET-RSC` command to `CMD:BOOT-TO`.
/// A DA that already carries the marker needs no patch; a missing anchor
/// leaves the region unchanged.
pub fn patch_boot_to(
    da: &mut DAEntryRegion,
    analyzer: &CodeAnalyzer,
    is_arm64: bool,
    extloader_blob: &[u8],
) -> (r: Result<bool, Error>)
    requires
        analyzer.wf(),
        old(da).wf(),
        analyzer.base == old(da).addr,
    ensures
        final(da).addr == old(da).addr && final(da).sig_len == old(da).sig_len,
        final(da).data@.len() == old(da).data@.len(),
        r matches Ok(true) ==> (final(da).data@ == old(da).data@ && (exists|j: int|
            pat_matches_at(
                old(da).data@,
                spec_pattern("434D443A424F4F542D544F00"@),
                j,
            ))) || (exists|dl: int, rsc: int, ptr: int|
            {
                &&& #[trigger] found_func_for(
                    analyzer.data@,
                    analyzer.arch,
                    analyzer.base as int,
                    "Download host file:%s".spec_bytes(),
                    dl,
                )
                &&& #[trigger] found_func_for(
                    analyzer.data@,
                    analyzer.arch,
                    analyzer.base as int,
                    "RSC file".spec_bytes(),
                    rsc,
                )
                &&& v6_payload_ok(extloader_blob@, is_arm64)
                &&& #[trigger] is_first_pat_match(
                    v6_slice(extloader_blob@, is_arm64),
                    spec_pattern("11111111"@),
                    ptr,
                )
                &&& {
                    let relocated = apply_patch(
                        v6_slice(extloader_blob@, is_arm64),
                        ptr,
                        exact_pat(u32_le((dl + old(da).addr as int) as u32)),
                    );
                    &&& rsc + relocated.len() <= old(da).data@.len()
                    &&& final(da).data@ == replace_from(
                        apply_patch(old(da).data@, rsc, exact_pat(relocated)),
                        0,
                        "CMD:SET-RSC".spec_bytes(),
                        "CMD:BOOT-TO".spec_bytes(),
                    )
                }
            }),
        r matches Ok(false) ==> final(da).data@ == old(da).data@,
        (exists|j: int|
            pat_matches_at(old(da).data@, spec_pattern("434D443A424F4F542D544F00"@), j)) ==> (
        r matches Ok(true) && final(da).data@ == old(da).data@),
        boot_to_ready(
            analyzer.data@,
            analyzer.arch,
            analyzer.base as int,
            old(da).addr as int,
            old(da).data@,
            extloader_blob@,
            is_arm64,
        ) ==> r matches Ok(true),
        r is Err ==> final(da).data@ == old(da).data@ && (!v6_payload_ok(
            extloader_blob@,
            is_arm64,
        ) || boot_to_rsc_oob(
            analyzer.data@,
            analyzer.arch,
            analyzer.base as int,
            extloader_blob@,
            is_arm64,
            old(da).data@.len() as int,
        )),
        r is Ok ==> boot_to_ok_rel(
            analyzer.data@,
            analyzer.arch,
            analyzer.base as int,
            old(da).addr as int,
            extloader_blob@,
            is_arm64,
            old(da).data@,
            final(da).data@,
        ),
{
    let ghost ad = analyzer.data@;
    let ghost arch = analyzer.arch;
    let ghost base = analyzer.base as int;
    let ghost sbd = "Download host file:%s".spec_bytes();
    let ghost sbr = "RSC file".spec_bytes();
    proof {
        lemma_boot_to_marker();
        lemma_sentinel_pattern();
        lemma_cmd_names();
        reveal_strlit("Download host file:%s");
        assert("Download host file:%s"@.len() == 21);
        crate::xml::lemma_encode_nonempty("Download host file:%s"@);
        reveal_strlit("RSC file");
        assert("RSC file"@.len() == 8);
        crate::xml::lemma_encode_nonempty("RSC file"@);
    }
    if find_pattern(da.data.as_slice(), "434D443A424F4F542D544F00", 0) != HEX_NOT_FOUND {
        return Ok(true);
    }

    let mut extloader = match get_v6_payload(extloader_blob, is_arm64) {
        Ok(v) => v,
        Err(e) => {
            return Err(e);
        },
    };

    let download_function_off = match analyzer.find_function_from_string("Download host file:%s") {
        Some(f) => f,
        None => {
            return Ok(false);
        },
    };

    let payload_pointer = find_pattern(extloader.as_slice(), "11111111", 0);
    if payload_pointer == HEX_NOT_FOUND {
        return Ok(false);
    }

    if download_function_off > u32::MAX as usize - da.addr as usize {
        proof {
            assert forall|dl: int|
                #[trigger] found_func_for(ad, arch, base, sbd, dl) implies dl + old(da).addr
                > u32::MAX by {
                crate::analysis::lemma_found_func_unique(
                    ad,
                    arch,
                    base,
                    sbd,
                    dl,
                    download_function_off as int,
                );
            }
        }
        return Ok(false);
    }
    let download_addr: u32 = download_function_off as u32 + da.addr;

    let ghost payload0 = extloader@;
    let addr_hex = bytes_to_hex(u32_le_bytes(download_addr).as_slice());
    proof {
        lemma_hex_pattern(u32_le(download_addr));
    }
    match patch(&mut extloader, payload_pointer, addr_hex.as_str()) {
        Ok(()) => {},
        Err(e) => {
            proof {
                assert(false);
            }
            return Err(e);
        },
    }

    let rsc_func_off = match analyzer.find_function_from_string("RSC file") {
        Some(f) => f,
        None => {
            return Ok(false);
        },
    };

    let body_hex = bytes_to_hex(extloader.as_slice());
    proof {
        lemma_hex_pattern(extloader@);
    }
    match patch(&mut da.data, rsc_func_off, body_hex.as_str()) {
        Ok(()) => {},
        Err(e) => {
            proof {
                assert(extloader@.len() == v6_raw_len(extloader_blob@, is_arm64) - 8);
                assert forall|rsc: int|
                    #[trigger] found_func_for(ad, arch, base, sbr, rsc) implies rsc + (v6_raw_len(
                    extloader_blob@,
                    is_arm64,
                ) - 8) > old(da).data@.len() by {
                    crate::analysis::lemma_found_func_unique(
                        ad,
                        arch,
                        base,
                        sbr,
                        rsc,
                        rsc_func_off as int,
                    );
                }
            }
            return Err(e);
        },
    }

    let ghost before_rename = da.data@;
    patch_string(&mut da.data, "CMD:SET-RSC", "CMD:BOOT-TO");

    proof {
        assert(is_first_pat_match(payload0, spec_pattern("11111111"@), payload_pointer as int));
        crate::patching::lemma_replace_from_len(
            before_rename,
            0,
            "CMD:SET-RSC".spec_bytes(),
            "CMD:BOOT-TO".spec_bytes(),
        );
    }
    Ok(true)
}

/// What a completed lock-state pass did to the region: the stub applied at
/// the located function when it exists and fits, nothing otherwise.
pub open spec fn lock_state_ok_rel(
    ad: Seq<u8>,
    arch: Arch,
    base: int,
    is64: bool,
    pre: Seq<u8>,
    post: Seq<u8>,
) -> bool {
    ||| (no_func_for_string(ad, arch, base, "[%s] sec_get_seccfg".spec_bytes()) && post == pre)
    ||| (exists|f: int|
        #[trigger] found_func_for(ad, arch, base, "[%s] sec_get_seccfg".spec_bytes(), f) && f
            + ret0_stub(is64).len() <= pre.len() && post == apply_patch(
            pre,
            f,
            exact_pat(ret0_stub(is64)),
        ))
}

/// What a completed security-policy pass did to the region: with the full
/// `BL` chain present, the three-step stub composition; with no full chain,
/// nothing.
pub open spec fn sec_policy_ok_rel(
    ad: Seq<u8>,
    arch: Arch,
    base: int,
    is64: bool,
    pre: Seq<u8>,
    post: Seq<u8>,
) -> bool {
    ||| ((forall|f: int, b1: int, b2: int, b3: int, b4: int|
        !#[trigger] sec_policy_chain(ad, arch, base, f, b1, b2, b3, b4)) && post == pre)
    ||| (exists|f: int, b1: int, b2: int, b3: int, b4: int|
        #[trigger] sec_policy_chain(ad, arch, base, f, b1, b2, b3, b4) && post == policy_step(
            policy_step(policy_step(pre, ad, arch, base, b2, is64), ad, arch, base, b3, is64),
            ad,
            arch,
            base,
            b4,
            is64,
        ))
}

/// The full DA-SLA patch is possible: the three anchors resolve, the
/// rebased addresses fit, the `BL` encodes, and the word fits the region.
pub open spec fn da_sla_ready(
    ad: Seq<u8>,
    arch: Arch,
    base: int,
    addr: int,
    is64: bool,
    prelen: int,
) -> bool {
    exists|f: int, c: int, b: int|
        {
            &&& #[trigger] found_func_for(ad, arch, base, "CMD:REBOOT".spec_bytes(), f)
            &&& #[trigger] xref_of_string(
                ad,
                arch,
                base,
                "CMD:SECURITY-GET-DEV-FW-INFO".spec_bytes(),
                c,
            )
            &&& #[trigger] is_first_bl_from(ad, arch, c, b)
            &&& f + addr <= u32::MAX
            &&& b + addr <= u32::MAX
            &&& bl_encodable(is64, b + addr, f + addr)
            &&& b + 4 <= prelen
        }
}

/// What a completed DA-SLA pass did to the region: nothing without the
/// marker or with a broken chain, the retargeted `BL` word otherwise.
pub open spec fn da_sla_ok_rel(
    ad: Seq<u8>,
    arch: Arch,
    base: int,
    addr: int,
    is64: bool,
    pre: Seq<u8>,
    post: Seq<u8>,
) -> bool {
    ||| (no_pat_match(pre, "44412E534C4100454E41424C454400"@) && post == pre)
    ||| (!no_pat_match(pre, "44412E534C4100454E41424C454400"@) && post == pre && !da_sla_ready(
        ad,
        arch,
        base,
        addr,
        is64,
        pre.len() as int,
    ))
    ||| (exists|f: int, c: int, b: int|
        {
            &&& #[trigger] found_func_for(ad, arch, base, "CMD:REBOOT".spec_bytes(), f)
            &&& #[trigger] xref_of_string(
                ad,
                arch,
                base,
                "CMD:SECURITY-GET-DEV-FW-INFO".spec_bytes(),
                c,
            )
            &&& #[trigger] is_first_bl_from(ad, arch, c, b)
            &&& b + 4 <= pre.len()
            &&& post == apply_patch(
                pre,
                b,
                exact_pat(
                    u32_le(
                        if is64 {
                            crate::arm64::spec_bl(b + addr, f + addr)
                        } else {
                            crate::arm::spec_bl_arm(b + addr, f + addr)
                        },
                    ),
                ),
            )
        })
}

/// What a completed boot-to pass did to the region: nothing when the marker
/// is already present or an anchor is missing, the injected and renamed
/// handler otherwise.
pub open spec fn boot_to_ok_rel(
    ad: Seq<u8>,
    arch: Arch,
    base: int,
    addr: int,
    blob: Seq<u8>,
    is64: bool,
    pre: Seq<u8>,
    post: Seq<u8>,
) -> bool {
    ||| ((exists|j: int|
        pat_matches_at(pre, spec_pattern("434D443A424F4F542D544F00"@), j)) && post == pre)
    ||| (no_pat_match(pre, "434D443A424F4F542D544F00"@) && post == pre && !boot_to_ready(
        ad,
        arch,
        base,
        addr,
        pre,
        blob,
        is64,
    ))
    ||| (exists|dl: int, rsc: int, ptr: int|
        {
            &&& #[trigger] found_func_for(ad, arch, base, "Download host file:%s".spec_bytes(), dl)
            &&& #[trigger] found_func_for(ad, arch, base, "RSC file".spec_bytes(), rsc)
            &&& v6_payload_ok(blob, is64)
            &&& #[trigger] is_first_pat_match(v6_slice(blob, is64), spec_pattern("11111111"@), ptr)
            &&& {
                let relocated = apply_patch(
                    v6_slice(blob, is64),
                    ptr,
                    exact_pat(u32_le((dl + addr) as u32)),
                );
                &&& rsc + relocated.len() <= pre.len()
                &&& post == replace_from(
                    apply_patch(pre, rsc, exact_pat(relocated)),
                    0,
                    "CMD:SET-RSC".spec_bytes(),
                    "CMD:BOOT-TO".spec_bytes(),
                )
            }
        })
}

/// Applies the three security patches in order: the lock-state stub, the
/// security-policy chain, and the DA-SLA retarget. A failed location leaves
/// that step out without aborting the others; on success the region is
/// exactly the composition of the three passes.
pub fn patch_security(da: &mut DAEntryRegion, analyzer: &CodeAnalyzer, is_arm64: bool) -> (r:
    Result<bool, Error>)
    requires
        analyzer.wf(),
        old(da).wf(),
        analyzer.base == old(da).addr,
    ensures
        final(da).addr == old(da).addr && final(da).sig_len == old(da).sig_len,
        final(da).data@.len() == old(da).data@.len(),
        r is Ok ==> exists|d1: Seq<u8>, d2: Seq<u8>|
            {
                &&& #[trigger] lock_state_ok_rel(
                    analyzer.data@,
                    analyzer.arch,
                    analyzer.base as int,
                    is_arm64,
                    old(da).data@,
                    d1,
                )
                &&& #[trigger] sec_policy_ok_rel(
                    analyzer.data@,
                    analyzer.arch,
                    analyzer.base as int,
                    is_arm64,
                    d1,
                    d2,
                )
                &&& da_sla_ok_rel(
                    analyzer.data@,
                    analyzer.arch,
                    analyzer.base as int,
                    old(da).addr as int,
                    is_arm64,
                    d2,
                    final(da).data@,
                )
            },
{
    patch_lock_state(da, analyzer, is_arm64)?;
    let ghost d1 = da.data@;
    patch_sec_policy(da, analyzer, is_arm64)?;
    let ghost d2 = da.data@;
    let r = patch_da_sla(da, analyzer, is_arm64);
    proof {
        if r is Ok {
            assert(lock_state_ok_rel(
                analyzer.data@,
                analyzer.arch,
                analyzer.base as int,
                is_arm64,
                old(da).data@,
                d1,
            ));
            assert(sec_policy_ok_rel(
                analyzer.data@,
                analyzer.arch,
                analyzer.base as int,
                is_arm64,
                d1,
                d2,
            ));
        }
    }
    r
}


/// A parsed vendor DA archive: the bring-up region and the full-feature
/// region, keyed by the device's hardware code.
pub struct DA {
    pub da1: Option<DAEntryRegion>,
    pub da2: Option<DAEntryRegion>,
}

/// Whole-archive patching: the engines patch the second stage only, so this
/// reports the capability as absent.
pub fn patch_da() -> (r: Result<DA, Error>)
    ensures
        r is Err,
{
    Err(Error::penumbra("Whole-archive patching is not supported"))
}

/// First-stage patching: the engines patch the second stage only, so this
/// reports the capability as absent.
pub fn patch_da1() -> (r: Result<DAEntryRegion, Error>)
    ensures
        r is Err,
{
    Err(Error::penumbra("DA1 patching is not supported"))
}

/// Rewrites a copy of the second-stage DA region: identifies the
/// architecture from the first instruction, applies the security patches,
/// and injects the extension loader. The returned region keeps the address,
/// length and signature length of the input, and its bytes are exactly the
/// boot-to pass applied after the three security passes.
pub fn patch_da2(da2: &DAEntryRegion, extloader_blob: &[u8]) -> (r: Result<DAEntryRegion, Error>)
    requires
        da2.wf(),
    ensures
        r matches Ok(out) ==> out.addr == da2.addr && out.sig_len == da2.sig_len
            && out.data@.len() == da2.data@.len() && out.wf(),
        r matches Ok(out) ==> exists|d1: Seq<u8>, d2: Seq<u8>, d3: Seq<u8>|
            {
                &&& #[trigger] lock_state_ok_rel(
                    da2.data@,
                    spec_da2_arch(da2.data@),
                    da2.addr as int,
                    spec_is_arm64(da2.data@),
                    da2.data@,
                    d1,
                )
                &&& #[trigger] sec_policy_ok_rel(
                    da2.data@,
                    spec_da2_arch(da2.data@),
                    da2.addr as int,
                    spec_is_arm64(da2.data@),
                    d1,
                    d2,
                )
                &&& #[trigger] da_sla_ok_rel(
                    da2.data@,
                    spec_da2_arch(da2.data@),
                    da2.addr as int,
                    da2.addr as int,
                    spec_is_arm64(da2.data@),
                    d2,
                    d3,
                )
                &&& boot_to_ok_rel(
                    da2.data@,
                    spec_da2_arch(da2.data@),
                    da2.addr as int,
                    da2.addr as int,
                    extloader_blob@,
                    spec_is_arm64(da2.data@),
                    d3,
                    out.data@,
                )
            },
{
    let arm64 = is_arm64(da2.data.as_slice());
    let arch = if arm64 {
        Arch::Aarch64
    } else {
        Arch::Arm
    };
    let analyzer = CodeAnalyzer::new(
        vstd::slice::slice_to_vec(da2.data.as_slice()),
        da2.addr,
        arch,
    );
    let mut out = DAEntryRegion {
        addr: da2.addr,
        data: vstd::slice::slice_to_vec(da2.data.as_slice()),
        sig_len: da2.sig_len,
    };
    patch_security(&mut out, &analyzer, arm64)?;
    let ghost d3 = out.data@;
    patch_boot_to(&mut out, &analyzer, arm64, extloader_blob)?;
    proof {
        let (d1, d2) = choose|d1: Seq<u8>, d2: Seq<u8>|
            {
                &&& #[trigger] lock_state_ok_rel(
                    analyzer.data@,
                    analyzer.arch,
                    analyzer.base as int,
                    arm64,
                    da2.data@,
                    d1,
                )
                &&& #[trigger] sec_policy_ok_rel(
                    analyzer.data@,
                    analyzer.arch,
                    analyzer.base as int,
                    arm64,
                    d1,
                    d2,
                )
                &&& da_sla_ok_rel(
                    analyzer.data@,
                    analyzer.arch,
                    analyzer.base as int,
                    da2.addr as int,
                    arm64,
                    d2,
                    d3,
                )
            };
        let gis = spec_is_arm64(da2.data@);
        let garch = spec_da2_arch(da2.data@);
        assert(arm64 == gis && arch == garch);
        assert(lock_state_ok_rel(da2.data@, garch, da2.addr as int, gis, da2.data@, d1));
        assert(sec_policy_ok_rel(da2.data@, garch, da2.addr as int, gis, d1, d2));
        assert(da_sla_ok_rel(da2.data@, garch, da2.addr as int, da2.addr as int, gis, d2, d3));
        assert(boot_to_ok_rel(
            da2.data@,
            garch,
            da2.addr as int,
            da2.addr as int,
            extloader_blob@,
            gis,
            d3,
            out.data@,
        ));
        assert(exists|e1: Seq<u8>, e2: Seq<u8>, e3: Seq<u8>|
            {
                &&& #[trigger] lock_state_ok_rel(
                    da2.data@,
                    garch,
                    da2.addr as int,
                    gis,
                    da2.data@,
                    e1,
                )
                &&& #[trigger] sec_policy_ok_rel(da2.data@, garch, da2.addr as int, gis, e1, e2)
                &&& #[trigger] da_sla_ok_rel(
                    da2.data@,
                    garch,
                    da2.addr as int,
                    da2.addr as int,
                    gis,
                    e2,
                    e3,
                )
                &&& boot_to_ok_rel(
                    da2.data@,
                    garch,
                    da2.addr as int,
                    da2.addr as int,
                    extloader_blob@,
                    gis,
                    e3,
                    out.data@,
                )
            });
    }
    Ok(out)
}

} // verus!
