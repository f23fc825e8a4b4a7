//! The XML engine's extension payload: the architecture's slice of the v6
//! container, relocated with the DA base and the symbols resolved from the
//! running DA2 by string-xref walks.

use vstd::prelude::*;
use vstd::string::StringSliceAdditionalSpecFns;
use crate::analysis::{
    bl_target_in_image,
    found_func_for,
    is_first_bl_from,
    spec_bl_target,
    xref_of_string,
    Arch,
    CodeAnalyzer,
};
use crate::dapatch::{arch_of, get_v6_payload, spec_is_arm64, v6_payload_ok, v6_raw_len, v6_slice};
use crate::patching::{
    find_pattern,
    is_first_pat_match,
    lemma_literal_pattern,
    patch,
    pattern_parses,
    spec_pattern,
    u32_le_bytes,
    HEX_NOT_FOUND,
};

verus! {

/// The `BL` at `b` has a target the 32-bit space can hold.
pub open spec fn bl_target_u32(ad: Seq<u8>, arch: Arch, b: int, base: int) -> bool {
    &&& crate::analysis::is_bl_at(ad, arch, b)
    &&& 0 <= spec_bl_target(ad, arch, b, base) <= u32::MAX
}

/// Every symbol the XML extension payload needs resolves in the image: the
/// transfer functions, the command-registration and allocator walk from
/// `CMD:REBOOT`, the release and XML-loader walk from `Bad %s`, and the
/// text lookup from the runtime-config magic.
pub open spec fn xml_syms_ok(ad: Seq<u8>, arch: Arch, base: int) -> bool {
    &&& (exists|f: int|
        #[trigger] found_func_for(ad, arch, base, "Download host file:%s".spec_bytes(), f))
    &&& (exists|f: int|
        #[trigger] found_func_for(ad, arch, base, "Upload data to host file:%s".spec_bytes(), f))
    &&& (exists|c: int, b: int|
        #[trigger] xref_of_string(ad, arch, base, "CMD:REBOOT".spec_bytes(), c)
            && #[trigger] is_first_bl_from(ad, arch, c, b) && bl_target_in_image(ad, arch, b, base)
            && (exists|b2: int|
            #[trigger] is_first_bl_from(ad, arch, spec_bl_target(ad, arch, b, base) - base, b2)
                && bl_target_u32(ad, arch, b2, base)))
    &&& (exists|c: int, b1: int, b2: int|
        #[trigger] xref_of_string(ad, arch, base, "Bad %s".spec_bytes(), c)
            && #[trigger] is_first_bl_from(ad, arch, c, b1) && #[trigger] is_first_bl_from(
            ad,
            arch,
            b1 + 4,
            b2,
        ) && bl_target_u32(ad, arch, b2, base) && (exists|fls: int|
            crate::analysis::is_enclosing_start(ad, arch, fls, c)))
    &&& (exists|c: int, b: int|
        #[trigger] xref_of_string(ad, arch, base, "runtime_switchable_config/magic".spec_bytes(), c)
            && #[trigger] is_first_bl_from(ad, arch, c, b) && bl_target_u32(ad, arch, b, base))
}

/// Everything the relocation needs is present: a usable container, an
/// image inside the 32-bit space, every symbol resolved, every sentinel
/// present.
pub open spec fn xml_ext_ready(d: Seq<u8>, base: int, blob: Seq<u8>) -> bool {
    &&& v6_payload_ok(blob, spec_is_arm64(d))
    &&& base + d.len() <= u32::MAX
    &&& xml_syms_ok(d, crate::dapatch::spec_da2_arch(d), base)
    &&& xml_slots_ok(v6_slice(blob, spec_is_arm64(d)))
}

/// Every relocation sentinel occurs in the payload slice.
pub open spec fn xml_slots_ok(payload: Seq<u8>) -> bool {
    &&& (exists|s: int| is_first_pat_match(payload, spec_pattern("11111111"@), s))
    &&& (exists|s: int| is_first_pat_match(payload, spec_pattern("22222222"@), s))
    &&& (exists|s: int| is_first_pat_match(payload, spec_pattern("33333333"@), s))
    &&& (exists|s: int| is_first_pat_match(payload, spec_pattern("44444444"@), s))
    &&& (exists|s: int| is_first_pat_match(payload, spec_pattern("55555555"@), s))
    &&& (exists|s: int| is_first_pat_match(payload, spec_pattern("66666666"@), s))
    &&& (exists|s: int| is_first_pat_match(payload, spec_pattern("77777777"@), s))
    &&& (exists|s: int| is_first_pat_match(payload, spec_pattern("88888888"@), s))
}

/// Relocates the XML extension payload against a DA2 image: the slice of
/// the v6 container matching the image's architecture, its sentinel slots
/// filled with the DA base and with the download, upload, command-
/// registration, allocator, release, text and XML-loader symbols resolved
/// from the image. `None` when the container is malformed, the image does
/// not fit the 32-bit space, a symbol does not resolve, or a sentinel is
/// absent; `Some` whenever all of them are present.
#[verifier::rlimit(100)]
pub fn prepare_extensions(da2: &[u8], da2address: u32, container: &[u8]) -> (r: Option<Vec<u8>>)
    ensures
        r is Some ==> v6_payload_ok(container@, spec_is_arm64(da2@)),
        r matches Some(out) ==> out@.len() == v6_raw_len(container@, spec_is_arm64(da2@)) - 8,
        xml_ext_ready(da2@, da2address as int, container@) ==> r is Some,
{
    let ghost archg = crate::dapatch::spec_da2_arch(da2@);
    let ghost baseg = da2address as int;
    proof {
        lemma_xml_anchor_names();
        lemma_xml_sentinels();
    }

    let arch = arch_of(da2);
    let is64 = match arch {
        Arch::Aarch64 => true,
        Arch::Arm => false,
    };
    let mut data = match get_v6_payload(container, is64) {
        Ok(v) => v,
        Err(_) => {
            return None;
        },
    };
    let ghost out_len = data@.len();

    if da2.len() > u32::MAX as usize || da2address > u32::MAX - da2.len() as u32 {
        return None;
    }
    let analyzer = CodeAnalyzer::new(vstd::slice::slice_to_vec(da2), da2address, arch);

    // Every slot is located in the unpatched slice, so a missing sentinel
    // is detected before any write.
    let slot_base = find_pattern(data.as_slice(), "11111111", 0);
    let slot_reg = find_pattern(data.as_slice(), "22222222", 0);
    let slot_dl = find_pattern(data.as_slice(), "33333333", 0);
    let slot_ul = find_pattern(data.as_slice(), "44444444", 0);
    let slot_malloc = find_pattern(data.as_slice(), "55555555", 0);
    let slot_free = find_pattern(data.as_slice(), "66666666", 0);
    let slot_text = find_pattern(data.as_slice(), "77777777", 0);
    let slot_load = find_pattern(data.as_slice(), "88888888", 0);
    if slot_base == HEX_NOT_FOUND || slot_reg == HEX_NOT_FOUND || slot_dl == HEX_NOT_FOUND
        || slot_ul == HEX_NOT_FOUND || slot_malloc == HEX_NOT_FOUND || slot_free == HEX_NOT_FOUND
        || slot_text == HEX_NOT_FOUND || slot_load == HEX_NOT_FOUND {
        return None;
    }

    let download_function_off = match analyzer.find_function_from_string("Download host file:%s") {
        Some(o) => o,
        None => {
            return None;
        },
    };
    let upload_function_off = match analyzer.find_function_from_string(
        "Upload data to host file:%s",
    ) {
        Some(o) => o,
        None => {
            return None;
        },
    };
    let download_addr = match analyzer.offset_to_va(download_function_off) {
        Some(a) => a,
        None => {
            proof {
                assert(false);
            }
            return None;
        },
    };
    let upload_addr = match analyzer.offset_to_va(upload_function_off) {
        Some(a) => a,
        None => {
            proof {
                assert(false);
            }
            return None;
        },
    };

    let reg_xref = match analyzer.find_string_xref("CMD:REBOOT") {
        Some(o) => o,
        None => {
            return None;
        },
    };
    let reg_bl = match analyzer.get_next_bl_from_off(reg_xref) {
        Some(b) => b,
        None => {
            proof {
                lemma_no_xref_chain(analyzer.data@, archg, baseg, "CMD:REBOOT".spec_bytes(), reg_xref as int);
            }
            return None;
        },
    };
    let reg_cmd_addr = match analyzer.get_bl_target(reg_bl) {
        Some(a) => a,
        None => {
            proof {
                lemma_no_bl_target(analyzer.data@, archg, baseg, "CMD:REBOOT".spec_bytes(), reg_xref as int, reg_bl as int);
            }
            return None;
        },
    };
    let reg_cmd_off = match analyzer.va_to_offset(reg_cmd_addr) {
        Some(o) => o,
        None => {
            proof {
                lemma_no_bl_image(analyzer.data@, archg, baseg, "CMD:REBOOT".spec_bytes(), reg_xref as int, reg_bl as int);
            }
            return None;
        },
    };
    let malloc_bl = match analyzer.get_next_bl_from_off(reg_cmd_off) {
        Some(b) => b,
        None => {
            proof {
                lemma_no_malloc_bl(analyzer.data@, archg, baseg, reg_xref as int, reg_bl as int, reg_cmd_off as int);
            }
            return None;
        },
    };
    let malloc_addr = match analyzer.get_bl_target(malloc_bl) {
        Some(a) => a,
        None => {
            proof {
                lemma_no_malloc_target(analyzer.data@, archg, baseg, reg_xref as int, reg_bl as int, reg_cmd_off as int, malloc_bl as int);
            }
            return None;
        },
    };

    let bad_xref = match analyzer.find_string_xref("Bad %s") {
        Some(o) => o,
        None => {
            return None;
        },
    };
    let dlen = analyzer.data.len();
    let bl1 = match analyzer.get_next_bl_from_off(bad_xref) {
        Some(b) => b,
        None => {
            proof {
                lemma_no_free_chain(analyzer.data@, archg, baseg, bad_xref as int, 0, 0, 0);
            }
            return None;
        },
    };
    let bl2 = match analyzer.get_next_bl_from_off(bl1 + 4) {
        Some(b) => b,
        None => {
            proof {
                lemma_no_free_chain(analyzer.data@, archg, baseg, bad_xref as int, 1, bl1 as int, 0);
            }
            return None;
        },
    };
    let free_addr = match analyzer.get_bl_target(bl2) {
        Some(a) => a,
        None => {
            proof {
                lemma_no_free_chain(analyzer.data@, archg, baseg, bad_xref as int, 2, bl1 as int, bl2 as int);
            }
            return None;
        },
    };

    let load_string_off = match analyzer.find_function_start_from_off(bad_xref) {
        Some(o) => o,
        None => {
            proof {
                lemma_no_free_chain(analyzer.data@, archg, baseg, bad_xref as int, 3, 0, 0);
            }
            return None;
        },
    };
    let load_str_addr = match analyzer.offset_to_va(load_string_off) {
        Some(a) => a,
        None => {
            proof {
                assert(false);
            }
            return None;
        },
    };

    let magic_xref = match analyzer.find_string_xref("runtime_switchable_config/magic") {
        Some(o) => o,
        None => {
            return None;
        },
    };
    let magic_bl = match analyzer.get_next_bl_from_off(magic_xref) {
        Some(b) => b,
        None => {
            proof {
                lemma_no_xref_chain(
                    analyzer.data@,
                    archg,
                    baseg,
                    "runtime_switchable_config/magic".spec_bytes(),
                    magic_xref as int,
                );
            }
            return None;
        },
    };
    let gettext_addr = match analyzer.get_bl_target(magic_bl) {
        Some(a) => a,
        None => {
            proof {
                lemma_no_bl_target(
                    analyzer.data@,
                    archg,
                    baseg,
                    "runtime_switchable_config/magic".spec_bytes(),
                    magic_xref as int,
                    magic_bl as int,
                );
            }
            return None;
        },
    };

    let slots: [(usize, u32); 8] = [
        (slot_base, da2address),
        (slot_reg, reg_cmd_addr),
        (slot_dl, download_addr),
        (slot_ul, upload_addr),
        (slot_malloc, malloc_addr),
        (slot_free, free_addr),
        (slot_text, gettext_addr),
        (slot_load, load_str_addr),
    ];
    let mut k: usize = 0;
    while k < 8
        invariant
            k <= 8,
            data@.len() == out_len,
            forall|m: int| 0 <= m < 8 ==> (#[trigger] slots@[m]).0 + 4 <= out_len,
        decreases 8 - k,
    {
        let (slot, addr) = slots[k];
        let hex = crate::patching::bytes_to_hex(u32_le_bytes(addr).as_slice());
        proof {
            crate::patching::lemma_hex_pattern(crate::patching::u32_le(addr));
        }
        match patch(&mut data, slot, hex.as_str()) {
            Ok(()) => {},
            Err(_) => {
                proof {
                    assert(false);
                }
                return None;
            },
        }
        k += 1;
    }

    Some(data)
}

/// The sentinel and anchor literals used above parse and are non-empty.
proof fn lemma_xml_sentinels()
    ensures
        pattern_parses("11111111"@) && spec_pattern("11111111"@).len() == 4,
        pattern_parses("22222222"@) && spec_pattern("22222222"@).len() == 4,
        pattern_parses("33333333"@) && spec_pattern("33333333"@).len() == 4,
        pattern_parses("44444444"@) && spec_pattern("44444444"@).len() == 4,
        pattern_parses("55555555"@) && spec_pattern("55555555"@).len() == 4,
        pattern_parses("66666666"@) && spec_pattern("66666666"@).len() == 4,
        pattern_parses("77777777"@) && spec_pattern("77777777"@).len() == 4,
        pattern_parses("88888888"@) && spec_pattern("88888888"@).len() == 4,
{
    reveal_strlit("11111111");
    reveal_strlit("22222222");
    reveal_strlit("33333333");
    reveal_strlit("44444444");
    reveal_strlit("55555555");
    reveal_strlit("66666666");
    reveal_strlit("77777777");
    reveal_strlit("88888888");
    lemma_literal_pattern("11111111"@);
    lemma_literal_pattern("22222222"@);
    lemma_literal_pattern("33333333"@);
    lemma_literal_pattern("44444444"@);
    lemma_literal_pattern("55555555"@);
    lemma_literal_pattern("66666666"@);
    lemma_literal_pattern("77777777"@);
    lemma_literal_pattern("88888888"@);
}

/// The anchor strings used above are non-empty.
proof fn lemma_xml_anchor_names()
    ensures
        "Download host file:%s".spec_bytes().len() > 0,
        "Upload data to host file:%s".spec_bytes().len() > 0,
        "CMD:REBOOT".spec_bytes().len() > 0,
        "Bad %s".spec_bytes().len() > 0,
        "runtime_switchable_config/magic".spec_bytes().len() > 0,
{
    reveal_strlit("Download host file:%s");
    assert("Download host file:%s"@.len() == 21);
    crate::xml::lemma_encode_nonempty("Download host file:%s"@);
    reveal_strlit("Upload data to host file:%s");
    assert("Upload data to host file:%s"@.len() == 27);
    crate::xml::lemma_encode_nonempty("Upload data to host file:%s"@);
    reveal_strlit("CMD:REBOOT");
    assert("CMD:REBOOT"@.len() == 10);
    crate::xml::lemma_encode_nonempty("CMD:REBOOT"@);
    reveal_strlit("Bad %s");
    assert("Bad %s"@.len() == 6);
    crate::xml::lemma_encode_nonempty("Bad %s"@);
    reveal_strlit("runtime_switchable_config/magic");
    assert("runtime_switchable_config/magic"@.len() == 31);
    crate::xml::lemma_encode_nonempty("runtime_switchable_config/magic"@);
}

/// With the first `BL` after a string's xref missing, the symbol chain of
/// that string cannot hold.
proof fn lemma_no_xref_chain(ad: Seq<u8>, arch: Arch, base: int, sb: Seq<u8>, c0: int)
    requires
        xref_of_string(ad, arch, base, sb, c0),
        crate::analysis::no_bl_from(ad, arch, c0),
    ensures
        forall|c: int, b: int|
            !(#[trigger] xref_of_string(ad, arch, base, sb, c) && #[trigger] is_first_bl_from(
                ad,
                arch,
                c,
                b,
            )),
{
    assert forall|c: int, b: int|
        !(#[trigger] xref_of_string(ad, arch, base, sb, c) && #[trigger] is_first_bl_from(
            ad,
            arch,
            c,
            b,
        )) by {
        if xref_of_string(ad, arch, base, sb, c) && is_first_bl_from(ad, arch, c, b) {
            crate::analysis::lemma_xref_of_string_unique(ad, arch, base, sb, c, c0);
            assert(crate::analysis::is_bl_at(ad, arch, b));
        }
    }
}

/// With the located `BL` branching outside the 32-bit space, no chain of
/// that string carries a representable target.
proof fn lemma_no_bl_target(ad: Seq<u8>, arch: Arch, base: int, sb: Seq<u8>, c0: int, b0: int)
    requires
        xref_of_string(ad, arch, base, sb, c0),
        is_first_bl_from(ad, arch, c0, b0),
        !crate::analysis::is_bl_at(ad, arch, b0) || !(0 <= spec_bl_target(ad, arch, b0, base)
            <= u32::MAX),
    ensures
        forall|c: int, b: int|
            !(#[trigger] xref_of_string(ad, arch, base, sb, c) && #[trigger] is_first_bl_from(
                ad,
                arch,
                c,
                b,
            ) && bl_target_u32(ad, arch, b, base)),
{
    assert forall|c: int, b: int|
        !(#[trigger] xref_of_string(ad, arch, base, sb, c) && #[trigger] is_first_bl_from(
            ad,
            arch,
            c,
            b,
        ) && bl_target_u32(ad, arch, b, base)) by {
        if xref_of_string(ad, arch, base, sb, c) && is_first_bl_from(ad, arch, c, b) {
            crate::analysis::lemma_xref_of_string_unique(ad, arch, base, sb, c, c0);
            crate::analysis::lemma_first_bl_unique(ad, arch, c0, b, b0);
        }
    }
}

/// With the located `BL` branching outside the image, no chain of that
/// string lands inside it.
proof fn lemma_no_bl_image(ad: Seq<u8>, arch: Arch, base: int, sb: Seq<u8>, c0: int, b0: int)
    requires
        xref_of_string(ad, arch, base, sb, c0),
        is_first_bl_from(ad, arch, c0, b0),
        !bl_target_in_image(ad, arch, b0, base),
    ensures
        forall|c: int, b: int|
            !(#[trigger] xref_of_string(ad, arch, base, sb, c) && #[trigger] is_first_bl_from(
                ad,
                arch,
                c,
                b,
            ) && bl_target_in_image(ad, arch, b, base)),
{
    assert forall|c: int, b: int|
        !(#[trigger] xref_of_string(ad, arch, base, sb, c) && #[trigger] is_first_bl_from(
            ad,
            arch,
            c,
            b,
        ) && bl_target_in_image(ad, arch, b, base)) by {
        if xref_of_string(ad, arch, base, sb, c) && is_first_bl_from(ad, arch, c, b) {
            crate::analysis::lemma_xref_of_string_unique(ad, arch, base, sb, c, c0);
            crate::analysis::lemma_first_bl_unique(ad, arch, c0, b, b0);
        }
    }
}

/// With the allocator's `BL` missing after the registration function, the
/// registration chain cannot hold in full.
proof fn lemma_no_malloc_bl(ad: Seq<u8>, arch: Arch, base: int, c0: int, b0: int, m0: int)
    requires
        xref_of_string(ad, arch, base, "CMD:REBOOT".spec_bytes(), c0),
        is_first_bl_from(ad, arch, c0, b0),
        bl_target_in_image(ad, arch, b0, base),
        m0 == spec_bl_target(ad, arch, b0, base) - base,
        crate::analysis::no_bl_from(ad, arch, m0),
    ensures
        forall|c: int, b: int|
            !(#[trigger] xref_of_string(ad, arch, base, "CMD:REBOOT".spec_bytes(), c)
                && #[trigger] is_first_bl_from(ad, arch, c, b) && bl_target_in_image(
                ad,
                arch,
                b,
                base,
            ) && (exists|b2: int|
                #[trigger] is_first_bl_from(ad, arch, spec_bl_target(ad, arch, b, base) - base, b2)
                    && bl_target_u32(ad, arch, b2, base))),
{
    assert forall|c: int, b: int|
        !(#[trigger] xref_of_string(ad, arch, base, "CMD:REBOOT".spec_bytes(), c)
            && #[trigger] is_first_bl_from(ad, arch, c, b) && bl_target_in_image(ad, arch, b, base)
            && (exists|b2: int|
            #[trigger] is_first_bl_from(ad, arch, spec_bl_target(ad, arch, b, base) - base, b2)
                && bl_target_u32(ad, arch, b2, base))) by {
        if xref_of_string(ad, arch, base, "CMD:REBOOT".spec_bytes(), c) && is_first_bl_from(
            ad,
            arch,
            c,
            b,
        ) {
            crate::analysis::lemma_xref_of_string_unique(
                ad,
                arch,
                base,
                "CMD:REBOOT".spec_bytes(),
                c,
                c0,
            );
            crate::analysis::lemma_first_bl_unique(ad, arch, c0, b, b0);
        }
    }
}

/// With the allocator's `BL` target outside the 32-bit space, the
/// registration chain cannot hold in full.
proof fn lemma_no_malloc_target(
    ad: Seq<u8>,
    arch: Arch,
    base: int,
    c0: int,
    b0: int,
    m0: int,
    mb0: int,
)
    requires
        xref_of_string(ad, arch, base, "CMD:REBOOT".spec_bytes(), c0),
        is_first_bl_from(ad, arch, c0, b0),
        bl_target_in_image(ad, arch, b0, base),
        m0 == spec_bl_target(ad, arch, b0, base) - base,
        is_first_bl_from(ad, arch, m0, mb0),
        !crate::analysis::is_bl_at(ad, arch, mb0) || !(0 <= spec_bl_target(ad, arch, mb0, base)
            <= u32::MAX),
    ensures
        forall|c: int, b: int|
            !(#[trigger] xref_of_string(ad, arch, base, "CMD:REBOOT".spec_bytes(), c)
                && #[trigger] is_first_bl_from(ad, arch, c, b) && bl_target_in_image(
                ad,
                arch,
                b,
                base,
            ) && (exists|b2: int|
                #[trigger] is_first_bl_from(ad, arch, spec_bl_target(ad, arch, b, base) - base, b2)
                    && bl_target_u32(ad, arch, b2, base))),
{
    assert forall|c: int, b: int|
        !(#[trigger] xref_of_string(ad, arch, base, "CMD:REBOOT".spec_bytes(), c)
            && #[trigger] is_first_bl_from(ad, arch, c, b) && bl_target_in_image(ad, arch, b, base)
            && (exists|b2: int|
            #[trigger] is_first_bl_from(ad, arch, spec_bl_target(ad, arch, b, base) - base, b2)
                && bl_target_u32(ad, arch, b2, base))) by {
        if xref_of_string(ad, arch, base, "CMD:REBOOT".spec_bytes(), c) && is_first_bl_from(
            ad,
            arch,
            c,
            b,
        ) && bl_target_in_image(ad, arch, b, base) {
            crate::analysis::lemma_xref_of_string_unique(
                ad,
                arch,
                base,
                "CMD:REBOOT".spec_bytes(),
                c,
                c0,
            );
            crate::analysis::lemma_first_bl_unique(ad, arch, c0, b, b0);
            if exists|b2: int|
                #[trigger] is_first_bl_from(ad, arch, spec_bl_target(ad, arch, b, base) - base, b2)
                    && bl_target_u32(ad, arch, b2, base) {
                let b2 = choose|b2: int|
                    #[trigger] is_first_bl_from(
                        ad,
                        arch,
                        spec_bl_target(ad, arch, b, base) - base,
                        b2,
                    ) && bl_target_u32(ad, arch, b2, base);
                crate::analysis::lemma_first_bl_unique(ad, arch, m0, b2, mb0);
            }
        }
    }
}

/// A break anywhere along the release/XML-loader walk from `Bad %s` leaves
/// the walk unsatisfiable: `step` names the stage that failed.
proof fn lemma_no_free_chain(
    ad: Seq<u8>,
    arch: Arch,
    base: int,
    c0: int,
    step: int,
    b1v: int,
    b2v: int,
)
    requires
        xref_of_string(ad, arch, base, "Bad %s".spec_bytes(), c0),
        step == 0 ==> crate::analysis::no_bl_from(ad, arch, c0),
        step == 1 ==> is_first_bl_from(ad, arch, c0, b1v) && crate::analysis::no_bl_from(
            ad,
            arch,
            b1v + 4,
        ),
        step == 2 ==> is_first_bl_from(ad, arch, c0, b1v) && is_first_bl_from(
            ad,
            arch,
            b1v + 4,
            b2v,
        ) && (!crate::analysis::is_bl_at(ad, arch, b2v) || !(0 <= spec_bl_target(
            ad,
            arch,
            b2v,
            base,
        ) <= u32::MAX)),
        step == 3 ==> crate::analysis::no_enclosing_start(ad, arch, c0),
        0 <= step <= 3,
    ensures
        forall|c: int, b1: int, b2: int|
            !(#[trigger] xref_of_string(ad, arch, base, "Bad %s".spec_bytes(), c)
                && #[trigger] is_first_bl_from(ad, arch, c, b1) && #[trigger] is_first_bl_from(
                ad,
                arch,
                b1 + 4,
                b2,
            ) && bl_target_u32(ad, arch, b2, base) && (exists|fls: int|
                crate::analysis::is_enclosing_start(ad, arch, fls, c))),
{
    assert forall|c: int, b1: int, b2: int|
        !(#[trigger] xref_of_string(ad, arch, base, "Bad %s".spec_bytes(), c)
            && #[trigger] is_first_bl_from(ad, arch, c, b1) && #[trigger] is_first_bl_from(
            ad,
            arch,
            b1 + 4,
            b2,
        ) && bl_target_u32(ad, arch, b2, base) && (exists|fls: int|
            crate::analysis::is_enclosing_start(ad, arch, fls, c))) by {
        if xref_of_string(ad, arch, base, "Bad %s".spec_bytes(), c) && is_first_bl_from(
            ad,
            arch,
            c,
            b1,
        ) && is_first_bl_from(ad, arch, b1 + 4, b2) {
            crate::analysis::lemma_xref_of_string_unique(
                ad,
                arch,
                base,
                "Bad %s".spec_bytes(),
                c,
                c0,
            );
            if step == 1 || step == 2 {
                crate::analysis::lemma_first_bl_unique(ad, arch, c0, b1, b1v);
            }
            if step == 2 {
                crate::analysis::lemma_first_bl_unique(ad, arch, b1v + 4, b2, b2v);
            }
            if step == 3 {
                if exists|fls: int| crate::analysis::is_enclosing_start(ad, arch, fls, c) {
                    let fls = choose|fls: int|
                        crate::analysis::is_enclosing_start(ad, arch, fls, c);
                    assert(crate::analysis::prologue_at(ad, arch, fls));
                }
            }
        }
    }
}

} // verus!
