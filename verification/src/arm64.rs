//! AArch64 instruction helpers: `BL` encoding and the immediate-return stub
//! used to neuter security functions in the DA.

use vstd::prelude::*;
use crate::error::Error;
use crate::patching::u32_le;

verus! {

/// The `BL` immediate field for a branch from `from` to `to`: the word
/// offset, in 26-bit two's complement.
pub open spec fn spec_bl_imm26(from: int, to: int) -> int {
    ((to - from) / 4) % 0x4000000
}

/// An AArch64 `BL from, to` instruction word.
pub open spec fn spec_bl(from: int, to: int) -> u32 {
    (0x94000000 + spec_bl_imm26(from, to)) as u32
}

/// Encodes an AArch64 `BL` from `from` to `to`. Fails when the displacement
/// is not word-aligned or does not fit the 26-bit immediate (+/- 128 MB).
pub fn encode_bl(from: u32, to: u32) -> (r: Result<u32, Error>)
    ensures
        r is Ok <==> (to - from) % 4 == 0 && -0x2000000 <= (to - from) / 4 < 0x2000000,
        r matches Ok(w) ==> w == spec_bl(from as int, to as int),
{
    if to >= from {
        let d = to - from;
        if d % 4 != 0 || d / 4 >= 0x2000000 {
            return Err(Error::penumbra("BL target out of range"));
        }
        Ok(0x94000000 + d / 4)
    } else {
        let d = from - to;
        if d % 4 != 0 || d / 4 > 0x2000000 {
            return Err(Error::penumbra("BL target out of range"));
        }
        let imm: u32 = 0x4000000 - d / 4;
        proof {
            let delta = to - from as int;
            assert(delta == -(d as int));
            assert(delta / 4 == -((d / 4) as int)) by {
                assert(d as int % 4 == 0);
            }
            assert((delta / 4) % 0x4000000 == 0x4000000 - (d as int) / 4) by {
                let q = (d as int) / 4;
                assert(0 < q <= 0x2000000);
                assert((-q) % 0x4000000 == 0x4000000 - q);
            }
        }
        Ok(0x94000000 + imm)
    }
}

/// The AArch64 immediate-return stub: `str xzr, [x0]; mov x0, #0; ret`,
/// which stores zero through the first argument and returns zero.
pub open spec fn a64_ret0_stub() -> Seq<u8> {
    seq![
        0x1Fu8,
        0x00u8,
        0x00u8,
        0xB9u8,
        0x00u8,
        0x00u8,
        0x80u8,
        0xD2u8,
        0xC0u8,
        0x03u8,
        0x5Fu8,
        0xD6u8,
    ]
}

/// Overwrites the instruction at `offset` with `mov x0, #value; ret`, an
/// immediate return. Fails, leaving the data unchanged, when the eight bytes
/// do not fit.
pub fn force_return(data: &mut Vec<u8>, offset: usize, value: u16) -> (r: Result<(), Error>)
    ensures
        r is Ok <==> offset + 8 <= old(data)@.len(),
        r is Ok ==> final(data)@ =~= old(data)@.subrange(0, offset as int) + u32_le(
            (0xD2800000 + (value as u32) * 32) as u32,
        ) + u32_le(0xD65F03C0) + old(data)@.subrange(offset + 8, old(data)@.len() as int),
        r is Err ==> final(data)@ == old(data)@,
{
    if data.len() < 8 || offset > data.len() - 8 {
        return Err(Error::penumbra("Return stub exceeds data bounds"));
    }
    let movz: u32 = 0xD2800000 + (value as u32) * 32;
    let ret: u32 = 0xD65F03C0;
    data.set(offset, (movz & 0xFF) as u8);
    data.set(offset + 1, ((movz >> 8) & 0xFF) as u8);
    data.set(offset + 2, ((movz >> 16) & 0xFF) as u8);
    data.set(offset + 3, ((movz >> 24) & 0xFF) as u8);
    data.set(offset + 4, (ret & 0xFF) as u8);
    data.set(offset + 5, ((ret >> 8) & 0xFF) as u8);
    data.set(offset + 6, ((ret >> 16) & 0xFF) as u8);
    data.set(offset + 7, ((ret >> 24) & 0xFF) as u8);
    proof {
        assert(data@ =~= old(data)@.subrange(0, offset as int) + u32_le(movz) + u32_le(ret) + old(
            data,
        )@.subrange(offset + 8, old(data)@.len() as int));
    }
    Ok(())
}

} // verus!
