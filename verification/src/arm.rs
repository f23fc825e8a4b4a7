//! ARM (A32 and Thumb) instruction helpers: `BL` encoding, the
//! immediate-return stub, and Thumb interworking addresses.

use vstd::prelude::*;
use crate::error::Error;
use crate::patching::u32_le;

verus! {

/// The A32 `BL` immediate field for a branch from `from` to `to`: the word
/// offset past the 8-byte pipeline prefetch, in 24-bit two's complement.
pub open spec fn spec_bl_arm_imm24(from: int, to: int) -> int {
    ((to - from - 8) / 4) % 0x1000000
}

/// An A32 `BL from, to` instruction word (condition `AL`).
pub open spec fn spec_bl_arm(from: int, to: int) -> u32 {
    (0xEB000000 + spec_bl_arm_imm24(from, to)) as u32
}

/// Encodes an A32 `BL` from `from` to `to`. Fails when the displacement is
/// not word-aligned or does not fit the 24-bit immediate (+/- 32 MB).
pub fn encode_bl_arm(from: u32, to: u32) -> (r: Result<u32, Error>)
    ensures
        r is Ok <==> (to - from - 8) % 4 == 0 && -0x800000 <= (to - from - 8) / 4 < 0x800000,
        r matches Ok(w) ==> w == spec_bl_arm(from as int, to as int),
{
    if to >= from && to - from >= 8 {
        let d = to - from - 8;
        if d % 4 != 0 || d / 4 >= 0x800000 {
            return Err(Error::penumbra("BL target out of range"));
        }
        Ok(0xEB000000 + d / 4)
    } else {
        if to < from && from - to > 0x2000000 - 8 {
            return Err(Error::penumbra("BL target out of range"));
        }
        let d = if to >= from {
            8 - (to - from)
        } else {
            (from - to) + 8
        };
        if d % 4 != 0 || d / 4 > 0x800000 {
            return Err(Error::penumbra("BL target out of range"));
        }
        let imm: u32 = 0x1000000 - d / 4;
        proof {
            let delta = to - from as int - 8;
            assert(delta == -(d as int));
            assert(delta / 4 == -((d / 4) as int)) by {
                assert(d as int % 4 == 0);
            }
            assert((delta / 4) % 0x1000000 == 0x1000000 - (d as int) / 4) by {
                let q = (d as int) / 4;
                assert(0 < q <= 0x800000);
                assert((-q) % 0x1000000 == 0x1000000 - q);
            }
        }
        Ok(0xEB000000 + imm)
    }
}

/// The address a Thumb pointer slot takes: the value rebased on the load
/// address, with the interworking bit set.
pub fn to_thumb_addr(value: u32, base_addr: u32) -> (r: u32)
    requires
        value + base_addr <= u32::MAX,
    ensures
        r == (value + base_addr) as u32 | 1,
{
    (value + base_addr) | 1
}

/// The A32 immediate-return stub written over a function prologue:
/// `mov r2, #0; stmia r0, {r2}; mov r0, #0; bx lr`.
pub open spec fn arm_ret0_stub() -> Seq<u8> {
    seq![
        0x00u8,
        0x20u8,
        0xA0u8,
        0xE3u8,
        0x04u8,
        0x00u8,
        0x80u8,
        0xE8u8,
        0x00u8,
        0x00u8,
        0xA0u8,
        0xE3u8,
        0x1Eu8,
        0xFFu8,
        0x2Fu8,
        0xE1u8,
    ]
}

/// Overwrites the code at `offset` with an immediate return of `value`: in
/// A32, `mov r0, #value; bx lr`; in Thumb, `movs r0, #value; bx lr`. Fails,
/// leaving the data unchanged, when the stub does not fit.
pub fn force_return(data: &mut Vec<u8>, offset: usize, value: u8, thumb: bool) -> (r: Result<
    (),
    Error,
>)
    ensures
        !thumb ==> (r is Ok <==> offset + 8 <= old(data)@.len()),
        thumb ==> (r is Ok <==> offset + 4 <= old(data)@.len()),
        r is Ok && !thumb ==> final(data)@ =~= old(data)@.subrange(0, offset as int) + u32_le(
            (0xE3A00000 + value as u32) as u32,
        ) + u32_le(0xE12FFF1E) + old(data)@.subrange(offset + 8, old(data)@.len() as int),
        r is Ok && thumb ==> final(data)@ =~= old(data)@.subrange(0, offset as int) + seq![
            value,
            0x20u8,
            0x70u8,
            0x47u8,
        ] + old(data)@.subrange(offset + 4, old(data)@.len() as int),
        r is Err ==> final(data)@ == old(data)@,
{
    if thumb {
        if data.len() < 4 || offset > data.len() - 4 {
            return Err(Error::penumbra("Return stub exceeds data bounds"));
        }
        data.set(offset, value);
        data.set(offset + 1, 0x20);
        data.set(offset + 2, 0x70);
        data.set(offset + 3, 0x47);
        proof {
            assert(data@ =~= old(data)@.subrange(0, offset as int) + seq![
                value,
                0x20u8,
                0x70u8,
                0x47u8,
            ] + old(data)@.subrange(offset + 4, old(data)@.len() as int));
        }
        Ok(())
    } else {
        if data.len() < 8 || offset > data.len() - 8 {
            return Err(Error::penumbra("Return stub exceeds data bounds"));
        }
        let mov: u32 = 0xE3A00000 + value as u32;
        let bx: u32 = 0xE12FFF1E;
        data.set(offset, (mov & 0xFF) as u8);
        data.set(offset + 1, ((mov >> 8) & 0xFF) as u8);
        data.set(offset + 2, ((mov >> 16) & 0xFF) as u8);
        data.set(offset + 3, ((mov >> 24) & 0xFF) as u8);
        data.set(offset + 4, (bx & 0xFF) as u8);
        data.set(offset + 5, ((bx >> 8) & 0xFF) as u8);
        data.set(offset + 6, ((bx >> 16) & 0xFF) as u8);
        data.set(offset + 7, ((bx >> 24) & 0xFF) as u8);
        proof {
            assert(data@ =~= old(data)@.subrange(0, offset as int) + u32_le(mov) + u32_le(bx) + old(
                data,
            )@.subrange(offset + 8, old(data)@.len() as int));
        }
        Ok(())
    }
}

} // verus!
