//! ARM/AArch64 code analysis over a raw DA image: string xrefs, enclosing
//! function starts, `BL` branches and their targets, as pure functions of
//! the bytes and the load address.

use vstd::prelude::*;
use vstd::string::StringSliceAdditionalSpecFns;
use crate::patching::{
    bytes_match_at,
    is_first_bytes_match,
    contains_bytes,
    read_le16,
    read_le32,
    spec_u16_at,
    spec_u32_at,
    HEX_NOT_FOUND,
};

verus! {

/// Instruction set of a DA image: 32-bit Thumb-2 code or AArch64 code.
#[derive(Debug, Copy, Clone, Eq, PartialEq, Structural)]
pub enum Arch {
    Arm,
    Aarch64,
}

/// Analyses a DA image in memory. The analysis is a pure function of the
/// image bytes and the virtual address the image is loaded at.
pub struct CodeAnalyzer {
    pub data: Vec<u8>,
    pub base: u32,
    pub arch: Arch,
}

/// Instruction stride of the architecture: Thumb-2 code is scanned in
/// halfwords, AArch64 code in words.
pub open spec fn spec_step(arch: Arch) -> int {
    match arch {
        Arch::Arm => 2,
        Arch::Aarch64 => 4,
    }
}

/// An AArch64 `BL` instruction starts at `i`.
pub open spec fn a64_is_bl_at(d: Seq<u8>, i: int) -> bool {
    &&& 0 <= i
    &&& i + 4 <= d.len()
    &&& spec_u32_at(d, i) & 0xFC000000 == 0x94000000
}

/// The branch target of the AArch64 `BL` at `i`, as a virtual address.
pub open spec fn a64_bl_target(d: Seq<u8>, i: int, base: int) -> int {
    let imm26 = (spec_u32_at(d, i) & 0x03FFFFFF) as int;
    let off = if imm26 >= 0x2000000 {
        imm26 - 0x4000000
    } else {
        imm26
    };
    base + i + off * 4
}

/// A Thumb-2 `BL` instruction starts at `i` (two halfwords).
pub open spec fn thumb_is_bl_at(d: Seq<u8>, i: int) -> bool {
    &&& 0 <= i
    &&& i + 4 <= d.len()
    &&& spec_u16_at(d, i) & 0xF800 == 0xF000
    &&& spec_u16_at(d, i + 2) & 0xD000 == 0xD000
}

/// The branch target of the Thumb-2 `BL` at `i`, as a virtual address.
pub open spec fn thumb_bl_target(d: Seq<u8>, i: int, base: int) -> int {
    let hw1 = spec_u16_at(d, i) as int;
    let hw2 = spec_u16_at(d, i + 2) as int;
    let s = (hw1 / 0x400) % 2;
    let imm10 = hw1 % 0x400;
    let j1 = (hw2 / 0x2000) % 2;
    let j2 = (hw2 / 0x800) % 2;
    let imm11 = hw2 % 0x800;
    let i1 = 1 - ((j1 + s) % 2);
    let i2 = 1 - ((j2 + s) % 2);
    let raw = s * 0x1000000 + i1 * 0x800000 + i2 * 0x400000 + imm10 * 0x1000 + imm11 * 2;
    let off = if s == 1 {
        raw - 0x2000000
    } else {
        raw
    };
    base + i + 4 + off
}

/// A `BL` instruction of the given architecture starts at `i`.
pub open spec fn is_bl_at(d: Seq<u8>, arch: Arch, i: int) -> bool {
    match arch {
        Arch::Arm => thumb_is_bl_at(d, i),
        Arch::Aarch64 => a64_is_bl_at(d, i),
    }
}

/// The branch target of the `BL` at `i`, as a virtual address.
pub open spec fn spec_bl_target(d: Seq<u8>, arch: Arch, i: int, base: int) -> int {
    match arch {
        Arch::Arm => thumb_bl_target(d, i, base),
        Arch::Aarch64 => a64_bl_target(d, i, base),
    }
}

/// An `ADRP`+`ADD` pair at `i` materialises the virtual address `va`.
pub open spec fn a64_xref_at(d: Seq<u8>, i: int, base: int, va: int) -> bool {
    &&& 0 <= i
    &&& i + 8 <= d.len()
    &&& i % 4 == 0
    &&& {
        let w1 = spec_u32_at(d, i);
        let w2 = spec_u32_at(d, i + 4);
        &&& w1 & 0x9F000000 == 0x90000000
        &&& w2 & 0xFFC00000 == 0x91000000
        &&& (w2 >> 5) & 0x1F == w1 & 0x1F
        &&& {
            let immlo = ((w1 >> 29) & 0x3) as int;
            let immhi = ((w1 >> 5) & 0x7FFFF) as int;
            let imm21 = immhi * 4 + immlo;
            let page_delta = if imm21 >= 0x100000 {
                (imm21 - 0x200000) * 0x1000
            } else {
                imm21 * 0x1000
            };
            let pc = base + i;
            let page = pc - (pc % 0x1000);
            let imm12 = ((w2 >> 10) & 0xFFF) as int;
            page + page_delta + imm12 == va
        }
    }
}

/// A Thumb-2 `MOVW`+`MOVT` pair at `i` materialises the virtual address `va`.
pub open spec fn thumb_xref_at(d: Seq<u8>, i: int, va: int) -> bool {
    &&& 0 <= i
    &&& i + 8 <= d.len()
    &&& {
        let hw1 = spec_u16_at(d, i);
        let hw2 = spec_u16_at(d, i + 2);
        let hw3 = spec_u16_at(d, i + 4);
        let hw4 = spec_u16_at(d, i + 6);
        &&& hw1 & 0xFBF0 == 0xF240
        &&& hw3 & 0xFBF0 == 0xF2C0
        &&& (hw2 >> 8) & 0xF == (hw4 >> 8) & 0xF
        &&& thumb_mov_imm16(hw1, hw2) as int + (thumb_mov_imm16(hw3, hw4) as int) * 0x10000 == va
    }
}

/// The 16-bit immediate of a Thumb-2 `MOVW`/`MOVT` instruction pair of
/// halfwords.
pub open spec fn thumb_mov_imm16(hw1: u16, hw2: u16) -> u16 {
    ((hw1 & 0xF) << 12) | (((hw1 >> 10) & 1) << 11) | (((hw2 >> 12) & 0x7) << 8) | (hw2 & 0xFF)
}

/// A code sequence at `i` references the virtual address `va`.
pub open spec fn xref_at(d: Seq<u8>, arch: Arch, i: int, base: int, va: int) -> bool {
    match arch {
        Arch::Arm => thumb_xref_at(d, i, va),
        Arch::Aarch64 => a64_xref_at(d, i, base, va),
    }
}

/// A function prologue starts at `i`: `push {.., lr}` in Thumb code,
/// `paciasp` or `stp x29, x30, [sp, #-n]!` in AArch64 code.
pub open spec fn prologue_at(d: Seq<u8>, arch: Arch, i: int) -> bool {
    match arch {
        Arch::Arm => {
            &&& 0 <= i
            &&& i + 2 <= d.len()
            &&& spec_u16_at(d, i) & 0xFF00 == 0xB500
        },
        Arch::Aarch64 => {
            &&& 0 <= i
            &&& i + 4 <= d.len()
            &&& {
                let w = spec_u32_at(d, i);
                w == 0xD503233F || (w & 0xFFC003FF) == 0xA98003FD
            }
        },
    }
}

impl CodeAnalyzer {
    /// The image fits the 32-bit address space from its load address on.
    pub open spec fn wf(&self) -> bool {
        self.base as int + self.data@.len() <= 0xFFFFFFFF
    }

    pub fn new(data: Vec<u8>, base: u32, arch: Arch) -> (r: CodeAnalyzer)
        requires
            base as int + data@.len() <= 0xFFFFFFFF,
        ensures
            r.wf(),
            r.data == data,
            r.base == base,
            r.arch == arch,
    {
        CodeAnalyzer { data, base, arch }
    }

    /// Instruction stride of the architecture.
    pub fn step(&self) -> (r: usize)
        ensures
            r == spec_step(self.arch),
    {
        match self.arch {
            Arch::Arm => 2,
            Arch::Aarch64 => 4,
        }
    }

    /// The virtual address of an image offset.
    pub fn offset_to_va(&self, offset: usize) -> (r: Option<u32>)
        requires
            self.wf(),
        ensures
            r matches Some(va) ==> offset <= self.data@.len() && va == self.base + offset,
            r is None ==> offset > self.data@.len(),
    {
        if offset > self.data.len() {
            return None;
        }
        Some(self.base + offset as u32)
    }

    /// The image offset of a virtual address.
    pub fn va_to_offset(&self, va: u32) -> (r: Option<usize>)
        requires
            self.wf(),
        ensures
            r matches Some(off) ==> va >= self.base && off == va - self.base && off
                <= self.data@.len(),
            r is None ==> va < self.base || va - self.base > self.data@.len(),
    {
        if va < self.base {
            return None;
        }
        let off = (va - self.base) as usize;
        if off > self.data.len() {
            return None;
        }
        Some(off)
    }

    /// True when a `BL` instruction of this architecture starts at `i`.
    fn is_bl(&self, i: usize) -> (r: bool)
        ensures
            r == is_bl_at(self.data@, self.arch, i as int),
    {
        if i > self.data.len() || self.data.len() - i < 4 {
            return false;
        }
        match self.arch {
            Arch::Aarch64 => {
                let w = read_le32(self.data.as_slice(), i);
                w & 0xFC000000 == 0x94000000
            },
            Arch::Arm => {
                let hw1 = read_le16(self.data.as_slice(), i);
                let hw2 = read_le16(self.data.as_slice(), i + 2);
                hw1 & 0xF800 == 0xF000 && hw2 & 0xD000 == 0xD000
            },
        }
    }

    /// Finds the offset of the first `BL` instruction at or after `off`,
    /// scanning at the architecture's instruction stride.
    pub fn get_next_bl_from_off(&self, off: usize) -> (r: Option<usize>)
        ensures
            r matches Some(i) ==> is_first_bl_from(self.data@, self.arch, off as int, i as int),
            r is None ==> no_bl_from(self.data@, self.arch, off as int),
    {
        let step = self.step();
        let dlen = self.data.len();
        let mut i: usize = off;
        if dlen >= 4 {
            while i <= dlen - 4
                invariant
                    dlen >= 4,
                    step == spec_step(self.arch),
                    dlen == self.data@.len(),
                    off <= i,
                    (i - off) % step as int == 0,
                    forall|j: int|
                        off <= j < i && (j - off) % spec_step(self.arch) == 0 ==> !is_bl_at(
                            self.data@,
                            self.arch,
                            j,
                        ),
                decreases dlen - i,
            {
                if self.is_bl(i) {
                    return Some(i);
                }
                i += step;
            }
        }
        assert forall|j: int|
            j >= off && (j - off) % spec_step(self.arch) == 0 implies !is_bl_at(
            self.data@,
            self.arch,
            j,
        ) by {
            if j >= i {
                assert(j + 4 > self.data@.len());
            }
        }
        None
    }

    /// The branch target of the `BL` at `bl_off`, as a virtual address, when
    /// it lands inside the 32-bit address space.
    pub fn get_bl_target(&self, bl_off: usize) -> (r: Option<u32>)
        requires
            self.wf(),
        ensures
            r matches Some(va) ==> is_bl_at(self.data@, self.arch, bl_off as int) && va
                == spec_bl_target(self.data@, self.arch, bl_off as int, self.base as int),
            r is None ==> !is_bl_at(self.data@, self.arch, bl_off as int) || !(0 <= spec_bl_target(
                self.data@,
                self.arch,
                bl_off as int,
                self.base as int,
            ) <= u32::MAX),
    {
        if !self.is_bl(bl_off) {
            return None;
        }
        match self.arch {
            Arch::Aarch64 => {
                let w = read_le32(self.data.as_slice(), bl_off);
                let imm26: u32 = w & 0x03FFFFFF;
                let pc: i64 = self.base as i64 + bl_off as i64;
                let off: i64 = if imm26 >= 0x2000000 {
                    imm26 as i64 - 0x4000000
                } else {
                    imm26 as i64
                };
                let target: i64 = pc + off * 4;
                if target < 0 || target > u32::MAX as i64 {
                    return None;
                }
                Some(target as u32)
            },
            Arch::Arm => {
                let hw1 = read_le16(self.data.as_slice(), bl_off) as i64;
                let hw2 = read_le16(self.data.as_slice(), bl_off + 2) as i64;
                let s = (hw1 / 0x400) % 2;
                let imm10 = hw1 % 0x400;
                let j1 = (hw2 / 0x2000) % 2;
                let j2 = (hw2 / 0x800) % 2;
                let imm11 = hw2 % 0x800;
                let i1 = 1 - ((j1 + s) % 2);
                let i2 = 1 - ((j2 + s) % 2);
                let raw = s * 0x1000000 + i1 * 0x800000 + i2 * 0x400000 + imm10 * 0x1000 + imm11
                    * 2;
                let off: i64 = if s == 1 {
                    raw - 0x2000000
                } else {
                    raw
                };
                let target: i64 = self.base as i64 + bl_off as i64 + 4 + off;
                if target < 0 || target > u32::MAX as i64 {
                    return None;
                }
                Some(target as u32)
            },
        }
    }

    /// The image offset of the branch target of the `BL` at `bl_off`, when
    /// the target lies inside the image.
    pub fn get_bl_target_offset(&self, bl_off: usize) -> (r: Option<usize>)
        requires
            self.wf(),
        ensures
            r is Some <==> bl_target_in_image(
                self.data@,
                self.arch,
                bl_off as int,
                self.base as int,
            ),
            r matches Some(off) ==> off == spec_bl_target(
                self.data@,
                self.arch,
                bl_off as int,
                self.base as int,
            ) - self.base,
    {
        let va = match self.get_bl_target(bl_off) {
            Some(va) => va,
            None => {
                return None;
            },
        };
        self.va_to_offset(va)
    }
}

/// `i` is the first stepped offset whose code references the address `va`.
pub open spec fn is_first_xref_to(d: Seq<u8>, arch: Arch, base: int, va: int, i: int) -> bool {
    &&& i % spec_step(arch) == 0
    &&& xref_at(d, arch, i, base, va)
    &&& forall|j: int| 0 <= j < i && j % spec_step(arch) == 0 ==> !xref_at(d, arch, j, base, va)
}

/// No stepped offset references the address `va`.
pub open spec fn no_stepped_xref_to(d: Seq<u8>, arch: Arch, base: int, va: int) -> bool {
    forall|j: int| j >= 0 && j % spec_step(arch) == 0 ==> !xref_at(d, arch, j, base, va)
}

/// `f` is the nearest prologue at or before `from`, at the architecture's
/// stride.
pub open spec fn is_enclosing_start(d: Seq<u8>, arch: Arch, f: int, from: int) -> bool {
    &&& 0 <= f <= from
    &&& (from - f) % spec_step(arch) == 0
    &&& prologue_at(d, arch, f)
    &&& forall|j: int|
        f < j <= from && (from - j) % spec_step(arch) == 0 ==> !prologue_at(d, arch, j)
}

/// No prologue stands at or before `from` at the architecture's stride.
pub open spec fn no_enclosing_start(d: Seq<u8>, arch: Arch, from: int) -> bool {
    forall|j: int|
        0 <= j <= from && (from - j) % spec_step(arch) == 0 ==> !prologue_at(d, arch, j)
}

/// No stepped `BL` instruction stands at or after `off`.
pub open spec fn no_bl_from(d: Seq<u8>, arch: Arch, off: int) -> bool {
    forall|j: int| j >= off && (j - off) % spec_step(arch) == 0 ==> !is_bl_at(d, arch, j)
}

/// No code of the image references the first occurrence of the string.
pub open spec fn no_xref_for_string(d: Seq<u8>, arch: Arch, base: int, sb: Seq<u8>) -> bool {
    ||| sb.len() == 0
    ||| d.len() == 0
    ||| forall|p: int|
        #[trigger] is_first_bytes_match(d, sb, p) ==> no_stepped_xref_to(d, arch, base, base + p)
}

/// `i` is the first stepped offset whose code references the first
/// occurrence of the string.
pub open spec fn xref_of_string(d: Seq<u8>, arch: Arch, base: int, sb: Seq<u8>, i: int) -> bool {
    exists|p: int|
        #[trigger] is_first_bytes_match(d, sb, p) && is_first_xref_to(d, arch, base, base + p, i)
}

/// `i` is the first stepped `BL` instruction at or after `off`.
pub open spec fn is_first_bl_from(d: Seq<u8>, arch: Arch, off: int, i: int) -> bool {
    &&& i >= off
    &&& (i - off) % spec_step(arch) == 0
    &&& is_bl_at(d, arch, i)
    &&& forall|j: int| off <= j < i && (j - off) % spec_step(arch) == 0 ==> !is_bl_at(d, arch, j)
}

/// The `BL` at `i` branches to an address inside the image.
pub open spec fn bl_target_in_image(d: Seq<u8>, arch: Arch, i: int, base: int) -> bool {
    &&& is_bl_at(d, arch, i)
    &&& base <= spec_bl_target(d, arch, i, base) <= base + d.len()
}

/// `f` starts the function whose code references the first occurrence of the
/// string: the string's first occurrence, the first xref to it, and the
/// enclosing prologue.
pub open spec fn found_func_for(d: Seq<u8>, arch: Arch, base: int, sb: Seq<u8>, f: int) -> bool {
    exists|p: int, i: int|
        {
            &&& #[trigger] is_first_bytes_match(d, sb, p)
            &&& #[trigger] is_first_xref_to(d, arch, base, base + p, i)
            &&& is_enclosing_start(d, arch, f, i)
        }
}

/// No function of the image references the string.
pub open spec fn no_func_for_string(d: Seq<u8>, arch: Arch, base: int, sb: Seq<u8>) -> bool {
    forall|f: int| !#[trigger] found_func_for(d, arch, base, sb, f)
}

impl CodeAnalyzer {
    /// True when the code at `i` references the virtual address `va`.
    fn xref_check(&self, i: usize, va: u32) -> (r: bool)
        requires
            self.wf(),
        ensures
            r == xref_at(self.data@, self.arch, i as int, self.base as int, va as int),
    {
        if i > self.data.len() || self.data.len() - i < 8 {
            return false;
        }
        match self.arch {
            Arch::Aarch64 => {
                if i % 4 != 0 {
                    return false;
                }
                let w1 = read_le32(self.data.as_slice(), i);
                let w2 = read_le32(self.data.as_slice(), i + 4);
                if w1 & 0x9F000000 != 0x90000000 {
                    return false;
                }
                if w2 & 0xFFC00000 != 0x91000000 {
                    return false;
                }
                if (w2 >> 5) & 0x1F != w1 & 0x1F {
                    return false;
                }
                let immlo: i64 = ((w1 >> 29) & 0x3) as i64;
                let immhi: i64 = ((w1 >> 5) & 0x7FFFF) as i64;
                let imm21: i64 = immhi * 4 + immlo;
                let page_delta: i64 = if imm21 >= 0x100000 {
                    (imm21 - 0x200000) * 0x1000
                } else {
                    imm21 * 0x1000
                };
                let pc: i64 = self.base as i64 + i as i64;
                let page: i64 = pc - pc % 0x1000;
                let imm12: i64 = ((w2 >> 10) & 0xFFF) as i64;
                page + page_delta + imm12 == va as i64
            },
            Arch::Arm => {
                let hw1 = read_le16(self.data.as_slice(), i);
                let hw2 = read_le16(self.data.as_slice(), i + 2);
                let hw3 = read_le16(self.data.as_slice(), i + 4);
                let hw4 = read_le16(self.data.as_slice(), i + 6);
                if hw1 & 0xFBF0 != 0xF240 || hw3 & 0xFBF0 != 0xF2C0 {
                    return false;
                }
                if (hw2 >> 8) & 0xF != (hw4 >> 8) & 0xF {
                    return false;
                }
                let movw = thumb_imm16(hw1, hw2);
                let movt = thumb_imm16(hw3, hw4);
                movw as u32 + movt as u32 * 0x10000 == va
            },
        }
    }

    /// True when a function prologue starts at `i`.
    fn prologue_check(&self, i: usize) -> (r: bool)
        ensures
            r == prologue_at(self.data@, self.arch, i as int),
    {
        match self.arch {
            Arch::Arm => {
                if i > self.data.len() || self.data.len() - i < 2 {
                    return false;
                }
                let hw = read_le16(self.data.as_slice(), i);
                hw & 0xFF00 == 0xB500
            },
            Arch::Aarch64 => {
                if i > self.data.len() || self.data.len() - i < 4 {
                    return false;
                }
                let w = read_le32(self.data.as_slice(), i);
                w == 0xD503233F || (w & 0xFFC003FF) == 0xA98003FD
            },
        }
    }

    /// Finds the first stepped offset whose code materialises the address of
    /// the first occurrence of the given string in the image.
    pub fn find_string_xref(&self, s: &str) -> (r: Option<usize>)
        requires
            self.wf(),
        ensures
            r matches Some(i) ==> xref_of_string(
                self.data@,
                self.arch,
                self.base as int,
                s.spec_bytes(),
                i as int,
            ),
            r is None ==> no_xref_for_string(
                self.data@,
                self.arch,
                self.base as int,
                s.spec_bytes(),
            ),
    {
        let sb = s.as_bytes();
        if sb.len() == 0 {
            return None;
        }
        let str_off = contains_bytes(self.data.as_slice(), sb);
        if str_off == HEX_NOT_FOUND {
            return None;
        }
        let va = self.base + str_off as u32;

        let step = self.step();
        let dlen = self.data.len();
        let mut i: usize = 0;
        if dlen >= 8 {
            while i <= dlen - 8
                invariant
                    self.wf(),
                    dlen >= 8,
                    va == self.base + str_off,
                    is_first_bytes_match(self.data@, s.spec_bytes(), str_off as int),
                    step == spec_step(self.arch),
                    dlen == self.data@.len(),
                    i as int % (step as int) == 0,
                    forall|j: int|
                        0 <= j < i && j % spec_step(self.arch) == 0 ==> !xref_at(
                            self.data@,
                            self.arch,
                            j,
                            self.base as int,
                            va as int,
                        ),
                decreases dlen - i,
            {
                if self.xref_check(i, va) {
                    return Some(i);
                }
                i += step;
            }
        }
        assert forall|j: int|
            j >= 0 && j % spec_step(self.arch) == 0 implies !xref_at(
            self.data@,
            self.arch,
            j,
            self.base as int,
            va as int,
        ) by {
            if j >= i {
                assert(j + 8 > self.data@.len());
            }
        }
        None
    }

    /// Walks backwards from `from` to the nearest function prologue, at the
    /// architecture's stride.
    pub fn find_function_start_from_off(&self, from: usize) -> (r: Option<usize>)
        ensures
            r matches Some(f) ==> is_enclosing_start(
                self.data@,
                self.arch,
                f as int,
                from as int,
            ),
            r is None ==> no_enclosing_start(self.data@, self.arch, from as int),
    {
        let step = self.step();
        let mut i: usize = from;
        loop
            invariant
                step == spec_step(self.arch),
                i <= from,
                (from - i) % (step as int) == 0,
                forall|j: int|
                    i < j <= from && (from - j) % spec_step(self.arch) == 0 ==> !prologue_at(
                        self.data@,
                        self.arch,
                        j,
                    ),
            ensures
                (from - i) % (step as int) == 0,
                forall|j: int|
                    i < j <= from && (from - j) % spec_step(self.arch) == 0 ==> !prologue_at(
                        self.data@,
                        self.arch,
                        j,
                    ),
                prologue_at(self.data@, self.arch, i as int) || (i < step && !prologue_at(
                    self.data@,
                    self.arch,
                    i as int,
                )),
            decreases i,
        {
            if self.prologue_check(i) {
                break ;
            }
            if i < step {
                break ;
            }
            i -= step;
        }
        if self.prologue_check(i) {
            return Some(i);
        }
        proof {
            assert forall|j: int|
                0 <= j <= from && (from - j) % spec_step(self.arch) == 0 implies !prologue_at(
                self.data@,
                self.arch,
                j,
            ) by {
                if j < i {
                    assert((from - j) % spec_step(self.arch) == 0);
                    assert((from - i as int) % spec_step(self.arch) == 0);
                    assert(j < i < step);
                }
            }
        }
        None
    }

    /// Finds the start of the function that references the given string: the
    /// first xref to the string's first occurrence, then the enclosing
    /// prologue.
    pub fn find_function_from_string(&self, s: &str) -> (r: Option<usize>)
        requires
            self.wf(),
        ensures
            r matches Some(f) ==> found_func_for(
                self.data@,
                self.arch,
                self.base as int,
                s.spec_bytes(),
                f as int,
            ),
            r is None ==> s.spec_bytes().len() == 0 || no_func_for_string(
                self.data@,
                self.arch,
                self.base as int,
                s.spec_bytes(),
            ),
    {
        let d = Ghost(self.data@);
        let sb = Ghost(s.spec_bytes());
        let base = Ghost(self.base as int);
        let xref = match self.find_string_xref(s) {
            Some(x) => x,
            None => {
                proof {
                    if sb@.len() > 0 {
                        assert forall|f: int| !#[trigger] found_func_for(
                            d@,
                            self.arch,
                            base@,
                            sb@,
                            f,
                        ) by {
                            if found_func_for(d@, self.arch, base@, sb@, f) {
                                let (p, i) = choose|p: int, i: int|
                                    {
                                        &&& #[trigger] is_first_bytes_match(d@, sb@, p)
                                        &&& #[trigger] is_first_xref_to(
                                            d@,
                                            self.arch,
                                            base@,
                                            base@ + p,
                                            i,
                                        )
                                        &&& is_enclosing_start(d@, self.arch, f, i)
                                    };
                                assert(d@.len() > 0) by {
                                    assert(crate::patching::bytes_match_at(d@, sb@, p));
                                }
                                assert(no_stepped_xref_to(d@, self.arch, base@, base@ + p));
                                assert(!xref_at(d@, self.arch, i, base@, base@ + p));
                            }
                        }
                    }
                }
                return None;
            },
        };
        let r = self.find_function_start_from_off(xref);
        proof {
            let p0 = choose|pp: int|
                #[trigger] is_first_bytes_match(d@, sb@, pp) && is_first_xref_to(
                    d@,
                    self.arch,
                    base@,
                    base@ + pp,
                    xref as int,
                );
            if r is None {
                assert forall|f: int| !#[trigger] found_func_for(d@, self.arch, base@, sb@, f) by {
                    if found_func_for(d@, self.arch, base@, sb@, f) {
                        let (p, i) = choose|p: int, i: int|
                            {
                                &&& #[trigger] is_first_bytes_match(d@, sb@, p)
                                &&& #[trigger] is_first_xref_to(d@, self.arch, base@, base@ + p, i)
                                &&& is_enclosing_start(d@, self.arch, f, i)
                            };
                        assert(p == p0) by {
                            assert(crate::patching::bytes_match_at(d@, sb@, p));
                            assert(crate::patching::bytes_match_at(d@, sb@, p0));
                        }
                        assert(i == xref) by {
                            assert(xref_at(d@, self.arch, i, base@, base@ + p));
                            assert(xref_at(d@, self.arch, xref as int, base@, base@ + p));
                        }
                        assert(!prologue_at(d@, self.arch, f));
                    }
                }
            }
        }
        r
    }
}

/// The 16-bit immediate of a Thumb-2 `MOVW`/`MOVT` instruction.
fn thumb_imm16(hw1: u16, hw2: u16) -> (r: u16)
    ensures
        r == thumb_mov_imm16(hw1, hw2),
{
    ((hw1 & 0xF) << 12) | (((hw1 >> 10) & 1) << 11) | (((hw2 >> 12) & 0x7) << 8) | (hw2 & 0xFF)
}

/// A byte string has at most one first occurrence.
pub proof fn lemma_first_bytes_match_unique(d: Seq<u8>, sb: Seq<u8>, p1: int, p2: int)
    requires
        is_first_bytes_match(d, sb, p1),
        is_first_bytes_match(d, sb, p2),
    ensures
        p1 == p2,
{
    if p1 < p2 {
        assert(!crate::patching::bytes_match_at(d, sb, p1));
    }
    if p2 < p1 {
        assert(!crate::patching::bytes_match_at(d, sb, p2));
    }
}

/// An address has at most one first stepped xref.
pub proof fn lemma_first_xref_unique(d: Seq<u8>, arch: Arch, base: int, va: int, i1: int, i2: int)
    requires
        is_first_xref_to(d, arch, base, va, i1),
        is_first_xref_to(d, arch, base, va, i2),
    ensures
        i1 == i2,
{
    if i1 < i2 {
        assert(!xref_at(d, arch, i1, base, va));
    }
    if i2 < i1 {
        assert(!xref_at(d, arch, i2, base, va));
    }
}

/// A string has at most one first xref.
pub proof fn lemma_xref_of_string_unique(d: Seq<u8>, arch: Arch, base: int, sb: Seq<u8>, c1: int, c2: int)
    requires
        xref_of_string(d, arch, base, sb, c1),
        xref_of_string(d, arch, base, sb, c2),
    ensures
        c1 == c2,
{
    let p1 = choose|p: int|
        #[trigger] is_first_bytes_match(d, sb, p) && is_first_xref_to(d, arch, base, base + p, c1);
    let p2 = choose|p: int|
        #[trigger] is_first_bytes_match(d, sb, p) && is_first_xref_to(d, arch, base, base + p, c2);
    lemma_first_bytes_match_unique(d, sb, p1, p2);
    lemma_first_xref_unique(d, arch, base, base + p1, c1, c2);
}

/// An offset has at most one first stepped `BL` at or after it.
pub proof fn lemma_first_bl_unique(d: Seq<u8>, arch: Arch, off: int, b1: int, b2: int)
    requires
        is_first_bl_from(d, arch, off, b1),
        is_first_bl_from(d, arch, off, b2),
    ensures
        b1 == b2,
{
    if b1 < b2 {
        assert(!is_bl_at(d, arch, b1));
    }
    if b2 < b1 {
        assert(!is_bl_at(d, arch, b2));
    }
}

/// An offset has at most one enclosing prologue.
pub proof fn lemma_enclosing_unique(d: Seq<u8>, arch: Arch, from: int, f1: int, f2: int)
    requires
        is_enclosing_start(d, arch, f1, from),
        is_enclosing_start(d, arch, f2, from),
    ensures
        f1 == f2,
{
    if f1 < f2 {
        assert(!prologue_at(d, arch, f2));
    }
    if f2 < f1 {
        assert(!prologue_at(d, arch, f1));
    }
}

/// A string's referencing function has at most one start.
pub proof fn lemma_found_func_unique(d: Seq<u8>, arch: Arch, base: int, sb: Seq<u8>, f1: int, f2: int)
    requires
        found_func_for(d, arch, base, sb, f1),
        found_func_for(d, arch, base, sb, f2),
    ensures
        f1 == f2,
{
    let (p1, i1) = choose|p: int, i: int|
        {
            &&& #[trigger] is_first_bytes_match(d, sb, p)
            &&& #[trigger] is_first_xref_to(d, arch, base, base + p, i)
            &&& is_enclosing_start(d, arch, f1, i)
        };
    let (p2, i2) = choose|p: int, i: int|
        {
            &&& #[trigger] is_first_bytes_match(d, sb, p)
            &&& #[trigger] is_first_xref_to(d, arch, base, base + p, i)
            &&& is_enclosing_start(d, arch, f2, i)
        };
    lemma_first_bytes_match_unique(d, sb, p1, p2);
    lemma_first_xref_unique(d, arch, base, base + p1, i1, i2);
    lemma_enclosing_unique(d, arch, i1, f1, f2);
}

} // verus!
