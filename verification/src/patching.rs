//! Hex-pattern search with `XX` wildcards, in-place patch application, and
//! byte/hex conversions used by the DA patcher and the extension loader.

use vstd::prelude::*;
use vstd::string::StringSliceAdditionalSpecFns;

verus! {

/// Sentinel index meaning "pattern not found".
pub const HEX_NOT_FOUND: usize = usize::MAX;

/// A parsed hex pattern: one entry per byte, `None` for an `XX` wildcard.
pub type HexPattern = Vec<Option<u8>>;

/// A Unicode whitespace character, as `char::is_whitespace` defines them.
pub open spec fn spec_is_unicode_ws(c: char) -> bool {
    ||| c == '\u{9}' || c == '\u{A}' || c == '\u{B}' || c == '\u{C}' || c == '\u{D}' || c == ' '
    ||| c == '\u{85}' || c == '\u{A0}' || c == '\u{1680}'
    ||| ('\u{2000}' <= c && c <= '\u{200A}')
    ||| c == '\u{2028}' || c == '\u{2029}' || c == '\u{202F}' || c == '\u{205F}' || c == '\u{3000}'
}

/// Separator characters ignored inside a hex pattern string: whitespace and
/// the common byte punctuation.
pub open spec fn spec_is_pat_sep(c: char) -> bool {
    spec_is_unicode_ws(c) || c == ',' || c == '-' || c == ':'
}

/// The pattern string with all separators removed.
pub open spec fn strip_seps(s: Seq<char>) -> Seq<char>
    decreases s.len(),
{
    if s.len() == 0 {
        Seq::empty()
    } else {
        strip_seps(s.drop_last()) + if spec_is_pat_sep(s.last()) {
            Seq::empty()
        } else {
            seq![s.last()]
        }
    }
}

/// Value of a hex digit, or 16 if the character is no hex digit.
pub open spec fn spec_hex_val(c: char) -> int {
    if '0' <= c && c <= '9' {
        c as int - '0' as int
    } else if 'a' <= c && c <= 'f' {
        c as int - 'a' as int + 10
    } else if 'A' <= c && c <= 'F' {
        c as int - 'A' as int + 10
    } else {
        16
    }
}

pub open spec fn spec_is_hex_digit(c: char) -> bool {
    spec_hex_val(c) < 16
}

/// A digit pair is valid when it is the `XX` wildcard or two hex digits.
pub open spec fn pair_ok(hi: char, lo: char) -> bool {
    ((hi == 'X' || hi == 'x') && (lo == 'X' || lo == 'x')) || (spec_is_hex_digit(hi)
        && spec_is_hex_digit(lo))
}

/// The pattern byte a valid digit pair stands for.
pub open spec fn pair_byte(hi: char, lo: char) -> Option<u8> {
    if (hi == 'X' || hi == 'x') && (lo == 'X' || lo == 'x') {
        None
    } else {
        Some((spec_hex_val(hi) * 16 + spec_hex_val(lo)) as u8)
    }
}

/// A separator-free pattern string parses when its length is even and every
/// digit pair is valid.
pub open spec fn pairs_ok(f: Seq<char>) -> bool {
    f.len() % 2 == 0 && forall|i: int|
        0 <= i < f.len() / 2 ==> pair_ok(#[trigger] f[2 * i], f[2 * i + 1])
}

/// The pattern an even-length, separator-free string stands for.
pub open spec fn pat_of(f: Seq<char>) -> Seq<Option<u8>>
    decreases f.len(),
{
    if f.len() < 2 {
        Seq::empty()
    } else {
        pat_of(f.subrange(0, f.len() - 2)).push(pair_byte(f[f.len() - 2], f[f.len() - 1]))
    }
}

/// The whole pattern string parses.
pub open spec fn pattern_parses(s: Seq<char>) -> bool {
    pairs_ok(strip_seps(s))
}

/// The pattern a pattern string stands for.
pub open spec fn spec_pattern(s: Seq<char>) -> Seq<Option<u8>> {
    pat_of(strip_seps(s))
}

/// The pattern matches the data window starting at `i`: in bounds, and every
/// non-wildcard pattern byte equals the data byte under it.
pub open spec fn pat_matches_at(data: Seq<u8>, pat: Seq<Option<u8>>, i: int) -> bool {
    &&& 0 <= i
    &&& i + pat.len() <= data.len()
    &&& forall|k: int| 0 <= k < pat.len() ==> (#[trigger] pat[k] matches Some(v) ==> data[i + k] == v)
}

fn is_pat_sep(c: char) -> (r: bool)
    ensures
        r == spec_is_pat_sep(c),
{
    let u = c as u32;
    (u >= 0x9 && u <= 0xD) || u == 0x20 || u == 0x85 || u == 0xA0 || u == 0x1680 || (u >= 0x2000
        && u <= 0x200A) || u == 0x2028 || u == 0x2029 || u == 0x202F || u == 0x205F || u == 0x3000
        || c == ',' || c == '-' || c == ':'
}

pub(crate) fn hex_val(c: char) -> (r: u8)
    ensures
        r == spec_hex_val(c),
{
    let u = c as u32;
    if u >= '0' as u32 && u <= '9' as u32 {
        (u - '0' as u32) as u8
    } else if u >= 'a' as u32 && u <= 'f' as u32 {
        (u - 'a' as u32 + 10) as u8
    } else if u >= 'A' as u32 && u <= 'F' as u32 {
        (u - 'A' as u32 + 10) as u8
    } else {
        16
    }
}

/// Parses a hex pattern string into one optional byte per digit pair; `XX`
/// (in either case) is a wildcard. Separators (whitespace, `,`, `-`, `:`)
/// are ignored. Fails when a digit pair is malformed or a digit is left over.
pub fn parse_pattern(input: &str) -> (r: Result<HexPattern, crate::error::Error>)
    ensures
        r is Ok <==> pattern_parses(input@),
        r matches Ok(p) ==> p@ == spec_pattern(input@),
{
    let n = input.unicode_len();
    let mut filtered: Vec<char> = Vec::new();
    let mut i: usize = 0;
    while i < n
        invariant
            n == input@.len(),
            i <= n,
            filtered@ == strip_seps(input@.subrange(0, i as int)),
        decreases n - i,
    {
        let c = input.get_char(i);
        proof {
            assert(input@.subrange(0, i + 1).drop_last() =~= input@.subrange(0, i as int));
            assert(input@.subrange(0, i + 1).last() == input@[i as int]);
        }
        if !is_pat_sep(c) {
            filtered.push(c);
        }
        i += 1;
    }
    proof {
        assert(input@.subrange(0, n as int) =~= input@);
    }

    if filtered.len() % 2 != 0 {
        return Err(crate::error::Error::penumbra("Pattern has an odd number of hex digits"));
    }

    let f = filtered;
    let mut out: Vec<Option<u8>> = Vec::new();
    let mut j: usize = 0;
    while j + 1 < f.len()
        invariant
            f@ == strip_seps(input@),
            f@.len() % 2 == 0,
            j % 2 == 0,
            j <= f@.len(),
            out@ == pat_of(f@.subrange(0, j as int)),
            forall|i: int| 0 <= i < j / 2 ==> pair_ok(#[trigger] f@[2 * i], f@[2 * i + 1]),
        decreases f@.len() - j,
    {
        let hi = f[j];
        let lo = f[j + 1];
        let wild_hi = hi == 'X' || hi == 'x';
        let wild_lo = lo == 'X' || lo == 'x';
        let entry: Option<u8>;
        if wild_hi && wild_lo {
            entry = None;
        } else {
            let vh = hex_val(hi);
            let vl = hex_val(lo);
            if vh >= 16 || vl >= 16 {
                proof {
                    let m = j as int / 2;
                    assert(2 * m == j as int);
                    assert(!pair_ok(f@[2 * m], f@[2 * m + 1]));
                }
                return Err(crate::error::Error::penumbra("Invalid hex byte in pattern"));
            }
            entry = Some(vh * 16 + vl);
        }
        out.push(entry);
        proof {
            let sub = f@.subrange(0, j + 2);
            assert(sub.subrange(0, sub.len() - 2) =~= f@.subrange(0, j as int));
            assert(sub[sub.len() - 2] == f@[j as int]);
            assert(sub[sub.len() - 1] == f@[j + 1]);
        }
        j += 2;
    }
    proof {
        assert(f@.subrange(0, f@.len() as int) =~= f@);
    }
    Ok(out)
}

/// True when the pattern matches the data window starting at `i`.
pub fn pattern_matches(data: &[u8], pattern: &HexPattern, i: usize) -> (r: bool)
    requires
        i + pattern@.len() <= data@.len(),
    ensures
        r == pat_matches_at(data@, pattern@, i as int),
{
    let dlen = data.len();
    let mut k: usize = 0;
    while k < pattern.len()
        invariant
            dlen == data@.len(),
            i + pattern@.len() <= dlen,
            k <= pattern@.len(),
            forall|m: int| 0 <= m < k ==> (#[trigger] pattern@[m] matches Some(v) ==> data@[i + m] == v),
        decreases pattern@.len() - k,
    {
        match pattern[k] {
            Some(v) => {
                if data[i + k] != v {
                    return false;
                }
            },
            None => {},
        }
        k += 1;
    }
    true
}

/// Finds the first offset `>= offset` where the pattern string matches the
/// data, or `HEX_NOT_FOUND` when the pattern does not parse, is empty, or
/// matches nowhere at or after `offset`.
pub fn find_pattern(data: &[u8], pattern_str: &str, offset: usize) -> (r: usize)
    ensures
        r != HEX_NOT_FOUND ==> {
            &&& pattern_parses(pattern_str@)
            &&& r >= offset
            &&& pat_matches_at(data@, spec_pattern(pattern_str@), r as int)
            &&& forall|j: int|
                offset <= j < r ==> !pat_matches_at(data@, spec_pattern(pattern_str@), j)
        },
        r == HEX_NOT_FOUND ==> (!pattern_parses(pattern_str@) || spec_pattern(
            pattern_str@,
        ).len() == 0 || forall|j: int|
            j >= offset ==> !pat_matches_at(data@, spec_pattern(pattern_str@), j)),
        spec_pattern(pattern_str@).len() == 0 ==> r == HEX_NOT_FOUND,
{
    let pattern = match parse_pattern(pattern_str) {
        Ok(p) => p,
        Err(_) => {
            return HEX_NOT_FOUND;
        },
    };

    if pattern.len() == 0 || pattern.len() > data.len() || offset > data.len() - pattern.len() {
        return HEX_NOT_FOUND;
    }

    let last = data.len() - pattern.len();
    let mut i: usize = offset;
    while i <= last
        invariant
            pattern_parses(pattern_str@),
            pattern@ == spec_pattern(pattern_str@),
            pattern@.len() >= 1,
            last == data@.len() - pattern@.len(),
            last < usize::MAX,
            offset <= i,
            forall|j: int| offset <= j < i ==> !pat_matches_at(data@, pattern@, j),
        decreases last + 1 - i,
    {
        if pattern_matches(data, &pattern, i) {
            return i;
        }
        i += 1;
    }
    assert forall|j: int| j >= offset implies !pat_matches_at(
        data@,
        spec_pattern(pattern_str@),
        j,
    ) by {
        if j <= last {
            assert(!pat_matches_at(data@, pattern@, j));
        }
    }
    HEX_NOT_FOUND
}

/// The buffer after a patch: non-wildcard pattern bytes replace the window at
/// `off`, every other byte is unchanged.
pub open spec fn apply_patch(d: Seq<u8>, off: int, pat: Seq<Option<u8>>) -> Seq<u8> {
    Seq::new(
        d.len(),
        |i: int|
            if off <= i < off + pat.len() && pat[i - off] is Some {
                pat[i - off]->0
            } else {
                d[i]
            },
    )
}

/// Applies a patch string at `offset`: every non-wildcard byte of the patch
/// overwrites the buffer, wildcard (`XX`) positions leave it unchanged. Fails,
/// leaving the buffer untouched, when the patch string does not parse or
/// would run past the end of the buffer.
pub fn patch(data: &mut Vec<u8>, offset: usize, patch_str: &str) -> (r: Result<
    (),
    crate::error::Error,
>)
    ensures
        r is Ok <==> pattern_parses(patch_str@) && offset + spec_pattern(patch_str@).len()
            <= old(data)@.len(),
        r is Ok ==> final(data)@ == apply_patch(
            old(data)@,
            offset as int,
            spec_pattern(patch_str@),
        ),
        r is Err ==> final(data)@ == old(data)@,
{
    let patch = parse_pattern(patch_str)?;

    if patch.len() > data.len() || offset > data.len() - patch.len() {
        return Err(crate::error::Error::penumbra("Patch exceeds data bounds"));
    }

    let ghost orig = data@;
    let dlen = data.len();
    let mut i: usize = 0;
    while i < patch.len()
        invariant
            patch@ == spec_pattern(patch_str@),
            offset + patch@.len() <= orig.len(),
            i <= patch@.len(),
            dlen == orig.len(),
            data@.len() == orig.len(),
            forall|m: int|
                0 <= m < orig.len() ==> data@[m] == (if offset <= m < offset + i
                    && patch@[m - offset] is Some {
                    patch@[m - offset]->0
                } else {
                    orig[m]
                }),
        decreases patch@.len() - i,
    {
        match patch[i] {
            Some(b) => {
                data.set(offset + i, b);
            },
            None => {},
        }
        i += 1;
    }
    proof {
        assert(data@ =~= apply_patch(orig, offset as int, patch@));
    }
    Ok(())
}

/// The byte pattern occurs in the data at index `i`.
pub open spec fn bytes_match_at(data: Seq<u8>, pat: Seq<u8>, i: int) -> bool {
    &&& 0 <= i
    &&& i + pat.len() <= data.len()
    &&& data.subrange(i, i + pat.len()) == pat
}

pub fn find_bytes_from(data: &[u8], pattern: &[u8], offset: usize) -> (r: usize)
    requires
        pattern@.len() >= 1,
    ensures
        r != HEX_NOT_FOUND ==> {
            &&& r >= offset
            &&& bytes_match_at(data@, pattern@, r as int)
            &&& forall|j: int| offset <= j < r ==> !bytes_match_at(data@, pattern@, j)
        },
        r == HEX_NOT_FOUND ==> forall|j: int| j >= offset ==> !bytes_match_at(data@, pattern@, j),
{
    if pattern.len() > data.len() || offset > data.len() - pattern.len() {
        assert forall|j: int| j >= offset implies !bytes_match_at(data@, pattern@, j) by {}
        return HEX_NOT_FOUND;
    }
    let dlen = data.len();
    let last = data.len() - pattern.len();
    let mut i: usize = offset;
    while i <= last
        invariant
            dlen == data@.len(),
            pattern@.len() >= 1,
            last == data@.len() - pattern@.len(),
            last < usize::MAX,
            offset <= i,
            forall|j: int| offset <= j < i ==> !bytes_match_at(data@, pattern@, j),
        decreases last + 1 - i,
    {
        let mut k: usize = 0;
        let mut hit = true;
        while k < pattern.len()
            invariant
                dlen == data@.len(),
                pattern@.len() >= 1,
                i + pattern@.len() <= data@.len(),
                k <= pattern@.len(),
                hit == (data@.subrange(i as int, i + k) =~= pattern@.subrange(0, k as int)),
            decreases pattern@.len() - k,
        {
            proof {
                assert(data@.subrange(i as int, i + k + 1).drop_last() =~= data@.subrange(
                    i as int,
                    i + k,
                ));
                assert(pattern@.subrange(0, k + 1).drop_last() =~= pattern@.subrange(0, k as int));
                assert(data@.subrange(i as int, i + k + 1).last() == data@[i + k]);
                assert(pattern@.subrange(0, k + 1).last() == pattern@[k as int]);
            }
            if data[i + k] != pattern[k] {
                hit = false;
            }
            k += 1;
        }
        if hit {
            proof {
                assert(pattern@.subrange(0, pattern@.len() as int) =~= pattern@);
            }
            return i;
        }
        proof {
            assert(pattern@.subrange(0, pattern@.len() as int) =~= pattern@);
            assert(!bytes_match_at(data@, pattern@, i as int));
        }
        i += 1;
    }
    assert forall|j: int| j >= offset implies !bytes_match_at(data@, pattern@, j) by {
        if j <= last {
            assert(!bytes_match_at(data@, pattern@, j));
        }
    }
    HEX_NOT_FOUND
}

/// Finds the first occurrence of a byte string in the data, or
/// `HEX_NOT_FOUND` when the data is empty or holds no occurrence.
pub fn contains_bytes(data: &[u8], pattern: &[u8]) -> (r: usize)
    requires
        data@.len() == 0 || pattern@.len() >= 1,
    ensures
        r != HEX_NOT_FOUND ==> {
            &&& bytes_match_at(data@, pattern@, r as int)
            &&& forall|j: int| 0 <= j < r ==> !bytes_match_at(data@, pattern@, j)
        },
        r == HEX_NOT_FOUND ==> data@.len() == 0 || forall|j: int|
            j >= 0 ==> !bytes_match_at(data@, pattern@, j),
{
    if data.len() == 0 || pattern.len() > data.len() {
        return HEX_NOT_FOUND;
    }
    find_bytes_from(data, pattern, 0)
}

/// The hex character of a nibble, upper case.
pub open spec fn hex_digit_char(n: int) -> char {
    if n == 0 {
        '0'
    } else if n == 1 {
        '1'
    } else if n == 2 {
        '2'
    } else if n == 3 {
        '3'
    } else if n == 4 {
        '4'
    } else if n == 5 {
        '5'
    } else if n == 6 {
        '6'
    } else if n == 7 {
        '7'
    } else if n == 8 {
        '8'
    } else if n == 9 {
        '9'
    } else if n == 10 {
        'A'
    } else if n == 11 {
        'B'
    } else if n == 12 {
        'C'
    } else if n == 13 {
        'D'
    } else if n == 14 {
        'E'
    } else {
        'F'
    }
}

/// Upper-case hex encoding of a byte string, two digits per byte.
pub open spec fn hex_of(s: Seq<u8>) -> Seq<char>
    decreases s.len(),
{
    if s.len() == 0 {
        Seq::empty()
    } else {
        hex_of(s.drop_last()) + seq![
            hex_digit_char(s.last() as int / 16),
            hex_digit_char(s.last() as int % 16),
        ]
    }
}

pub(crate) fn hex_digit_str(n: u8) -> (r: &'static str)
    requires
        n < 16,
    ensures
        r@ =~= seq![hex_digit_char(n as int)],
{
    proof {
        reveal_strlit("0");
        reveal_strlit("1");
        reveal_strlit("2");
        reveal_strlit("3");
        reveal_strlit("4");
        reveal_strlit("5");
        reveal_strlit("6");
        reveal_strlit("7");
        reveal_strlit("8");
        reveal_strlit("9");
        reveal_strlit("A");
        reveal_strlit("B");
        reveal_strlit("C");
        reveal_strlit("D");
        reveal_strlit("E");
        reveal_strlit("F");
    }
    match n {
        0 => "0",
        1 => "1",
        2 => "2",
        3 => "3",
        4 => "4",
        5 => "5",
        6 => "6",
        7 => "7",
        8 => "8",
        9 => "9",
        10 => "A",
        11 => "B",
        12 => "C",
        13 => "D",
        14 => "E",
        _ => "F",
    }
}

/// Renders a byte string as upper-case hex, two digits per byte.
pub fn bytes_to_hex(bytes: &[u8]) -> (r: String)
    ensures
        r@ == hex_of(bytes@),
{
    let mut out = String::new();
    let mut i: usize = 0;
    while i < bytes.len()
        invariant
            i <= bytes@.len(),
            out@ == hex_of(bytes@.subrange(0, i as int)),
        decreases bytes@.len() - i,
    {
        let b = bytes[i];
        out.append(hex_digit_str(b / 16));
        out.append(hex_digit_str(b % 16));
        proof {
            let sub = bytes@.subrange(0, i + 1);
            assert(sub.drop_last() =~= bytes@.subrange(0, i as int));
            assert(sub.last() == bytes@[i as int]);
            assert(out@ =~= hex_of(bytes@.subrange(0, i + 1)));
        }
        i += 1;
    }
    proof {
        assert(bytes@.subrange(0, bytes@.len() as int) =~= bytes@);
    }
    out
}

/// Little-endian byte sequence of a 32-bit value.
pub open spec fn u32_le(v: u32) -> Seq<u8> {
    seq![
        (v & 0xFF) as u8,
        ((v >> 8) & 0xFF) as u8,
        ((v >> 16) & 0xFF) as u8,
        ((v >> 24) & 0xFF) as u8,
    ]
}

/// The little-endian bytes of a 32-bit value, as a vector.
pub fn u32_le_bytes(v: u32) -> (r: Vec<u8>)
    ensures
        r@ == u32_le(v),
{
    let mut out: Vec<u8> = Vec::new();
    out.push((v & 0xFF) as u8);
    out.push(((v >> 8) & 0xFF) as u8);
    out.push(((v >> 16) & 0xFF) as u8);
    out.push(((v >> 24) & 0xFF) as u8);
    proof {
        assert(out@ =~= u32_le(v));
    }
    out
}

/// Writes a 32-bit pointer value at `ptr_off`, rebased on the DA load
/// address; in Thumb mode the interworking bit is set.
pub fn patch_ptr(data: &mut Vec<u8>, ptr_off: usize, value: u32, base_addr: u32, thumb: bool)
    requires
        ptr_off + 4 <= old(data)@.len(),
        value + base_addr <= u32::MAX,
    ensures
        final(data)@.len() == old(data)@.len(),
        final(data)@ =~= old(data)@.subrange(0, ptr_off as int) + u32_le(
            if thumb {
                (value + base_addr) as u32 | 1
            } else {
                (value + base_addr) as u32
            },
        ) + old(data)@.subrange(ptr_off + 4, old(data)@.len() as int),
{
    let dlen = data.len();
    let addr: u32 = if thumb {
        (value + base_addr) | 1
    } else {
        value + base_addr
    };
    data.set(ptr_off, (addr & 0xFF) as u8);
    data.set(ptr_off + 1, ((addr >> 8) & 0xFF) as u8);
    data.set(ptr_off + 2, ((addr >> 16) & 0xFF) as u8);
    data.set(ptr_off + 3, ((addr >> 24) & 0xFF) as u8);
}

/// The pattern that matches exactly the given bytes, no wildcards.
pub open spec fn exact_pat(b: Seq<u8>) -> Seq<Option<u8>> {
    Seq::new(b.len(), |i: int| Some(b[i]))
}

/// No offset of the data matches the pattern string.
pub open spec fn no_pat_match(d: Seq<u8>, pat_str: Seq<char>) -> bool {
    forall|j: int| j >= 0 ==> !pat_matches_at(d, spec_pattern(pat_str), j)
}

/// `pos` is the first index at which the byte string occurs in the data.
pub open spec fn is_first_bytes_match(data: Seq<u8>, pat: Seq<u8>, pos: int) -> bool {
    &&& bytes_match_at(data, pat, pos)
    &&& forall|j: int| 0 <= j < pos ==> !bytes_match_at(data, pat, j)
}

/// `pos` is the first index at which the pattern matches the data.
pub open spec fn is_first_pat_match(data: Seq<u8>, pat: Seq<Option<u8>>, pos: int) -> bool {
    &&& pat_matches_at(data, pat, pos)
    &&& forall|j: int| 0 <= j < pos ==> !pat_matches_at(data, pat, j)
}

/// A pattern has at most one first match.
pub proof fn lemma_first_pat_match_unique(d: Seq<u8>, pat: Seq<Option<u8>>, p1: int, p2: int)
    requires
        is_first_pat_match(d, pat, p1),
        is_first_pat_match(d, pat, p2),
    ensures
        p1 == p2,
{
    if p1 < p2 {
        assert(!pat_matches_at(d, pat, p1));
    }
    if p2 < p1 {
        assert(!pat_matches_at(d, pat, p2));
    }
}

/// The pattern matches somewhere, but a patch of `plen` bytes would run past
/// the end of the data at the first match.
pub open spec fn first_match_patch_oob(data: Seq<u8>, pat: Seq<Option<u8>>, plen: int) -> bool {
    exists|pos: int| #[trigger] is_first_pat_match(data, pat, pos) && pos + plen > data.len()
}

/// A parsed pattern holds one byte per digit pair.
pub proof fn lemma_pat_of_len(f: Seq<char>)
    ensures
        pat_of(f).len() == f.len() / 2,
    decreases f.len(),
{
    if f.len() >= 2 {
        lemma_pat_of_len(f.subrange(0, f.len() - 2));
    }
}

/// A separator-free string of valid digit pairs parses, to one byte per
/// pair.
pub proof fn lemma_literal_pattern(s: Seq<char>)
    requires
        s.len() % 2 == 0,
        forall|i: int| 0 <= i < s.len() ==> !spec_is_pat_sep(#[trigger] s[i]),
        forall|i: int| 0 <= i < s.len() / 2 ==> pair_ok(#[trigger] s[2 * i], s[2 * i + 1]),
    ensures
        pattern_parses(s),
        spec_pattern(s).len() == s.len() / 2,
{
    lemma_strip_seps_id(s);
    lemma_pat_of_len(s);
}

/// Stripping separators from a separator-free string changes nothing.
pub proof fn lemma_strip_seps_id(s: Seq<char>)
    requires
        forall|i: int| 0 <= i < s.len() ==> !spec_is_pat_sep(#[trigger] s[i]),
    ensures
        strip_seps(s) == s,
    decreases s.len(),
{
    if s.len() > 0 {
        lemma_strip_seps_id(s.drop_last());
        assert(strip_seps(s) =~= s);
    } else {
        assert(strip_seps(s) =~= s);
    }
}

/// A hex rendering parses back to the exact pattern of its bytes.
pub proof fn lemma_hex_pattern(b: Seq<u8>)
    ensures
        pattern_parses(hex_of(b)),
        spec_pattern(hex_of(b)) == exact_pat(b),
    decreases b.len(),
{
    assert forall|n: int| 0 <= n < 16 implies !spec_is_pat_sep(hex_digit_char(n))
        && spec_hex_val(hex_digit_char(n)) == n && hex_digit_char(n) != 'X' && hex_digit_char(n)
        != 'x' by {}
    if b.len() == 0 {
        lemma_strip_seps_id(hex_of(b));
        assert(spec_pattern(hex_of(b)) =~= exact_pat(b));
    } else {
        let b2 = b.drop_last();
        let f = hex_of(b);
        let f2 = hex_of(b2);
        let hi = hex_digit_char(b.last() as int / 16);
        let lo = hex_digit_char(b.last() as int % 16);
        lemma_hex_pattern(b2);
        lemma_hex_chars(b);
        lemma_hex_chars(b2);
        lemma_strip_seps_id(f);
        lemma_strip_seps_id(f2);
        assert(f.len() == f2.len() + 2) by {
            lemma_hex_len(b);
            lemma_hex_len(b2);
        }
        assert(f.subrange(0, f.len() - 2) =~= f2);
        assert(f[f.len() - 2] == hi && f[f.len() - 1] == lo);
        assert(pat_of(f) == pat_of(f2).push(pair_byte(hi, lo)));
        assert(pair_byte(hi, lo) == Some(b.last())) by {
            assert(spec_hex_val(hi) == b.last() as int / 16);
            assert(spec_hex_val(lo) == b.last() as int % 16);
            assert(b.last() as int / 16 * 16 + b.last() as int % 16 == b.last() as int);
        }
        assert(spec_pattern(f) =~= exact_pat(b));
        assert(pairs_ok(f)) by {
            assert(f.len() % 2 == 0) by {
                lemma_hex_len(b);
            }
            assert forall|i: int| 0 <= i < f.len() / 2 implies pair_ok(
                #[trigger] f[2 * i],
                f[2 * i + 1],
            ) by {
                if i < f2.len() / 2 {
                    assert(f[2 * i] == f2[2 * i] && f[2 * i + 1] == f2[2 * i + 1]);
                    assert(pair_ok(f2[2 * i], f2[2 * i + 1]));
                } else {
                    assert(2 * i == f.len() - 2);
                }
            }
        }
    }
}

/// A hex rendering is twice as long as its bytes.
proof fn lemma_hex_len(b: Seq<u8>)
    ensures
        hex_of(b).len() == 2 * b.len(),
    decreases b.len(),
{
    if b.len() > 0 {
        lemma_hex_len(b.drop_last());
    }
}

/// Every character of a hex rendering is a hex digit character.
proof fn lemma_hex_chars(b: Seq<u8>)
    ensures
        forall|i: int|
            0 <= i < hex_of(b).len() ==> exists|n: int|
                0 <= n < 16 && #[trigger] hex_of(b)[i] == hex_digit_char(n),
    decreases b.len(),
{
    if b.len() > 0 {
        lemma_hex_chars(b.drop_last());
        let f = hex_of(b);
        let f2 = hex_of(b.drop_last());
        assert forall|i: int|
            0 <= i < f.len() implies exists|n: int|
            0 <= n < 16 && #[trigger] f[i] == hex_digit_char(n) by {
            if i < f2.len() {
                assert(f[i] == f2[i]);
            } else if i == f2.len() {
                let n = b.last() as int / 16;
                assert(0 <= n < 16 && f[i] == hex_digit_char(n));
            } else {
                let n = b.last() as int % 16;
                assert(0 <= n < 16 && f[i] == hex_digit_char(n));
            }
        }
    }
}

/// Finds a hex pattern in the data and applies a patch string at the found
/// position: the position of the first match when both strings parse and the
/// patch fits there, else `None` with the buffer unchanged.
pub fn patch_pattern_str(data: &mut Vec<u8>, pattern: &str, patch_str: &str) -> (r: Option<usize>)
    ensures
        r matches Some(pos) ==> {
            &&& pattern_parses(pattern@) && pattern_parses(patch_str@)
            &&& pat_matches_at(old(data)@, spec_pattern(pattern@), pos as int)
            &&& forall|j: int|
                0 <= j < pos ==> !pat_matches_at(old(data)@, spec_pattern(pattern@), j)
            &&& pos + spec_pattern(patch_str@).len() <= old(data)@.len()
            &&& final(data)@ == apply_patch(old(data)@, pos as int, spec_pattern(patch_str@))
        },
        r is None ==> final(data)@ == old(data)@,
        r is None ==> {
            ||| !pattern_parses(pattern@)
            ||| spec_pattern(pattern@).len() == 0
            ||| !pattern_parses(patch_str@)
            ||| (forall|j: int|
                0 <= j ==> !pat_matches_at(old(data)@, spec_pattern(pattern@), j))
            ||| first_match_patch_oob(
                old(data)@,
                spec_pattern(pattern@),
                spec_pattern(patch_str@).len() as int,
            )
        },
{
    let pos = find_pattern(data.as_slice(), pattern, 0);

    if pos == HEX_NOT_FOUND {
        return None;
    }

    if patch(data, pos, patch_str).is_err() {
        proof {
            assert(is_first_pat_match(data@, spec_pattern(pattern@), pos as int));
            if pattern_parses(patch_str@) {
                assert(first_match_patch_oob(
                    data@,
                    spec_pattern(pattern@),
                    spec_pattern(patch_str@).len() as int,
                ));
            }
        }
        return None;
    }

    Some(pos)
}

/// Finds a hex pattern in the data and overwrites the match with the
/// little-endian bytes of a 32-bit value.
pub fn patch_pattern(data: &mut Vec<u8>, pattern: &str, patch: u32) -> (r: Option<usize>)
    ensures
        r matches Some(pos) ==> {
            &&& pattern_parses(pattern@)
            &&& pat_matches_at(old(data)@, spec_pattern(pattern@), pos as int)
            &&& forall|j: int|
                0 <= j < pos ==> !pat_matches_at(old(data)@, spec_pattern(pattern@), j)
            &&& pos + 4 <= old(data)@.len()
            &&& final(data)@ == apply_patch(old(data)@, pos as int, exact_pat(u32_le(patch)))
        },
        r is None ==> final(data)@ == old(data)@,
        r is None ==> {
            ||| !pattern_parses(pattern@)
            ||| spec_pattern(pattern@).len() == 0
            ||| (forall|j: int|
                0 <= j ==> !pat_matches_at(old(data)@, spec_pattern(pattern@), j))
            ||| first_match_patch_oob(old(data)@, spec_pattern(pattern@), 4)
        },
{
    let bytes = u32_le_bytes(patch);
    let hex = bytes_to_hex(bytes.as_slice());
    proof {
        lemma_hex_pattern(u32_le(patch));
    }
    patch_pattern_str(data, pattern, hex.as_str())
}

/// Zero-padding of a replacement to the length of what it replaces.
pub open spec fn zero_pad(rep: Seq<u8>, n: int) -> Seq<u8> {
    rep + Seq::new((n - rep.len()) as nat, |i: int| 0u8)
}

/// The data with `sub` written over the window starting at `pos`.
pub open spec fn splice(d: Seq<u8>, pos: int, sub: Seq<u8>) -> Seq<u8> {
    Seq::new(
        d.len(),
        |i: int|
            if pos <= i < pos + sub.len() {
                sub[i - pos]
            } else {
                d[i]
            },
    )
}

/// The data after every occurrence of `pat` at or after `off` was overwritten
/// with `rep`, zero-padded to the length of `pat`, scanning left to right and
/// continuing after each replaced window.
pub open spec fn replace_from(d: Seq<u8>, off: int, pat: Seq<u8>, rep: Seq<u8>) -> Seq<u8>
    decreases d.len() + 1 - off when 0 <= off && 1 <= pat.len()
{
    if off + pat.len() > d.len() {
        d
    } else if bytes_match_at(d, pat, off) {
        replace_from(
            splice(d, off, zero_pad(rep, pat.len() as int)),
            off + pat.len(),
            pat,
            rep,
        )
    } else {
        replace_from(d, off + 1, pat, rep)
    }
}

/// Replacement keeps the length of the data.
pub proof fn lemma_replace_from_len(d: Seq<u8>, off: int, pat: Seq<u8>, rep: Seq<u8>)
    requires
        0 <= off,
        1 <= pat.len(),
    ensures
        replace_from(d, off, pat, rep).len() == d.len(),
    decreases d.len() + 1 - off,
{
    if off + pat.len() <= d.len() {
        if bytes_match_at(d, pat, off) {
            lemma_replace_from_len(
                splice(d, off, zero_pad(rep, pat.len() as int)),
                off + pat.len(),
                pat,
                rep,
            );
        } else {
            lemma_replace_from_len(d, off + 1, pat, rep);
        }
    }
}

proof fn lemma_replace_from_skip(d: Seq<u8>, off: int, pos: int, pat: Seq<u8>, rep: Seq<u8>)
    requires
        0 <= off <= pos,
        1 <= pat.len(),
        forall|j: int| off <= j < pos ==> !bytes_match_at(d, pat, j),
    ensures
        replace_from(d, off, pat, rep) == replace_from(d, pos, pat, rep),
    decreases pos - off,
{
    if off < pos {
        if off + pat.len() > d.len() {
            lemma_replace_from_none(d, off, pat, rep);
            lemma_replace_from_none(d, pos, pat, rep);
        } else {
            lemma_replace_from_skip(d, off + 1, pos, pat, rep);
        }
    }
}

proof fn lemma_replace_from_none(d: Seq<u8>, off: int, pat: Seq<u8>, rep: Seq<u8>)
    requires
        0 <= off,
        1 <= pat.len(),
        forall|j: int| j >= off ==> !bytes_match_at(d, pat, j),
    ensures
        replace_from(d, off, pat, rep) == d,
    decreases d.len() + 1 - off,
{
    if off + pat.len() <= d.len() {
        lemma_replace_from_none(d, off + 1, pat, rep);
    }
}

/// Replaces every occurrence of `original` in the data with `new`, padded
/// with zero bytes to the length of `original`; occurrences are found left to
/// right and the scan continues after each replaced window. Does nothing when
/// `original` is empty or `new` is longer than `original`.
pub fn patch_string(data: &mut Vec<u8>, original: &str, new: &str)
    ensures
        (original.spec_bytes().len() == 0 || new.spec_bytes().len() > original.spec_bytes().len())
            ==> final(data)@ == old(data)@,
        (original.spec_bytes().len() > 0 && new.spec_bytes().len()
            <= original.spec_bytes().len()) ==> final(data)@ == replace_from(
            old(data)@,
            0,
            original.spec_bytes(),
            new.spec_bytes(),
        ),
{
    let original_bytes = original.as_bytes();
    let new_bytes = new.as_bytes();
    if original_bytes.len() == 0 || new_bytes.len() > original_bytes.len() {
        return ;
    }

    let ghost pat = original.spec_bytes();
    let ghost rep = new.spec_bytes();
    let ghost orig_d = data@;
    let dlen = data.len();
    let plen = original_bytes.len();

    let mut offset: usize = 0;
    loop
        invariant
            1 <= plen == pat.len(),
            rep.len() <= pat.len(),
            original_bytes@ == pat,
            new_bytes@ == rep,
            data@.len() == dlen,
            0 <= offset,
            replace_from(data@, offset as int, pat, rep) == replace_from(orig_d, 0, pat, rep),
        ensures
            data@ == replace_from(orig_d, 0, pat, rep),
        decreases dlen + 1 - offset,
    {
        if plen > dlen || offset > dlen - plen {
            proof {
                lemma_replace_from_none(data@, offset as int, pat, rep);
            }
            break ;
        }
        let pos = find_bytes_from(data.as_slice(), original_bytes, offset);
        if pos == HEX_NOT_FOUND {
            proof {
                lemma_replace_from_none(data@, offset as int, pat, rep);
            }
            break ;
        }
        proof {
            lemma_replace_from_skip(data@, offset as int, pos as int, pat, rep);
        }
        let ghost before = data@;

        let mut i: usize = 0;
        while i < new_bytes.len()
            invariant
                pos + plen <= dlen,
                plen == pat.len(),
                new_bytes@ == rep,
                rep.len() <= plen,
                i <= rep.len(),
                data@.len() == dlen == before.len(),
                forall|m: int|
                    0 <= m < dlen ==> data@[m] == (if pos <= m < pos + i {
                        rep[m - pos]
                    } else {
                        before[m]
                    }),
            decreases new_bytes@.len() - i,
        {
            data.set(pos + i, new_bytes[i]);
            i += 1;
        }
        let mut k: usize = new_bytes.len();
        while k < plen
            invariant
                pos + plen <= dlen,
                plen == pat.len(),
                rep.len() <= k <= plen,
                data@.len() == dlen == before.len(),
                forall|m: int|
                    0 <= m < dlen ==> data@[m] == (if pos <= m < pos + k {
                        zero_pad(rep, plen as int)[m - pos]
                    } else {
                        before[m]
                    }),
            decreases plen - k,
        {
            data.set(pos + k, 0x00);
            k += 1;
        }
        proof {
            assert(data@ =~= splice(before, pos as int, zero_pad(rep, plen as int)));
        }
        offset = pos + plen;
    }
}

/// The little-endian 16-bit value at `i`.
pub open spec fn spec_u16_at(d: Seq<u8>, i: int) -> u16 {
    (d[i] as int + d[i + 1] as int * 0x100) as u16
}

/// The little-endian 32-bit value at `i`.
pub open spec fn spec_u32_at(d: Seq<u8>, i: int) -> u32 {
    (d[i] as int + d[i + 1] as int * 0x100 + d[i + 2] as int * 0x10000 + d[i + 3] as int
        * 0x1000000) as u32
}

/// Reads the little-endian 16-bit value at `offset`.
pub fn read_le16(data: &[u8], offset: usize) -> (r: u16)
    requires
        offset + 2 <= data@.len(),
    ensures
        r == spec_u16_at(data@, offset as int),
{
    data[offset] as u16 + data[offset + 1] as u16 * 0x100
}

/// Reads the little-endian 32-bit value at `offset`.
pub fn read_le32(data: &[u8], offset: usize) -> (r: u32)
    requires
        offset + 4 <= data@.len(),
    ensures
        r == spec_u32_at(data@, offset as int),
{
    data[offset] as u32 + data[offset + 1] as u32 * 0x100 + data[offset + 2] as u32 * 0x10000
        + data[offset + 3] as u32 * 0x1000000
}

} // verus!
