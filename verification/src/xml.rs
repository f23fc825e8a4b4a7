//! The XML DA text protocol: rendering declarative commands to their wire
//! form, reading tags out of device responses, and the round trip between
//! the two.

use vstd::prelude::*;
use vstd::string::StringSliceAdditionalSpecFns;
use crate::error::Error;
use crate::patching::{bytes_match_at, find_bytes_from, HEX_NOT_FOUND};

verus! {

/// The first index `>= from` at which `sub` occurs in `d`, or -1.
pub open spec fn first_occur(d: Seq<u8>, sub: Seq<u8>, from: int) -> int
    decreases d.len() + 1 - from when 0 <= from
{
    if from + sub.len() > d.len() {
        -1
    } else if bytes_match_at(d, sub, from) {
        from
    } else {
        first_occur(d, sub, from + 1)
    }
}

pub proof fn lemma_first_occur_found(d: Seq<u8>, sub: Seq<u8>, from: int, p: int)
    requires
        0 <= from <= p,
        bytes_match_at(d, sub, p),
        forall|j: int| from <= j < p ==> !bytes_match_at(d, sub, j),
    ensures
        first_occur(d, sub, from) == p,
    decreases p - from,
{
    if from < p {
        lemma_first_occur_found(d, sub, from + 1, p);
    }
}

pub proof fn lemma_first_occur_none(d: Seq<u8>, sub: Seq<u8>, from: int)
    requires
        0 <= from,
        forall|j: int| j >= from ==> !bytes_match_at(d, sub, j),
    ensures
        first_occur(d, sub, from) == -1,
    decreases d.len() + 1 - from,
{
    if from + sub.len() <= d.len() {
        lemma_first_occur_none(d, sub, from + 1);
    }
}

/// The opening form of a tag: `<tag>`.
pub open spec fn open_tag(tag: Seq<u8>) -> Seq<u8> {
    seq![0x3Cu8] + tag + seq![0x3Eu8]
}

/// The closing form of a tag: `</tag>`.
pub open spec fn close_tag(tag: Seq<u8>) -> Seq<u8> {
    seq![0x3Cu8, 0x2Fu8] + tag + seq![0x3Eu8]
}

/// The raw content of the first `<tag>`...`</tag>` span of the text: the
/// bytes between the first opening form and the first closing form after it.
pub open spec fn tag_content(text: Seq<u8>, tag: Seq<u8>) -> Option<Seq<u8>> {
    let o = first_occur(text, open_tag(tag), 0);
    if o < 0 {
        Option::None
    } else {
        let cstart = o + open_tag(tag).len();
        let c = first_occur(text, close_tag(tag), cstart);
        if c < 0 {
            Option::None
        } else {
            Option::Some(text.subrange(cstart, c))
        }
    }
}

/// A byte is ASCII whitespace.
pub open spec fn is_ws(b: u8) -> bool {
    b == 0x20 || b == 0x09 || b == 0x0A || b == 0x0D
}

/// The text with leading and trailing ASCII whitespace removed.
pub open spec fn trim_ws(s: Seq<u8>) -> Seq<u8>
    decreases s.len(),
{
    if s.len() > 0 && is_ws(s[0]) {
        trim_ws(s.drop_first())
    } else if s.len() > 0 && is_ws(s.last()) {
        trim_ws(s.drop_last())
    } else {
        s
    }
}

/// The index of the next occurrence of the byte at or after `from`, or the
/// end of the text.
pub open spec fn idx_from(s: Seq<u8>, b: u8, from: int) -> int
    decreases s.len() - from when 0 <= from
{
    if from >= s.len() {
        s.len() as int
    } else if s[from] == b {
        from
    } else {
        idx_from(s, b, from + 1)
    }
}

pub proof fn lemma_idx_from(s: Seq<u8>, b: u8, from: int)
    requires
        0 <= from <= s.len(),
    ensures
        from <= idx_from(s, b, from) <= s.len(),
        idx_from(s, b, from) < s.len() ==> s[idx_from(s, b, from)] == b,
        forall|j: int| from <= j < idx_from(s, b, from) ==> s[j] != b,
    decreases s.len() - from,
{
    if from < s.len() && s[from] != b {
        lemma_idx_from(s, b, from + 1);
    }
}

pub proof fn lemma_idx_from_found(s: Seq<u8>, b: u8, from: int, p: int)
    requires
        0 <= from <= p < s.len(),
        s[p] == b,
        forall|j: int| from <= j < p ==> s[j] != b,
    ensures
        idx_from(s, b, from) == p,
    decreases p - from,
{
    if from < p {
        lemma_idx_from_found(s, b, from + 1, p);
    }
}

/// The segments of the path from `from` on, split on `/`.
pub open spec fn split_from(s: Seq<u8>, from: int) -> Seq<Seq<u8>>
    decreases s.len() + 1 - from when 0 <= from <= s.len()
{
    let e = idx_from(s, 0x2F, from);
    if from <= e && e < s.len() {
        seq![s.subrange(from, e)] + split_from(s, e + 1)
    } else {
        seq![s.subrange(from, s.len() as int)]
    }
}

/// The segments of a path, split on `/`.
pub open spec fn split_path(s: Seq<u8>) -> Seq<Seq<u8>> {
    split_from(s, 0)
}

/// Navigating the path through the text: each segment narrows the text to
/// the first span of its tag.
pub open spec fn get_path_spec(text: Seq<u8>, segs: Seq<Seq<u8>>, k: int) -> Option<Seq<u8>>
    decreases segs.len() - k,
{
    if k < 0 || k >= segs.len() {
        Option::Some(text)
    } else {
        match tag_content(text, segs[k]) {
            Option::None => Option::None,
            Option::Some(c) => get_path_spec(c, segs, k + 1),
        }
    }
}

/// Finds the first occurrence of `sub` in `d` at or after `from`, as the
/// recursive first-occurrence function gives it; -1 is reported as `None`.
fn find_occur(d: &[u8], sub: &[u8], from: usize) -> (r: Option<usize>)
    requires
        sub@.len() >= 1,
    ensures
        r matches Some(p) ==> first_occur(d@, sub@, from as int) == p && bytes_match_at(
            d@,
            sub@,
            p as int,
        ),
        r is None ==> first_occur(d@, sub@, from as int) == -1,
{
    let p = find_bytes_from(d, sub, from);
    if p == HEX_NOT_FOUND {
        proof {
            lemma_first_occur_none(d@, sub@, from as int);
        }
        None
    } else {
        proof {
            lemma_first_occur_found(d@, sub@, from as int, p as int);
        }
        Some(p)
    }
}

/// Appends a byte string to a buffer.
pub fn push_bytes(out: &mut Vec<u8>, s: &[u8])
    ensures
        final(out)@ == old(out)@ + s@,
{
    let mut i: usize = 0;
    while i < s.len()
        invariant
            i <= s@.len(),
            out@ == old(out)@ + s@.subrange(0, i as int),
        decreases s@.len() - i,
    {
        out.push(s[i]);
        proof {
            assert(old(out)@ + s@.subrange(0, i + 1) =~= (old(out)@ + s@.subrange(0, i as int)).push(
                s@[i as int],
            ));
        }
        i += 1;
    }
    proof {
        assert(s@.subrange(0, s@.len() as int) =~= s@);
    }
}

/// Copies a range of a byte slice into a fresh buffer.
pub fn copy_bytes(d: &[u8], from: usize, to: usize) -> (r: Vec<u8>)
    requires
        from <= to <= d@.len(),
    ensures
        r@ == d@.subrange(from as int, to as int),
{
    let s = vstd::slice::slice_subrange(d, from, to);
    vstd::slice::slice_to_vec(s)
}

/// The index where the trimmed text starts.
proof fn lemma_trim_range(s: Seq<u8>, lo: int, hi: int)
    requires
        0 <= lo <= hi <= s.len(),
        forall|j: int| 0 <= j < lo ==> is_ws(#[trigger] s[j]),
        forall|j: int| hi <= j < s.len() ==> is_ws(#[trigger] s[j]),
        lo < hi ==> !is_ws(s[lo]) && !is_ws(s[hi - 1]),
    ensures
        trim_ws(s) == s.subrange(lo, hi),
    decreases s.len(),
{
    if s.len() > 0 && is_ws(s[0]) {
        assert(lo >= 1 || (lo == 0 && lo == hi && hi < s.len()) || (lo == 0 && lo == hi && hi
            == s.len()));
        if lo == 0 && lo == hi {
            assert(forall|j: int| 0 <= j < s.len() ==> is_ws(#[trigger] s[j]));
            lemma_trim_all_ws(s);
            assert(s.subrange(lo, hi) =~= Seq::<u8>::empty());
        } else {
            let t = s.drop_first();
            lemma_trim_range(t, lo - 1, hi - 1);
            assert(t.subrange(lo - 1, hi - 1) =~= s.subrange(lo, hi));
        }
    } else if s.len() > 0 && is_ws(s.last()) {
        assert(hi <= s.len() - 1 || (hi == s.len() && lo == hi));
        if hi == s.len() && lo == hi {
            assert(!is_ws(s.last()) || lo > 0);
            assert(false);
        } else {
            let t = s.drop_last();
            lemma_trim_range(t, lo, hi);
            assert(t.subrange(lo, hi) =~= s.subrange(lo, hi));
        }
    } else {
        if s.len() == 0 {
            assert(s.subrange(lo, hi) =~= s);
        } else {
            assert(lo == 0) by {
                if lo > 0 {
                    assert(is_ws(s[0]));
                }
            }
            assert(hi == s.len()) by {
                if hi < s.len() {
                    assert(is_ws(s[s.len() - 1]));
                }
            }
            assert(s.subrange(lo, hi) =~= s);
        }
    }
}

/// Trimming an all-whitespace text leaves nothing.
proof fn lemma_trim_all_ws(s: Seq<u8>)
    requires
        forall|j: int| 0 <= j < s.len() ==> is_ws(#[trigger] s[j]),
    ensures
        trim_ws(s) == Seq::<u8>::empty(),
    decreases s.len(),
{
    if s.len() > 0 {
        lemma_trim_all_ws(s.drop_first());
    }
}

/// Trims leading and trailing ASCII whitespace from a byte buffer.
fn trim_ws_exec(d: &[u8]) -> (r: Vec<u8>)
    ensures
        r@ == trim_ws(d@),
{
    let n = d.len();
    let mut lo: usize = 0;
    while lo < n && (d[lo] == 0x20 || d[lo] == 0x09 || d[lo] == 0x0A || d[lo] == 0x0D)
        invariant
            n == d@.len(),
            lo <= n,
            forall|j: int| 0 <= j < lo ==> is_ws(#[trigger] d@[j]),
        decreases n - lo,
    {
        lo += 1;
    }
    let mut hi: usize = n;
    while hi > lo && (d[hi - 1] == 0x20 || d[hi - 1] == 0x09 || d[hi - 1] == 0x0A || d[hi - 1]
        == 0x0D)
        invariant
            n == d@.len(),
            lo <= hi <= n,
            forall|j: int| hi <= j < n ==> is_ws(#[trigger] d@[j]),
            forall|j: int| 0 <= j < lo ==> is_ws(#[trigger] d@[j]),
        decreases hi,
    {
        hi -= 1;
    }
    proof {
        lemma_trim_range(d@, lo as int, hi as int);
    }
    copy_bytes(d, lo, hi)
}

/// Builds the opening form `<tag>` of a tag.
pub fn make_open_tag(tag: &[u8]) -> (r: Vec<u8>)
    ensures
        r@ == open_tag(tag@),
{
    let mut out: Vec<u8> = Vec::new();
    out.push(0x3C);
    push_bytes(&mut out, tag);
    out.push(0x3E);
    proof {
        assert(out@ =~= open_tag(tag@));
    }
    out
}

/// Builds the closing form `</tag>` of a tag.
pub fn make_close_tag(tag: &[u8]) -> (r: Vec<u8>)
    ensures
        r@ == close_tag(tag@),
{
    let mut out: Vec<u8> = Vec::new();
    out.push(0x3C);
    out.push(0x2F);
    push_bytes(&mut out, tag);
    out.push(0x3E);
    proof {
        assert(out@ =~= close_tag(tag@));
    }
    out
}

/// Reads the trimmed content of the tag path out of an XML text: each `/`-
/// separated segment narrows the text to the first `<tag>`...`</tag>` span.
/// Fails when a tag of the path is absent or unclosed, or when the content
/// is not valid UTF-8.
pub fn get_tag(xml: &str, path: &str) -> (r: Result<String, Error>)
    ensures
        r matches Ok(s) ==> {
            &&& get_path_spec(xml.spec_bytes(), split_path(path.spec_bytes()), 0) matches Some(c)
            &&& vstd::utf8::valid_utf8(trim_ws(c))
            &&& s@ == vstd::utf8::decode_utf8(trim_ws(c))
        },
        r is Err ==> get_path_spec(xml.spec_bytes(), split_path(path.spec_bytes()), 0) is None || (
        get_path_spec(xml.spec_bytes(), split_path(path.spec_bytes()), 0) matches Some(c)
            && !vstd::utf8::valid_utf8(trim_ws(c))),
{
    let pb = path.as_bytes();
    let plen = pb.len();
    let ghost pseq = path.spec_bytes();

    let mut segs: Vec<Vec<u8>> = Vec::new();
    let mut from: usize = 0;
    loop
        invariant_except_break
            split_from(pseq, 0) =~~= seg_views(segs@) + split_from(pseq, from as int),
        invariant
            pb@ == pseq,
            plen == pseq.len(),
            from <= plen,
        ensures
            seg_views(segs@) =~~= split_from(pseq, 0),
        decreases plen + 1 - from,
    {
        let mut e: usize = from;
        while e < plen && pb[e] != 0x2F
            invariant
                pb@ == pseq,
                plen == pseq.len(),
                from <= e <= plen,
                forall|j: int| from <= j < e ==> pseq[j] != 0x2F,
            decreases plen - e,
        {
            e += 1;
        }
        proof {
            if e < plen {
                lemma_idx_from_found(pseq, 0x2F, from as int, e as int);
            } else {
                lemma_idx_from(pseq, 0x2F, from as int);
                assert(idx_from(pseq, 0x2F, from as int) == plen);
            }
        }
        let seg = copy_bytes(pb, from, e);
        segs.push(seg);
        proof {
            assert(seg_views(segs@) =~~= seg_views(segs@.drop_last()).push(seg@));
        }
        if e >= plen {
            proof {
                assert(split_from(pseq, from as int) =~~= seq![
                    pseq.subrange(from as int, plen as int),
                ]);
                assert(seg_views(segs@) =~~= split_from(pseq, 0));
            }
            break ;
        }
        from = e + 1;
    }

    let xb = xml.as_bytes();
    let mut current: Vec<u8> = vstd::slice::slice_to_vec(xb);
    let ghost all_segs = seg_views(segs@);
    let mut k: usize = 0;
    while k < segs.len()
        invariant
            pseq == path.spec_bytes(),
            all_segs == seg_views(segs@),
            all_segs =~~= split_path(pseq),
            k <= segs@.len(),
            all_segs.len() == segs@.len(),
            get_path_spec(xml.spec_bytes(), all_segs, 0) == get_path_spec(
                current@,
                all_segs,
                k as int,
            ),
        decreases segs@.len() - k,
    {
        let seg = &segs[k];
        proof {
            assert(seg_views(segs@)[k as int] == segs@[k as int]@);
        }
        let open = make_open_tag(seg.as_slice());
        let close = make_close_tag(seg.as_slice());
        let cl = current.len();
        let o = match find_occur(current.as_slice(), open.as_slice(), 0) {
            Some(o) => o,
            None => {
                proof {
                    assert(tag_content(current@, all_segs[k as int]) is None);
                    assert(get_path_spec(current@, all_segs, k as int) is None);
                    assert(get_path_spec(xml.spec_bytes(), all_segs, 0) is None);
                    assert(all_segs == split_path(path.spec_bytes()));
                }
                return Err(Error::penumbra("XML tag not found"));
            },
        };
        let cstart = o + open.len();
        let c = match find_occur(current.as_slice(), close.as_slice(), cstart) {
            Some(c) => c,
            None => {
                proof {
                    assert(tag_content(current@, all_segs[k as int]) is None);
                    assert(get_path_spec(current@, all_segs, k as int) is None);
                    assert(get_path_spec(xml.spec_bytes(), all_segs, 0) is None);
                    assert(all_segs == split_path(path.spec_bytes()));
                }
                return Err(Error::penumbra("XML tag not closed"));
            },
        };
        proof {
            assert(cstart <= c <= current@.len()) by {
                lemma_idx_bounds_first_occur(current@, close_tag(all_segs[k as int]), cstart as int);
            }
            assert(tag_content(current@, all_segs[k as int]) matches Some(cc) && cc
                == current@.subrange(cstart as int, c as int));
        }
        let next = copy_bytes(current.as_slice(), cstart, c);
        current = next;
        k += 1;
    }

    let trimmed = trim_ws_exec(current.as_slice());
    match crate::error::utf8_to_string(trimmed.as_slice()) {
        Some(s) => Ok(s),
        None => Err(Error::penumbra("XML content is not valid UTF-8")),
    }
}

/// The views of a list of byte buffers.
pub open spec fn seg_views(segs: Seq<Vec<u8>>) -> Seq<Seq<u8>> {
    segs.map(|i: int, v: Vec<u8>| v@)
}

/// A found occurrence lies within the text.
proof fn lemma_idx_bounds_first_occur(d: Seq<u8>, sub: Seq<u8>, from: int)
    requires
        0 <= from,
        first_occur(d, sub, from) >= 0,
    ensures
        from <= first_occur(d, sub, from),
        first_occur(d, sub, from) + sub.len() <= d.len(),
    decreases d.len() + 1 - from,
{
    if from + sub.len() <= d.len() && !bytes_match_at(d, sub, from) {
        lemma_idx_bounds_first_occur(d, sub, from + 1);
    }
}

/// The text with every leading `0x` prefix removed.
pub open spec fn strip_0x(s: Seq<char>) -> Seq<char>
    decreases s.len(),
{
    if s.len() >= 2 && s[0] == '0' && s[1] == 'x' {
        strip_0x(s.skip(2))
    } else {
        s
    }
}

/// A non-empty string of hex digits.
pub open spec fn all_hex_digits(s: Seq<char>) -> bool {
    s.len() > 0 && forall|i: int|
        0 <= i < s.len() ==> crate::patching::spec_is_hex_digit(#[trigger] s[i])
}

/// The number a hex digit string stands for.
pub open spec fn hex_value(s: Seq<char>) -> int
    decreases s.len(),
{
    if s.len() == 0 {
        0
    } else {
        hex_value(s.drop_last()) * 16 + crate::patching::spec_hex_val(s.last())
    }
}

proof fn lemma_hex_value_nonneg(s: Seq<char>)
    ensures
        hex_value(s) >= 0,
    decreases s.len(),
{
    if s.len() > 0 {
        lemma_hex_value_nonneg(s.drop_last());
    }
}

proof fn lemma_hex_value_mono(s: Seq<char>, i: int)
    requires
        0 <= i <= s.len(),
    ensures
        hex_value(s.subrange(0, i)) <= hex_value(s),
    decreases s.len() - i,
{
    if i < s.len() {
        lemma_hex_value_mono(s, i + 1);
        let a = s.subrange(0, i);
        let b = s.subrange(0, i + 1);
        assert(b.drop_last() =~= a);
        lemma_hex_value_nonneg(a);
    } else {
        assert(s.subrange(0, i) =~= s);
    }
}

/// The hex number a tag of the XML text holds, read through `get_tag`: any
/// repeated `0x` prefix is stripped, the rest must be hex digits whose value
/// fits the machine word.
pub fn get_tag_usize(xml: &str, path: &str) -> (r: Result<usize, Error>)
    ensures
        r matches Ok(n) ==> {
            &&& get_path_spec(xml.spec_bytes(), split_path(path.spec_bytes()), 0) matches Some(c)
            &&& vstd::utf8::valid_utf8(trim_ws(c))
            &&& {
                let t = strip_0x(vstd::utf8::decode_utf8(trim_ws(c)));
                &&& all_hex_digits(t)
                &&& hex_value(t) == n
            }
        },
        r is Err ==> {
            ||| get_path_spec(xml.spec_bytes(), split_path(path.spec_bytes()), 0) is None
            ||| (get_path_spec(xml.spec_bytes(), split_path(path.spec_bytes()), 0) matches Some(c)
                && (!vstd::utf8::valid_utf8(trim_ws(c)) || {
                let t = strip_0x(vstd::utf8::decode_utf8(trim_ws(c)));
                !all_hex_digits(t) || hex_value(t) > usize::MAX
            }))
        },
{
    let raw = match get_tag(xml, path) {
        Ok(s) => s,
        Err(e) => {
            return Err(e);
        },
    };

    let n = raw.as_str().unicode_len();
    proof {
        assert(raw@.skip(0) =~= raw@);
    }
    let mut i: usize = 0;
    while n - i >= 2 && raw.as_str().get_char(i) == '0' && raw.as_str().get_char(i + 1) == 'x'
        invariant
            get_path_spec(xml.spec_bytes(), split_path(path.spec_bytes()), 0) matches Some(cc)
                && vstd::utf8::valid_utf8(trim_ws(cc)) && raw@ == vstd::utf8::decode_utf8(
                trim_ws(cc),
            ),
            n == raw@.len(),
            i <= n,
            strip_0x(raw@) == strip_0x(raw@.skip(i as int)),
        decreases n - i,
    {
        proof {
            assert(raw@.skip(i as int)[0] == raw@[i as int]);
            assert(raw@.skip(i as int)[1] == raw@[i + 1]);
            assert(raw@.skip(i as int).skip(2) =~= raw@.skip(i + 2));
        }
        i += 2;
    }
    proof {
        let rem = raw@.skip(i as int);
        if rem.len() >= 2 {
            assert(rem[0] == raw@[i as int]);
            assert(rem[1] == raw@[i + 1]);
        }
        assert(strip_0x(rem) == rem);
    }
    let ghost t = strip_0x(raw@);

    if i >= n {
        return Err(Error::penumbra("Empty hex value in XML tag"));
    }

    let mut acc: usize = 0;
    let mut j: usize = i;
    while j < n
        invariant
            get_path_spec(xml.spec_bytes(), split_path(path.spec_bytes()), 0) matches Some(cc)
                && vstd::utf8::valid_utf8(trim_ws(cc)) && raw@ == vstd::utf8::decode_utf8(
                trim_ws(cc),
            ),
            t == strip_0x(raw@),
            n == raw@.len(),
            t == raw@.skip(i as int),
            i <= j <= n,
            forall|m: int|
                0 <= m < j - i ==> crate::patching::spec_is_hex_digit(#[trigger] t[m]),
            acc == hex_value(t.subrange(0, j - i)),
        decreases n - j,
    {
        let c = raw.as_str().get_char(j);
        let v = crate::patching::hex_val(c);
        proof {
            assert(t[j - i] == raw@[j as int]);
        }
        if v >= 16 {
            proof {
                assert(!all_hex_digits(t));
            }
            return Err(Error::penumbra("Invalid hex value in XML tag"));
        }
        if acc > (usize::MAX - v as usize) / 16 {
            proof {
                assert(hex_value(t.subrange(0, j - i + 1)) > usize::MAX) by {
                    assert(t.subrange(0, j - i + 1).drop_last() =~= t.subrange(0, j - i));
                    assert(t.subrange(0, j - i + 1).last() == t[j - i]);
                }
                lemma_hex_value_mono(t, j - i + 1);
            }
            return Err(Error::penumbra("Hex value in XML tag is too large"));
        }
        let newacc = acc * 16 + v as usize;
        proof {
            assert(t.subrange(0, j - i + 1).drop_last() =~= t.subrange(0, j - i));
            assert(t.subrange(0, j - i + 1).last() == t[j - i]);
        }
        acc = newacc;
        j += 1;
    }
    proof {
        assert(t.subrange(0, n - i) =~= t);
    }
    Ok(acc)
}

/// Builds a text from bytes; plain ASCII bytes always convert.
pub fn ascii_to_string(b: &[u8]) -> (r: Option<String>)
    ensures
        r matches Some(s) ==> vstd::utf8::valid_utf8(b@) && s@ == vstd::utf8::decode_utf8(b@),
        (forall|i: int| 0 <= i < b@.len() ==> b@[i] < 0x80) ==> r is Some,
{
    proof {
        if forall|i: int| 0 <= i < b@.len() ==> b@[i] < 0x80 {
            assert(vstd::utf8::partial_valid_utf8(b@, 0)) by {
                assert(b@.subrange(0, 0) =~= Seq::<u8>::empty());
            }
            assert forall|i: int|
                0 <= 0 <= i < b@.len() as int <= b@.len() implies #[trigger] vstd::utf8::is_leading_byte_width_1(
                b@[i],
            ) by {
                assert(b@[i] < 0x80);
            }
            vstd::utf8::partial_valid_utf8_extend_ascii_block(b@, 0, b@.len() as int);
            assert(b@.subrange(0, b@.len() as int) =~= b@);
        }
    }
    crate::error::utf8_to_string(b)
}

/// A non-empty text encodes to at least one byte.
pub proof fn lemma_encode_nonempty(s: Seq<char>)
    requires
        s.len() > 0,
    ensures
        vstd::utf8::encode_utf8(s).len() > 0,
{
    assert(vstd::utf8::encode_utf8(s) == vstd::utf8::encode_scalar(s[0] as u32)
        + vstd::utf8::encode_utf8(s.drop_first()));
    assert(vstd::utf8::encode_scalar(s[0] as u32).len() >= 1);
}

} // verus!
