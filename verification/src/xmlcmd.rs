//! Declarative XML commands: each command renders to an ASCII document with
//! a version, a command name and a list of tagged arguments, and a rendered
//! argument list parses back to the same fields.

use vstd::prelude::*;
use vstd::string::StringSliceAdditionalSpecFns;
use vstd::string::StrSliceExecFns;
use vstd::string::StringExecFns;
use crate::error::{spec_status_text, XmlError};
use crate::xml::{close_tag, idx_from, lemma_idx_from, lemma_idx_from_found, open_tag};

verus! {

/// One argument of a declarative XML command: an optional section, the tag,
/// and the rendered value.
pub struct XmlArg {
    pub section: Option<String>,
    pub tag: String,
    pub value: String,
}

/// The byte form of an argument list: sections dropped, tags and values
/// UTF-8 encoded.
pub open spec fn arg_views(args: Seq<XmlArg>) -> Seq<(Seq<u8>, Seq<u8>)> {
    args.map(
        |i: int, a: XmlArg| (vstd::utf8::encode_utf8(a.tag@), vstd::utf8::encode_utf8(a.value@)),
    )
}

/// One rendered argument: `<tag>value</tag>`.
pub open spec fn render_arg_b(tag: Seq<u8>, value: Seq<u8>) -> Seq<u8> {
    open_tag(tag) + value + close_tag(tag)
}

/// A rendered argument list: the arguments in order.
pub open spec fn render_args_b(args: Seq<(Seq<u8>, Seq<u8>)>) -> Seq<u8>
    decreases args.len(),
{
    if args.len() == 0 {
        Seq::empty()
    } else {
        render_arg_b(args[0].0, args[0].1) + render_args_b(args.drop_first())
    }
}

/// A tag is safe to render: non-empty, holding neither `<` nor `>`.
pub open spec fn tag_wf(tag: Seq<u8>) -> bool {
    &&& tag.len() >= 1
    &&& forall|j: int| 0 <= j < tag.len() ==> #[trigger] tag[j] != 0x3C && tag[j] != 0x3E
}

/// A value is safe to render: holding no `<`.
pub open spec fn value_wf(value: Seq<u8>) -> bool {
    forall|j: int| 0 <= j < value.len() ==> #[trigger] value[j] != 0x3C
}

/// The fields a rendered argument list parses back to: a strict sequential
/// reading of `<tag>value</tag>` groups.
pub open spec fn parse_args_spec(s: Seq<u8>) -> Option<Seq<(Seq<u8>, Seq<u8>)>>
    decreases s.len(),
{
    if s.len() == 0 {
        Option::Some(Seq::empty())
    } else if s[0] != 0x3C {
        Option::None
    } else {
        let gt = idx_from(s, 0x3E, 1);
        if !(2 <= gt && gt < s.len()) {
            Option::None
        } else {
            let tag = s.subrange(1, gt);
            let lt = idx_from(s, 0x3C, gt + 1);
            if !(gt + 1 <= lt && lt < s.len()) {
                Option::None
            } else {
                let value = s.subrange(gt + 1, lt);
                let close = close_tag(tag);
                if lt + close.len() > s.len() {
                    Option::None
                } else if s.subrange(lt, lt + close.len()) != close {
                    Option::None
                } else {
                    match parse_args_spec(s.skip(lt + close.len())) {
                        Option::None => Option::None,
                        Option::Some(rest) => Option::Some(
                            seq![(tag, value)] + rest,
                        ),
                    }
                }
            }
        }
    }
}

/// A rendered argument list of safe tags and values parses back to exactly
/// the fields it was rendered from.
pub proof fn lemma_render_parse_round_trip(args: Seq<(Seq<u8>, Seq<u8>)>)
    requires
        forall|k: int|
            0 <= k < args.len() ==> tag_wf(#[trigger] args[k].0) && value_wf(args[k].1),
    ensures
        parse_args_spec(render_args_b(args)) == Option::Some(args),
    decreases args.len(),
{
    if args.len() == 0 {
        assert(render_args_b(args) =~= Seq::<u8>::empty());
    } else {
        let t = args[0].0;
        let v = args[0].1;
        let rest = render_args_b(args.drop_first());
        let s = render_args_b(args);
        let one = render_arg_b(t, v);
        assert(s == one + rest);
        assert(s.len() == one.len() + rest.len());

        assert(s[0] == 0x3C);

        let gt_expect = 1 + t.len() as int;
        assert(s[gt_expect] == 0x3E) by {
            assert(one[gt_expect] == open_tag(t)[gt_expect]);
        }
        assert forall|j: int| 1 <= j < gt_expect implies s[j] != 0x3E by {
            assert(s[j] == open_tag(t)[j]);
            assert(open_tag(t)[j] == t[j - 1]);
        }
        lemma_idx_from_found(s, 0x3E, 1, gt_expect);
        let gt = idx_from(s, 0x3E, 1);
        assert(gt == gt_expect);
        assert(s.subrange(1, gt) =~= t);

        let lt_expect = gt + 1 + v.len() as int;
        assert(s[lt_expect] == 0x3C) by {
            assert(one[lt_expect] == close_tag(t)[0]);
        }
        assert forall|j: int| gt + 1 <= j < lt_expect implies s[j] != 0x3C by {
            assert(s[j] == one[j]);
            assert(one[j] == v[j - gt - 1]);
        }
        lemma_idx_from_found(s, 0x3C, gt + 1, lt_expect);
        let lt = idx_from(s, 0x3C, gt + 1);
        assert(lt == lt_expect);
        assert(s.subrange(gt + 1, lt) =~= v);

        let close = close_tag(t);
        assert(lt + close.len() == one.len());
        assert(s.subrange(lt, lt + close.len()) =~= close) by {
            assert forall|j: int| 0 <= j < close.len() implies s.subrange(
                lt,
                lt + close.len(),
            )[j] == close[j] by {
                assert(s[lt + j] == one[lt + j]);
                assert(one[lt + j] == close[j]);
            }
        }
        assert(s.skip(lt + close.len()) =~= rest);

        lemma_render_parse_round_trip(args.drop_first());
        assert(seq![(t, v)] + args.drop_first() =~= args);
    }
}

/// Renders a declarative command to its ASCII document: the prolog, the
/// protocol version, the command name, and the argument list; an argument
/// with a section renders inside that section's tag.
pub fn render(name: &str, version: &str, args: &Vec<XmlArg>) -> (r: Vec<u8>)
    ensures
        r@ == spec_render_doc(
            name.spec_bytes(),
            version.spec_bytes(),
            Seq::new(args@.len(), |i: int| spec_render_one(args@[i])),
        ),
{
    let mut out: Vec<u8> = Vec::new();
    push_str_bytes(&mut out, "<?xml version=\"1.0\" encoding=\"utf-8\"?>");
    push_str_bytes(&mut out, "<da><version>");
    push_str_bytes(&mut out, version);
    push_str_bytes(&mut out, "</version><command>");
    push_str_bytes(&mut out, name);
    push_str_bytes(&mut out, "</command><arg>");

    let mut i: usize = 0;
    while i < args.len()
        invariant
            i <= args@.len(),
            out@ == spec_doc_prefix(name.spec_bytes(), version.spec_bytes()) + flatten_upto(
                Seq::new(args@.len(), |k: int| spec_render_one(args@[k])),
                i as int,
            ),
        decreases args@.len() - i,
    {
        let arg = &args[i];
        let ghost before = out@;
        match &arg.section {
            Some(sec) => {
                let o = crate::xml::make_open_tag(sec.as_str().as_bytes());
                crate::xml::push_bytes(&mut out, o.as_slice());
                push_one_arg(&mut out, &arg.tag, &arg.value);
                let c = crate::xml::make_close_tag(sec.as_str().as_bytes());
                crate::xml::push_bytes(&mut out, c.as_slice());
            },
            None => {
                push_one_arg(&mut out, &arg.tag, &arg.value);
            },
        }
        proof {
            assert(out@ =~= before + spec_render_one(args@[i as int]));
            lemma_flatten_step(
                Seq::new(args@.len(), |k: int| spec_render_one(args@[k])),
                i as int,
            );
        }
        i += 1;
    }
    push_str_bytes(&mut out, "</arg></da>");
    proof {
        let pieces = Seq::new(args@.len(), |k: int| spec_render_one(args@[k]));
        assert(flatten_upto(pieces, pieces.len() as int) == flatten_all(pieces));
    }
    out
}

/// The document prefix before the argument list.
pub open spec fn spec_doc_prefix(name: Seq<u8>, version: Seq<u8>) -> Seq<u8> {
    "<?xml version=\"1.0\" encoding=\"utf-8\"?>".spec_bytes()
        + "<da><version>".spec_bytes() + version + "</version><command>".spec_bytes() + name
        + "</command><arg>".spec_bytes()
}

/// The rendered bytes of one argument, its section included.
pub open spec fn spec_render_one(a: XmlArg) -> Seq<u8> {
    let inner = render_arg_b(
        vstd::utf8::encode_utf8(a.tag@),
        vstd::utf8::encode_utf8(a.value@),
    );
    match a.section {
        Option::Some(sec) => open_tag(vstd::utf8::encode_utf8(sec@)) + inner + close_tag(
            vstd::utf8::encode_utf8(sec@),
        ),
        Option::None => inner,
    }
}

/// The whole rendered document.
pub open spec fn spec_render_doc(name: Seq<u8>, version: Seq<u8>, pieces: Seq<Seq<u8>>) -> Seq<
    u8,
> {
    spec_doc_prefix(name, version) + flatten_all(pieces) + "</arg></da>".spec_bytes()
}

/// The concatenation of the first `k` pieces.
pub open spec fn flatten_upto(pieces: Seq<Seq<u8>>, k: int) -> Seq<u8>
    decreases k,
{
    if k <= 0 {
        Seq::empty()
    } else {
        flatten_upto(pieces, k - 1) + pieces[k - 1]
    }
}

/// The concatenation of all pieces.
pub open spec fn flatten_all(pieces: Seq<Seq<u8>>) -> Seq<u8> {
    flatten_upto(pieces, pieces.len() as int)
}

proof fn lemma_flatten_step(pieces: Seq<Seq<u8>>, k: int)
    requires
        0 <= k < pieces.len(),
    ensures
        flatten_upto(pieces, k + 1) == flatten_upto(pieces, k) + pieces[k],
{
}

/// Appends the bytes of a string literal.
fn push_str_bytes(out: &mut Vec<u8>, s: &str)
    ensures
        final(out)@ == old(out)@ + s.spec_bytes(),
{
    crate::xml::push_bytes(out, s.as_bytes());
}

/// Appends one `<tag>value</tag>` group.
fn push_one_arg(out: &mut Vec<u8>, tag: &String, value: &String)
    ensures
        final(out)@ == old(out)@ + render_arg_b(
            vstd::utf8::encode_utf8(tag@),
            vstd::utf8::encode_utf8(value@),
        ),
{
    let o = crate::xml::make_open_tag(tag.as_str().as_bytes());
    crate::xml::push_bytes(out, o.as_slice());
    crate::xml::push_bytes(out, value.as_str().as_bytes());
    let c = crate::xml::make_close_tag(tag.as_str().as_bytes());
    crate::xml::push_bytes(out, c.as_slice());
    proof {
        assert(out@ =~= old(out)@ + render_arg_b(
            vstd::utf8::encode_utf8(tag@),
            vstd::utf8::encode_utf8(value@),
        ));
    }
}

/// The minimal upper-case hex digits of a value; empty for zero.
pub open spec fn spec_min_hex(v: nat) -> Seq<char>
    decreases v,
{
    if v == 0 {
        Seq::empty()
    } else {
        spec_min_hex(v / 16) + seq![crate::patching::hex_digit_char(v as int % 16)]
    }
}

/// A value as a `0x`-prefixed upper-case hex string.
pub open spec fn spec_hex_str(v: nat) -> Seq<char> {
    "0x"@ + if v == 0 {
        "0"@
    } else {
        spec_min_hex(v)
    }
}

fn min_hex(v: u64) -> (r: String)
    ensures
        r@ == spec_min_hex(v as nat),
    decreases v,
{
    if v == 0 {
        String::new()
    } else {
        let mut s = min_hex(v / 16);
        s.append(crate::patching::hex_digit_str((v % 16) as u8));
        s
    }
}

/// Renders a value as a `0x`-prefixed upper-case hex string.
pub fn u64_hex_string(v: u64) -> (r: String)
    ensures
        r@ == spec_hex_str(v as nat),
{
    let mut s = String::from_str("0x");
    if v == 0 {
        s.append("0");
    } else {
        let m = min_hex(v);
        s.append(m.as_str());
    }
    s
}

/// An ASCII lower-case byte raised to upper case.
pub open spec fn spec_upper_b(b: u8) -> u8 {
    if 97 <= b && b <= 122 {
        (b - 32) as u8
    } else {
        b
    }
}

/// An ASCII upper-case letter byte.
pub open spec fn is_upper_b(b: u8) -> bool {
    65 <= b && b <= 90
}

/// The command tag a CamelCase name renders to: upper case, with `-` before
/// every interior upper-case letter.
pub open spec fn spec_cmd_name(s: Seq<u8>) -> Seq<u8>
    decreases s.len(),
{
    if s.len() == 0 {
        Seq::empty()
    } else {
        spec_cmd_name(s.drop_last()) + if is_upper_b(s.last()) && s.len() > 1 {
            seq![0x2Du8, s.last()]
        } else {
            seq![spec_upper_b(s.last())]
        }
    }
}

/// Converts a CamelCase command name to its UPPER-KEBAB-CASE wire tag.
pub fn to_cmd_name(name: &str) -> (r: String)
    requires
        forall|i: int| 0 <= i < name.spec_bytes().len() ==> name.spec_bytes()[i] < 0x80,
    ensures
        r@ == vstd::utf8::decode_utf8(spec_cmd_name(name.spec_bytes())),
{
    let nb = name.as_bytes();
    let n = nb.len();
    let mut out: Vec<u8> = Vec::new();
    let mut i: usize = 0;
    while i < n
        invariant
            nb@ == name.spec_bytes(),
            n == nb@.len(),
            forall|j: int| 0 <= j < n ==> nb@[j] < 0x80,
            i <= n,
            out@ == spec_cmd_name(nb@.subrange(0, i as int)),
            forall|j: int| 0 <= j < out@.len() ==> #[trigger] out@[j] < 0x80,
        decreases n - i,
    {
        let b = nb[i];
        if b >= 65 && b <= 90 && i != 0 {
            out.push(0x2D);
            out.push(b);
        } else if b >= 97 && b <= 122 {
            out.push(b - 32);
        } else {
            out.push(b);
        }
        proof {
            let sub = nb@.subrange(0, i + 1);
            assert(sub.drop_last() =~= nb@.subrange(0, i as int));
            assert(sub.last() == nb@[i as int]);
            assert(out@ =~= spec_cmd_name(sub));
        }
        i += 1;
    }
    proof {
        assert(nb@.subrange(0, n as int) =~= nb@);
    }
    match crate::xml::ascii_to_string(out.as_slice()) {
        Some(s) => s,
        None => String::new(),
    }
}

/// The `EXT-ACK` command: no arguments; the booted extensions answer it
/// with their acknowledgement word.
pub struct ExtAck {
}

impl ExtAck {
    pub fn new() -> (r: ExtAck) {
        ExtAck {  }
    }

    pub fn cmd_name(&self) -> (r: &'static str)
        ensures
            r@ == "CMD:EXT-ACK"@,
    {
        "CMD:EXT-ACK"
    }

    pub fn version(&self) -> (r: &'static str)
        ensures
            r@ == "1.0"@,
    {
        "1.0"
    }

    pub fn args(&self) -> (r: Vec<XmlArg>)
        ensures
            r@.len() == 0,
    {
        Vec::new()
    }
}

/// The `EXT-SET-SEJ-BASE` command: pushes the SEJ crypto block's base
/// address to the booted extensions.
pub struct ExtSetSejBase {
    pub sej_base: u32,
}

impl ExtSetSejBase {
    pub fn new(sej_base: u32) -> (r: ExtSetSejBase)
        ensures
            r.sej_base == sej_base,
    {
        ExtSetSejBase { sej_base }
    }

    pub fn cmd_name(&self) -> (r: &'static str)
        ensures
            r@ == "CMD:EXT-SET-SEJ-BASE"@,
    {
        "CMD:EXT-SET-SEJ-BASE"
    }

    pub fn version(&self) -> (r: &'static str)
        ensures
            r@ == "1.0"@,
    {
        "1.0"
    }

    pub fn args(&self) -> (r: Vec<XmlArg>)
        ensures
            r@.len() == 1,
            r@[0].section is None,
            r@[0].tag@ == "sej_base"@,
            r@[0].value@ == spec_hex_str(self.sej_base as nat),
    {
        let mut out: Vec<XmlArg> = Vec::new();
        out.push(
            XmlArg {
                section: None,
                tag: String::from_str("sej_base"),
                value: u64_hex_string(self.sej_base as u64),
            },
        );
        out
    }
}

/// The `EXT-READ-MEM` command: asks the booted extensions for a raw memory
/// range.
pub struct ExtReadMem {
    pub address: u32,
    pub length: usize,
}

impl ExtReadMem {
    pub fn new(address: u32, length: usize) -> (r: ExtReadMem)
        ensures
            r.address == address,
            r.length == length,
    {
        ExtReadMem { address, length }
    }

    pub fn cmd_name(&self) -> (r: &'static str)
        ensures
            r@ == "CMD:EXT-READ-MEM"@,
    {
        "CMD:EXT-READ-MEM"
    }

    pub fn version(&self) -> (r: &'static str)
        ensures
            r@ == "1.0"@,
    {
        "1.0"
    }

    pub fn args(&self) -> (r: Vec<XmlArg>)
        ensures
            r@.len() == 2,
            r@[0].section is None && r@[0].tag@ == "address"@ && r@[0].value@ == spec_hex_str(
                self.address as nat,
            ),
            r@[1].section is None && r@[1].tag@ == "length"@ && r@[1].value@ == spec_hex_str(
                self.length as nat,
            ),
    {
        let mut out: Vec<XmlArg> = Vec::new();
        out.push(
            XmlArg {
                section: None,
                tag: String::from_str("address"),
                value: u64_hex_string(self.address as u64),
            },
        );
        out.push(
            XmlArg {
                section: None,
                tag: String::from_str("length"),
                value: u64_hex_string(self.length as u64),
            },
        );
        out
    }
}

/// The `EXT-SEJ` command: hands a buffer to the SEJ crypto block with the
/// algorithm's flag tuple.
pub struct ExtSej {
    pub encrypt: String,
    pub legacy: String,
    pub anti_clone: String,
    pub length: u32,
}

impl ExtSej {
    /// Builds the command from the SEJ flag tuple: each flag renders as
    /// `yes` or `no`.
    pub fn new(encrypt: bool, legacy: bool, anti_clone: bool, length: u32) -> (r: ExtSej)
        ensures
            r.encrypt@ == (if encrypt {
                "yes"@
            } else {
                "no"@
            }),
            r.legacy@ == (if legacy {
                "yes"@
            } else {
                "no"@
            }),
            r.anti_clone@ == (if anti_clone {
                "yes"@
            } else {
                "no"@
            }),
            r.length == length,
    {
        ExtSej {
            encrypt: String::from_str(if encrypt {
                "yes"
            } else {
                "no"
            }),
            legacy: String::from_str(if legacy {
                "yes"
            } else {
                "no"
            }),
            anti_clone: String::from_str(if anti_clone {
                "yes"
            } else {
                "no"
            }),
            length,
        }
    }

    pub fn cmd_name(&self) -> (r: &'static str)
        ensures
            r@ == "CMD:EXT-SEJ"@,
    {
        "CMD:EXT-SEJ"
    }

    pub fn version(&self) -> (r: &'static str)
        ensures
            r@ == "1.0"@,
    {
        "1.0"
    }

    pub fn args(&self) -> (r: Vec<XmlArg>)
        ensures
            r@.len() == 4,
            r@[0].section is None && r@[0].tag@ == "encrypt"@ && r@[0].value@ == self.encrypt@,
            r@[1].section is None && r@[1].tag@ == "legacy"@ && r@[1].value@ == self.legacy@,
            r@[2].section is None && r@[2].tag@ == "ac"@ && r@[2].value@ == self.anti_clone@,
            r@[3].section is None && r@[3].tag@ == "length"@ && r@[3].value@ == spec_hex_str(
                self.length as nat,
            ),
    {
        let mut out: Vec<XmlArg> = Vec::new();
        out.push(
            XmlArg { section: None, tag: String::from_str("encrypt"), value: self.encrypt.clone() },
        );
        out.push(
            XmlArg { section: None, tag: String::from_str("legacy"), value: self.legacy.clone() },
        );
        out.push(
            XmlArg { section: None, tag: String::from_str("ac"), value: self.anti_clone.clone() },
        );
        out.push(
            XmlArg {
                section: None,
                tag: String::from_str("length"),
                value: u64_hex_string(self.length as u64),
            },
        );
        out
    }
}

/// The byte form of a parsed argument list.
pub open spec fn pair_views(v: Seq<(Vec<u8>, Vec<u8>)>) -> Seq<(Seq<u8>, Seq<u8>)> {
    v.map(|i: int, p: (Vec<u8>, Vec<u8>)| (p.0@, p.1@))
}

/// Parses a rendered argument list back into its `(tag, value)` pairs, as
/// the sequential reading defines them.
pub fn parse_args(d: &[u8]) -> (r: Option<Vec<(Vec<u8>, Vec<u8>)>>)
    ensures
        r matches Some(v) ==> parse_args_spec(d@) == Option::Some(pair_views(v@)),
        r is None ==> parse_args_spec(d@) is None,
{
    let n = d.len();
    let mut acc: Vec<(Vec<u8>, Vec<u8>)> = Vec::new();
    let mut pos: usize = 0;
    proof {
        assert(d@.skip(0) =~= d@);
        assert(pair_views(acc@) =~= Seq::<(Seq<u8>, Seq<u8>)>::empty());
        if parse_args_spec(d@) is Some {
            let r0 = parse_args_spec(d@)->0;
            assert(pair_views(acc@) + r0 =~= r0);
        }
    }
    loop
        invariant
            n == d@.len(),
            pos <= n,
            parse_args_spec(d@) == (match parse_args_spec(d@.skip(pos as int)) {
                Option::None => Option::<Seq<(Seq<u8>, Seq<u8>)>>::None,
                Option::Some(rest) => Option::Some(pair_views(acc@) + rest),
            }),
        ensures
            parse_args_spec(d@) == (match parse_args_spec(d@.skip(pos as int)) {
                Option::None => Option::<Seq<(Seq<u8>, Seq<u8>)>>::None,
                Option::Some(rest) => Option::Some(pair_views(acc@) + rest),
            }),
            pos == n || parse_args_spec(d@.skip(pos as int)) is None,
        decreases n - pos,
    {
        let ghost s = d@.skip(pos as int);
        if pos == n {
            break ;
        }
        if d[pos] != 0x3C {
            proof {
                assert(s[0] == d@[pos as int]);
            }
            break ;
        }
        let mut gt: usize = pos + 1;
        while gt < n && d[gt] != 0x3E
            invariant
                n == d@.len(),
                pos + 1 <= gt <= n,
                forall|j: int| pos + 1 <= j < gt ==> d@[j] != 0x3E,
            decreases n - gt,
        {
            gt += 1;
        }
        proof {
            assert forall|j: int| 1 <= j < gt - pos implies s[j] != 0x3E by {
                assert(s[j] == d@[pos + j]);
            }
            if gt < n {
                assert(s[gt - pos] == d@[gt as int]);
                lemma_idx_from_found(s, 0x3E, 1, gt - pos as int);
            } else {
                lemma_idx_from(s, 0x3E, 1);
                assert(idx_from(s, 0x3E, 1) == s.len());
            }
        }
        if gt >= n || gt <= pos + 1 {
            break ;
        }
        let mut lt: usize = gt + 1;
        while lt < n && d[lt] != 0x3C
            invariant
                n == d@.len(),
                gt + 1 <= lt <= n,
                forall|j: int| gt + 1 <= j < lt ==> d@[j] != 0x3C,
            decreases n - lt,
        {
            lt += 1;
        }
        proof {
            assert forall|j: int| gt - pos + 1 <= j < lt - pos implies s[j] != 0x3C by {
                assert(s[j] == d@[pos + j]);
            }
            if lt < n {
                assert(s[lt - pos] == d@[lt as int]);
                lemma_idx_from_found(s, 0x3C, gt - pos + 1, lt - pos as int);
            } else {
                lemma_idx_from(s, 0x3C, gt - pos + 1);
                assert(idx_from(s, 0x3C, gt - pos + 1) == s.len());
            }
        }
        if lt >= n {
            break ;
        }
        let tag = crate::xml::copy_bytes(d, pos + 1, gt);
        let value = crate::xml::copy_bytes(d, gt + 1, lt);
        proof {
            assert(tag@ =~= s.subrange(1, gt - pos as int));
            assert(value@ =~= s.subrange(gt - pos + 1, lt - pos as int));
        }
        let close = crate::xml::make_close_tag(tag.as_slice());
        if n - lt < close.len() {
            proof {
                assert(lt - pos + close_tag(tag@).len() > s.len());
            }
            break ;
        }
        let mut eq = true;
        let mut m: usize = 0;
        while m < close.len()
            invariant
                n == d@.len(),
                lt + close@.len() <= n,
                m <= close@.len(),
                eq == (d@.subrange(lt as int, lt + m) =~= close@.subrange(0, m as int)),
            decreases close@.len() - m,
        {
            proof {
                assert(d@.subrange(lt as int, lt + m + 1).drop_last() =~= d@.subrange(
                    lt as int,
                    lt + m,
                ));
                assert(close@.subrange(0, m + 1).drop_last() =~= close@.subrange(0, m as int));
                assert(d@.subrange(lt as int, lt + m + 1).last() == d@[lt + m]);
                assert(close@.subrange(0, m + 1).last() == close@[m as int]);
            }
            if d[lt + m] != close[m] {
                eq = false;
            }
            m += 1;
        }
        proof {
            assert(close@.subrange(0, close@.len() as int) =~= close@);
            assert(s.subrange(lt - pos as int, lt - pos + close_tag(tag@).len()) =~= d@.subrange(
                lt as int,
                lt + close@.len(),
            ));
        }
        if !eq {
            break ;
        }
        acc.push((tag, value));
        proof {
            assert(pair_views(acc@) =~~= pair_views(acc@.drop_last()) + seq![
                (acc@.last().0@, acc@.last().1@),
            ]);
            assert(s.skip(lt - pos + close_tag(tag@).len()) =~= d@.skip(
                lt + close_tag(tag@).len(),
            ));
        }
        pos = lt + close.len();
    }
    if pos == n {
        proof {
            assert(d@.skip(pos as int) =~= Seq::<u8>::empty());
            if parse_args_spec(d@) is Some {
                let r0 = parse_args_spec(d@)->0;
                assert(pair_views(acc@) + Seq::<(Seq<u8>, Seq<u8>)>::empty() =~= pair_views(acc@));
            }
        }
        Some(acc)
    } else {
        None
    }
}

/// Stage of one XML command's lifecycle: the request, the acknowledgement,
/// optional progress frames, an optional framed file transfer, the status
/// string, and the closing acknowledgement.
#[derive(Debug, Copy, Clone, Eq, PartialEq, Structural)]
pub enum XmlCmdLifetime {
    Send,
    CmdAck,
    Progress,
    FileTransfer,
    Status,
    CmdEnd,
}

/// Order of the lifecycle stages.
pub open spec fn lifetime_rank(s: XmlCmdLifetime) -> int {
    match s {
        XmlCmdLifetime::Send => 0,
        XmlCmdLifetime::CmdAck => 1,
        XmlCmdLifetime::Progress => 2,
        XmlCmdLifetime::FileTransfer => 3,
        XmlCmdLifetime::Status => 4,
        XmlCmdLifetime::CmdEnd => 5,
    }
}

/// The stage that follows an acknowledgement; the optional stages are
/// skipped when the command carries no progress frames or file transfer.
pub fn next_lifetime(s: XmlCmdLifetime, has_progress: bool, has_file: bool) -> (r: XmlCmdLifetime)
    ensures
        s != XmlCmdLifetime::CmdEnd ==> lifetime_rank(r) > lifetime_rank(s),
        s == XmlCmdLifetime::CmdEnd ==> r == XmlCmdLifetime::CmdEnd,
{
    match s {
        XmlCmdLifetime::Send => XmlCmdLifetime::CmdAck,
        XmlCmdLifetime::CmdAck => {
            if has_progress {
                XmlCmdLifetime::Progress
            } else if has_file {
                XmlCmdLifetime::FileTransfer
            } else {
                XmlCmdLifetime::Status
            }
        },
        XmlCmdLifetime::Progress => {
            if has_file {
                XmlCmdLifetime::FileTransfer
            } else {
                XmlCmdLifetime::Status
            }
        },
        XmlCmdLifetime::FileTransfer => XmlCmdLifetime::Status,
        XmlCmdLifetime::Status => XmlCmdLifetime::CmdEnd,
        XmlCmdLifetime::CmdEnd => XmlCmdLifetime::CmdEnd,
    }
}

/// Classifies a status reply: the literal `OK` is success, anything else is
/// the XML error the reply stands for.
pub fn classify_status(resp: &[u8]) -> (r: Result<(), XmlError>)
    ensures
        r is Ok <==> spec_status_text(resp@) == "OK"@,
        r matches Err(e) ==> spec_status_text(resp@) != "OK"@,
{
    let err = XmlError::from_message(resp);
    proof {
        reveal_strlit("OK");
        reveal_strlit("ERR!CANCEL");
        reveal_strlit("Cancelled");
        assert("Cancelled"@.len() == 9);
        assert("OK"@.len() == 2);
        let t = spec_status_text(resp@);
        if t == "ERR!CANCEL"@ {
            assert(err.message@ == "Cancelled"@);
            assert(err.message@ != "OK"@ && t != "OK"@);
        } else {
            assert(err.message@ == t);
        }
    }
    if string_is(&err.message, "OK") {
        Ok(())
    } else {
        Err(err)
    }
}

/// Compares a text with a literal.
fn string_is(s: &String, lit: &str) -> (r: bool)
    ensures
        r == (s@ == lit@),
{
    let a = s.clone();
    let b = lit.to_owned();
    a == b
}

} // verus!
