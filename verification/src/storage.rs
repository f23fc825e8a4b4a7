//! The storage model: storage types, the hardware partitions a flash part
//! exposes, the named partitions the engine reports, and the assembly of
//! the partition list around the parsed GPT.

use vstd::prelude::*;
use vstd::string::StringSliceAdditionalSpecFns;

verus! {

/// Kind of flash the DA detected.
#[derive(Debug, Copy, Clone, Eq, PartialEq, Structural)]
pub enum StorageType {
    Emmc,
    Ufs,
    Nand,
    Unknown,
}

/// Hardware region of the storage a transfer addresses.
#[derive(Debug, Copy, Clone, Eq, PartialEq, Structural)]
pub enum PartitionKind {
    User,
    Boot1,
    Boot2,
    Rpmb,
    Gp1,
    Gp2,
    Gp3,
    Gp4,
}

impl PartitionKind {
    /// The section name the XML protocol uses for this region.
    pub fn as_str(&self) -> (r: &'static str)
        ensures
            self == PartitionKind::User ==> r@ == "EMMC-USER"@,
            self == PartitionKind::Boot1 ==> r@ == "EMMC-BOOT1"@,
            self == PartitionKind::Boot2 ==> r@ == "EMMC-BOOT2"@,
            self == PartitionKind::Rpmb ==> r@ == "EMMC-RPMB"@,
            self == PartitionKind::Gp1 ==> r@ == "EMMC-GP1"@,
            self == PartitionKind::Gp2 ==> r@ == "EMMC-GP2"@,
            self == PartitionKind::Gp3 ==> r@ == "EMMC-GP3"@,
            self == PartitionKind::Gp4 ==> r@ == "EMMC-GP4"@,
    {
        match self {
            PartitionKind::User => "EMMC-USER",
            PartitionKind::Boot1 => "EMMC-BOOT1",
            PartitionKind::Boot2 => "EMMC-BOOT2",
            PartitionKind::Rpmb => "EMMC-RPMB",
            PartitionKind::Gp1 => "EMMC-GP1",
            PartitionKind::Gp2 => "EMMC-GP2",
            PartitionKind::Gp3 => "EMMC-GP3",
            PartitionKind::Gp4 => "EMMC-GP4",
        }
    }
}

/// One named partition: where it lives and how large it is.
pub struct Partition {
    pub name: String,
    pub size: usize,
    pub address: u64,
    pub kind: PartitionKind,
}

impl Partition {
    pub fn new(name: String, size: usize, address: u64, kind: PartitionKind) -> (r: Partition)
        ensures
            r.name == name,
            r.size == size,
            r.address == address,
            r.kind == kind,
    {
        Partition { name, size, address, kind }
    }
}

/// True for the two preloader partitions, whose writes skip the erase
/// progress phase.
pub fn is_pl_part(name: &str) -> (r: bool)
    ensures
        r == (name@ == "preloader"@ || name@ == "preloader_backup"@),
{
    let n = name.to_owned();
    n == String::from_str("preloader") || n == String::from_str("preloader_backup")
}

/// Size reserved for each GUID partition table copy.
pub const GPT_SIZE: usize = 32768;

/// A name the engine reserves for the fixed entries of the partition list.
pub open spec fn is_reserved_name(n: Seq<char>) -> bool {
    n == "preloader"@ || n == "preloader_backup"@ || n == "PGPT"@ || n == "SGPT"@
}

/// The table entries the engine reports: the primary table's, unless the
/// primary parsed empty, then the secondary's.
pub fn choose_gpt_entries(pgpt_parts: Vec<Partition>, sgpt_parts: Vec<Partition>) -> (r: Vec<
    Partition,
>)
    ensures
        pgpt_parts@.len() > 0 ==> r == pgpt_parts,
        pgpt_parts@.len() == 0 ==> r == sgpt_parts,
{
    if pgpt_parts.len() > 0 {
        pgpt_parts
    } else {
        sgpt_parts
    }
}

/// Assembles the partition list the engine reports: the two preloader
/// regions, the primary table, the parsed GPT entries, and the secondary
/// table at the end of the user area. With the GPT names pairwise distinct
/// and none of them a reserved name, every name of the list is unique.
pub fn build_partition_list(
    pl1_size: usize,
    pl2_size: usize,
    user_size: u64,
    pl_part1: PartitionKind,
    pl_part2: PartitionKind,
    user_part: PartitionKind,
    gpt_parts: Vec<Partition>,
) -> (r: Vec<Partition>)
    requires
        user_size >= GPT_SIZE,
        forall|i: int, j: int|
            0 <= i < j < gpt_parts@.len() ==> (#[trigger] gpt_parts@[i]).name@ != (
            #[trigger] gpt_parts@[j]).name@,
        forall|i: int|
            0 <= i < gpt_parts@.len() ==> !is_reserved_name((#[trigger] gpt_parts@[i]).name@),
    ensures
        forall|i: int, j: int|
            0 <= i < j < r@.len() ==> (#[trigger] r@[i]).name@ != (#[trigger] r@[j]).name@,
        r@.len() == gpt_parts@.len() + 4,
        r@[0].name@ == "preloader"@ && r@[0].size == pl1_size && r@[0].address == 0 && r@[0].kind
            == pl_part1,
        r@[1].name@ == "preloader_backup"@ && r@[1].size == pl2_size && r@[1].address == 0
            && r@[1].kind == pl_part2,
        r@[2].name@ == "PGPT"@ && r@[2].size == GPT_SIZE && r@[2].address == 0 && r@[2].kind
            == user_part,
        forall|i: int| 0 <= i < gpt_parts@.len() ==> r@[3 + i] == gpt_parts@[i],
        r@.last().name@ == "SGPT"@ && r@.last().size == GPT_SIZE && r@.last().address == user_size
            - GPT_SIZE && r@.last().kind == user_part,
{
    let mut out: Vec<Partition> = Vec::new();
    out.push(Partition::new(String::from_str("preloader"), pl1_size, 0, pl_part1));
    out.push(Partition::new(String::from_str("preloader_backup"), pl2_size, 0, pl_part2));
    out.push(Partition::new(String::from_str("PGPT"), GPT_SIZE, 0, user_part));

    let mut gpt = gpt_parts;
    let n = gpt.len();
    let mut i: usize = 0;
    while i < n
        invariant
            gpt@ == gpt_parts@,
            n == gpt@.len(),
            i <= n,
            out@.len() == 3 + i,
            out@[0].name@ == "preloader"@ && out@[0].size == pl1_size && out@[0].address == 0
                && out@[0].kind == pl_part1,
            out@[1].name@ == "preloader_backup"@ && out@[1].size == pl2_size && out@[1].address
                == 0 && out@[1].kind == pl_part2,
            out@[2].name@ == "PGPT"@ && out@[2].size == GPT_SIZE && out@[2].address == 0
                && out@[2].kind == user_part,
            forall|j: int| 0 <= j < i ==> out@[3 + j] == gpt@[j],
        decreases n - i,
    {
        let entry = take_partition(&mut gpt, i);
        out.push(entry);
        i += 1;
    }

    out.push(
        Partition::new(String::from_str("SGPT"), GPT_SIZE, user_size - GPT_SIZE as u64, user_part),
    );
    proof {
        assert forall|j: int| 0 <= j < gpt@.len() implies out@[3 + j] == gpt@[j] by {}
        reveal_strlit("preloader");
        reveal_strlit("preloader_backup");
        reveal_strlit("PGPT");
        reveal_strlit("SGPT");
        assert("preloader"@.len() == 9 && "preloader_backup"@.len() == 16 && "PGPT"@.len() == 4
            && "SGPT"@.len() == 4);
        assert("PGPT"@[0] == 'P' && "SGPT"@[0] == 'S');
        assert("PGPT"@ != "SGPT"@);
        assert forall|i: int, j: int|
            0 <= i < j < out@.len() implies (#[trigger] out@[i]).name@ != (
        #[trigger] out@[j]).name@ by {
            if j < 3 {
            } else if j == out@.len() - 1 {
                if i >= 3 {
                    assert(!is_reserved_name(gpt@[i - 3].name@));
                }
            } else {
                assert(out@[j] == gpt@[j - 3]);
                if i >= 3 {
                    assert(out@[i] == gpt@[i - 3]);
                } else {
                    assert(!is_reserved_name(gpt@[j - 3].name@));
                }
            }
        }
    }
    out
}

/// Takes a copy of one partition entry out of a list by rebuilding it.
fn take_partition(parts: &mut Vec<Partition>, i: usize) -> (r: Partition)
    requires
        i < old(parts)@.len(),
    ensures
        final(parts)@ == old(parts)@,
        r == old(parts)@[i as int],
{
    let p = &parts[i];
    let name = p.name.clone();
    let size = p.size;
    let address = p.address;
    let kind = p.kind;
    let r = Partition { name, size, address, kind };
    proof {
        assert(r == parts@[i as int]);
    }
    r
}

/// The chunk lengths of a bulk transfer: full packets of the negotiated
/// size, then the remainder.
pub fn chunk_lengths(total: usize, max_chunk: usize) -> (r: Vec<usize>)
    requires
        max_chunk >= 1,
    ensures
        total == 0 ==> r@.len() == 0,
        total > 0 ==> r@.len() == (total + max_chunk - 1) / (max_chunk as int),
        forall|i: int| 0 <= i < r@.len() - 1 ==> r@[i] == max_chunk,
        total > 0 ==> r@.last() == total - (r@.len() - 1) * max_chunk,
{
    let mut out: Vec<usize> = Vec::new();
    let mut pos: usize = 0;
    proof {
        assert(out@.len() * max_chunk == 0) by (nonlinear_arith)
            requires
                out@.len() == 0,
        ;
    }
    while pos < total
        invariant
            max_chunk >= 1,
            pos <= total,
            pos == out@.len() * max_chunk,
            forall|i: int| 0 <= i < out@.len() ==> out@[i] == max_chunk,
        decreases total - pos,
    {
        if total - pos >= max_chunk {
            out.push(max_chunk);
            proof {
                assert(out@.len() * max_chunk == (out@.len() - 1) * max_chunk + max_chunk)
                    by (nonlinear_arith)
                    requires
                        out@.len() >= 1,
                ;
            }
            pos += max_chunk;
        } else {
            let rest = total - pos;
            out.push(rest);
            proof {
                assert(out@.last() == rest);
            }
            return finish_chunks(out, total, max_chunk, pos, rest);
        }
    }
    proof {
        if total == 0 {
            assert(out@.len() == 0) by (nonlinear_arith)
                requires
                    out@.len() * max_chunk == 0,
                    max_chunk >= 1,
            ;
        }
        if total > 0 {
            assert(out@.len() >= 1) by {
                assert(out@.len() * max_chunk == total);
                if out@.len() == 0 {
                    assert(out@.len() * max_chunk == 0) by (nonlinear_arith)
                        requires
                            out@.len() == 0,
                    ;
                }
            }
            assert(out@.last() == max_chunk);
            assert(out@.len() == (total + max_chunk - 1) / (max_chunk as int)) by (nonlinear_arith)
                requires
                    out@.len() * max_chunk == total,
                    max_chunk >= 1,
                    total > 0,
            ;
            assert(total - (out@.len() - 1) * max_chunk == max_chunk) by (nonlinear_arith)
                requires
                    out@.len() * max_chunk == total,
                    out@.len() >= 1,
            ;
        }
    }
    out
}

/// The chunk list once the trailing short packet was pushed.
fn finish_chunks(out: Vec<usize>, total: usize, max_chunk: usize, pos: usize, rest: usize) -> (r:
    Vec<usize>)
    requires
        max_chunk >= 1,
        rest >= 1,
        rest < max_chunk,
        pos + rest == total,
        out@.len() >= 1,
        pos == (out@.len() - 1) * max_chunk,
        forall|i: int| 0 <= i < out@.len() - 1 ==> out@[i] == max_chunk,
        out@.last() == rest,
    ensures
        r == out,
        total > 0 ==> r@.len() == (total + max_chunk - 1) / (max_chunk as int),
        forall|i: int| 0 <= i < r@.len() - 1 ==> r@[i] == max_chunk,
        total > 0 ==> r@.last() == total - (r@.len() - 1) * max_chunk,
{
    proof {
        let k = out@.len() - 1;
        assert(out@.len() == (total + max_chunk - 1) / (max_chunk as int)) by (nonlinear_arith)
            requires
                k == out@.len() - 1,
                k >= 0,
                total == k * max_chunk + rest,
                1 <= rest < max_chunk,
        ;
    }
    out
}

} // verus!
