//! The on-flash `seccfg` partition: the 200-byte header carrying the
//! bootloader lock state and its policy hash, the four SEJ algorithms that
//! may key the hash, and their flag tuples.

use vstd::prelude::*;
use crate::error::Error;
use crate::patching::{read_le32, spec_u32_at, u32_le, u32_le_bytes};

verus! {

/// The SEJ algorithm variant that reproduces the stored hash.
#[derive(Debug, Copy, Clone, Eq, PartialEq, Structural)]
pub enum SecCfgV4Algo {
    SW,
    HW,
    HWv3,
    HWv4,
}

/// Requested bootloader lock state.
#[derive(Debug, Copy, Clone, Eq, PartialEq, Structural)]
pub enum LockFlag {
    Locked,
    Unlocked,
}

/// The lock-state word a flag serialises to.
pub open spec fn spec_lock_code(f: LockFlag) -> u32 {
    match f {
        LockFlag::Locked => 1,
        LockFlag::Unlocked => 3,
    }
}

/// The SEJ flag tuple of an algorithm: `(legacy, anti_clone, xor)`; whether
/// the call encrypts or decrypts is the caller's choice.
pub fn sej_flags(algo: SecCfgV4Algo) -> (r: (bool, bool, bool))
    ensures
        algo == SecCfgV4Algo::SW ==> r == (false, false, false),
        algo == SecCfgV4Algo::HW ==> r == (false, true, true),
        algo == SecCfgV4Algo::HWv3 ==> r == (true, true, false),
        algo == SecCfgV4Algo::HWv4 ==> r == (false, true, false),
{
    match algo {
        SecCfgV4Algo::SW => (false, false, false),
        SecCfgV4Algo::HW => (false, true, true),
        SecCfgV4Algo::HWv3 => (true, true, false),
        SecCfgV4Algo::HWv4 => (false, true, false),
    }
}

/// The fixed order in which the algorithms are tried against the stored
/// hash; the first that reproduces it wins.
pub fn algo_order() -> (r: Vec<SecCfgV4Algo>)
    ensures
        r@ =~= seq![SecCfgV4Algo::SW, SecCfgV4Algo::HW, SecCfgV4Algo::HWv3, SecCfgV4Algo::HWv4],
{
    let mut out: Vec<SecCfgV4Algo> = Vec::new();
    out.push(SecCfgV4Algo::SW);
    out.push(SecCfgV4Algo::HW);
    out.push(SecCfgV4Algo::HWv3);
    out.push(SecCfgV4Algo::HWv4);
    out
}

/// Magic word of a version-4 `seccfg` header.
pub const SECCFG_MAGIC: u32 = 0x4D4D4D4D;

/// Length of the serialised header, padding included.
pub const SECCFG_HEADER_LEN: usize = 200;

/// A parsed version-4 `seccfg` header: the lock-state word, the plaintext
/// policy hash, the encrypted policy hash, and the algorithm memoised once
/// identified.
pub struct SecCfgV4 {
    pub lock_state: u32,
    pub hash: Vec<u8>,
    pub encrypted_hash: Vec<u8>,
    pub algo: Option<SecCfgV4Algo>,
}

impl SecCfgV4 {
    /// Both hashes are 32 bytes.
    pub open spec fn wf(&self) -> bool {
        self.hash@.len() == 32 && self.encrypted_hash@.len() == 32
    }

    /// Parses the first 200 bytes of the `seccfg` partition. Refuses a blob
    /// shorter than the header, a wrong magic, or a version other than 4.
    pub fn parse_header(data: &[u8]) -> (r: Result<SecCfgV4, Error>)
        ensures
            r is Ok <==> data@.len() >= 200 && spec_u32_at(data@, 0) == SECCFG_MAGIC && spec_u32_at(
                data@,
                4,
            ) == 4,
            r matches Ok(cfg) ==> {
                &&& cfg.wf()
                &&& cfg.lock_state == spec_u32_at(data@, 8)
                &&& cfg.hash@ == data@.subrange(12, 44)
                &&& cfg.encrypted_hash@ == data@.subrange(44, 76)
                &&& cfg.algo is None
            },
    {
        if data.len() < 200 {
            return Err(Error::penumbra("seccfg header is too short"));
        }
        let magic = read_le32(data, 0);
        if magic != SECCFG_MAGIC {
            return Err(Error::penumbra("seccfg magic is incorrect"));
        }
        let version = read_le32(data, 4);
        if version != 4 {
            return Err(Error::penumbra("seccfg version is not supported"));
        }
        let lock_state = read_le32(data, 8);
        let hash = crate::xml::copy_bytes(data, 12, 44);
        let encrypted_hash = crate::xml::copy_bytes(data, 44, 76);
        Ok(SecCfgV4 { lock_state, hash, encrypted_hash, algo: None })
    }

    /// The plaintext policy hash.
    pub fn get_hash(&self) -> (r: Vec<u8>)
        ensures
            r@ == self.hash@,
    {
        crate::xml::copy_bytes(self.hash.as_slice(), 0, self.hash.len())
    }

    /// The encrypted policy hash.
    pub fn get_encrypted_hash(&self) -> (r: Vec<u8>)
        ensures
            r@ == self.encrypted_hash@,
    {
        crate::xml::copy_bytes(self.encrypted_hash.as_slice(), 0, self.encrypted_hash.len())
    }

    /// Memoises the algorithm that reproduced the stored hash.
    pub fn set_algo(&mut self, algo: SecCfgV4Algo)
        ensures
            final(self).algo == Some(algo),
            final(self).lock_state == old(self).lock_state,
            final(self).hash == old(self).hash,
            final(self).encrypted_hash == old(self).encrypted_hash,
    {
        self.algo = Some(algo);
    }

    /// The memoised algorithm, if one was ever identified.
    pub fn get_algo(&self) -> (r: Option<SecCfgV4Algo>)
        ensures
            r == self.algo,
    {
        self.algo
    }

    /// Replaces the encrypted policy hash.
    pub fn set_encrypted_hash(&mut self, enc: Vec<u8>)
        ensures
            final(self).encrypted_hash == enc,
            final(self).lock_state == old(self).lock_state,
            final(self).hash == old(self).hash,
            final(self).algo == old(self).algo,
    {
        self.encrypted_hash = enc;
    }

    /// Sets the lock-state word from the requested flag.
    pub fn set_lock_state(&mut self, flag: LockFlag)
        ensures
            final(self).lock_state == spec_lock_code(flag),
            final(self).hash == old(self).hash,
            final(self).encrypted_hash == old(self).encrypted_hash,
            final(self).algo == old(self).algo,
    {
        self.lock_state = match flag {
            LockFlag::Locked => 1,
            LockFlag::Unlocked => 3,
        };
    }

    /// True when a candidate decrypted hash reproduces the stored plaintext
    /// hash.
    pub fn algo_matches(&self, dec_hash: &Vec<u8>) -> (r: bool)
        ensures
            r == (dec_hash@ == self.hash@),
    {
        let n = self.hash.len();
        if dec_hash.len() != n {
            proof {
                assert(dec_hash@ != self.hash@);
            }
            return false;
        }
        let mut i: usize = 0;
        while i < n
            invariant
                n == self.hash@.len() == dec_hash@.len(),
                i <= n,
                forall|j: int| 0 <= j < i ==> dec_hash@[j] == self.hash@[j],
            decreases n - i,
        {
            if dec_hash[i] != self.hash[i] {
                return false;
            }
            i += 1;
        }
        proof {
            assert(dec_hash@ =~= self.hash@);
        }
        true
    }

    /// The serialised 200-byte header: magic, version, lock state, the two
    /// hashes, zero padding.
    pub fn create(&self) -> (r: Vec<u8>)
        requires
            self.wf(),
        ensures
            r@.len() == 200,
            spec_u32_at(r@, 0) == SECCFG_MAGIC,
            spec_u32_at(r@, 4) == 4,
            spec_u32_at(r@, 8) == self.lock_state,
            r@.subrange(12, 44) == self.hash@,
            r@.subrange(44, 76) == self.encrypted_hash@,
            forall|j: int| 76 <= j < 200 ==> r@[j] == 0,
    {
        let mut out = u32_le_bytes(SECCFG_MAGIC);
        let mut ver = u32_le_bytes(4);
        let mut lock = u32_le_bytes(self.lock_state);
        out.append(&mut ver);
        out.append(&mut lock);
        crate::xml::push_bytes(&mut out, self.hash.as_slice());
        crate::xml::push_bytes(&mut out, self.encrypted_hash.as_slice());
        let mut j: usize = 76;
        while j < 200
            invariant
                out@.len() == j,
                76 <= j <= 200,
                out@.subrange(0, 4) == u32_le(SECCFG_MAGIC),
                out@.subrange(4, 8) == u32_le(4),
                out@.subrange(8, 12) == u32_le(self.lock_state),
                out@.subrange(12, 44) == self.hash@,
                out@.subrange(44, 76) == self.encrypted_hash@,
                forall|m: int| 76 <= m < j ==> out@[m] == 0,
            decreases 200 - j,
        {
            out.push(0x00);
            proof {
                assert(out@.subrange(0, 4) =~= out@.drop_last().subrange(0, 4));
                assert(out@.subrange(4, 8) =~= out@.drop_last().subrange(4, 8));
                assert(out@.subrange(8, 12) =~= out@.drop_last().subrange(8, 12));
                assert(out@.subrange(12, 44) =~= out@.drop_last().subrange(12, 44));
                assert(out@.subrange(44, 76) =~= out@.drop_last().subrange(44, 76));
            }
            j += 1;
        }
        proof {
            lemma_le32_at(out@, 0, SECCFG_MAGIC);
            lemma_le32_at(out@, 4, 4);
            lemma_le32_at(out@, 8, self.lock_state);
        }
        out
    }
}

/// A 32-bit value written little-endian reads back as itself.
proof fn lemma_le32_at(d: Seq<u8>, off: int, v: u32)
    requires
        0 <= off,
        off + 4 <= d.len(),
        d.subrange(off, off + 4) == u32_le(v),
    ensures
        spec_u32_at(d, off) == v,
{
    assert(d[off] == u32_le(v)[0] && d[off + 1] == u32_le(v)[1] && d[off + 2] == u32_le(v)[2] && d[
        off + 3] == u32_le(v)[3]) by {
        assert(d.subrange(off, off + 4)[0] == d[off]);
        assert(d.subrange(off, off + 4)[1] == d[off + 1]);
        assert(d.subrange(off, off + 4)[2] == d[off + 2]);
        assert(d.subrange(off, off + 4)[3] == d[off + 3]);
    }
    let b0 = d[off];
    let b1 = d[off + 1];
    let b2 = d[off + 2];
    let b3 = d[off + 3];
    assert(b0 as u32 + b1 as u32 * 0x100 + b2 as u32 * 0x10000 + b3 as u32 * 0x1000000 == v)
        by (bit_vector)
        requires
            b0 == (v & 0xFF) as u8,
            b1 == ((v >> 8) & 0xFF) as u8,
            b2 == ((v >> 16) & 0xFF) as u8,
            b3 == ((v >> 24) & 0xFF) as u8,
    ;
    assert(spec_u32_at(d, off) == (b0 as int + b1 as int * 0x100 + b2 as int * 0x10000
        + b3 as int * 0x1000000) as u32);
}

} // verus!
