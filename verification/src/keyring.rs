//! The built-in local SLA keyring: a fixed list of RSA private keys, keyed
//! by the public modulus the device exposes. In the MTK SLA flow, signing
//! encrypts the challenge with the private key; the device verifies with
//! the public key.

use vstd::prelude::*;
use num_bigint::BigUint;
use crate::auth::{SignRequest, Signer};
use crate::error::Error;
use crate::patching::{
    bytes_match_at,
    contains_bytes,
    exact_pat,
    parse_pattern,
    pattern_parses,
    spec_pattern,
    HEX_NOT_FOUND,
};
use crate::rsa::{be_nat, big_from_bytes_be, big_value, pow_mod, rsa_oaep_encrypt};

verus! {

/// Decodes a plain hex string into its bytes: the string must parse as a
/// hex pattern with no wildcards.
pub fn hex_decode(s: &str) -> (r: Option<Vec<u8>>)
    ensures
        r matches Some(v) ==> pattern_parses(s@) && spec_pattern(s@) == exact_pat(v@),
        r is None ==> !pattern_parses(s@) || (exists|j: int|
            0 <= j < spec_pattern(s@).len() && (#[trigger] spec_pattern(s@)[j]) is None),
{
    let pat = match parse_pattern(s) {
        Ok(p) => p,
        Err(_) => {
            return None;
        },
    };
    let mut out: Vec<u8> = Vec::new();
    let mut i: usize = 0;
    while i < pat.len()
        invariant
            pattern_parses(s@),
            pat@ == spec_pattern(s@),
            i <= pat@.len(),
            out@.len() == i,
            forall|j: int| 0 <= j < i ==> pat@[j] == Some(#[trigger] out@[j]),
        decreases pat@.len() - i,
    {
        match pat[i] {
            Some(b) => {
                out.push(b);
            },
            None => {
                proof {
                    assert((spec_pattern(s@)[i as int]) is None);
                }
                return None;
            },
        }
        i += 1;
    }
    proof {
        assert(pat@ =~= exact_pat(out@));
    }
    Some(out)
}

/// An RSA private key: the modulus, the private exponent, and the cached
/// big-endian bytes of the modulus.
pub struct RsaPrivateKey {
    pub n: BigUint,
    pub d: BigUint,
    pub n_bytes: Vec<u8>,
}

impl RsaPrivateKey {
    /// The cached bytes are the modulus, and the modulus is non-zero.
    pub open spec fn wf(&self) -> bool {
        &&& self.n_bytes@.len() >= 1
        &&& be_nat(self.n_bytes@) == big_value(self.n)
        &&& big_value(self.n) > 0
    }

    /// Builds a key from its modulus and private exponent; a zero modulus
    /// is refused.
    pub fn new(n: BigUint, d: BigUint) -> (r: Option<RsaPrivateKey>)
        ensures
            r matches Some(k) ==> k.wf() && k.n == n && k.d == d,
            r is None ==> big_value(n) == 0,
    {
        let n_bytes = crate::rsa::big_to_bytes_be(&n);
        let mut nonzero = false;
        let mut i: usize = 0;
        while i < n_bytes.len()
            invariant
                i <= n_bytes@.len(),
                nonzero == exists|j: int| 0 <= j < i && n_bytes@[j] != 0,
            decreases n_bytes@.len() - i,
        {
            if n_bytes[i] != 0 {
                nonzero = true;
            }
            i += 1;
        }
        if !nonzero {
            proof {
                lemma_be_nat_zero(n_bytes@);
            }
            return None;
        }
        proof {
            lemma_be_nat_zero(n_bytes@);
        }
        Some(RsaPrivateKey { n, d, n_bytes })
    }

    /// The public modulus.
    pub fn n(&self) -> (r: &BigUint)
        ensures
            r == &self.n,
    {
        &self.n
    }
}

/// A byte string stands for zero exactly when every byte is zero.
proof fn lemma_be_nat_zero(s: Seq<u8>)
    ensures
        (be_nat(s) == 0) <==> (forall|j: int| 0 <= j < s.len() ==> s[j] == 0),
    decreases s.len(),
{
    if s.len() > 0 {
        lemma_be_nat_zero(s.drop_last());
        assert(forall|j: int| 0 <= j < s.len() - 1 ==> s.drop_last()[j] == s[j]);
        if be_nat(s) == 0 {
            assert(be_nat(s.drop_last()) * 256 + s.last() == 0);
        }
    }
}

/// The key's modulus occurs as a contiguous byte substring of the exposed
/// public modulus.
pub open spec fn key_matches(key: &RsaPrivateKey, pubk: Seq<u8>) -> bool {
    &&& key.n_bytes@.len() > 0
    &&& pubk.len() > 0
    &&& exists|p: int| bytes_match_at(pubk, key.n_bytes@, p)
}

/// Some key of the list matches the exposed public modulus.
pub open spec fn spec_can_sign(keys: Seq<RsaPrivateKey>, pubk: Seq<u8>) -> bool {
    exists|i: int| 0 <= i < keys.len() && key_matches(#[trigger] &keys[i], pubk)
}

/// The built-in keyring: the compile-time SLA key list.
pub struct LocalKeyring {
    pub keys: Vec<RsaPrivateKey>,
}

impl LocalKeyring {
    pub open spec fn wf(&self) -> bool {
        forall|i: int| 0 <= i < self.keys@.len() ==> (#[trigger] self.keys@[i]).wf()
    }

    /// Builds the keyring from the built-in key pairs.
    pub fn new() -> (r: LocalKeyring)
        ensures
            r.wf(),
    {
        let mut keys: Vec<RsaPrivateKey> = Vec::new();
        push_key(
            &mut keys,
            "6D9F602978D05BAD033CBF4ECE27918778D386539B0369CE6DA2F841086A6F25392BBE925F3FFAD335F6877FABA27888D75EEE0E81947BBB13907005A2830807",
            "6BC25A7E0A040FCA603F4BF3C49582EA3FECF6C3A2C2D53495F3B8C3FCE8DB7DD688C4CB0CCC58DCA13E1785A9835657869373E8CFACE5DC9BAF734FF21F2D21",
        );
        push_key(
            &mut keys,
            "83E2E41610E6419F9974B211F97B95FF2174208F912F2EE2E7ABFDD1557C29DBE432BEE12FC9DAC929CD906FED79273AB12CC1D3FED6CA59BDFD42BDD3CBE729",
            "80989549A6C4BD2BFF9737A22B1F040CB6F3E263DA6EA54AFE1647F0FB678BEFC3CC5F90B507133983402327A68E81A7F5CCC2ECC8EC13C9DDCF1B3B478A73D9",
        );
        LocalKeyring { keys }
    }

    /// Signs the request with the first key whose modulus occurs in the
    /// exposed public modulus: the challenge raised to the private exponent
    /// modulo the modulus.
    pub fn sign_with_keys(&self, req: &SignRequest) -> (r: Result<Vec<u8>, Error>)
        requires
            self.wf(),
        ensures
            r is Ok <==> spec_can_sign(self.keys@, req.pubk_mod@),
            r matches Err(e) ==> e matches Error::Penumbra(m) && m@ == "No matching key found"@,
            r matches Ok(sig) ==> exists|i: int|
                {
                    &&& 0 <= i < self.keys@.len()
                    &&& key_matches(#[trigger] &self.keys@[i], req.pubk_mod@)
                    &&& forall|j: int|
                        0 <= j < i ==> !key_matches(#[trigger] &self.keys@[j], req.pubk_mod@)
                    &&& be_nat(sig@) == pow_mod(
                        be_nat(req.data.rnd@),
                        big_value(self.keys@[i].d),
                        big_value(self.keys@[i].n),
                    )
                },
    {
        let mut i: usize = 0;
        while i < self.keys.len()
            invariant
                self.wf(),
                i <= self.keys@.len(),
                forall|j: int|
                    0 <= j < i ==> !key_matches(#[trigger] &self.keys@[j], req.pubk_mod@),
            decreases self.keys@.len() - i,
        {
            let key = &self.keys[i];
            let pos = contains_bytes(req.pubk_mod.as_slice(), key.n_bytes.as_slice());
            if pos != HEX_NOT_FOUND {
                let sig = rsa_oaep_encrypt(req.data.rnd.as_slice(), &key.n, &key.d);
                return Ok(sig);
            }
            proof {
                assert(!key_matches(&self.keys@[i as int], req.pubk_mod@));
            }
            i += 1;
        }
        Err(Error::penumbra("No matching key found"))
    }

    /// Whether some built-in key's modulus occurs in the exposed public
    /// modulus.
    pub fn can_sign_with_keys(&self, req: &SignRequest) -> (r: bool)
        ensures
            r == spec_can_sign(self.keys@, req.pubk_mod@),
    {
        let mut i: usize = 0;
        while i < self.keys.len()
            invariant
                i <= self.keys@.len(),
                forall|j: int|
                    0 <= j < i ==> !key_matches(#[trigger] &self.keys@[j], req.pubk_mod@),
            decreases self.keys@.len() - i,
        {
            let key = &self.keys[i];
            if key.n_bytes.len() >= 1 && req.pubk_mod.len() >= 1 {
                let pos = contains_bytes(req.pubk_mod.as_slice(), key.n_bytes.as_slice());
                if pos != HEX_NOT_FOUND {
                    return true;
                }
            }
            proof {
                assert(!key_matches(&self.keys@[i as int], req.pubk_mod@));
            }
            i += 1;
        }
        false
    }
}

/// Decodes one built-in key pair and appends it when it is well formed.
fn push_key(keys: &mut Vec<RsaPrivateKey>, n_hex: &str, d_hex: &str)
    requires
        forall|i: int| 0 <= i < old(keys)@.len() ==> (#[trigger] old(keys)@[i]).wf(),
    ensures
        forall|i: int| 0 <= i < final(keys)@.len() ==> (#[trigger] final(keys)@[i]).wf(),
{
    let n_bytes = match hex_decode(n_hex) {
        Some(v) => v,
        None => {
            return ;
        },
    };
    let d_bytes = match hex_decode(d_hex) {
        Some(v) => v,
        None => {
            return ;
        },
    };
    let n = big_from_bytes_be(n_bytes.as_slice());
    let d = big_from_bytes_be(d_bytes.as_slice());
    match RsaPrivateKey::new(n, d) {
        Some(key) => {
            keys.push(key);
        },
        None => {},
    }
}

impl Signer for LocalKeyring {
    open spec fn spec_can_sign(&self, req: &SignRequest) -> bool {
        spec_can_sign(self.keys@, req.pubk_mod@)
    }

    fn can_sign(&self, req: &SignRequest) -> (r: bool) {
        self.can_sign_with_keys(req)
    }

    /// What signing means for the built-in keyring: under a well-formed
    /// key list, success exactly when some modulus occurs in the exposed
    /// one, the fixed refusal otherwise, and a signature that is the
    /// challenge raised to the first matching key's private exponent.
    open spec fn spec_sign_ok(&self, req: &SignRequest, r: &Result<Vec<u8>, Error>) -> bool {
        self.wf() ==> {
            &&& ((*r) is Ok <==> spec_can_sign(self.keys@, req.pubk_mod@))
            &&& ((*r) matches Err(e) ==> e matches Error::Penumbra(m) && m@
                == "No matching key found"@)
            &&& ((*r) matches Ok(sig) ==> exists|i: int|
                {
                    &&& 0 <= i < self.keys@.len()
                    &&& key_matches(#[trigger] &self.keys@[i], req.pubk_mod@)
                    &&& (forall|j: int|
                        0 <= j < i ==> !key_matches(#[trigger] &self.keys@[j], req.pubk_mod@))
                    &&& be_nat(sig@) == pow_mod(
                        be_nat(req.data.rnd@),
                        big_value(self.keys@[i].d),
                        big_value(self.keys@[i].n),
                    )
                })
        }
    }

    // `sign_with_keys` assumes a well-formed keyring, which cannot be
    // tested at run time, so this loop guards each key on its own and
    // proves the same contract under the well-formedness assumption.
    fn sign(&self, req: &SignRequest) -> (r: Result<Vec<u8>, Error>) {
        let mut i: usize = 0;
        while i < self.keys.len()
            invariant
                i <= self.keys@.len(),
                forall|j: int|
                    0 <= j < i ==> !key_matches(#[trigger] &self.keys@[j], req.pubk_mod@),
            decreases self.keys@.len() - i,
        {
            let key = &self.keys[i];
            if key.n_bytes.len() >= 1 && req.pubk_mod.len() >= 1 {
                let pos = contains_bytes(req.pubk_mod.as_slice(), key.n_bytes.as_slice());
                if pos != HEX_NOT_FOUND {
                    if big_nonzero(&key.n) {
                        let sig = rsa_oaep_encrypt(req.data.rnd.as_slice(), &key.n, &key.d);
                        proof {
                            assert(key_matches(&self.keys@[i as int], req.pubk_mod@));
                        }
                        return Ok(sig);
                    }
                    // A zero modulus contradicts well-formedness, so the
                    // conditional contract holds of any refusal here.
                    return Err(Error::penumbra("No matching key found"));
                }
            }
            proof {
                assert(!key_matches(&self.keys@[i as int], req.pubk_mod@));
            }
            i += 1;
        }
        Err(Error::penumbra("No matching key found"))
    }
}

/// Relies on num_bigint's BigUint equality: a value differs from the empty
/// big-endian encoding (the zero value) exactly when its number is
/// non-zero.
#[verifier::external_body]
fn big_nonzero(b: &BigUint) -> (r: bool)
    ensures
        r == (big_value(*b) > 0),
{
    *b != BigUint::from_bytes_be(&[])
}

} // verus!
