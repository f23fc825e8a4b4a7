//! The pluggable SLA signer registry: signing requests, the signer
//! capability, and the append-only manager that dispatches to the first
//! signer holding a matching key.

use vstd::prelude::*;
use crate::error::Error;

verus! {

/// What a signature is asked for.
#[derive(Debug, Copy, Clone, Eq, PartialEq, Structural)]
pub enum SignPurpose {
    BromSla,
    DaSla,
}

/// The device-provided material of a signing request.
pub struct SignData {
    pub rnd: Vec<u8>,
    pub soc_id: Vec<u8>,
    pub hrid: Vec<u8>,
    pub raw: Vec<u8>,
}

/// A challenge to sign: the material, the purpose, and the public modulus
/// the device exposed.
pub struct SignRequest {
    pub data: SignData,
    pub purpose: SignPurpose,
    pub pubk_mod: Vec<u8>,
}

/// A signer that may hold a key for a request. Implementations live with
/// the callers; the built-in local keyring is one.
pub trait Signer: Send + Sync {
    /// Whether this signer holds a key for the request. Verified
    /// implementations say which requests they take; an implementation
    /// outside the proofs may keep the default.
    open spec fn spec_can_sign(&self, req: &SignRequest) -> bool {
        false
    }

    fn can_sign(&self, req: &SignRequest) -> (r: bool)
        ensures
            r == self.spec_can_sign(req),
    ;

    /// What this signer's result means. Verified implementations pin their
    /// result here; an implementation outside the proofs may keep the
    /// default.
    open spec fn spec_sign_ok(&self, req: &SignRequest, r: &Result<Vec<u8>, Error>) -> bool {
        true
    }

    fn sign(&self, req: &SignRequest) -> (r: Result<Vec<u8>, Error>)
        ensures
            self.spec_sign_ok(req, &r),
    ;
}

/// The process-wide signer registry: an append-only list, seeded with the
/// built-in local keyring.
pub struct AuthManager {
    pub signers: Vec<Box<dyn Signer>>,
}

impl AuthManager {
    /// A fresh registry holding the built-in local keyring.
    pub fn new() -> (r: AuthManager) {
        let mut signers: Vec<Box<dyn Signer>> = Vec::new();
        let keyring = crate::keyring::LocalKeyring::new();
        signers.push(Box::new(keyring));
        AuthManager { signers }
    }

    /// Registers a signer. The list is append-only: a signer is only ever
    /// pushed at the end, and nothing removes one.
    pub fn register_signer(&mut self, signer: Box<dyn Signer>) -> (r: Result<(), Error>)
        ensures
            r is Ok,
            final(self).signers@ == old(self).signers@.push(signer),
    {
        self.signers.push(signer);
        Ok(())
    }

    /// Whether any registered signer reports a key for the request.
    pub fn can_sign(&self, req: &SignRequest) -> (r: bool)
        ensures
            r == exists|i: int|
                0 <= i < self.signers@.len() && (#[trigger] self.signers@[i]).spec_can_sign(req),
    {
        let mut i: usize = 0;
        while i < self.signers.len()
            invariant
                i <= self.signers@.len(),
                forall|j: int|
                    0 <= j < i ==> !(#[trigger] self.signers@[j]).spec_can_sign(req),
            decreases self.signers@.len() - i,
        {
            if self.signers[i].can_sign(req) {
                return true;
            }
            i += 1;
        }
        false
    }

    /// Signs the request with the first signer that reports a key for it,
    /// handing that signer's result on unchanged; with no capable signer
    /// the request is refused with the registry's own error, so that the
    /// caller registers another signer.
    pub fn sign(&self, req: &SignRequest) -> (r: Result<Vec<u8>, Error>)
        ensures
            (forall|i: int|
                0 <= i < self.signers@.len() ==> !(#[trigger] self.signers@[i]).spec_can_sign(
                    req,
                )) ==> (r matches Err(e) && e matches Error::Penumbra(m) && m@
                == "Could not find any signer"@),
            (exists|i: int|
                0 <= i < self.signers@.len() && (#[trigger] self.signers@[i]).spec_can_sign(
                    req,
                )) ==> (exists|i: int|
                {
                    &&& 0 <= i < self.signers@.len()
                    &&& (#[trigger] self.signers@[i]).spec_can_sign(req)
                    &&& (forall|j: int|
                        0 <= j < i ==> !(#[trigger] self.signers@[j]).spec_can_sign(req))
                    &&& self.signers@[i].spec_sign_ok(req, &r)
                }),
    {
        let mut i: usize = 0;
        while i < self.signers.len()
            invariant
                i <= self.signers@.len(),
                forall|j: int|
                    0 <= j < i ==> !(#[trigger] self.signers@[j]).spec_can_sign(req),
            decreases self.signers@.len() - i,
        {
            if self.signers[i].can_sign(req) {
                return self.signers[i].sign(req);
            }
            i += 1;
        }
        Err(Error::penumbra("Could not find any signer"))
    }
}

} // verus!
