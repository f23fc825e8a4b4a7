//! The RSA modular-exponentiation primitive behind the SLA signer: big
//! numbers live in an outside arbitrary-precision type, modelled by the
//! number their big-endian bytes stand for.

use vstd::prelude::*;
use num_bigint::BigUint;

verus! {

/// The number a big-endian byte string stands for.
pub open spec fn be_nat(s: Seq<u8>) -> nat
    decreases s.len(),
{
    if s.len() == 0 {
        0
    } else {
        be_nat(s.drop_last()) * 256 + s.last() as nat
    }
}

/// `base ^ exp`, by repeated multiplication.
pub open spec fn pow_nat(base: nat, exp: nat) -> nat
    decreases exp,
{
    if exp == 0 {
        1
    } else {
        base * pow_nat(base, (exp - 1) as nat)
    }
}

/// `base ^ exp % modulus`.
pub open spec fn pow_mod(base: nat, exp: nat, modulus: nat) -> nat
    recommends
        modulus > 0,
{
    pow_nat(base, exp) % modulus
}

#[verifier::external_type_specification]
#[verifier::external_body]
pub struct ExBigUint(BigUint);

/// The number an outside big-unsigned value holds.
pub uninterp spec fn big_value(b: BigUint) -> nat;

/// Relies on num_bigint's BigUint::from_bytes_be: the value is the number
/// the big-endian bytes stand for.
#[verifier::external_body]
pub fn big_from_bytes_be(bytes: &[u8]) -> (r: BigUint)
    ensures
        big_value(r) == be_nat(bytes@),
{
    BigUint::from_bytes_be(bytes)
}

/// Relies on num_bigint's BigUint::to_bytes_be: the big-endian bytes of the
/// value, minimal (no leading zero except for the single zero byte of the
/// value zero).
#[verifier::external_body]
pub fn big_to_bytes_be(b: &BigUint) -> (r: Vec<u8>)
    ensures
        be_nat(r@) == big_value(*b),
        r@.len() >= 1,
        r@.len() > 1 ==> r@[0] != 0,
        big_value(*b) == 0 ==> r@ =~= seq![0u8],
{
    b.to_bytes_be()
}

/// Relies on num_bigint's BigUint::modpow: `self ^ exponent % modulus`; the
/// call refuses a zero modulus, which the contract rules out.
#[verifier::external_body]
pub fn big_modpow(base: &BigUint, exponent: &BigUint, modulus: &BigUint) -> (r: BigUint)
    requires
        big_value(*modulus) > 0,
    ensures
        big_value(r) == pow_mod(big_value(*base), big_value(*exponent), big_value(*modulus)),
{
    base.modpow(exponent, modulus)
}

/// The signing primitive of the SLA flow: interprets the challenge as a
/// big-endian number, raises it to the private exponent modulo the modulus,
/// and returns the big-endian bytes of the result.
pub fn rsa_oaep_encrypt(data: &[u8], n: &BigUint, d: &BigUint) -> (r: Vec<u8>)
    requires
        big_value(*n) > 0,
    ensures
        be_nat(r@) == pow_mod(be_nat(data@), big_value(*d), big_value(*n)),
        r@.len() >= 1,
{
    let m = big_from_bytes_be(data);
    let c = big_modpow(&m, d, n);
    big_to_bytes_be(&c)
}

} // verus!
