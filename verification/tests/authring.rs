use num_bigint::BigUint;
use penumbra::auth::{AuthManager, SignData, SignPurpose, SignRequest, Signer};
use penumbra::keyring::{hex_decode, LocalKeyring};
use penumbra::rsa::rsa_oaep_encrypt;

const N1_HEX: &str = "6D9F602978D05BAD033CBF4ECE27918778D386539B0369CE6DA2F841086A6F25392BBE925F3FFAD335F6877FABA27888D75EEE0E81947BBB13907005A2830807";
const N2_HEX: &str = "83E2E41610E6419F9974B211F97B95FF2174208F912F2EE2E7ABFDD1557C29DBE432BEE12FC9DAC929CD906FED79273AB12CC1D3FED6CA59BDFD42BDD3CBE729";

fn request_with_modulus(n_hex: &str) -> SignRequest {
    let n_bytes = hex_decode(n_hex).unwrap();
    let mut pubk_mod = vec![0xAA, 0xBB, 0xCC];
    pubk_mod.extend_from_slice(&n_bytes);
    pubk_mod.extend_from_slice(&[0xDD, 0xEE]);
    SignRequest {
        data: SignData {
            rnd: vec![0x12, 0x34, 0x56, 0x78, 0x9A, 0xBC, 0xDE, 0xF0],
            soc_id: Vec::new(),
            hrid: Vec::new(),
            raw: Vec::new(),
        },
        purpose: SignPurpose::BromSla,
        pubk_mod,
    }
}

#[test]
fn hex_decode_round_trips() {
    assert_eq!(hex_decode("00FF10").unwrap(), vec![0x00, 0xFF, 0x10]);
    assert!(hex_decode("0XF1").is_none());
    assert!(hex_decode("0F1").is_none());
}

#[test]
fn keyring_matches_a_contained_modulus() {
    let keyring = LocalKeyring::new();
    let req = request_with_modulus(N2_HEX);
    assert!(keyring.can_sign(&req));
    assert!(keyring.can_sign_with_keys(&req));

    let miss = SignRequest {
        data: SignData { rnd: vec![1], soc_id: Vec::new(), hrid: Vec::new(), raw: Vec::new() },
        purpose: SignPurpose::DaSla,
        pubk_mod: vec![0x01, 0x02, 0x03],
    };
    assert!(!keyring.can_sign(&miss));
    assert!(keyring.sign(&miss).is_err());
}

#[test]
fn signature_verifies_under_the_matching_public_key() {
    let keyring = LocalKeyring::new();
    let req = request_with_modulus(N2_HEX);
    let sig = keyring.sign(&req).unwrap();
    assert!(!sig.is_empty());

    let n = BigUint::parse_bytes(N2_HEX.as_bytes(), 16).unwrap();
    let e = BigUint::from(0x10001u32);
    let c = BigUint::from_bytes_be(&sig);
    let m = c.modpow(&e, &n);
    assert_eq!(m, BigUint::from_bytes_be(&req.data.rnd));
}

#[test]
fn signing_primitive_round_trips_with_the_public_exponent() {
    // The primitive is m^d mod n; raising the result to the public
    // exponent recovers the message for every m below the modulus.
    let n_bytes = hex_decode(N1_HEX).unwrap();
    let d_hex = "6BC25A7E0A040FCA603F4BF3C49582EA3FECF6C3A2C2D53495F3B8C3FCE8DB7DD688C4CB0CCC58DCA13E1785A9835657869373E8CFACE5DC9BAF734FF21F2D21";
    let n = penumbra::rsa::big_from_bytes_be(&n_bytes);
    let d = penumbra::rsa::big_from_bytes_be(&hex_decode(d_hex).unwrap());
    for m in [&b"\x01"[..], b"\x12\x34", b"penumbra challenge material"] {
        let sig = rsa_oaep_encrypt(m, &n, &d);
        let nn = BigUint::parse_bytes(N1_HEX.as_bytes(), 16).unwrap();
        let e = BigUint::from(0x10001u32);
        let c = BigUint::from_bytes_be(&sig);
        assert_eq!(c.modpow(&e, &nn), BigUint::from_bytes_be(m));
    }
}

#[test]
fn auth_manager_dispatches_to_the_keyring() {
    let manager = AuthManager::new();
    let req = request_with_modulus(N1_HEX);
    assert!(manager.can_sign(&req));
    let sig = manager.sign(&req).unwrap();

    let n = BigUint::parse_bytes(N1_HEX.as_bytes(), 16).unwrap();
    let e = BigUint::from(0x10001u32);
    let c = BigUint::from_bytes_be(&sig);
    assert_eq!(c.modpow(&e, &n), BigUint::from_bytes_be(&req.data.rnd));
}

#[test]
fn auth_manager_without_a_key_refuses() {
    let manager = AuthManager::new();
    let req = SignRequest {
        data: SignData { rnd: vec![9], soc_id: Vec::new(), hrid: Vec::new(), raw: Vec::new() },
        purpose: SignPurpose::BromSla,
        pubk_mod: vec![0x42; 64],
    };
    assert!(!manager.can_sign(&req));
    let err = manager.sign(&req).unwrap_err();
    assert!(matches!(err, penumbra::error::Error::Penumbra(m) if m == "Could not find any signer"));
}

struct FixedSigner;

impl Signer for FixedSigner {
    fn can_sign(&self, _req: &SignRequest) -> bool {
        true
    }

    fn sign(&self, _req: &SignRequest) -> Result<Vec<u8>, penumbra::error::Error> {
        Ok(vec![0x5A])
    }
}

#[test]
fn registered_signers_extend_the_registry() {
    let mut manager = AuthManager::new();
    manager.register_signer(Box::new(FixedSigner)).unwrap();
    let req = SignRequest {
        data: SignData { rnd: vec![1], soc_id: Vec::new(), hrid: Vec::new(), raw: Vec::new() },
        purpose: SignPurpose::DaSla,
        pubk_mod: vec![0x42; 8],
    };
    assert!(manager.can_sign(&req));
    assert_eq!(manager.sign(&req).unwrap(), vec![0x5A]);
}
