//! The curve-signature oracles: Schnorr and ECDSA signing over a 32-byte
//! digest with a 32-byte secret key. Both schemes are deterministic here —
//! Schnorr is signed with fixed zero auxiliary data and ECDSA uses RFC 6979
//! nonces — so each signature is named as a function of digest and key.

use vstd::prelude::*;

verus! {

/// Names whether 32 bytes form a valid Schnorr keypair (the success of
/// `secp256k1::Keypair::from_secret_bytes`): a non-zero scalar below the
/// curve order.
pub uninterp spec fn schnorr_key_ok(sk: Seq<u8>) -> bool;

/// Names the 64-byte Schnorr signature of `secp256k1::schnorr::sign_with_aux_rand`
/// with zero auxiliary data.
pub uninterp spec fn schnorr_sig_of(digest: Seq<u8>, sk: Seq<u8>) -> Seq<u8>;

/// Names whether 32 bytes form a valid ECDSA secret key (the success of
/// `secp256k1::SecretKey::from_byte_array`).
pub uninterp spec fn ecdsa_key_ok(sk: Seq<u8>) -> bool;

/// Names the DER-serialized ECDSA signature of `secp256k1::ecdsa::sign`
/// (RFC 6979 deterministic nonces).
pub uninterp spec fn ecdsa_der_sig_of(digest: Seq<u8>, sk: Seq<u8>) -> Seq<u8>;

/// Relies on `secp256k1::Keypair::from_secret_bytes`: it succeeds exactly
/// when the bytes form a valid scalar, as a pure function of the bytes.
#[verifier::external_body]
pub fn schnorr_key_check(sk: &Vec<u8>) -> (r: bool)
    requires
        sk@.len() == 32,
    ensures
        r == schnorr_key_ok(sk@),
{
    let mut kb = [0u8; 32];
    kb.copy_from_slice(sk);
    secp256k1::Keypair::from_secret_bytes(kb).is_ok()
}

/// Relies on `secp256k1::SecretKey::from_byte_array`: it succeeds exactly
/// when the bytes form a valid scalar, as a pure function of the bytes.
#[verifier::external_body]
pub fn ecdsa_key_check(sk: &Vec<u8>) -> (r: bool)
    requires
        sk@.len() == 32,
    ensures
        r == ecdsa_key_ok(sk@),
{
    let mut kb = [0u8; 32];
    kb.copy_from_slice(sk);
    secp256k1::SecretKey::from_byte_array(kb).is_ok()
}

/// Relies on `secp256k1::Keypair::from_secret_bytes` (fails exactly on an
/// invalid scalar) and `secp256k1::schnorr::sign_with_aux_rand` with zero
/// auxiliary data (deterministic per BIP 340; signatures are 64 bytes).
#[verifier::external_body]
pub fn schnorr_sign(digest: &Vec<u8>, sk: &Vec<u8>) -> (r: Option<Vec<u8>>)
    requires
        digest@.len() == 32,
        sk@.len() == 32,
    ensures
        r is Some <==> schnorr_key_ok(sk@),
        r is Some ==> r->0@ == schnorr_sig_of(digest@, sk@),
        r is Some ==> r->0@.len() == 64,
{
    let mut kb = [0u8; 32];
    kb.copy_from_slice(sk);
    let keypair = match secp256k1::Keypair::from_secret_bytes(kb) {
        Ok(k) => k,
        Err(_) => {
            return None;
        },
    };
    let aux = [0u8; 32];
    let sig = secp256k1::schnorr::sign_with_aux_rand(digest, &keypair, &aux);
    Some(sig.to_byte_array().to_vec())
}

/// Relies on `secp256k1::SecretKey::from_byte_array` (fails exactly on an
/// invalid scalar), `secp256k1::SecretKey::sign_ecdsa` (RFC 6979,
/// deterministic) and `ecdsa::Signature::serialize_der` (at most 72 bytes).
#[verifier::external_body]
pub fn ecdsa_sign_der(digest: &Vec<u8>, sk: &Vec<u8>) -> (r: Option<Vec<u8>>)
    requires
        digest@.len() == 32,
        sk@.len() == 32,
    ensures
        r is Some <==> ecdsa_key_ok(sk@),
        r is Some ==> r->0@ == ecdsa_der_sig_of(digest@, sk@),
        r is Some ==> r->0@.len() <= 72,
{
    let mut kb = [0u8; 32];
    kb.copy_from_slice(sk);
    let mut db = [0u8; 32];
    db.copy_from_slice(digest);
    let key = match secp256k1::SecretKey::from_byte_array(kb) {
        Ok(k) => k,
        Err(_) => {
            return None;
        },
    };
    let sig = key.sign_ecdsa(secp256k1::Message::from_digest(db));
    Some(sig.serialize_der().to_vec())
}

} // verus!
