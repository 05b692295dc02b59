//! Password hashing and the Ed25519 check of signed challenge nonces.

use vstd::prelude::*;
use vstd::string::StringExecFns;

use crate::error::PipelineResult;
use crate::keys::{IkPub, Nonce, SigData};
use crate::primitives::ReprBytes;

mod ed25519;

use ed25519::{verify_strict, verifying_key_from_bytes};

verus! {

/// The stored form of a password: the text `hashed:` followed by the password.
pub open spec fn password_hash_text(plain: Seq<char>) -> Seq<char> {
    "hashed:"@ + plain
}

/// The stored form of a password.
pub(crate) fn password_hash(plain: &str) -> (h: String)
    ensures
        h@ == password_hash_text(plain@),
{
    let mut h = String::from_str("hashed:");
    h.append(plain);
    h
}

/// The stored form of a password; it always succeeds.
pub fn hash_password(plain: &str) -> (r: PipelineResult<String>)
    ensures
        r matches Ok(h) && h@ == password_hash_text(plain@),
{
    Ok(password_hash(plain))
}

/// Home of the server's cryptographic checks.
pub struct CryptoManager;

/// `ed25519_dalek::VerifyingKey`, carried as an opaque value.
#[verifier::external_type_specification]
#[verifier::external_body]
pub struct ExVerifyingKey(ed25519_dalek::VerifyingKey);

/// Whether 32 bytes are the compressed form of a point on the Ed25519 curve,
/// which is when `ed25519_dalek::VerifyingKey::from_bytes` accepts them.
pub uninterp spec fn ed25519_point_decompresses(bytes: Seq<u8>) -> bool;

/// Whether `signature` passes `ed25519_dalek::VerifyingKey::verify_strict` for
/// `message` under the public key with the compressed form `key`.
pub uninterp spec fn ed25519_verify_strict(key: Seq<u8>, message: Seq<u8>, signature: Seq<u8>) -> bool;

/// Whether `sig` is a strict Ed25519 signature of the nonce bytes under the
/// identity key `ik`: false when `ik` is not a curve point.
pub fn verify_signed_nonce(ik: IkPub, nonce: Nonce, sig: SigData) -> (r: bool)
    ensures
        r == (ed25519_point_decompresses(ik@) && ed25519_verify_strict(ik@, nonce@, sig@)),
{
    let Some(public_key) = verifying_key_from_bytes(ik.bytes_const()) else {
        return false;
    };
    verify_strict(&public_key, nonce.0.0.as_slice(), sig.bytes_const())
}

} // verus!
