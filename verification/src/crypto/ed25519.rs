//! An Ed25519 public key read from its 32 bytes, and the strict signature
//! check under it. The key and the bytes it was read from are made together
//! here and nowhere else, so the two always agree.

use vstd::prelude::*;

use super::{ed25519_point_decompresses, ed25519_verify_strict};

verus! {

/// An Ed25519 public key together with the 32 bytes it was read from.
pub struct Ed25519PublicKey {
    key: ed25519_dalek::VerifyingKey,
    bytes: [u8; 32],
}

impl View for Ed25519PublicKey {
    type V = Seq<u8>;

    closed spec fn view(&self) -> Seq<u8> {
        self.bytes@
    }
}

/// `ed25519_dalek::VerifyingKey::from_bytes`: decompresses the point; it fails
/// when the bytes are not a curve point. The result is kept with the bytes it
/// came from. The contract names the outcome and does not restate the curve
/// arithmetic.
#[verifier::external_body]
pub(crate) fn verifying_key_from_bytes(bytes: &[u8; 32]) -> (r: Option<Ed25519PublicKey>)
    ensures
        r is Some <==> ed25519_point_decompresses(bytes@),
        r matches Some(k) ==> k@ == bytes@,
{
    match ed25519_dalek::VerifyingKey::from_bytes(bytes) {
        Ok(key) => Some(Ed25519PublicKey { key, bytes: *bytes }),
        Err(_) => None,
    }
}

/// `ed25519_dalek::VerifyingKey::verify_strict`, with the 64 signature bytes
/// turned into an `ed25519_dalek::Signature` by `Signature::from_bytes` (which
/// only splits them into `R` and `s`). Whether the check passes is named and
/// depends on the key bytes, the message and the signature bytes alone.
#[verifier::external_body]
pub(crate) fn verify_strict(key: &Ed25519PublicKey, message: &[u8], signature: &[u8; 64]) -> (r: bool)
    ensures
        r == ed25519_verify_strict(key@, message@, signature@),
{
    key.key.verify_strict(message, &ed25519_dalek::Signature::from_bytes(signature)).is_ok()
}

} // verus!
