//! The EdDSA scheme over Curve25519, as the `ed25519-dalek` crate provides
//! it. Everything here works on plain bytes; what the scheme computes is
//! named, not restated.

use ed25519_dalek::Signer;
use rand::rngs::OsRng;
use vstd::prelude::*;

verus! {

/// The verification key that belongs to the 32-byte secret `secret`.
pub uninterp spec fn ed25519_public_key(secret: Seq<u8>) -> Seq<u8>;

/// The signature that the secret `secret` makes over `msg`. EdDSA signs
/// deterministically, so there is exactly one.
pub uninterp spec fn ed25519_signature(secret: Seq<u8>, msg: Seq<u8>) -> Seq<u8>;

/// Whether the 32 bytes `key` decode to a point of the curve.
pub uninterp spec fn ed25519_key_valid(key: Seq<u8>) -> bool;

/// Whether strict verification accepts the 64-byte `sig` as a signature
/// over `msg` under `key`. False wherever `key` does not decode.
pub uninterp spec fn ed25519_accepts(key: Seq<u8>, msg: Seq<u8>, sig: Seq<u8>) -> bool;

/// Calls `ed25519_dalek::SigningKey::generate` with the operating system's
/// random source and hands out the key's 32 secret bytes. Nothing is claimed
/// of them: every 32 bytes are a secret of this scheme. The call does not
/// come back if the system cannot supply randomness.
#[verifier::external_body]
pub(crate) fn generate_secret() -> (secret: [u8; 32]) {
    ed25519_dalek::SigningKey::generate(&mut OsRng).to_bytes()
}

/// Calls `SigningKey::from_bytes` and `SigningKey::verifying_key`. Trusted:
/// the 32 bytes of the verification key depend on the secret alone.
#[verifier::external_body]
pub(crate) fn derive_public(secret: &[u8; 32]) -> (key: [u8; 32])
    ensures
        key@ == ed25519_public_key(secret@),
{
    ed25519_dalek::SigningKey::from_bytes(secret).verifying_key().to_bytes()
}

/// Calls `Signer::sign` on the key rebuilt from `secret`. Trusted: the 64
/// signature bytes depend on the secret and the message alone.
#[verifier::external_body]
pub(crate) fn sign(secret: &[u8; 32], msg: &[u8]) -> (sig: [u8; 64])
    ensures
        sig@ == ed25519_signature(secret@, msg@),
{
    ed25519_dalek::SigningKey::from_bytes(secret).sign(msg).to_bytes()
}

/// Calls `VerifyingKey::from_bytes` and reports whether it succeeded.
#[verifier::external_body]
pub(crate) fn key_parses(key: &[u8; 32]) -> (ok: bool)
    ensures
        ok == ed25519_key_valid(key@),
{
    ed25519_dalek::VerifyingKey::from_bytes(key).is_ok()
}

/// Calls `VerifyingKey::verify_strict` on the decoded key and reports
/// whether it accepted. A key that does not decode accepts nothing.
#[verifier::external_body]
pub(crate) fn verify_strict(key: &[u8; 32], msg: &[u8], sig: &[u8; 64]) -> (ok: bool)
    ensures
        ok == ed25519_accepts(key@, msg@, sig@),
{
    match ed25519_dalek::VerifyingKey::from_bytes(key) {
        Ok(vk) => vk.verify_strict(msg, &ed25519_dalek::Signature::from_bytes(sig)).is_ok(),
        Err(_) => false,
    }
}

} // verus!
