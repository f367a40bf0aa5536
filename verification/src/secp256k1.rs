//! The ECDSA scheme over secp256k1, as the `k256` crate provides it.
//! Everything here works on plain bytes; what the scheme computes is named,
//! not restated.

use crate::bytes::be_value;
use k256::ecdsa::signature::{Signer, Verifier};
use rand::rngs::OsRng;
use vstd::prelude::*;

verus! {

/// The order of the secp256k1 group.
pub open spec fn group_order() -> nat {
    0xFFFFFFFF_FFFFFFFF_FFFFFFFF_FFFFFFFE_BAAEDCE6_AF48A03B_BFD25E8C_D0364141nat
}

/// Whether `bytes` are 32 bytes that spell, most significant first, a
/// non-zero number below the group order. A secret key is such a scalar,
/// and so is each half of a signature.
pub open spec fn scalar_in_range(bytes: Seq<u8>) -> bool {
    &&& bytes.len() == 32
    &&& 0 < be_value(bytes) < group_order()
}

/// Whether `bytes` are a signature in fixed form: two scalars, `r` then `s`.
pub open spec fn fixed_signature_valid(bytes: Seq<u8>) -> bool {
    &&& bytes.len() == 64
    &&& scalar_in_range(bytes.subrange(0, 32))
    &&& scalar_in_range(bytes.subrange(32, 64))
}

/// The SEC1 encoding of the verification key that belongs to `secret`.
pub uninterp spec fn secp256k1_public_key(secret: Seq<u8>) -> Seq<u8>;

/// The fixed-form signature that `secret` makes over `msg`, with the nonce
/// derived from both, or `None` where the scheme yields none: it gives up
/// where a half of the signature would be zero.
pub uninterp spec fn secp256k1_signature(secret: Seq<u8>, msg: Seq<u8>) -> Option<Seq<u8>>;

/// Whether `key` is the SEC1 encoding of a point that can serve as a key.
pub uninterp spec fn secp256k1_key_valid(key: Seq<u8>) -> bool;

/// The fixed form of the signature that `bytes` hold in ASN.1 DER, or `None`
/// where they hold none.
pub uninterp spec fn secp256k1_der_signature(bytes: Seq<u8>) -> Option<Seq<u8>>;

/// Whether the scheme accepts the fixed-form `sig` as a signature over `msg`
/// under the SEC1-encoded `key`. False wherever either does not decode.
pub uninterp spec fn secp256k1_accepts(key: Seq<u8>, msg: Seq<u8>, sig: Seq<u8>) -> bool;

/// Calls `k256::ecdsa::SigningKey::random` with the operating system's
/// random source and hands out the key's 32 secret bytes. Trusted: the key
/// is a non-zero scalar below the group order, serialised most significant
/// byte first. The call does not come back if the system cannot supply
/// randomness.
#[verifier::external_body]
pub(crate) fn generate_secret() -> (secret: [u8; 32])
    ensures
        scalar_in_range(secret@),
{
    k256::ecdsa::SigningKey::random(&mut OsRng).to_bytes().into()
}

/// Calls `SigningKey::from_bytes`, takes the key's `VerifyingKey` and calls
/// `to_sec1_bytes`. Trusted: the encoding depends on the secret alone, and
/// it is the compressed one, a tag byte and one coordinate: 33 bytes.
#[verifier::external_body]
pub(crate) fn derive_public(secret: &[u8; 32]) -> (key: Vec<u8>)
    requires
        scalar_in_range(secret@),
    ensures
        key@ == secp256k1_public_key(secret@),
        key@.len() == 33,
{
    let sk = k256::ecdsa::SigningKey::from_bytes(&(*secret).into()).unwrap();
    k256::ecdsa::VerifyingKey::from(&sk).to_sec1_bytes().to_vec()
}

/// Calls `Signer::try_sign` on the key rebuilt from `secret` and hands out
/// the signature's bytes. Trusted: the outcome depends on the secret and the
/// message alone.
#[verifier::external_body]
pub(crate) fn sign(secret: &[u8; 32], msg: &[u8]) -> (sig: Option<[u8; 64]>)
    requires
        scalar_in_range(secret@),
    ensures
        secp256k1_signature(secret@, msg@) == match sig {
            Some(fixed) => Some(fixed@),
            None => None,
        },
{
    let sk = k256::ecdsa::SigningKey::from_bytes(&(*secret).into()).unwrap();
    let made: Result<k256::ecdsa::Signature, _> = sk.try_sign(msg);
    match made {
        Ok(sig) => Some(sig.to_bytes().into()),
        Err(_) => None,
    }
}

/// Calls `VerifyingKey::from_sec1_bytes` and reports whether it succeeded.
#[verifier::external_body]
pub(crate) fn key_parses(key: &[u8]) -> (ok: bool)
    ensures
        ok == secp256k1_key_valid(key@),
{
    k256::ecdsa::VerifyingKey::from_sec1_bytes(key).is_ok()
}

/// Calls `Signature::from_der` and hands out the parsed signature in fixed
/// form.
#[verifier::external_body]
pub(crate) fn parse_der(bytes: &[u8]) -> (sig: Option<[u8; 64]>)
    ensures
        secp256k1_der_signature(bytes@) == match sig {
            Some(fixed) => Some(fixed@),
            None => None,
        },
{
    match k256::ecdsa::Signature::from_der(bytes) {
        Ok(sig) => Some(sig.to_bytes().into()),
        Err(_) => None,
    }
}

/// Calls `Signature::from_slice` and reports whether it succeeded. Trusted:
/// it succeeds exactly on 64 bytes whose two halves are scalars in range.
#[verifier::external_body]
pub(crate) fn fixed_parses(bytes: &[u8]) -> (ok: bool)
    ensures
        ok == fixed_signature_valid(bytes@),
{
    k256::ecdsa::Signature::from_slice(bytes).is_ok()
}

/// Calls `Verifier::verify` on the decoded key and signature and reports
/// whether it accepted. Bytes that do not decode are accepted by nothing.
#[verifier::external_body]
pub(crate) fn verify(key: &[u8], msg: &[u8], sig: &[u8; 64]) -> (ok: bool)
    ensures
        ok == secp256k1_accepts(key@, msg@, sig@),
{
    let vk = k256::ecdsa::VerifyingKey::from_sec1_bytes(key);
    let parsed = k256::ecdsa::Signature::from_slice(sig);
    match (vk, parsed) {
        (Ok(vk), Ok(parsed)) => vk.verify(msg, &parsed).is_ok(),
        _ => false,
    }
}

} // verus!
