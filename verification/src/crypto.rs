//! Algorithm-tagged keys and signatures. Every operation dispatches on an
//! explicit tag; nothing is inferred from the length of a byte string.

use crate::bytes::{to_array_32, to_array_64};
use crate::ed25519::{
    ed25519_accepts, ed25519_key_valid, ed25519_public_key, ed25519_signature,
};
use crate::error::LedgerError;
use crate::secp256k1::{
    fixed_signature_valid, scalar_in_range, secp256k1_accepts, secp256k1_der_signature,
    secp256k1_key_valid, secp256k1_public_key, secp256k1_signature,
};
use vstd::prelude::*;
use vstd::slice::slice_to_vec;

verus! {

/// The signature schemes this ledger knows.
#[derive(Clone, Copy, Debug, PartialEq, Eq, Structural)]
pub enum SigAlg {
    /// EdDSA over Curve25519.
    Ed25519,
    /// ECDSA over secp256k1.
    Secp256k1,
}

impl SigAlg {
    /// The byte that stands for the scheme in a canonical encoding.
    pub open spec fn tag(self) -> u8 {
        match self {
            SigAlg::Ed25519 => 0,
            SigAlg::Secp256k1 => 1,
        }
    }

    /// The scheme's tag byte.
    pub fn to_byte(self) -> (b: u8)
        ensures
            b == self.tag(),
    {
        match self {
            SigAlg::Ed25519 => 0,
            SigAlg::Secp256k1 => 1,
        }
    }
}

/// Bytes together with the scheme they belong to: the mathematical content
/// of a public key or of a signature.
pub struct Tagged {
    pub alg: SigAlg,
    pub bytes: Seq<u8>,
}

/// A verification key: 32 bytes under EdDSA, a SEC1-encoded point under
/// ECDSA.
#[derive(Debug)]
pub struct PublicKey {
    pub alg: SigAlg,
    pub bytes: Vec<u8>,
}

impl View for PublicKey {
    type V = Tagged;

    open spec fn view(&self) -> Tagged {
        Tagged { alg: self.alg, bytes: self.bytes@ }
    }
}

impl Clone for PublicKey {
    fn clone(&self) -> (copy: PublicKey)
        ensures
            copy@ == self@,
    {
        PublicKey { alg: self.alg, bytes: self.bytes.clone() }
    }
}

/// A signature. It means something only together with the message and the
/// key it was made for.
#[derive(Debug)]
pub struct Signature {
    pub alg: SigAlg,
    pub bytes: Vec<u8>,
}

impl View for Signature {
    type V = Tagged;

    open spec fn view(&self) -> Tagged {
        Tagged { alg: self.alg, bytes: self.bytes@ }
    }
}

impl Clone for Signature {
    fn clone(&self) -> (copy: Signature)
        ensures
            copy@ == self@,
    {
        Signature { alg: self.alg, bytes: self.bytes.clone() }
    }
}

/// What a scheme's three checks amount to: the key is looked at first, then
/// the signature's form, then the signature itself.
pub open spec fn outcome(key_ok: bool, sig_ok: bool, accepted: bool) -> Result<(), LedgerError> {
    if !key_ok {
        Err(LedgerError::MalformedKey)
    } else if !sig_ok {
        Err(LedgerError::MalformedSignature)
    } else if !accepted {
        Err(LedgerError::InvalidSignature)
    } else {
        Ok(())
    }
}

/// Turns the findings of a scheme's checks into the result of a
/// verification.
pub fn decide(key_ok: bool, sig_ok: bool, accepted: bool) -> (r: Result<(), LedgerError>)
    ensures
        r == outcome(key_ok, sig_ok, accepted),
{
    if !key_ok {
        Err(LedgerError::MalformedKey)
    } else if !sig_ok {
        Err(LedgerError::MalformedSignature)
    } else if !accepted {
        Err(LedgerError::InvalidSignature)
    } else {
        Ok(())
    }
}

/// Verification under EdDSA: the key must be 32 bytes that decode, the
/// signature 64 bytes, and strict verification must accept.
pub open spec fn ed25519_outcome(key: Seq<u8>, msg: Seq<u8>, sig: Seq<u8>) -> Result<
    (),
    LedgerError,
> {
    outcome(
        key.len() == 32 && ed25519_key_valid(key),
        sig.len() == 64,
        ed25519_accepts(key, msg, sig),
    )
}

/// The fixed form of an ECDSA signature given in either encoding: DER is
/// tried first, then the bytes are taken as fixed form.
pub open spec fn secp256k1_fixed_form(sig: Seq<u8>) -> Option<Seq<u8>> {
    match secp256k1_der_signature(sig) {
        Some(fixed) => Some(fixed),
        None => if fixed_signature_valid(sig) {
            Some(sig)
        } else {
            None
        },
    }
}

/// Verification under ECDSA: the key must be a SEC1 point, the signature
/// must parse in one of its two encodings, and the scheme must accept.
pub open spec fn secp256k1_outcome(key: Seq<u8>, msg: Seq<u8>, sig: Seq<u8>) -> Result<
    (),
    LedgerError,
> {
    outcome(
        secp256k1_key_valid(key),
        secp256k1_fixed_form(sig) is Some,
        secp256k1_fixed_form(sig) is Some && secp256k1_accepts(
            key,
            msg,
            secp256k1_fixed_form(sig)->0,
        ),
    )
}

/// The result of verifying `sig` over `msg` under `key`. Differing tags are
/// turned down before either scheme is consulted.
pub open spec fn verify_outcome(key: Tagged, msg: Seq<u8>, sig: Tagged) -> Result<
    (),
    LedgerError,
> {
    if key.alg != sig.alg {
        Err(LedgerError::AlgorithmMismatch)
    } else {
        match sig.alg {
            SigAlg::Ed25519 => ed25519_outcome(key.bytes, msg, sig.bytes),
            SigAlg::Secp256k1 => secp256k1_outcome(key.bytes, msg, sig.bytes),
        }
    }
}

/// Verification under EdDSA.
fn verify_ed25519(key: &[u8], msg: &[u8], sig: &[u8]) -> (r: Result<(), LedgerError>)
    ensures
        r == ed25519_outcome(key@, msg@, sig@),
{
    if key.len() != 32 {
        return decide(false, sig.len() == 64, false);
    }
    let key = to_array_32(key);
    let key_ok = crate::ed25519::key_parses(&key);
    if sig.len() != 64 {
        return decide(key_ok, false, false);
    }
    let accepted = key_ok && crate::ed25519::verify_strict(&key, msg, &to_array_64(sig));
    decide(key_ok, true, accepted)
}

/// Brings an ECDSA signature into fixed form, whichever of the two
/// encodings it comes in.
fn fixed_form(sig: &[u8]) -> (fixed: Option<[u8; 64]>)
    ensures
        secp256k1_fixed_form(sig@) == match fixed {
            Some(bytes) => Some(bytes@),
            None => None,
        },
{
    match crate::secp256k1::parse_der(sig) {
        Some(bytes) => Some(bytes),
        None => if crate::secp256k1::fixed_parses(sig) {
            Some(to_array_64(sig))
        } else {
            None
        },
    }
}

/// Verification under ECDSA.
fn verify_secp256k1(key: &[u8], msg: &[u8], sig: &[u8]) -> (r: Result<(), LedgerError>)
    ensures
        r == secp256k1_outcome(key@, msg@, sig@),
{
    let key_ok = crate::secp256k1::key_parses(key);
    match fixed_form(sig) {
        Some(fixed) => {
            let accepted = key_ok && crate::secp256k1::verify(key, msg, &fixed);
            decide(key_ok, true, accepted)
        },
        None => decide(key_ok, false, false),
    }
}

/// Checks that `sig` is a signature over `msg` under `pk`.
///
/// Fails with `AlgorithmMismatch` where the two tags differ, with
/// `MalformedKey` where the key is no key of its scheme, with
/// `MalformedSignature` where the signature does not parse, and with
/// `InvalidSignature` where the scheme rejects it.
pub fn verify(pk: &PublicKey, msg: &[u8], sig: &Signature) -> (r: Result<(), LedgerError>)
    ensures
        r == verify_outcome(pk@, msg@, sig@),
        pk.alg != sig.alg ==> r == Err::<(), LedgerError>(LedgerError::AlgorithmMismatch),
{
    if pk.alg != sig.alg {
        return Err(LedgerError::AlgorithmMismatch);
    }
    match sig.alg {
        SigAlg::Ed25519 => verify_ed25519(pk.bytes.as_slice(), msg, sig.bytes.as_slice()),
        SigAlg::Secp256k1 => verify_secp256k1(pk.bytes.as_slice(), msg, sig.bytes.as_slice()),
    }
}

/// The private half of one scheme. Exactly one slot is filled, the one the
/// tag names; the secret leaves the keypair only as signatures.
pub struct Keypair {
    alg: SigAlg,
    ed: Option<[u8; 32]>,
    secp: Option<[u8; 32]>,
}

impl Keypair {
    #[verifier::type_invariant]
    spec fn well_formed(self) -> bool {
        match self.alg {
            SigAlg::Ed25519 => self.ed is Some && self.secp is None,
            SigAlg::Secp256k1 => {
                &&& self.ed is None
                &&& self.secp matches Some(secret)
                &&& scalar_in_range(secret@)
            },
        }
    }

    /// The scheme this keypair belongs to.
    pub closed spec fn algorithm(&self) -> SigAlg {
        self.alg
    }

    /// The 32 secret bytes of the active scheme.
    pub closed spec fn secret(&self) -> Seq<u8> {
        match self.alg {
            SigAlg::Ed25519 => self.ed->0@,
            SigAlg::Secp256k1 => self.secp->0@,
        }
    }

    /// The public key that belongs to this keypair.
    pub open spec fn public_key(&self) -> Tagged {
        Tagged {
            alg: self.algorithm(),
            bytes: match self.algorithm() {
                SigAlg::Ed25519 => ed25519_public_key(self.secret()),
                SigAlg::Secp256k1 => secp256k1_public_key(self.secret()),
            },
        }
    }

    /// The signature this keypair makes over `msg`. Where ECDSA yields no
    /// signature the bytes are empty: that stands in for a failure to sign,
    /// and no verification accepts it.
    pub open spec fn signature(&self, msg: Seq<u8>) -> Tagged {
        Tagged {
            alg: self.algorithm(),
            bytes: match self.algorithm() {
                SigAlg::Ed25519 => ed25519_signature(self.secret(), msg),
                SigAlg::Secp256k1 => match secp256k1_signature(self.secret(), msg) {
                    Some(fixed) => fixed,
                    None => Seq::empty(),
                },
            },
        }
    }

    /// Draws a fresh secret for `alg` from the operating system's random
    /// source.
    pub fn generate(alg: SigAlg) -> (kp: Keypair)
        ensures
            kp.algorithm() == alg,
    {
        match alg {
            SigAlg::Ed25519 => {
                let secret = crate::ed25519::generate_secret();
                Keypair { alg, ed: Some(secret), secp: None }
            },
            SigAlg::Secp256k1 => {
                let secret = crate::secp256k1::generate_secret();
                Keypair { alg, ed: None, secp: Some(secret) }
            },
        }
    }

    /// The scheme this keypair belongs to.
    pub fn alg(&self) -> (alg: SigAlg)
        ensures
            alg == self.algorithm(),
    {
        self.alg
    }

    /// Derives the public key. Always succeeds. An EdDSA key has 32 bytes,
    /// an ECDSA key is a compressed SEC1 point of 33 bytes.
    pub fn public(&self) -> (pk: PublicKey)
        ensures
            pk@ == self.public_key(),
            self.algorithm() == SigAlg::Ed25519 ==> pk.bytes@.len() == 32,
            self.algorithm() == SigAlg::Secp256k1 ==> pk.bytes@.len() == 33,
    {
        proof {
            use_type_invariant(self);
        }
        match self.alg {
            SigAlg::Ed25519 => {
                let secret = self.ed.as_ref().unwrap();
                let key = crate::ed25519::derive_public(secret);
                PublicKey { alg: SigAlg::Ed25519, bytes: slice_to_vec(key.as_slice()) }
            },
            SigAlg::Secp256k1 => {
                let secret = self.secp.as_ref().unwrap();
                let key = crate::secp256k1::derive_public(secret);
                PublicKey { alg: SigAlg::Secp256k1, bytes: key }
            },
        }
    }

    /// Signs `msg` and never panics.
    ///
    /// An EdDSA signature always has 64 bytes. An ECDSA signature is handed
    /// out in fixed form, 64 bytes, wherever the scheme yields one. The
    /// scheme yields none where a half of the signature would be zero; this
    /// function then does not abort but hands out a signature without bytes,
    /// which every verification turns down as malformed.
    pub fn sign(&self, msg: &[u8]) -> (sig: Signature)
        ensures
            sig@ == self.signature(msg@),
            self.algorithm() == SigAlg::Ed25519 ==> sig.bytes@.len() == 64,
            self.algorithm() == SigAlg::Secp256k1 ==> (sig.bytes@.len() == 64
                <==> secp256k1_signature(self.secret(), msg@) is Some),
            self.algorithm() == SigAlg::Secp256k1 ==> (sig.bytes@.len() == 0
                <==> secp256k1_signature(self.secret(), msg@) is None),
    {
        proof {
            use_type_invariant(self);
        }
        match self.alg {
            SigAlg::Ed25519 => {
                let secret = self.ed.as_ref().unwrap();
                let made = crate::ed25519::sign(secret, msg);
                Signature { alg: SigAlg::Ed25519, bytes: slice_to_vec(made.as_slice()) }
            },
            SigAlg::Secp256k1 => {
                let secret = self.secp.as_ref().unwrap();
                let bytes = match crate::secp256k1::sign(secret, msg) {
                    Some(fixed) => slice_to_vec(fixed.as_slice()),
                    None => Vec::new(),
                };
                Signature { alg: SigAlg::Secp256k1, bytes }
            },
        }
    }
}

/// A signature presented against a public key that declares the other
/// scheme is turned down with `AlgorithmMismatch`, whatever the bytes are.
pub proof fn lemma_mismatched_tags_rejected(key: Tagged, msg: Seq<u8>, sig: Tagged)
    requires
        key.alg != sig.alg,
    ensures
        verify_outcome(key, msg, sig) == Err::<(), LedgerError>(LedgerError::AlgorithmMismatch),
{
}

/// A verification succeeds exactly where both tags name the same scheme
/// and that scheme has found the key well formed, has parsed the signature
/// and has accepted it: nothing succeeds that the scheme did not accept, and
/// nothing that it accepted is turned down.
pub proof fn lemma_success_is_acceptance(key: Tagged, msg: Seq<u8>, sig: Tagged)
    ensures
        verify_outcome(key, msg, sig) is Ok <==> key.alg == sig.alg && match sig.alg {
            SigAlg::Ed25519 => {
                &&& key.bytes.len() == 32
                &&& ed25519_key_valid(key.bytes)
                &&& sig.bytes.len() == 64
                &&& ed25519_accepts(key.bytes, msg, sig.bytes)
            },
            SigAlg::Secp256k1 => {
                &&& secp256k1_key_valid(key.bytes)
                &&& secp256k1_fixed_form(sig.bytes) matches Some(fixed)
                &&& secp256k1_accepts(key.bytes, msg, fixed)
            },
        },
{
}

/// Where the two tags agree, a verification that fails does so with
/// `MalformedKey`, `MalformedSignature` or `InvalidSignature`: changing bytes
/// of the message, the key or the signature never brings about another
/// error.
pub proof fn lemma_failures_with_agreeing_tags(key: Tagged, msg: Seq<u8>, sig: Tagged)
    requires
        key.alg == sig.alg,
    ensures
        verify_outcome(key, msg, sig) matches Err(e) ==> e == LedgerError::MalformedKey || e
            == LedgerError::MalformedSignature || e == LedgerError::InvalidSignature,
{
}

/// After a verification has succeeded, a change can fail only in its own
/// way: another message only with `InvalidSignature`, other key bytes only
/// with `MalformedKey` or `InvalidSignature`, other signature bytes only
/// with `MalformedSignature` or `InvalidSignature`. Whether the change does
/// fail is for the scheme to say.
pub proof fn lemma_failure_kinds_after_change(
    key: Tagged,
    msg: Seq<u8>,
    sig: Tagged,
    other_msg: Seq<u8>,
    other_key: Seq<u8>,
    other_sig: Seq<u8>,
)
    requires
        verify_outcome(key, msg, sig) is Ok,
    ensures
        verify_outcome(key, other_msg, sig) matches Err(e) ==> e == LedgerError::InvalidSignature,
        verify_outcome(Tagged { alg: key.alg, bytes: other_key }, msg, sig) matches Err(e) ==> e
            == LedgerError::MalformedKey || e == LedgerError::InvalidSignature,
        verify_outcome(key, msg, Tagged { alg: sig.alg, bytes: other_sig }) matches Err(e) ==> e
            == LedgerError::MalformedSignature || e == LedgerError::InvalidSignature,
{
}

/// A keypair's own signature, presented with the keypair's own public key,
/// is never turned down for its algorithm tag.
pub proof fn lemma_own_signature_tags_agree(kp: Keypair, msg: Seq<u8>)
    ensures
        kp.public_key().alg == kp.signature(msg).alg,
        verify_outcome(kp.public_key(), msg, kp.signature(msg)) != Err::<(), LedgerError>(
            LedgerError::AlgorithmMismatch,
        ),
{
}

} // verus!
