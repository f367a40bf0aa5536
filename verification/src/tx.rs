//! Transactions: a signed transfer of an amount from one key to another.

use crate::crypto::{verify, verify_outcome, Keypair, PublicKey, SigAlg, Signature, Tagged};
use crate::encoding::{encode_tx_payload, lemma_tx_payload_unambiguous, tx_payload};
use crate::error::LedgerError;
use crate::hash::{sha256, sha256_digest};
use crate::secp256k1::secp256k1_signature;
use vstd::prelude::*;

verus! {

/// The mathematical content of a transaction.
pub struct TxView {
    pub from: Tagged,
    pub to: Tagged,
    pub amount: u64,
    pub nonce: u64,
    pub alg: SigAlg,
    pub sig: Option<Tagged>,
}

/// A transfer of `amount` from `from` to `to`. The signature is absent
/// until `sign` puts one in.
#[derive(Debug)]
pub struct Tx {
    pub from: PublicKey,
    pub to: PublicKey,
    pub amount: u64,
    pub nonce: u64,
    pub alg: SigAlg,
    pub sig: Option<Signature>,
}

impl View for Tx {
    type V = TxView;

    open spec fn view(&self) -> TxView {
        TxView {
            from: self.from@,
            to: self.to@,
            amount: self.amount,
            nonce: self.nonce,
            alg: self.alg,
            sig: match self.sig {
                Some(sig) => Some(sig@),
                None => None,
            },
        }
    }
}

impl Clone for Tx {
    fn clone(&self) -> (copy: Tx)
        ensures
            copy@ == self@,
    {
        Tx {
            from: self.from.clone(),
            to: self.to.clone(),
            amount: self.amount,
            nonce: self.nonce,
            alg: self.alg,
            sig: match &self.sig {
                Some(sig) => Some(sig.clone()),
                None => None,
            },
        }
    }
}

/// The contents of the transactions in `txs`, in order.
pub open spec fn views(txs: Seq<Tx>) -> Seq<TxView> {
    Seq::new(txs.len(), |i: int| txs[i]@)
}

/// The canonical encoding of what a signature over `tx` covers.
pub open spec fn payload_of(tx: TxView) -> Seq<u8> {
    tx_payload(tx.from.bytes, tx.to.bytes, tx.amount, tx.nonce, tx.alg.tag())
}

/// The digest of a transaction: the general-purpose hash of its signed
/// content.
pub open spec fn digest_of(tx: TxView) -> Seq<u8> {
    sha256_digest(payload_of(tx))
}

/// The transaction `tx` with `sig` in its signature field.
pub open spec fn with_signature(tx: TxView, sig: Option<Tagged>) -> TxView {
    TxView { from: tx.from, to: tx.to, amount: tx.amount, nonce: tx.nonce, alg: tx.alg, sig }
}

/// The result of verifying a transaction. A signature must be present, the
/// tags of signature, transaction and sender key must agree, and the
/// signature must verify over the transaction's digest under the sender key.
pub open spec fn tx_outcome(tx: TxView) -> Result<(), LedgerError> {
    match tx.sig {
        None => Err(LedgerError::MissingSignature),
        Some(sig) => if sig.alg != tx.alg || tx.from.alg != tx.alg {
            Err(LedgerError::AlgorithmMismatch)
        } else {
            verify_outcome(tx.from, digest_of(tx), sig)
        },
    }
}

impl Tx {
    /// An unsigned transaction.
    pub fn new(from: PublicKey, to: PublicKey, amount: u64, nonce: u64, alg: SigAlg) -> (tx: Tx)
        ensures
            tx@ == (TxView { from: from@, to: to@, amount, nonce, alg, sig: None }),
    {
        Tx { from, to, amount, nonce, alg, sig: None }
    }

    /// The digest that a signature covers. It does not depend on the
    /// signature field.
    pub fn digest(&self) -> (h: crate::hash::Hash)
        ensures
            h@ == digest_of(self@),
    {
        let payload = encode_tx_payload(
            &self.from.bytes,
            &self.to.bytes,
            self.amount,
            self.nonce,
            self.alg.to_byte(),
        );
        sha256(payload.as_slice())
    }

    /// Signs the transaction's digest with `kp` and returns the signed
    /// transaction. The keypair is used whatever its scheme and whatever key
    /// it holds: one that does not fit the transaction yields a transaction
    /// that `verify` turns down.
    ///
    /// The signature has 64 bytes under EdDSA, and under ECDSA wherever the
    /// scheme yields one; where it yields none the signature has no bytes.
    pub fn sign(self, kp: &Keypair) -> (signed: Tx)
        ensures
            signed@ == with_signature(self@, Some(kp.signature(digest_of(self@)))),
            digest_of(signed@) == digest_of(self@),
            kp.algorithm() == SigAlg::Ed25519 ==> signed@.sig->0.bytes.len() == 64,
            kp.algorithm() == SigAlg::Secp256k1 ==> (signed@.sig->0.bytes.len() == 64
                <==> secp256k1_signature(kp.secret(), digest_of(self@)) is Some),
    {
        let h = self.digest();
        let sig = kp.sign(h.0.as_slice());
        let mut signed = self;
        signed.sig = Some(sig);
        signed
    }

    /// Verifies the transaction's signature.
    ///
    /// Fails with `MissingSignature` where there is none, with
    /// `AlgorithmMismatch` where the tags of signature, transaction and
    /// sender key do not all agree, and otherwise as `crypto::verify` does on
    /// the sender key, the digest's bytes and the signature.
    pub fn verify(&self) -> (r: Result<(), LedgerError>)
        ensures
            r == tx_outcome(self@),
    {
        match &self.sig {
            None => Err(LedgerError::MissingSignature),
            Some(sig) => {
                if sig.alg != self.alg || self.from.alg != self.alg {
                    return Err(LedgerError::AlgorithmMismatch);
                }
                let h = self.digest();
                verify(&self.from, h.0.as_slice(), sig)
            },
        }
    }
}

/// The digest of a transaction depends on the two keys' bytes, the amount,
/// the nonce and the declared scheme, and on nothing else. Computing it a
/// second time therefore gives the same digest.
pub proof fn lemma_digest_covers_signed_content(a: TxView, b: TxView)
    requires
        a.from.bytes == b.from.bytes,
        a.to.bytes == b.to.bytes,
        a.amount == b.amount,
        a.nonce == b.nonce,
        a.alg == b.alg,
    ensures
        digest_of(a) == digest_of(b),
{
}

/// Transactions that are encoded alike agree in everything that is signed:
/// no two different contents share a payload.
pub proof fn lemma_payload_determines_content(a: TxView, b: TxView)
    requires
        a.from.bytes.len() <= u64::MAX,
        b.from.bytes.len() <= u64::MAX,
        payload_of(a) == payload_of(b),
    ensures
        a.from.bytes == b.from.bytes,
        a.to.bytes == b.to.bytes,
        a.amount == b.amount,
        a.nonce == b.nonce,
        a.alg == b.alg,
{
    lemma_tx_payload_unambiguous(
        a.from.bytes,
        a.to.bytes,
        a.amount,
        a.nonce,
        a.alg.tag(),
        b.from.bytes,
        b.to.bytes,
        b.amount,
        b.nonce,
        b.alg.tag(),
    );
}

/// Signing does not change the digest that was signed: the digest of a
/// transaction is the same whatever stands in its signature field.
pub proof fn lemma_digest_ignores_signature(tx: TxView, sig: Option<Tagged>)
    ensures
        digest_of(with_signature(tx, sig)) == digest_of(tx),
{
}

/// A transaction signed by a keypair of another scheme than it declares is
/// turned down with `AlgorithmMismatch`.
pub proof fn lemma_foreign_scheme_rejected(tx: TxView, kp: Keypair)
    requires
        kp.algorithm() != tx.alg,
    ensures
        tx_outcome(with_signature(tx, Some(kp.signature(digest_of(tx))))) == Err::<
            (),
            LedgerError,
        >(LedgerError::AlgorithmMismatch),
{
}

} // verus!
