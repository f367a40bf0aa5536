//! The canonical byte encodings that are hashed and signed. The bytes are
//! produced by `bincode`, in its fixed-width little-endian configuration;
//! their layout is stated here in full.

use crate::bytes::{
    le_bytes, lemma_concat_splits, lemma_le_bytes_injective, lemma_le_bytes_len, span,
};
use vstd::prelude::*;

verus! {

/// A byte string preceded by its length as eight little-endian bytes.
pub open spec fn length_prefixed(bytes: Seq<u8>) -> Seq<u8> {
    le_bytes(bytes.len(), 8) + bytes
}

/// The signed content of a transaction: sender key, recipient key, amount,
/// nonce and algorithm tag, in this order. The signature is no part of it.
pub open spec fn tx_payload(from: Seq<u8>, to: Seq<u8>, amount: u64, nonce: u64, alg: u8) -> Seq<
    u8,
> {
    length_prefixed(from) + length_prefixed(to) + le_bytes(amount as nat, 8) + le_bytes(
        nonce as nat,
        8,
    ) + seq![alg]
}

/// The encoding of a block header: previous digest, Merkle root, timestamp,
/// nonce and difficulty, in this order; 84 bytes where both digests have 32.
pub open spec fn header_bytes(
    prev: Seq<u8>,
    merkle: Seq<u8>,
    timestamp: u64,
    nonce: u64,
    difficulty: u32,
) -> Seq<u8> {
    prev + merkle + le_bytes(timestamp as nat, 8) + le_bytes(nonce as nat, 8) + le_bytes(
        difficulty as nat,
        4,
    )
}

/// Calls `bincode::serialize` on the tuple of the five fields. Trusted: a
/// tuple is written field by field with nothing in between, a byte vector as
/// its length in eight little-endian bytes followed by its bytes, a `u64` as
/// eight little-endian bytes and a `u8` as itself. Serialising these types
/// into memory has no way to fail.
#[verifier::external_body]
pub(crate) fn encode_tx_payload(
    from: &Vec<u8>,
    to: &Vec<u8>,
    amount: u64,
    nonce: u64,
    alg: u8,
) -> (out: Vec<u8>)
    ensures
        out@ == tx_payload(from@, to@, amount, nonce, alg),
{
    bincode::serialize(&(from, to, amount, nonce, alg)).unwrap()
}

/// Calls `bincode::serialize` on the tuple of the five fields. Trusted: a
/// tuple is written field by field with nothing in between, a byte array as
/// its bytes without a length, a `u64` as eight and a `u32` as four
/// little-endian bytes. Serialising these types into memory has no way to
/// fail.
#[verifier::external_body]
pub(crate) fn encode_header(
    prev: &[u8; 32],
    merkle: &[u8; 32],
    timestamp: u64,
    nonce: u64,
    difficulty: u32,
) -> (out: Vec<u8>)
    ensures
        out@ == header_bytes(prev@, merkle@, timestamp, nonce, difficulty),
{
    bincode::serialize(&(prev, merkle, timestamp, nonce, difficulty)).unwrap()
}

/// Eight bytes spell the numbers below two to the power of 64, four bytes
/// those below two to the power of 32.
pub proof fn lemma_span_of_widths()
    ensures
        span(8) == 0x1_0000_0000_0000_0000,
        span(4) == 0x1_0000_0000,
{
    reveal_with_fuel(span, 9);
}

/// A length-prefixed byte string can be read back: two byte strings with
/// the same length-prefixed form are the same.
pub proof fn lemma_length_prefixed_unambiguous(a: Seq<u8>, b: Seq<u8>)
    requires
        length_prefixed(a) == length_prefixed(b),
    ensures
        a == b,
{
    lemma_le_bytes_len(a.len(), 8);
    lemma_le_bytes_len(b.len(), 8);
    lemma_concat_splits(le_bytes(a.len(), 8), a, le_bytes(b.len(), 8), b);
}

/// The signed content of a transaction can be read back from its encoding:
/// two payloads are the same bytes only where all five fields agree. A
/// signature over one transaction's payload is therefore a signature over
/// no other transaction's.
pub proof fn lemma_tx_payload_unambiguous(
    from_a: Seq<u8>,
    to_a: Seq<u8>,
    amount_a: u64,
    nonce_a: u64,
    alg_a: u8,
    from_b: Seq<u8>,
    to_b: Seq<u8>,
    amount_b: u64,
    nonce_b: u64,
    alg_b: u8,
)
    requires
        from_a.len() <= u64::MAX,
        from_b.len() <= u64::MAX,
        tx_payload(from_a, to_a, amount_a, nonce_a, alg_a) == tx_payload(
            from_b,
            to_b,
            amount_b,
            nonce_b,
            alg_b,
        ),
    ensures
        from_a == from_b,
        to_a == to_b,
        amount_a == amount_b,
        nonce_a == nonce_b,
        alg_a == alg_b,
{
    lemma_span_of_widths();
    let keys_a = length_prefixed(from_a) + length_prefixed(to_a);
    let keys_b = length_prefixed(from_b) + length_prefixed(to_b);
    let amount_bytes_a = le_bytes(amount_a as nat, 8);
    let amount_bytes_b = le_bytes(amount_b as nat, 8);
    let nonce_bytes_a = le_bytes(nonce_a as nat, 8);
    let nonce_bytes_b = le_bytes(nonce_b as nat, 8);
    lemma_le_bytes_len(amount_a as nat, 8);
    lemma_le_bytes_len(amount_b as nat, 8);
    lemma_le_bytes_len(nonce_a as nat, 8);
    lemma_le_bytes_len(nonce_b as nat, 8);
    lemma_le_bytes_len(from_a.len(), 8);
    lemma_le_bytes_len(from_b.len(), 8);

    // The fixed-width fields are peeled off from the right.
    lemma_concat_splits(
        keys_a + amount_bytes_a + nonce_bytes_a,
        seq![alg_a],
        keys_b + amount_bytes_b + nonce_bytes_b,
        seq![alg_b],
    );
    assert(seq![alg_a][0] == seq![alg_b][0]);
    lemma_concat_splits(keys_a + amount_bytes_a, nonce_bytes_a, keys_b + amount_bytes_b, nonce_bytes_b);
    lemma_le_bytes_injective(nonce_a as nat, nonce_b as nat, 8);
    lemma_concat_splits(keys_a, amount_bytes_a, keys_b, amount_bytes_b);
    lemma_le_bytes_injective(amount_a as nat, amount_b as nat, 8);

    // The sender key's length stands in the first eight bytes.
    assert(le_bytes(from_a.len(), 8) =~= keys_a.subrange(0, 8));
    assert(le_bytes(from_b.len(), 8) =~= keys_b.subrange(0, 8));
    lemma_le_bytes_injective(from_a.len(), from_b.len(), 8);
    lemma_concat_splits(
        length_prefixed(from_a),
        length_prefixed(to_a),
        length_prefixed(from_b),
        length_prefixed(to_b),
    );
    lemma_length_prefixed_unambiguous(from_a, from_b);
    lemma_length_prefixed_unambiguous(to_a, to_b);
}

/// A block header can be read back from its encoding: two headers whose
/// digests have 32 bytes are encoded alike only where all five fields agree.
pub proof fn lemma_header_bytes_unambiguous(
    prev_a: Seq<u8>,
    merkle_a: Seq<u8>,
    timestamp_a: u64,
    nonce_a: u64,
    difficulty_a: u32,
    prev_b: Seq<u8>,
    merkle_b: Seq<u8>,
    timestamp_b: u64,
    nonce_b: u64,
    difficulty_b: u32,
)
    requires
        prev_a.len() == 32 && merkle_a.len() == 32,
        prev_b.len() == 32 && merkle_b.len() == 32,
        header_bytes(prev_a, merkle_a, timestamp_a, nonce_a, difficulty_a) == header_bytes(
            prev_b,
            merkle_b,
            timestamp_b,
            nonce_b,
            difficulty_b,
        ),
    ensures
        prev_a == prev_b,
        merkle_a == merkle_b,
        timestamp_a == timestamp_b,
        nonce_a == nonce_b,
        difficulty_a == difficulty_b,
{
    lemma_span_of_widths();
    let time_a = le_bytes(timestamp_a as nat, 8);
    let time_b = le_bytes(timestamp_b as nat, 8);
    let nonce_bytes_a = le_bytes(nonce_a as nat, 8);
    let nonce_bytes_b = le_bytes(nonce_b as nat, 8);
    let difficulty_bytes_a = le_bytes(difficulty_a as nat, 4);
    let difficulty_bytes_b = le_bytes(difficulty_b as nat, 4);
    lemma_le_bytes_len(timestamp_a as nat, 8);
    lemma_le_bytes_len(timestamp_b as nat, 8);
    lemma_le_bytes_len(nonce_a as nat, 8);
    lemma_le_bytes_len(nonce_b as nat, 8);
    lemma_le_bytes_len(difficulty_a as nat, 4);
    lemma_le_bytes_len(difficulty_b as nat, 4);
    lemma_concat_splits(
        prev_a + merkle_a + time_a + nonce_bytes_a,
        difficulty_bytes_a,
        prev_b + merkle_b + time_b + nonce_bytes_b,
        difficulty_bytes_b,
    );
    lemma_le_bytes_injective(difficulty_a as nat, difficulty_b as nat, 4);
    lemma_concat_splits(
        prev_a + merkle_a + time_a,
        nonce_bytes_a,
        prev_b + merkle_b + time_b,
        nonce_bytes_b,
    );
    lemma_le_bytes_injective(nonce_a as nat, nonce_b as nat, 8);
    lemma_concat_splits(prev_a + merkle_a, time_a, prev_b + merkle_b, time_b);
    lemma_le_bytes_injective(timestamp_a as nat, timestamp_b as nat, 8);
    lemma_concat_splits(prev_a, merkle_a, prev_b, merkle_b);
}

} // verus!
