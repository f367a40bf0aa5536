//! The 32-byte digest and the two hash functions that produce it.

use vstd::prelude::*;
use vstd::std_specs::cmp::PartialEqSpecImpl;

verus! {

/// The bytes of the distinguished "no digest" value: thirty-two zeros.
pub open spec fn zero_digest() -> Seq<u8> {
    Seq::new(32, |i: int| 0u8)
}

/// What SHA-256 gives for `data`: thirty-two bytes.
pub uninterp spec fn sha256_digest(data: Seq<u8>) -> Seq<u8>;

/// What BLAKE3, in its plain hashing mode, gives for `data`: thirty-two bytes.
pub uninterp spec fn blake3_digest(data: Seq<u8>) -> Seq<u8>;

/// The character that stands for a value below sixteen in lowercase hex.
pub open spec fn hex_digit(nibble: int) -> char {
    if nibble < 10 {
        (nibble + 48) as char
    } else {
        (nibble + 87) as char
    }
}

/// Lowercase hex of `bytes`: two characters per byte, high half first.
pub open spec fn hex_lower(bytes: Seq<u8>) -> Seq<char> {
    Seq::new(
        2 * bytes.len(),
        |i: int|
            if i % 2 == 0 {
                hex_digit(bytes[i / 2] as int / 16)
            } else {
                hex_digit(bytes[i / 2] as int % 16)
            },
    )
}

/// A fixed-size digest. Two digests are equal when their bytes are.
#[derive(Clone, Copy, Debug, Eq, Hash)]
pub struct Hash(pub [u8; 32]);

impl View for Hash {
    type V = Seq<u8>;

    open spec fn view(&self) -> Seq<u8> {
        self.0@
    }
}

impl PartialEq for Hash {
    fn eq(&self, other: &Hash) -> (same: bool) {
        let mut i: usize = 0;
        while i < 32
            invariant
                i <= 32,
                forall|j: int| 0 <= j < i ==> self.0@[j] == other.0@[j],
            decreases 32 - i,
        {
            if self.0[i] != other.0[i] {
                return false;
            }
            i = i + 1;
        }
        assert(self.0@ =~= other.0@);
        true
    }
}

impl PartialEqSpecImpl for Hash {
    open spec fn obeys_eq_spec() -> bool {
        true
    }

    open spec fn eq_spec(&self, other: &Hash) -> bool {
        self@ == other@
    }
}

impl Default for Hash {
    fn default() -> (h: Hash)
        ensures
            h@ == zero_digest(),
    {
        Hash::zero()
    }
}

impl Hash {
    /// The all-zero digest, which stands for "no predecessor" and for the
    /// root of an empty list.
    pub fn zero() -> (h: Hash)
        ensures
            h@ == zero_digest(),
    {
        let h = Hash([0u8; 32]);
        assert(h@ =~= zero_digest());
        h
    }

    /// The digest in lowercase hex: sixty-four characters.
    pub fn to_hex(&self) -> (s: String)
        ensures
            s@ == hex_lower(self@),
            s@.len() == 64,
    {
        hex_encode(&self.0)
    }
}

/// Digests that hold the same bytes are the same digest.
pub proof fn lemma_same_bytes_same_digest(a: Hash, b: Hash)
    requires
        a@ == b@,
    ensures
        a == b,
{
    assert(a.0 =~= b.0);
}

/// Calls `sha2::Sha256::digest`, the one-shot form of SHA-256, on `data`.
/// Trusted: the thirty-two bytes that come back are the SHA-256 digest of
/// `data`, and depend on nothing else.
#[verifier::external_body]
fn sha256_bytes(data: &[u8]) -> (out: [u8; 32])
    ensures
        out@ == sha256_digest(data@),
{
    <sha2::Sha256 as sha2::Digest>::digest(data).into()
}

/// Calls `blake3::hash` on `data`. Trusted: the thirty-two bytes that come
/// back are the BLAKE3 hash of `data`, and depend on nothing else.
#[verifier::external_body]
fn blake3_bytes(data: &[u8]) -> (out: [u8; 32])
    ensures
        out@ == blake3_digest(data@),
{
    *blake3::hash(data).as_bytes()
}

/// Calls `hex::encode` on the digest's bytes. Trusted: the string holds two
/// lowercase hex digits for each byte, in order, the high half first.
#[verifier::external_body]
fn hex_encode(bytes: &[u8; 32]) -> (s: String)
    ensures
        s@ == hex_lower(bytes@),
{
    hex::encode(bytes)
}

/// The general-purpose hash, used for transaction and block header digests.
pub fn sha256(data: &[u8]) -> (h: Hash)
    ensures
        h@ == sha256_digest(data@),
{
    Hash(sha256_bytes(data))
}

/// The tree hash, used only inside Merkle aggregation.
pub fn blake3_hash(data: &[u8]) -> (h: Hash)
    ensures
        h@ == blake3_digest(data@),
{
    Hash(blake3_bytes(data))
}

} // verus!
