//! Byte-level helpers shared by the encodings and the signature schemes.

use vstd::prelude::*;

verus! {

/// The `width` low-order bytes of `value`, least significant first.
pub open spec fn le_bytes(value: nat, width: nat) -> Seq<u8>
    decreases width,
{
    if width == 0 {
        Seq::empty()
    } else {
        seq![(value % 256) as u8] + le_bytes(value / 256, (width - 1) as nat)
    }
}

/// The number that `bytes` spell when read most significant byte first.
pub open spec fn be_value(bytes: Seq<u8>) -> nat
    decreases bytes.len(),
{
    if bytes.len() == 0 {
        0
    } else {
        be_value(bytes.drop_last()) * 256 + bytes.last() as nat
    }
}

/// The number of values that `width` bytes can spell: 256 to the power of
/// `width`.
pub open spec fn span(width: nat) -> nat
    decreases width,
{
    if width == 0 {
        1
    } else {
        256 * span((width - 1) as nat)
    }
}

/// `le_bytes` gives exactly `width` bytes.
pub proof fn lemma_le_bytes_len(value: nat, width: nat)
    ensures
        le_bytes(value, width).len() == width,
    decreases width,
{
    if width > 0 {
        lemma_le_bytes_len(value / 256, (width - 1) as nat);
    }
}

/// Numbers that fit in `width` bytes and have the same little-endian bytes
/// are the same number.
pub proof fn lemma_le_bytes_injective(a: nat, b: nat, width: nat)
    requires
        a < span(width),
        b < span(width),
        le_bytes(a, width) == le_bytes(b, width),
    ensures
        a == b,
    decreases width,
{
    if width > 0 {
        let rest = (width - 1) as nat;
        let head_a = seq![(a % 256) as u8];
        let head_b = seq![(b % 256) as u8];
        let tail_a = le_bytes(a / 256, rest);
        let tail_b = le_bytes(b / 256, rest);
        lemma_le_bytes_len(a / 256, rest);
        lemma_le_bytes_len(b / 256, rest);
        assert(le_bytes(a, width) == head_a + tail_a);
        assert(le_bytes(b, width) == head_b + tail_b);
        assert((head_a + tail_a)[0] == (a % 256) as u8);
        assert((head_b + tail_b)[0] == (b % 256) as u8);
        assert(a % 256 == b % 256);
        assert(tail_a =~= (head_a + tail_a).subrange(1, width as int));
        assert(tail_b =~= (head_b + tail_b).subrange(1, width as int));
        lemma_le_bytes_injective(a / 256, b / 256, rest);
    }
}

/// Splitting at the same place gives the same parts: where two
/// concatenations are equal and their left parts, or their right parts, have
/// the same length, the left parts are equal and so are the right parts.
pub proof fn lemma_concat_splits(a: Seq<u8>, x: Seq<u8>, b: Seq<u8>, y: Seq<u8>)
    requires
        a + x == b + y,
        a.len() == b.len() || x.len() == y.len(),
    ensures
        a == b,
        x == y,
{
    assert((a + x).len() == a.len() + x.len());
    assert((b + y).len() == b.len() + y.len());
    assert(a =~= (a + x).subrange(0, a.len() as int));
    assert(b =~= (b + y).subrange(0, b.len() as int));
    assert(x =~= (a + x).subrange(a.len() as int, (a + x).len() as int));
    assert(y =~= (b + y).subrange(b.len() as int, (b + y).len() as int));
}

/// Copies a slice of exactly thirty-two bytes into an array.
pub(crate) fn to_array_32(bytes: &[u8]) -> (out: [u8; 32])
    requires
        bytes@.len() == 32,
    ensures
        out@ == bytes@,
{
    let mut out = [0u8; 32];
    let mut i: usize = 0;
    while i < 32
        invariant
            i <= 32,
            bytes@.len() == 32,
            forall|j: int| 0 <= j < i ==> out@[j] == bytes@[j],
        decreases 32 - i,
    {
        out[i] = bytes[i];
        i = i + 1;
    }
    assert(out@ =~= bytes@);
    out
}

/// Copies a slice of exactly sixty-four bytes into an array.
pub(crate) fn to_array_64(bytes: &[u8]) -> (out: [u8; 64])
    requires
        bytes@.len() == 64,
    ensures
        out@ == bytes@,
{
    let mut out = [0u8; 64];
    let mut i: usize = 0;
    while i < 64
        invariant
            i <= 64,
            bytes@.len() == 64,
            forall|j: int| 0 <= j < i ==> out@[j] == bytes@[j],
        decreases 64 - i,
    {
        out[i] = bytes[i];
        i = i + 1;
    }
    assert(out@ =~= bytes@);
    out
}

} // verus!
