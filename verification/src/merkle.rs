//! Merkle aggregation: an ordered list of leaf digests folded into one root.

use crate::hash::{blake3_digest, blake3_hash, zero_digest};
use vstd::prelude::*;

verus! {

/// The bytes of each digest in `hashes`, in order.
pub open spec fn digest_bytes(hashes: Seq<crate::hash::Hash>) -> Seq<Seq<u8>> {
    Seq::new(hashes.len(), |i: int| hashes[i]@)
}

/// The parent of two nodes: the tree hash of the left node's bytes followed
/// by the right node's.
pub open spec fn parent(left: Seq<u8>, right: Seq<u8>) -> Seq<u8> {
    blake3_digest(left + right)
}

/// The right-hand partner of the node at the even position `left`: the next
/// node, or the node itself where it is the last of an odd count.
pub open spec fn partner(level: Seq<Seq<u8>>, left: int) -> Seq<u8> {
    if left + 1 < level.len() {
        level[left + 1]
    } else {
        level[left]
    }
}

/// The level above `level`: its nodes paired left to right, a last node
/// without a neighbour paired with itself.
pub open spec fn level_above(level: Seq<Seq<u8>>) -> Seq<Seq<u8>> {
    Seq::new(
        ((level.len() + 1) / 2) as nat,
        |i: int| parent(level[2 * i], partner(level, 2 * i)),
    )
}

/// The Merkle root of `leaves`: the zero digest for no leaves, the leaf
/// itself for one, and otherwise the root of the level above.
pub open spec fn root_of(leaves: Seq<Seq<u8>>) -> Seq<u8>
    decreases leaves.len(),
{
    if leaves.len() == 0 {
        zero_digest()
    } else if leaves.len() == 1 {
        leaves[0]
    } else {
        root_of(level_above(leaves))
    }
}

/// Hashes one pair of nodes into their parent.
fn hash_pair(left: &crate::hash::Hash, right: &crate::hash::Hash) -> (node: crate::hash::Hash)
    ensures
        node@ == parent(left@, right@),
{
    let mut buf: Vec<u8> = Vec::with_capacity(64);
    buf.extend_from_slice(left.0.as_slice());
    buf.extend_from_slice(right.0.as_slice());
    assert(buf@ =~= left@ + right@);
    blake3_hash(buf.as_slice())
}

/// Builds the level above `level`.
fn pair_level(level: &Vec<crate::hash::Hash>) -> (next: Vec<crate::hash::Hash>)
    requires
        level.len() >= 1,
    ensures
        digest_bytes(next@) == level_above(digest_bytes(level@)),
        next.len() == (level.len() + 1) / 2,
{
    let n = level.len();
    let pairs = n / 2 + n % 2;
    let mut next: Vec<crate::hash::Hash> = Vec::with_capacity(pairs);
    let mut k: usize = 0;
    while k < pairs
        invariant
            n == level.len(),
            pairs == (n + 1) / 2,
            k <= pairs,
            next.len() == k,
            forall|j: int|
                0 <= j < k ==> next@[j]@ == parent(
                    level@[2 * j]@,
                    partner(digest_bytes(level@), 2 * j),
                ),
        decreases pairs - k,
    {
        let left = level[2 * k];
        let right = if 2 * k + 1 < n {
            level[2 * k + 1]
        } else {
            level[2 * k]
        };
        let node = hash_pair(&left, &right);
        next.push(node);
        k = k + 1;
    }
    assert(digest_bytes(next@) =~= level_above(digest_bytes(level@)));
    next
}

/// Computes the Merkle root of `leaves`.
///
/// No leaves give the zero digest, a single leaf is its own root. Otherwise
/// the leaves are paired left to right, an odd one out is paired with itself,
/// each pair is hashed with the tree hash, and the same is done to the
/// results until one digest is left.
pub fn merkle_root(leaves: Vec<crate::hash::Hash>) -> (root: crate::hash::Hash)
    ensures
        root@ == root_of(digest_bytes(leaves@)),
        leaves@.len() == 0 ==> root@ == zero_digest(),
        leaves@.len() == 1 ==> root == leaves@[0],
{
    if leaves.len() == 0 {
        return crate::hash::Hash::zero();
    }
    let ghost start = leaves@;
    let mut level = leaves;
    while level.len() > 1
        invariant
            level.len() >= 1,
            root_of(digest_bytes(level@)) == root_of(digest_bytes(start)),
            start.len() == 1 ==> level@ == start,
        decreases level.len(),
    {
        level = pair_level(&level);
    }
    level[0]
}

/// Lists that hold the same digests in the same order have the same root:
/// the root is a function of the leaves and their order, and of nothing
/// else.
pub proof fn lemma_same_leaves_same_root(a: Seq<crate::hash::Hash>, b: Seq<crate::hash::Hash>)
    requires
        a.len() == b.len(),
        forall|i: int| 0 <= i < a.len() ==> a[i]@ == b[i]@,
    ensures
        root_of(digest_bytes(a)) == root_of(digest_bytes(b)),
{
    assert(digest_bytes(a) =~= digest_bytes(b));
}

/// The root of no leaves is the zero digest, and the root of a single leaf
/// is that leaf, unhashed.
pub proof fn lemma_root_of_none_and_one(leaf: Seq<u8>)
    ensures
        root_of(Seq::empty()) == zero_digest(),
        root_of(seq![leaf]) == leaf,
{
}

/// The root of two leaves is their parent.
pub proof fn lemma_root_of_two(a: Seq<u8>, b: Seq<u8>)
    ensures
        root_of(seq![a, b]) == parent(a, b),
{
    assert(level_above(seq![a, b]) =~= seq![parent(a, b)]);
    reveal_with_fuel(root_of, 2);
}

/// With three leaves the last one is paired with itself: the root is the
/// parent of the first two leaves' parent and the third leaf's parent with
/// itself.
pub proof fn lemma_root_of_three(a: Seq<u8>, b: Seq<u8>, c: Seq<u8>)
    ensures
        root_of(seq![a, b, c]) == parent(parent(a, b), parent(c, c)),
{
    assert(level_above(seq![a, b, c]) =~= seq![parent(a, b), parent(c, c)]);
    lemma_root_of_two(parent(a, b), parent(c, c));
}

/// An odd count of three or more leaves has the root of the same leaves
/// with the last one repeated: the odd leaf out is paired with itself, never
/// dropped and never carried up unhashed.
pub proof fn lemma_odd_count_repeats_last(leaves: Seq<Seq<u8>>)
    requires
        leaves.len() >= 3,
        leaves.len() % 2 == 1,
    ensures
        root_of(leaves) == root_of(leaves.push(leaves.last())),
{
    assert(level_above(leaves) =~= level_above(leaves.push(leaves.last())));
}

} // verus!
