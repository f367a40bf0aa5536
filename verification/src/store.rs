//! The chain: an append-only sequence of blocks, each naming its
//! predecessor by digest.

use crate::block::{header_hash, Block, BlockView};
use crate::error::LedgerError;
use crate::hash::zero_digest;
use vstd::prelude::*;

verus! {

/// An in-memory chain of blocks, oldest first.
pub struct Blockchain {
    pub chain: Vec<Block>,
}

impl View for Blockchain {
    type V = Seq<BlockView>;

    open spec fn view(&self) -> Seq<BlockView> {
        Seq::new(self.chain@.len(), |i: int| self.chain@[i]@)
    }
}

/// The tip of a chain: the identity of its last block, or the zero digest
/// where it has none.
pub open spec fn tip_of(chain: Seq<BlockView>) -> Seq<u8> {
    if chain.len() == 0 {
        zero_digest()
    } else {
        header_hash(chain.last().header)
    }
}

/// Whether `block` may be appended to `chain`: an empty chain takes any
/// block, any other only one that names the tip as its predecessor.
pub open spec fn links(chain: Seq<BlockView>, block: BlockView) -> bool {
    chain.len() == 0 || block.header.prev == tip_of(chain)
}

/// Whether every block after the first names the identity of the block
/// before it as its predecessor.
pub open spec fn well_linked(chain: Seq<BlockView>) -> bool {
    forall|i: int|
        0 < i < chain.len() ==> (#[trigger] chain[i]).header.prev == header_hash(
            chain[i - 1].header,
        )
}

/// What appending `block` to `chain` gives: the chain afterwards and the
/// result of the call. A block that does not link leaves the chain as it was.
pub open spec fn appended(chain: Seq<BlockView>, block: BlockView) -> (
    Seq<BlockView>,
    Result<(), LedgerError>,
) {
    if links(chain, block) {
        (chain.push(block), Ok(()))
    } else {
        (chain, Err(LedgerError::PrevHashMismatch))
    }
}

impl Default for Blockchain {
    fn default() -> (c: Blockchain)
        ensures
            c@ == Seq::<BlockView>::empty(),
    {
        Blockchain::new()
    }
}

impl Blockchain {
    /// The empty chain.
    pub fn new() -> (c: Blockchain)
        ensures
            c@ == Seq::<BlockView>::empty(),
    {
        let c = Blockchain { chain: Vec::new() };
        assert(c@ =~= Seq::<BlockView>::empty());
        c
    }

    /// The identity of the most recently appended block, or the zero digest
    /// for the empty chain.
    pub fn tip(&self) -> (h: crate::hash::Hash)
        ensures
            h@ == tip_of(self@),
    {
        let n = self.chain.len();
        if n == 0 {
            crate::hash::Hash::zero()
        } else {
            self.chain[n - 1].hash()
        }
    }

    /// Appends `b` if it links to the tip.
    ///
    /// The empty chain accepts any block. A chain with blocks accepts `b`
    /// only where its declared predecessor is the tip; otherwise the call
    /// fails with `PrevHashMismatch` and the chain stays as it was.
    pub fn push(&mut self, b: Block) -> (r: Result<(), LedgerError>)
        ensures
            (final(self)@, r) == appended(old(self)@, b@),
            r is Ok ==> tip_of(final(self)@) == header_hash(b@.header),
            r is Err ==> *final(self) == *old(self),
            well_linked(old(self)@) ==> well_linked(final(self)@),
    {
        if self.chain.len() > 0 {
            let prev = self.tip();
            if b.header.prev != prev {
                return Err(LedgerError::PrevHashMismatch);
            }
        }
        let ghost before = self@;
        let ghost added = b@;
        self.chain.push(b);
        assert(self@ =~= before.push(added));
        proof {
            if well_linked(before) {
                lemma_append_keeps_links(before, added);
            }
        }
        Ok(())
    }
}

/// Appending to the empty chain succeeds for every block and makes that
/// block's identity the tip. A second block that names any other digest as
/// its predecessor is refused with `PrevHashMismatch`, and the chain keeps
/// its single block.
pub proof fn lemma_genesis_then_mismatch(first: BlockView, second: BlockView)
    requires
        second.header.prev != header_hash(first.header),
    ensures
        appended(Seq::empty(), first) == (seq![first], Ok::<(), LedgerError>(())),
        tip_of(seq![first]) == header_hash(first.header),
        appended(seq![first], second) == (
            seq![first],
            Err::<(), LedgerError>(LedgerError::PrevHashMismatch),
        ),
        seq![first].len() == 1,
{
    assert(Seq::<BlockView>::empty().push(first) =~= seq![first]);
}

/// A block that names the tip as its predecessor is accepted, and its
/// identity becomes the tip.
pub proof fn lemma_linked_block_becomes_tip(chain: Seq<BlockView>, block: BlockView)
    requires
        block.header.prev == tip_of(chain),
    ensures
        appended(chain, block) == (chain.push(block), Ok::<(), LedgerError>(())),
        tip_of(chain.push(block)) == header_hash(block.header),
{
}

/// Appending keeps a chain linked: whether the block is taken or refused,
/// every block after the first still names the one before it.
pub proof fn lemma_append_keeps_links(chain: Seq<BlockView>, block: BlockView)
    requires
        well_linked(chain),
    ensures
        well_linked(appended(chain, block).0),
{
    if links(chain, block) {
        let longer = chain.push(block);
        assert forall|i: int| 0 < i < longer.len() implies (#[trigger] longer[i]).header.prev
            == header_hash(longer[i - 1].header) by {
            if i < chain.len() {
                assert(longer[i] == chain[i]);
            }
        }
    }
}

} // verus!
