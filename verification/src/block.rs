//! Blocks: a header that commits to an ordered list of transactions.

use crate::clock::unix_seconds;
use crate::encoding::{encode_header, header_bytes};
use crate::hash::{sha256, sha256_digest};
use crate::merkle::{digest_bytes, merkle_root, root_of};
use crate::tx::{digest_of, views, Tx, TxView};
use vstd::prelude::*;

verus! {

/// The mathematical content of a block header.
pub struct HeaderView {
    pub prev: Seq<u8>,
    pub merkle: Seq<u8>,
    pub timestamp: u64,
    pub nonce: u64,
    pub difficulty: u32,
}

/// A block header. `nonce` and `difficulty` are carried as data; no rule
/// reads them.
#[derive(Debug)]
pub struct BlockHeader {
    pub prev: crate::hash::Hash,
    pub merkle: crate::hash::Hash,
    pub timestamp: u64,
    pub nonce: u64,
    pub difficulty: u32,
}

impl View for BlockHeader {
    type V = HeaderView;

    open spec fn view(&self) -> HeaderView {
        HeaderView {
            prev: self.prev@,
            merkle: self.merkle@,
            timestamp: self.timestamp,
            nonce: self.nonce,
            difficulty: self.difficulty,
        }
    }
}

impl Clone for BlockHeader {
    fn clone(&self) -> (copy: BlockHeader)
        ensures
            copy == *self,
    {
        BlockHeader {
            prev: self.prev,
            merkle: self.merkle,
            timestamp: self.timestamp,
            nonce: self.nonce,
            difficulty: self.difficulty,
        }
    }
}

/// The mathematical content of a block.
pub struct BlockView {
    pub header: HeaderView,
    pub txs: Seq<TxView>,
}

/// A header and the transactions it commits to.
#[derive(Debug)]
pub struct Block {
    pub header: BlockHeader,
    pub txs: Vec<Tx>,
}

impl View for Block {
    type V = BlockView;

    open spec fn view(&self) -> BlockView {
        BlockView { header: self.header@, txs: views(self.txs@) }
    }
}

impl Clone for Block {
    fn clone(&self) -> (copy: Block)
        ensures
            copy@ == self@,
    {
        let mut txs: Vec<Tx> = Vec::with_capacity(self.txs.len());
        let mut i: usize = 0;
        while i < self.txs.len()
            invariant
                i <= self.txs.len(),
                txs.len() == i,
                forall|j: int| 0 <= j < i ==> txs@[j]@ == self.txs@[j]@,
            decreases self.txs.len() - i,
        {
            txs.push(self.txs[i].clone());
            i = i + 1;
        }
        assert(views(txs@) =~= views(self.txs@));
        Block { header: self.header.clone(), txs }
    }
}

/// The digests of `txs`, in list order.
pub open spec fn tx_digests(txs: Seq<TxView>) -> Seq<Seq<u8>> {
    Seq::new(txs.len(), |i: int| digest_of(txs[i]))
}

/// The identity of a block: the general-purpose hash of its encoded header.
/// The transactions enter only through the Merkle root.
pub open spec fn header_hash(header: HeaderView) -> Seq<u8> {
    sha256_digest(
        header_bytes(
            header.prev,
            header.merkle,
            header.timestamp,
            header.nonce,
            header.difficulty,
        ),
    )
}

/// The block that `Block::with_timestamp` assembles.
pub open spec fn assembled(prev: Seq<u8>, txs: Seq<TxView>, difficulty: u32, timestamp: u64)
    -> BlockView {
    BlockView {
        header: HeaderView {
            prev,
            merkle: root_of(tx_digests(txs)),
            timestamp,
            nonce: 0,
            difficulty,
        },
        txs,
    }
}

impl BlockView {
    /// Whether the header's Merkle root is the root of the transactions'
    /// digests.
    pub open spec fn commits(self) -> bool {
        self.header.merkle == root_of(tx_digests(self.txs))
    }
}

impl Block {
    /// Assembles a block over `txs` with the given timestamp: the Merkle
    /// root is computed over the transactions' digests in list order, the
    /// nonce is zero.
    pub fn with_timestamp(
        prev: crate::hash::Hash,
        txs: Vec<Tx>,
        difficulty: u32,
        timestamp: u64,
    ) -> (block: Block)
        ensures
            block@ == assembled(prev@, views(txs@), difficulty, timestamp),
            block.header.prev == prev,
            block@.commits(),
    {
        let mut digests: Vec<crate::hash::Hash> = Vec::with_capacity(txs.len());
        let mut i: usize = 0;
        while i < txs.len()
            invariant
                i <= txs.len(),
                digests.len() == i,
                forall|j: int| 0 <= j < i ==> digests@[j]@ == digest_of(txs@[j]@),
            decreases txs.len() - i,
        {
            digests.push(txs[i].digest());
            i = i + 1;
        }
        assert(digest_bytes(digests@) =~= tx_digests(views(txs@)));
        let merkle = merkle_root(digests);
        Block { header: BlockHeader { prev, merkle, timestamp, nonce: 0, difficulty }, txs }
    }

    /// Assembles a block over `txs`, stamped with the present time in whole
    /// seconds. Everything but the timestamp is as `with_timestamp` makes
    /// it.
    pub fn new(prev: crate::hash::Hash, txs: Vec<Tx>, difficulty: u32) -> (block: Block)
        ensures
            block@ == assembled(prev@, views(txs@), difficulty, block.header.timestamp),
            block.header.prev == prev,
            block@.commits(),
    {
        Block::with_timestamp(prev, txs, difficulty, unix_seconds())
    }

    /// The block's identity digest.
    pub fn hash(&self) -> (h: crate::hash::Hash)
        ensures
            h@ == header_hash(self@.header),
    {
        let bytes = encode_header(
            &self.header.prev.0,
            &self.header.merkle.0,
            self.header.timestamp,
            self.header.nonce,
            self.header.difficulty,
        );
        sha256(bytes.as_slice())
    }
}

} // verus!
