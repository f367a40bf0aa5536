use chain_core::block::{Block, BlockHeader};
use std::time::{SystemTime, UNIX_EPOCH};
use chain_core::crypto::{Keypair, SigAlg};
use chain_core::error::LedgerError;
use chain_core::merkle::merkle_root;
use chain_core::sha256;
use chain_core::store::Blockchain;
use chain_core::tx::Tx;

fn signed_tx(amount: u64, nonce: u64) -> Tx {
    let a = Keypair::generate(SigAlg::Ed25519);
    let b = Keypair::generate(SigAlg::Ed25519);
    Tx::new(a.public(), b.public(), amount, nonce, SigAlg::Ed25519).sign(&a)
}

fn zero() -> chain_core::hash::Hash {
    chain_core::hash::Hash::zero()
}

fn unix_seconds() -> u64 {
    SystemTime::now().duration_since(UNIX_EPOCH).unwrap().as_secs()
}

#[test]
fn with_timestamp_assembles_the_header() {
    let txs = vec![signed_tx(1, 1), signed_tx(2, 2), signed_tx(3, 3)];
    let digests: Vec<chain_core::hash::Hash> = txs.iter().map(|t| t.digest()).collect();
    let prev = chain_core::hash::Hash([9; 32]);
    let b = Block::with_timestamp(prev, txs.clone(), 17, 1_700_000_000);
    assert_eq!(b.header.prev, prev);
    assert_eq!(b.header.merkle, merkle_root(digests.clone()));
    assert_eq!(b.header.timestamp, 1_700_000_000);
    assert_eq!(b.header.nonce, 0);
    assert_eq!(b.header.difficulty, 17);
    assert_eq!(b.txs.len(), 3);
    for i in 0..3 {
        assert_eq!(b.txs[i].digest(), digests[i]);
    }
    // The order of the transactions is part of the commitment.
    let mut swapped = txs;
    swapped.swap(0, 2);
    let c = Block::with_timestamp(prev, swapped, 17, 1_700_000_000);
    assert_ne!(c.header.merkle, b.header.merkle);
}

#[test]
fn new_stamps_the_present_time() {
    let before = unix_seconds();
    let tx = signed_tx(42, 1);
    let digest = tx.digest();
    let b = Block::new(zero(), vec![tx], 3);
    let after = unix_seconds();
    assert!(before <= b.header.timestamp && b.header.timestamp <= after);
    assert_eq!(b.header.prev, zero());
    assert_eq!(b.header.merkle, digest);
    assert_eq!(b.header.nonce, 0);
    assert_eq!(b.header.difficulty, 3);
    assert_eq!(b.txs.len(), 1);
}

#[test]
fn block_without_transactions_has_the_zero_root() {
    let b = Block::new(zero(), vec![], 0);
    assert_eq!(b.header.merkle, zero());
    assert!(b.txs.is_empty());
}

#[test]
fn block_hash_covers_the_encoded_header() {
    let mut prev = [0u8; 32];
    let mut merkle = [0u8; 32];
    for i in 0..32 {
        prev[i] = i as u8;
        merkle[i] = 0xf0 + (i as u8 % 16);
    }
    let b = Block {
        header: BlockHeader {
            prev: chain_core::hash::Hash(prev),
            merkle: chain_core::hash::Hash(merkle),
            timestamp: 0x0102030405060708,
            nonce: 0xa1a2a3a4a5a6a7a8,
            difficulty: 0x0b0c0d0e,
        },
        txs: vec![],
    };
    let mut expected = Vec::new();
    expected.extend_from_slice(&prev);
    expected.extend_from_slice(&merkle);
    expected.extend_from_slice(&[8, 7, 6, 5, 4, 3, 2, 1]);
    expected.extend_from_slice(&[0xa8, 0xa7, 0xa6, 0xa5, 0xa4, 0xa3, 0xa2, 0xa1]);
    expected.extend_from_slice(&[0x0e, 0x0d, 0x0c, 0x0b]);
    assert_eq!(expected.len(), 84);
    assert_eq!(b.hash(), sha256(&expected));
}

#[test]
fn block_hash_ignores_the_body() {
    let b = Block::with_timestamp(zero(), vec![signed_tx(1, 1)], 0, 5);
    let mut gutted = b.clone();
    gutted.txs.clear();
    assert_eq!(gutted.hash(), b.hash());
    let mut other = b.clone();
    other.header.nonce = 1;
    assert_ne!(other.hash(), b.hash());
    let mut other = b.clone();
    other.header.difficulty = 1;
    assert_ne!(other.hash(), b.hash());
    let mut other = b.clone();
    other.header.timestamp = 6;
    assert_ne!(other.hash(), b.hash());
}

#[test]
fn block_clone_keeps_everything() {
    let b = Block::with_timestamp(chain_core::hash::Hash([3; 32]), vec![signed_tx(1, 1), signed_tx(2, 2)], 4, 5);
    let c = b.clone();
    assert_eq!(c.hash(), b.hash());
    assert_eq!(c.header.prev, b.header.prev);
    assert_eq!(c.header.merkle, b.header.merkle);
    assert_eq!(c.txs.len(), 2);
    assert_eq!(c.txs[1].digest(), b.txs[1].digest());
    assert_eq!(c.txs[1].verify(), Ok(()));
    let h = b.header.clone();
    assert_eq!(h.timestamp, 5);
    assert_eq!(h.difficulty, 4);
}

#[test]
fn empty_chain_has_the_zero_tip() {
    assert_eq!(Blockchain::new().tip(), zero());
    assert_eq!(Blockchain::default().tip(), zero());
    assert_eq!(Blockchain::new().chain.len(), 0);
}

#[test]
fn genesis_is_accepted_whatever_it_names() {
    let mut chain = Blockchain::new();
    let b = Block::new(chain_core::hash::Hash([0xee; 32]), vec![], 0);
    let h = b.hash();
    assert_eq!(chain.push(b), Ok(()));
    assert_eq!(chain.chain.len(), 1);
    assert_eq!(chain.tip(), h);
}

#[test]
fn second_block_must_name_the_tip() {
    let mut chain = Blockchain::new();
    let first = Block::new(zero(), vec![signed_tx(1, 1)], 0);
    let h1 = first.hash();
    assert_eq!(chain.push(first), Ok(()));
    assert_eq!(chain.tip(), h1);

    let stray = Block::new(zero(), vec![], 0);
    assert_eq!(chain.push(stray), Err(LedgerError::PrevHashMismatch));
    assert_eq!(chain.chain.len(), 1);
    assert_eq!(chain.tip(), h1);

    let mut nearly = h1;
    nearly.0[31] ^= 1;
    assert_eq!(chain.push(Block::new(nearly, vec![], 0)), Err(LedgerError::PrevHashMismatch));
    assert_eq!(chain.chain.len(), 1);

    let second = Block::new(h1, vec![signed_tx(2, 2)], 0);
    let h2 = second.hash();
    assert_eq!(chain.push(second), Ok(()));
    assert_eq!(chain.chain.len(), 2);
    assert_eq!(chain.tip(), h2);
    assert_eq!(chain.chain[1].header.prev, h1);

    // The first block's identity is no longer the tip.
    assert_eq!(chain.push(Block::new(h1, vec![], 0)), Err(LedgerError::PrevHashMismatch));
    assert_eq!(chain.chain.len(), 2);
}

#[test]
fn nothing_but_the_link_is_checked() {
    let mut chain = Blockchain::new();
    chain.push(Block::new(zero(), vec![], 0)).unwrap();
    // An unsigned transaction, a timestamp in the past and a root that commits to nothing.
    let kp = Keypair::generate(SigAlg::Ed25519);
    let unsigned = Tx::new(kp.public(), kp.public(), 1, 1, SigAlg::Ed25519);
    let mut b = Block::with_timestamp(chain.tip(), vec![unsigned], u32::MAX, 0);
    b.header.merkle = chain_core::hash::Hash([1; 32]);
    b.header.nonce = 99;
    assert_eq!(chain.push(b), Ok(()));
    assert_eq!(chain.chain.len(), 2);
}

#[test]
fn end_to_end() {
    let a = Keypair::generate(SigAlg::Ed25519);
    let b = Keypair::generate(SigAlg::Ed25519);
    let tx = Tx::new(a.public(), b.public(), 42, 1, SigAlg::Ed25519).sign(&a);
    assert_eq!(tx.verify(), Ok(()));
    let digest = tx.digest();

    let mut chain = Blockchain::new();
    let genesis = Block::new(chain.tip(), vec![tx], 0);
    assert_eq!(genesis.header.prev, zero());
    assert_eq!(genesis.header.merkle, digest);
    let id = genesis.hash();
    assert_eq!(chain.push(genesis), Ok(()));
    assert_eq!(chain.chain.len(), 1);
    assert_eq!(chain.tip(), id);
    assert_eq!(chain.tip().to_hex().len(), 64);
}
