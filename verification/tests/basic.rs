use chain_core::crypto::{Keypair, SigAlg};
use chain_core::merkle::merkle_root;
use chain_core::tx::Tx;

#[test]
fn merkle_not_zero() {
    let h1 = chain_core::hash::Hash([1; 32]);
    let h2 = chain_core::hash::Hash([2; 32]);
    let r = merkle_root(vec![h1, h2]);
    assert_ne!(r, chain_core::hash::Hash::zero());
}

#[test]
fn ed25519_sign_verify() {
    let kp = Keypair::generate(SigAlg::Ed25519);
    let tx = Tx::new(kp.public(), kp.public(), 1, 1, SigAlg::Ed25519).sign(&kp);
    tx.verify().unwrap();
}
