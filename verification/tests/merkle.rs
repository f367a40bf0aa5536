use chain_core::blake3_hash;
use chain_core::merkle::merkle_root;

fn leaf(b: u8) -> chain_core::hash::Hash {
    chain_core::hash::Hash([b; 32])
}

fn node(a: &chain_core::hash::Hash, b: &chain_core::hash::Hash) -> chain_core::hash::Hash {
    let mut buf = Vec::new();
    buf.extend_from_slice(&a.0);
    buf.extend_from_slice(&b.0);
    chain_core::hash::Hash(*blake3::hash(&buf).as_bytes())
}

#[test]
fn root_of_nothing_is_zero() {
    assert_eq!(merkle_root(vec![]), chain_core::hash::Hash::zero());
}

#[test]
fn root_of_one_leaf_is_the_leaf() {
    assert_eq!(merkle_root(vec![leaf(9)]), leaf(9));
    assert_eq!(
        merkle_root(vec![chain_core::hash::Hash::zero()]),
        chain_core::hash::Hash::zero()
    );
}

#[test]
fn root_of_two_leaves_is_their_parent() {
    let (a, b) = (leaf(1), leaf(2));
    let r = merkle_root(vec![a, b]);
    assert_eq!(r, node(&a, &b));
    let mut buf = [1u8; 64];
    for i in 32..64 {
        buf[i] = 2;
    }
    assert_eq!(r, blake3_hash(&buf));
}

#[test]
fn odd_leaf_is_paired_with_itself() {
    let (a, b, c) = (leaf(1), leaf(2), leaf(3));
    let r = merkle_root(vec![a, b, c]);
    assert_eq!(r, node(&node(&a, &b), &node(&c, &c)));
    assert_ne!(r, node(&node(&a, &b), &c));
}

#[test]
fn four_leaves() {
    let (a, b, c, d) = (leaf(1), leaf(2), leaf(3), leaf(4));
    assert_eq!(
        merkle_root(vec![a, b, c, d]),
        node(&node(&a, &b), &node(&c, &d))
    );
}

#[test]
fn five_leaves_pad_on_two_levels() {
    let l: Vec<chain_core::hash::Hash> = (1..=5).map(leaf).collect();
    let ab = node(&l[0], &l[1]);
    let cd = node(&l[2], &l[3]);
    let ee = node(&l[4], &l[4]);
    let left = node(&ab, &cd);
    let right = node(&ee, &ee);
    assert_eq!(merkle_root(l), node(&left, &right));
}

#[test]
fn six_leaves_pad_on_the_second_level() {
    let l: Vec<chain_core::hash::Hash> = (1..=6).map(leaf).collect();
    let ab = node(&l[0], &l[1]);
    let cd = node(&l[2], &l[3]);
    let ef = node(&l[4], &l[5]);
    assert_eq!(merkle_root(l), node(&node(&ab, &cd), &node(&ef, &ef)));
}

#[test]
fn same_leaves_same_root() {
    let l: Vec<chain_core::hash::Hash> = (0..7).map(leaf).collect();
    assert_eq!(merkle_root(l.clone()), merkle_root(l));
}

#[test]
fn order_of_leaves_matters() {
    let (a, b, c) = (leaf(1), leaf(2), leaf(3));
    assert_ne!(merkle_root(vec![a, b]), merkle_root(vec![b, a]));
    assert_ne!(merkle_root(vec![a, b, c]), merkle_root(vec![a, c, b]));
}

#[test]
fn three_leaves_equal_four_with_the_last_repeated() {
    let (a, b, c) = (leaf(1), leaf(2), leaf(3));
    assert_eq!(merkle_root(vec![a, b, c]), merkle_root(vec![a, b, c, c]));
}
