use fuel_block_verifier::MerkleAccumulator;

fn root_of(leaves: &[&[u8]]) -> [u8; 32] {
    let mut acc = MerkleAccumulator::new();
    for l in leaves {
        acc.push(l.to_vec());
    }
    acc.root().bytes
}

#[test]
fn determinism_same_leaves_same_root() {
    let a = root_of(&[b"alpha", b"beta", b"gamma"]);
    let b = root_of(&[b"alpha", b"beta", b"gamma"]);
    assert_eq!(a, b);
}

#[test]
fn determinism_root_twice_on_one_accumulator() {
    let mut acc = MerkleAccumulator::new();
    acc.push(b"alpha".to_vec());
    acc.push(b"beta".to_vec());
    let r1 = acc.root();
    let r2 = acc.root();
    assert_eq!(r1.bytes, r2.bytes);
}

#[test]
fn order_sensitivity_two_leaves() {
    assert_ne!(root_of(&[b"alpha", b"beta"]), root_of(&[b"beta", b"alpha"]));
}

#[test]
fn order_sensitivity_three_leaves() {
    assert_ne!(root_of(&[b"a", b"b", b"c"]), root_of(&[b"a", b"c", b"b"]));
    assert_ne!(root_of(&[b"a", b"b", b"c"]), root_of(&[b"c", b"b", b"a"]));
}

#[test]
fn empty_root_is_hash_of_nothing() {
    // SHA-256 of the empty string: the canonical empty-tree digest.
    let expected: [u8; 32] = [
        0xe3, 0xb0, 0xc4, 0x42, 0x98, 0xfc, 0x1c, 0x14, 0x9a, 0xfb, 0xf4, 0xc8, 0x99, 0x6f, 0xb9,
        0x24, 0x27, 0xae, 0x41, 0xe4, 0x64, 0x9b, 0x93, 0x4c, 0xa4, 0x95, 0x99, 0x1b, 0x78, 0x52,
        0xb8, 0x55,
    ];
    assert_eq!(root_of(&[]), expected);
}

#[test]
fn single_leaf_root_is_leaf_hash() {
    // SHA-256 over the leaf prefix byte 0x00 alone: the root over one empty leaf.
    let expected: [u8; 32] = [
        0x6e, 0x34, 0x0b, 0x9c, 0xff, 0xb3, 0x7a, 0x98, 0x9c, 0xa5, 0x44, 0xe6, 0xbb, 0x78, 0x0a,
        0x2c, 0x78, 0x90, 0x1d, 0x3f, 0xb3, 0x37, 0x38, 0x76, 0x85, 0x11, 0xa3, 0x06, 0x17, 0xaf,
        0xa0, 0x1d,
    ];
    assert_eq!(root_of(&[b""]), expected);
    // For a nonempty leaf the root equals the deployed implementation's leaf hash.
    let leaf: &[u8] = b"transaction bytes";
    assert_eq!(root_of(&[leaf]), fuel_merkle::binary::leaf_sum(leaf));
}

#[test]
fn inclusion_sensitivity_append_changes_root() {
    assert_ne!(root_of(&[b"a"]), root_of(&[b"a", b"b"]));
    assert_ne!(root_of(&[b"a", b"b"]), root_of(&[b"a", b"b", b"c"]));
    assert_ne!(root_of(&[b"a"]), root_of(&[b"a", b"a"]));
}

#[test]
fn leaf_mutation_changes_root() {
    assert_ne!(root_of(&[b"a", b"b"]), root_of(&[b"a", b"c"]));
}

#[test]
fn matches_deployed_calculator() {
    let leaves: &[&[u8]] = &[b"one", b"two", b"three", b"four", b"five"];
    let mut calc = fuel_merkle::binary::root_calculator::MerkleRootCalculator::new();
    for l in leaves {
        calc.push(l);
    }
    assert_eq!(root_of(leaves), calc.root());
}
