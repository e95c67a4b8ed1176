use nft_registry::hash::H256;
use nft_registry::proofs::{
    bundle_bytes, bundled_hash, pair_bytes, sorted_pair_bytes, validate_proofs, Proof,
};

fn hash_pair(a: &H256, b: &H256) -> H256 {
    let mut bytes = Vec::with_capacity(64);
    bytes.extend_from_slice(&a.0);
    bytes.extend_from_slice(&b.0);
    H256(sp_io::hashing::blake2_256(&bytes))
}

fn sorted_hash_pair(a: &H256, b: &H256) -> H256 {
    if a.0 < b.0 {
        hash_pair(a, b)
    } else {
        hash_pair(b, a)
    }
}

/// A document with four leaves under its basic data root.
struct Document {
    leaves: [H256; 4],
    left: H256,
    right: H256,
    static_proofs: [H256; 3],
    doc_root: H256,
}

fn document() -> Document {
    let leaves = [H256([1; 32]), H256([2; 32]), H256([3; 32]), H256([4; 32])];
    let left = sorted_hash_pair(&leaves[0], &leaves[1]);
    let right = sorted_hash_pair(&leaves[2], &leaves[3]);
    let basic_data_root = sorted_hash_pair(&left, &right);
    let zk_data_root = H256([0xaa; 32]);
    let signature_root = H256([0xbb; 32]);
    let signing_root = hash_pair(&basic_data_root, &zk_data_root);
    let doc_root = hash_pair(&signing_root, &signature_root);
    Document {
        leaves,
        left,
        right,
        static_proofs: [basic_data_root, zk_data_root, signature_root],
        doc_root,
    }
}

fn valid_proof() -> (Proof, H256, [H256; 3]) {
    let proof = Proof::new(
        H256([
            1, 93, 41, 93, 124, 185, 25, 20, 141, 93, 101, 68, 16, 11, 142, 219, 3, 124, 155, 37,
            85, 23, 189, 209, 48, 97, 34, 3, 169, 157, 88, 159,
        ]),
        vec![
            H256([
                113, 229, 58, 223, 178, 220, 200, 69, 191, 246, 171, 254, 8, 183, 211, 75, 54, 223,
                224, 197, 170, 112, 248, 56, 10, 176, 17, 205, 86, 130, 233, 16,
            ]),
            H256([
                133, 11, 212, 75, 212, 65, 247, 178, 200, 157, 5, 39, 57, 135, 63, 126, 166, 92,
                232, 170, 46, 155, 223, 237, 50, 237, 43, 101, 180, 104, 126, 84,
            ]),
            H256([
                197, 248, 165, 165, 247, 119, 114, 231, 95, 114, 94, 16, 66, 142, 230, 184, 78,
                203, 73, 104, 24, 82, 134, 154, 180, 129, 71, 223, 72, 31, 230, 15,
            ]),
            H256([
                50, 5, 28, 219, 118, 141, 222, 221, 133, 174, 178, 212, 71, 94, 64, 44, 80, 218,
                29, 92, 77, 40, 241, 16, 126, 48, 119, 31, 6, 147, 224, 5,
            ]),
        ],
    );
    let doc_root = H256([
        48, 123, 58, 192, 8, 62, 20, 55, 99, 52, 37, 73, 174, 123, 214, 104, 37, 41, 189, 170, 205,
        80, 158, 136, 224, 128, 128, 89, 55, 240, 32, 234,
    ]);
    let static_proofs = [
        H256([
            25, 102, 189, 46, 86, 242, 48, 217, 254, 16, 20, 211, 98, 206, 125, 92, 167, 175, 70,
            161, 35, 135, 33, 80, 225, 247, 4, 240, 138, 86, 167, 142,
        ]),
        H256([
            61, 164, 199, 22, 164, 251, 58, 14, 67, 56, 242, 60, 86, 203, 128, 203, 138, 129, 237,
            7, 29, 7, 39, 58, 250, 42, 14, 53, 241, 108, 187, 74,
        ]),
        H256([
            70, 124, 133, 120, 103, 45, 94, 174, 176, 18, 151, 243, 104, 120, 12, 54, 217, 189, 59,
            222, 109, 64, 136, 203, 56, 136, 159, 115, 96, 101, 2, 185,
        ]),
    ];
    (proof, doc_root, static_proofs)
}

#[test]
fn proof_from_a_real_document_is_valid() {
    let (proof, doc_root, static_proofs) = valid_proof();
    assert!(validate_proofs(doc_root, &vec![proof], static_proofs));
}

#[test]
fn document_root_is_the_blake2_hash_of_signing_and_signature_root() {
    let (_, doc_root, static_proofs) = valid_proof();
    let signing_root = hash_pair(&static_proofs[0], &static_proofs[1]);
    assert_eq!(
        signing_root,
        H256([
            167, 205, 114, 122, 220, 195, 187, 121, 181, 129, 19, 213, 236, 210, 11, 86, 180, 121,
            80, 148, 91, 95, 238, 222, 50, 52, 254, 18, 161, 145, 235, 54,
        ])
    );
    assert_eq!(hash_pair(&signing_root, &static_proofs[2]), doc_root);
    // Each hash of the small tree is proven from the start.
    for leaf in [static_proofs[0], static_proofs[1], static_proofs[2], signing_root, doc_root] {
        assert!(validate_proofs(doc_root, &vec![Proof::new(leaf, vec![])], static_proofs));
    }
}

#[test]
fn empty_batch_is_never_valid() {
    let (_, doc_root, static_proofs) = valid_proof();
    assert!(!validate_proofs(doc_root, &vec![], static_proofs));
    let d = document();
    assert!(!validate_proofs(d.doc_root, &vec![], d.static_proofs));
}

#[test]
fn wrong_static_hashes_are_never_valid() {
    let (proof, doc_root, static_proofs) = valid_proof();
    for i in 0..3 {
        let mut wrong = static_proofs;
        wrong[i].0[31] ^= 1;
        assert!(!validate_proofs(doc_root, &vec![proof.clone()], wrong));
        // Not even for a leaf that is one of the static hashes themselves.
        assert!(!validate_proofs(doc_root, &vec![Proof::new(wrong[0], vec![])], wrong));
    }
    let swapped = [static_proofs[1], static_proofs[0], static_proofs[2]];
    assert!(!validate_proofs(doc_root, &vec![proof.clone()], swapped));
    let mut other_root = doc_root;
    other_root.0[0] ^= 0x80;
    assert!(!validate_proofs(other_root, &vec![proof], static_proofs));
}

#[test]
fn proof_with_a_changed_leaf_or_sibling_is_invalid() {
    let (proof, doc_root, static_proofs) = valid_proof();
    let mut leaf = proof.clone();
    leaf.leaf_hash.0[23] = 20;
    assert!(!validate_proofs(doc_root, &vec![leaf], static_proofs));
    let mut sibling = proof.clone();
    sibling.sorted_hashes[1].0[18] = 23;
    assert!(!validate_proofs(doc_root, &vec![sibling], static_proofs));
    let mut short = proof.clone();
    short.sorted_hashes.pop();
    assert!(!validate_proofs(doc_root, &vec![short], static_proofs));
    let mut reordered = proof;
    reordered.sorted_hashes.swap(0, 1);
    assert!(!validate_proofs(doc_root, &vec![reordered], static_proofs));
}

#[test]
fn one_invalid_proof_fails_the_batch() {
    let (proof, doc_root, static_proofs) = valid_proof();
    let bad = Proof::new(H256([9; 32]), vec![H256([8; 32])]);
    assert!(!validate_proofs(doc_root, &vec![proof.clone(), bad.clone()], static_proofs));
    assert!(!validate_proofs(doc_root, &vec![bad, proof.clone()], static_proofs));
    assert!(validate_proofs(doc_root, &vec![proof.clone(), proof], static_proofs));
}

#[test]
fn children_are_hashed_in_byte_order_whichever_comes_first() {
    let d = document();
    let proof_of_first = Proof::new(d.leaves[0], vec![d.leaves[1], d.right]);
    let proof_of_second = Proof::new(d.leaves[1], vec![d.leaves[0], d.right]);
    let proof_of_fourth = Proof::new(d.leaves[3], vec![d.leaves[2], d.left]);
    assert!(validate_proofs(d.doc_root, &vec![proof_of_first], d.static_proofs));
    assert!(validate_proofs(d.doc_root, &vec![proof_of_second], d.static_proofs));
    assert!(validate_proofs(d.doc_root, &vec![proof_of_fourth], d.static_proofs));
}

#[test]
fn later_proof_stops_at_a_hash_an_earlier_proof_cached() {
    let d = document();
    let a = Proof::new(d.leaves[0], vec![d.leaves[1], d.right]);
    // The chain of `b` is cut off at `right`, which is no hash of the small
    // tree: `b` is short of the basic data root by one sibling.
    let b = Proof::new(d.leaves[2], vec![d.leaves[3]]);
    assert!(validate_proofs(d.doc_root, &vec![a.clone()], d.static_proofs));
    assert!(!validate_proofs(d.doc_root, &vec![b.clone()], d.static_proofs));
    assert!(validate_proofs(d.doc_root, &vec![a.clone(), b.clone()], d.static_proofs));
    // The memo is filled in order: `b` cannot lean on a proof that follows.
    assert!(!validate_proofs(d.doc_root, &vec![b, a], d.static_proofs));
}

#[test]
fn later_proof_stops_at_a_hash_an_earlier_proof_passed_through() {
    let low = H256([0x10; 32]);
    let high = H256([0x20; 32]);
    let third = H256([0x30; 32]);
    let passed = sorted_hash_pair(&low, &high);
    let basic_data_root = sorted_hash_pair(&passed, &third);
    let zk_data_root = H256([0xaa; 32]);
    let signature_root = H256([0xbb; 32]);
    let static_proofs = [basic_data_root, zk_data_root, signature_root];
    let doc_root = hash_pair(&hash_pair(&basic_data_root, &zk_data_root), &signature_root);
    // `a` reaches `passed` after its first sibling and goes on to the root.
    let a = Proof::new(high, vec![low, third]);
    // The chain of `b` is cut off right after it reaches `passed`.
    let b = Proof::new(low, vec![high]);
    assert!(validate_proofs(doc_root, &vec![a.clone()], static_proofs));
    assert!(!validate_proofs(doc_root, &vec![b.clone()], static_proofs));
    assert!(validate_proofs(doc_root, &vec![a, b], static_proofs));
}

#[test]
fn leaf_cached_by_an_earlier_proof_needs_no_siblings() {
    let d = document();
    let a = Proof::new(d.leaves[0], vec![d.leaves[1], d.right]);
    let sibling_of_a = Proof::new(d.leaves[1], vec![]);
    let unknown = Proof::new(d.leaves[2], vec![]);
    assert!(!validate_proofs(d.doc_root, &vec![sibling_of_a.clone()], d.static_proofs));
    assert!(validate_proofs(d.doc_root, &vec![a.clone(), sibling_of_a], d.static_proofs));
    assert!(!validate_proofs(d.doc_root, &vec![a, unknown], d.static_proofs));
}

#[test]
fn bundled_hash_is_the_keccak_hash_of_address_and_leaves() {
    let mut deposit_address = [0u8; 20];
    for i in 0..20 {
        deposit_address[i] = i as u8 + 1;
    }
    let first = Proof::new(H256([0x11; 32]), vec![H256([0x33; 32])]);
    let second = Proof::new(H256([0x22; 32]), vec![]);
    assert_eq!(
        bundled_hash(vec![first.clone(), second.clone()], deposit_address),
        H256([
            42, 227, 250, 181, 102, 195, 11, 93, 237, 93, 48, 208, 90, 74, 73, 157, 142, 255, 39,
            168, 193, 94, 155, 127, 29, 189, 26, 92, 123, 118, 251, 5,
        ])
    );
    // The order of the proofs matters.
    assert_eq!(
        bundled_hash(vec![second, first], deposit_address),
        H256([
            93, 233, 199, 227, 138, 45, 62, 125, 109, 114, 207, 244, 69, 49, 21, 182, 10, 226,
            225, 28, 91, 113, 4, 56, 206, 231, 82, 58, 206, 198, 186, 88,
        ])
    );
    assert_eq!(
        bundled_hash(vec![], deposit_address),
        H256([
            224, 72, 7, 114, 55, 71, 22, 153, 199, 201, 144, 177, 2, 92, 206, 157, 56, 170, 141,
            228, 169, 128, 95, 96, 62, 61, 174, 136, 66, 50, 184, 89,
        ])
    );
}

#[test]
fn hashes_are_ordered_byte_by_byte() {
    let zero = H256::zero();
    assert_eq!(zero, H256([0; 32]));
    let mut low = [0u8; 32];
    low[31] = 1;
    let mut high = [0u8; 32];
    high[0] = 1;
    let mut mixed = [0xffu8; 32];
    mixed[0] = 0;
    assert!(zero.less_than(&H256(low)));
    assert!(H256(low).less_than(&H256(high)));
    assert!(H256(mixed).less_than(&H256(high)));
    assert!(!H256(high).less_than(&H256(mixed)));
    assert!(!H256(high).less_than(&H256(high)));
    assert!(H256([0x7f; 32]).less_than(&H256([0x80; 32])));
    assert!(H256(high).same(&H256(high)));
    assert!(!H256(high).same(&H256(low)));
    let mut bytes = vec![9u8];
    H256(low).append_to(&mut bytes);
    assert_eq!(bytes.len(), 33);
    assert_eq!(bytes[0], 9);
    assert_eq!(bytes[32], 1);
    assert_eq!(&bytes[1..32], &[0u8; 31][..]);
}

#[test]
fn pair_is_hashed_in_the_order_given_and_children_in_byte_order() {
    let low = H256([1; 32]);
    let mut high = H256([1; 32]);
    high.0[31] = 2;
    let mut low_then_high = vec![1u8; 64];
    low_then_high[63] = 2;
    let mut high_then_low = vec![1u8; 64];
    high_then_low[31] = 2;
    assert_eq!(pair_bytes(&low, &high), low_then_high);
    assert_eq!(pair_bytes(&high, &low), high_then_low);
    assert_eq!(sorted_pair_bytes(&low, &high), low_then_high);
    assert_eq!(sorted_pair_bytes(&high, &low), low_then_high);
    assert_eq!(sorted_pair_bytes(&low, &low), vec![1u8; 64]);
    assert_eq!(
        H256(sp_io::hashing::blake2_256(&sorted_pair_bytes(&high, &low))),
        sorted_hash_pair(&low, &high)
    );
}

#[test]
fn bundle_is_address_then_leaves() {
    let mut deposit_address = [0u8; 20];
    deposit_address[0] = 0xde;
    deposit_address[19] = 0xad;
    let proofs = vec![
        Proof::new(H256([3; 32]), vec![H256([9; 32])]),
        Proof::new(H256([1; 32]), vec![]),
    ];
    let mut expected = deposit_address.to_vec();
    expected.extend_from_slice(&[3; 32]);
    expected.extend_from_slice(&[1; 32]);
    assert_eq!(bundle_bytes(&proofs, &deposit_address), expected);
    assert_eq!(bundle_bytes(&vec![], &deposit_address), deposit_address.to_vec());
    assert_eq!(
        bundled_hash(proofs, deposit_address),
        H256(sp_io::hashing::keccak_256(&expected))
    );
}
