use reliquary::merkle::{create_merkle_root, verify_merkle_proof};
use sha2::{Digest, Sha256};

fn sha(data: &[u8]) -> Vec<u8> {
    Sha256::digest(data).to_vec()
}

fn sha_pair(left: &[u8], right: &[u8]) -> Vec<u8> {
    let mut joined = left.to_vec();
    joined.extend_from_slice(right);
    sha(&joined)
}

#[test]
fn empty_block_list_gives_empty_root() {
    assert_eq!(create_merkle_root(vec![]), Vec::<u8>::new());
}

#[test]
fn single_block_root_is_its_leaf() {
    assert_eq!(create_merkle_root(vec![b"only".to_vec()]), sha(b"only"));
}

#[test]
fn two_block_root_is_positional() {
    let root = create_merkle_root(vec![b"a".to_vec(), b"b".to_vec()]);
    assert_eq!(root, sha_pair(&sha(b"a"), &sha(b"b")));
    assert_eq!(root.len(), 32);
}

#[test]
fn leaf_digests_match_known_values() {
    let root = create_merkle_root(vec![b"a".to_vec()]);
    assert_eq!(
        root,
        vec![
            0xca, 0x97, 0x81, 0x12, 0xca, 0x1b, 0xbd, 0xca, 0xfa, 0xc2, 0x31, 0xb3, 0x9a, 0x23,
            0xdc, 0x4d, 0xa7, 0x86, 0xef, 0xf8, 0x14, 0x7c, 0x4e, 0x72, 0xb9, 0x80, 0x77, 0x85,
            0xaf, 0xee, 0x48, 0xbb
        ]
    );
}

#[test]
fn three_blocks_duplicate_the_last_leaf() {
    let root = create_merkle_root(vec![b"A".to_vec(), b"B".to_vec(), b"C".to_vec()]);
    let ab = sha_pair(&sha(b"A"), &sha(b"B"));
    let cc = sha_pair(&sha(b"C"), &sha(b"C"));
    assert_eq!(root, sha_pair(&ab, &cc));
}

#[test]
fn five_blocks_combine_level_by_level() {
    let blocks: Vec<Vec<u8>> = (0u8..5).map(|i| vec![i]).collect();
    let l: Vec<Vec<u8>> = blocks.iter().map(|b| sha(b)).collect();
    let m0 = sha_pair(&l[0], &l[1]);
    let m1 = sha_pair(&l[2], &l[3]);
    let m2 = sha_pair(&l[4], &l[4]);
    let n0 = sha_pair(&m0, &m1);
    let n1 = sha_pair(&m2, &m2);
    assert_eq!(create_merkle_root(blocks), sha_pair(&n0, &n1));
}

#[test]
fn root_is_deterministic() {
    let blocks = vec![b"x".to_vec(), b"y".to_vec(), b"z".to_vec()];
    assert_eq!(create_merkle_root(blocks.clone()), create_merkle_root(blocks));
}

#[test]
fn reordering_blocks_changes_root() {
    let ab = create_merkle_root(vec![b"a".to_vec(), b"b".to_vec()]);
    let ba = create_merkle_root(vec![b"b".to_vec(), b"a".to_vec()]);
    assert_ne!(ab, ba);
}

#[test]
fn empty_proof_checks_the_leaf() {
    assert!(verify_merkle_proof(b"a".to_vec(), vec![], sha(b"a")));
    assert!(!verify_merkle_proof(b"a".to_vec(), vec![], sha(b"b")));
}

#[test]
fn proof_accepted_when_leaves_sort_in_position() {
    // The digest of "b" sorts before that of "a", so the tree [b, a] has its
    // leaves in byte order and both of its proofs are accepted.
    assert!(sha(b"b") < sha(b"a"));
    let root = create_merkle_root(vec![b"b".to_vec(), b"a".to_vec()]);
    assert!(verify_merkle_proof(b"b".to_vec(), vec![sha(b"a")], root.clone()));
    assert!(verify_merkle_proof(b"a".to_vec(), vec![sha(b"b")], root));
}

#[test]
fn proof_rejected_when_leaves_sort_against_position() {
    // In the tree [a, b] the leaves are out of byte order: proof checking sorts
    // the pair and so reaches another hash than the positional root.
    let root = create_merkle_root(vec![b"a".to_vec(), b"b".to_vec()]);
    assert!(!verify_merkle_proof(b"a".to_vec(), vec![sha(b"b")], root.clone()));
    assert!(!verify_merkle_proof(b"b".to_vec(), vec![sha(b"a")], root));
}

#[test]
fn proof_with_two_levels() {
    let leaf = sha(b"leaf");
    let s1 = sha(b"s1");
    let s2 = sha(b"s2");
    let step1 = if leaf < s1 { sha_pair(&leaf, &s1) } else { sha_pair(&s1, &leaf) };
    let step2 = if step1 < s2 { sha_pair(&step1, &s2) } else { sha_pair(&s2, &step1) };
    assert!(verify_merkle_proof(b"leaf".to_vec(), vec![s1.clone(), s2.clone()], step2.clone()));
    assert!(!verify_merkle_proof(b"leaf".to_vec(), vec![s2, s1], step2));
}

#[test]
fn proof_against_wrong_root_fails() {
    let root = create_merkle_root(vec![b"b".to_vec(), b"a".to_vec()]);
    let mut bad = root.clone();
    bad[0] ^= 1;
    assert!(!verify_merkle_proof(b"b".to_vec(), vec![sha(b"a")], bad));
    assert!(!verify_merkle_proof(b"c".to_vec(), vec![sha(b"a")], root));
}

#[test]
fn root_of_wrong_length_never_verifies() {
    let leaf = sha(b"a");
    let mut long = leaf.clone();
    long.push(0);
    assert!(!verify_merkle_proof(b"a".to_vec(), vec![], long));
    assert!(!verify_merkle_proof(b"a".to_vec(), vec![], leaf[..31].to_vec()));
    assert!(!verify_merkle_proof(b"a".to_vec(), vec![], vec![]));
}
