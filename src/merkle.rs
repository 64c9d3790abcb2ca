//! Merkle commitments over ordered lists of data blocks.
//!
//! Roots are built positionally (left child first), and proofs are checked
//! by ordering each pair of hashes as byte strings. Both orders are kept as
//! they are, so that roots computed earlier stay valid; where they disagree,
//! a proof for a block of a built tree is refused.
use crate::digest::{bytes_equal, hash_pair, sha256, sha256_of, DIGEST_LEN};
use vstd::prelude::*;

verus! {

/// The byte strings held by a list of byte vectors.
pub open spec fn views(v: Seq<Vec<u8>>) -> Seq<Seq<u8>> {
    v.map_values(|b: Vec<u8>| b@)
}

/// The leaf level: the digest of each block, in block order.
pub open spec fn leaf_level(blocks: Seq<Seq<u8>>) -> Seq<Seq<u8>> {
    blocks.map_values(|b: Seq<u8>| sha256_of(b))
}

/// The `i`-th node of the level above `level`: the digest of its left child
/// followed by its right child, where a last node without a partner is paired
/// with itself.
pub open spec fn parent(level: Seq<Seq<u8>>, i: int) -> Seq<u8> {
    let left = level[2 * i];
    let right = if 2 * i + 1 < level.len() {
        level[2 * i + 1]
    } else {
        left
    };
    sha256_of(left + right)
}

/// The level above `level`, combining adjacent nodes left to right.
pub open spec fn next_level(level: Seq<Seq<u8>>) -> Seq<Seq<u8>> {
    Seq::new(((level.len() + 1) / 2) as nat, |i: int| parent(level, i))
}

/// The single node left after combining `level` until one remains.
pub open spec fn top_of(level: Seq<Seq<u8>>) -> Seq<u8>
    decreases level.len(),
{
    if level.len() == 0 {
        Seq::empty()
    } else if level.len() == 1 {
        level[0]
    } else {
        top_of(next_level(level))
    }
}

/// The Merkle root of an ordered list of blocks; the empty list has the empty
/// root.
pub open spec fn merkle_root(blocks: Seq<Seq<u8>>) -> Seq<u8> {
    if blocks.len() == 0 {
        Seq::empty()
    } else {
        top_of(leaf_level(blocks))
    }
}

/// Every node of `level` is a digest.
pub open spec fn all_digests(level: Seq<Vec<u8>>) -> bool {
    forall|k: int| 0 <= k < level.len() ==> (#[trigger] level[k])@.len() == DIGEST_LEN
}

/// Builds the level above `level`.
fn combine_level(level: &Vec<Vec<u8>>) -> (r: Vec<Vec<u8>>)
    ensures
        all_digests(r@),
        r@.len() == views(r@).len(),
        views(r@) == next_level(views(level@)),
{
    let n: usize = level.len();
    let half: usize = n / 2 + n % 2;
    let mut next: Vec<Vec<u8>> = Vec::new();
    let mut j: usize = 0;
    while j < half
        invariant
            n == level@.len(),
            half == (n + 1) / 2,
            j <= half,
            views(next@) == next_level(views(level@)).take(j as int),
            all_digests(next@),
            next@.len() == j,
        decreases half - j,
    {
        let i: usize = 2 * j;
        let node = if i + 1 < n {
            hash_pair(level[i].as_slice(), level[i + 1].as_slice())
        } else {
            hash_pair(level[i].as_slice(), level[i].as_slice())
        };
        assert(views(level@)[i as int] == level@[i as int]@);
        assert(i + 1 < n ==> views(level@)[i + 1] == level@[i + 1]@);
        assert(node@ == parent(views(level@), j as int));
        let ghost before = next@;
        next.push(node);
        assert(views(next@) =~= views(before).push(node@));
        j = j + 1;
        assert(views(next@) =~= next_level(views(level@)).take(j as int));
    }
    assert(views(next@) =~= next_level(views(level@)));
    next
}

/// Computes the Merkle root of `data_blocks`: each block is hashed into a
/// leaf, then adjacent nodes are hashed together in position order (left
/// child first) level by level, a last unpaired node being paired with
/// itself, until one node is left. No blocks give the empty root.
pub fn create_merkle_root(data_blocks: Vec<Vec<u8>>) -> (r: Vec<u8>)
    ensures
        r@ == merkle_root(views(data_blocks@)),
        data_blocks@.len() > 0 ==> r@.len() == DIGEST_LEN,
{
    if data_blocks.len() == 0 {
        return Vec::new();
    }
    let ghost blocks = views(data_blocks@);
    let mut hashes: Vec<Vec<u8>> = Vec::new();
    let mut i: usize = 0;
    while i < data_blocks.len()
        invariant
            i <= data_blocks@.len(),
            blocks == views(data_blocks@),
            views(hashes@) == leaf_level(blocks).take(i as int),
            all_digests(hashes@),
            hashes@.len() == i,
        decreases data_blocks@.len() - i,
    {
        assert(blocks[i as int] == data_blocks@[i as int]@);
        let leaf = sha256(data_blocks[i].as_slice());
        let ghost before = hashes@;
        hashes.push(leaf);
        assert(views(hashes@) =~= views(before).push(leaf@));
        i = i + 1;
        assert(views(hashes@) =~= leaf_level(blocks).take(i as int));
    }
    assert(views(hashes@) =~= leaf_level(blocks));
    while hashes.len() > 1
        invariant
            hashes@.len() >= 1,
            top_of(views(hashes@)) == merkle_root(blocks),
            all_digests(hashes@),
        decreases hashes@.len(),
    {
        hashes = combine_level(&hashes);
    }
    assert(views(hashes@)[0] == hashes@[0]@);
    match hashes.pop() {
        Some(root) => root,
        None => Vec::new(),
    }
}

/// `a` sorts strictly before `b` as a byte string: at the first position where
/// they differ `a` holds the smaller byte, or `a` is a proper prefix of `b`.
pub open spec fn bytes_lt(a: Seq<u8>, b: Seq<u8>) -> bool {
    exists|k: int|
        0 <= k <= a.len() && k <= b.len() && #[trigger] a.take(k) == b.take(k) && (
        (k < a.len() && k < b.len() && a[k] < b[k]) || (k == a.len() && k < b.len()))
}

/// One step of proof checking: the digest of the two hashes, the one that sorts
/// first as a byte string placed first.
pub open spec fn sorted_pair(current: Seq<u8>, sibling: Seq<u8>) -> Seq<u8> {
    if bytes_lt(current, sibling) {
        sha256_of(current + sibling)
    } else {
        sha256_of(sibling + current)
    }
}

/// The hash reached from `leaf` by combining it with each sibling of `proof`
/// in turn.
pub open spec fn proof_walk(leaf: Seq<u8>, proof: Seq<Seq<u8>>) -> Seq<u8>
    decreases proof.len(),
{
    if proof.len() == 0 {
        leaf
    } else {
        sorted_pair(proof_walk(leaf, proof.drop_last()), proof.last())
    }
}

/// Whether `a` sorts strictly before `b` as a byte string.
pub fn bytes_less(a: &[u8], b: &[u8]) -> (r: bool)
    ensures
        r == bytes_lt(a@, b@),
{
    let mut i: usize = 0;
    while i < a.len() && i < b.len() && a[i] == b[i]
        invariant
            i <= a@.len(),
            i <= b@.len(),
            a@.take(i as int) == b@.take(i as int),
        decreases a@.len() - i,
    {
        assert(a@.take(i + 1) =~= a@.take(i as int).push(a@[i as int]));
        assert(b@.take(i + 1) =~= b@.take(i as int).push(b@[i as int]));
        i = i + 1;
    }
    let r = if i < a.len() && i < b.len() {
        a[i] < b[i]
    } else {
        i == a.len() && i < b.len()
    };
    if !r {
        assert forall|k: int|
            0 <= k <= a@.len() && k <= b@.len() && #[trigger] a@.take(k) == b@.take(k) implies !(
            (k < a@.len() && k < b@.len() && a@[k] < b@[k]) || (k == a@.len() && k < b@.len())) by {
            if k > i {
                assert(a@.take(k)[i as int] == b@.take(k)[i as int]);
            } else if k < i {
                assert(a@.take(i as int)[k] == b@.take(i as int)[k]);
            }
        }
    }
    r
}

/// Checks a membership proof: starting from the digest of `data_block`, each
/// sibling of `proof` in turn is combined with the current hash, the two placed
/// in byte-string order, and the final hash is compared with `root`.
///
/// This ordering differs from the positional one of `create_merkle_root`: a
/// proof for a block of a built tree reaches its root where, at each level,
/// the left node's digest sorts before the right one's
/// (`lemma_sorted_left_leaf` shows it for two blocks), and may miss it
/// elsewhere.
pub fn verify_merkle_proof(data_block: Vec<u8>, proof: Vec<Vec<u8>>, root: Vec<u8>) -> (r: bool)
    ensures
        r == (proof_walk(sha256_of(data_block@), views(proof@)) == root@),
        root@.len() != DIGEST_LEN ==> !r,
{
    let ghost siblings = views(proof@);
    let mut current = sha256(data_block.as_slice());
    let mut i: usize = 0;
    while i < proof.len()
        invariant
            i <= proof@.len(),
            siblings == views(proof@),
            current@ == proof_walk(sha256_of(data_block@), siblings.take(i as int)),
            current@.len() == DIGEST_LEN,
        decreases proof@.len() - i,
    {
        let sibling = &proof[i];
        assert(siblings.take(i + 1).drop_last() =~= siblings.take(i as int));
        assert(siblings[i as int] == sibling@);
        current = if bytes_less(current.as_slice(), sibling.as_slice()) {
            hash_pair(current.as_slice(), sibling.as_slice())
        } else {
            hash_pair(sibling.as_slice(), current.as_slice())
        };
        i = i + 1;
    }
    assert(siblings.take(proof@.len() as int) =~= siblings);
    bytes_equal(current.as_slice(), root.as_slice())
}

/// The root depends on the blocks' bytes and their order alone: two lists
/// holding the same byte strings in the same order have the same root.
pub proof fn lemma_root_deterministic(first: Seq<Vec<u8>>, second: Seq<Vec<u8>>)
    requires
        views(first) == views(second),
    ensures
        merkle_root(views(first)) == merkle_root(views(second)),
{
}

/// The empty list of blocks has the empty root, not an error.
pub proof fn lemma_empty_root()
    ensures
        merkle_root(Seq::empty()) == Seq::<u8>::empty(),
{
}

/// Two blocks have as root the digest of their leaf digests, the first block's
/// placed first.
pub proof fn lemma_two_block_root(a: Seq<u8>, b: Seq<u8>)
    ensures
        merkle_root(seq![a, b]) == sha256_of(sha256_of(a) + sha256_of(b)),
{
    let leaves = leaf_level(seq![a, b]);
    assert(leaves =~= seq![sha256_of(a), sha256_of(b)]);
    let top = next_level(leaves);
    assert(top =~= seq![sha256_of(sha256_of(a) + sha256_of(b))]);
    assert(top_of(top) == top[0]);
}

/// Three blocks `[a, b, c]`: the level above the leaves pairs the digests of
/// `a` and `b`, and the digest of `c` with itself, before the two are combined.
pub proof fn lemma_three_block_root(a: Seq<u8>, b: Seq<u8>, c: Seq<u8>)
    ensures
        merkle_root(seq![a, b, c]) == sha256_of(
            sha256_of(sha256_of(a) + sha256_of(b)) + sha256_of(sha256_of(c) + sha256_of(c)),
        ),
{
    let leaves = leaf_level(seq![a, b, c]);
    assert(leaves =~= seq![sha256_of(a), sha256_of(b), sha256_of(c)]);
    let ab = sha256_of(sha256_of(a) + sha256_of(b));
    let cc = sha256_of(sha256_of(c) + sha256_of(c));
    let middle = next_level(leaves);
    assert(middle =~= seq![ab, cc]);
    let top = next_level(middle);
    assert(top =~= seq![sha256_of(ab + cc)]);
    assert(top_of(middle) == top_of(top));
    assert(top_of(top) == top[0]);
}

/// In a two-block tree whose first leaf digest sorts before the second, the
/// second leaf digest is an accepted proof for the first block.
pub proof fn lemma_sorted_left_leaf(a: Seq<u8>, b: Seq<u8>)
    requires
        bytes_lt(sha256_of(a), sha256_of(b)),
    ensures
        proof_walk(sha256_of(a), seq![sha256_of(b)]) == merkle_root(seq![a, b]),
{
    lemma_two_block_root(a, b);
    let proof = seq![sha256_of(b)];
    assert(proof.drop_last() =~= Seq::<Seq<u8>>::empty());
    assert(proof_walk(sha256_of(a), proof.drop_last()) == sha256_of(a));
}

} // verus!
