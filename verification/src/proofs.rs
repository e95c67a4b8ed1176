//! The batch Merkle-proof validator.
//!
//! A document root is the hash of a signing root and a signature root, and
//! the signing root is the hash of two data roots. A batch of proofs is
//! checked against such a root with one memo of proven hashes: it starts
//! with the five hashes of that small tree, and every proof adds the hashes
//! it passes through. A proof is accepted as soon as it reaches a hash the
//! memo holds, so a later proof may stop where an earlier one went by.

use vstd::prelude::*;
use crate::hash::{lemma_lex_less_total, lex_less, H256};
use crate::hashing::{blake2_256, blake2_256_of, keccak_256, keccak_256_of};
use crate::scale::concat_hashes;

verus! {

/// One Merkle inclusion proof: a leaf and the siblings it is combined with,
/// in order, on the way up.
#[derive(Clone, Debug, PartialEq, Eq)]
pub struct Proof {
    pub leaf_hash: H256,
    pub sorted_hashes: Vec<H256>,
}

/// A proof as a mathematical value.
pub struct ProofView {
    pub leaf_hash: H256,
    pub sorted_hashes: Seq<H256>,
}

impl View for Proof {
    type V = ProofView;

    open spec fn view(&self) -> ProofView {
        ProofView { leaf_hash: self.leaf_hash, sorted_hashes: self.sorted_hashes@ }
    }
}

impl DeepView for Proof {
    type V = ProofView;

    open spec fn deep_view(&self) -> ProofView {
        self@
    }
}

impl Proof {
    /// A proof of `hash` along `sorted_hashes`.
    pub fn new(hash: H256, sorted_hashes: Vec<H256>) -> (proof: Proof)
        ensures
            proof.leaf_hash == hash,
            proof.sorted_hashes == sorted_hashes,
    {
        Proof { leaf_hash: hash, sorted_hashes }
    }
}

/// The Blake2 hash of the bytes of `a` followed by the bytes of `b`.
pub open spec fn hash_pair(a: H256, b: H256) -> H256 {
    H256(blake2_256_of(a@ + b@))
}

/// The hash of two children whatever their order: the smaller one, in
/// byte-wise order, is hashed first.
pub open spec fn sorted_hash_pair(a: H256, b: H256) -> H256 {
    if lex_less(a@, b@) {
        hash_pair(a, b)
    } else {
        hash_pair(b, a)
    }
}

/// The signing root: the hash of the basic data root and the zk data root.
pub open spec fn signing_root(static_proofs: [H256; 3]) -> H256 {
    hash_pair(static_proofs[0], static_proofs[1])
}

/// The document root that the three static hashes stand for: the hash of
/// their signing root and the signature root.
pub open spec fn document_root(static_proofs: [H256; 3]) -> H256 {
    hash_pair(signing_root(static_proofs), static_proofs[2])
}

/// The memo a batch starts with: the three static hashes, their signing root
/// and their document root.
pub open spec fn initial_memo(static_proofs: [H256; 3]) -> Set<H256> {
    set![
        static_proofs[0],
        static_proofs[1],
        signing_root(static_proofs),
        static_proofs[2],
        document_root(static_proofs),
    ]
}

/// The hash a chain arrives at: `hash` combined with each sibling in turn.
pub open spec fn chain_end(hash: H256, siblings: Seq<H256>) -> H256
    decreases siblings.len(),
{
    if siblings.len() == 0 {
        hash
    } else {
        chain_end(sorted_hash_pair(hash, siblings[0]), siblings.drop_first())
    }
}

/// How a walk up from `hash` ends.
pub struct Walk {
    /// Whether the walk reached a hash that the memo held.
    pub accepted: bool,
    /// The memo afterwards.
    pub memo: Set<H256>,
    /// The number of siblings the walk combined.
    pub steps: nat,
}

/// Walks up from `hash`: each sibling enters the memo, then the hash of the
/// pair is looked up. If the memo holds it the walk is accepted and stops;
/// otherwise that hash enters the memo too and the walk goes on from it. A
/// walk that runs out of siblings is not accepted.
pub open spec fn walk(memo: Set<H256>, hash: H256, siblings: Seq<H256>) -> Walk
    decreases siblings.len(),
{
    if siblings.len() == 0 {
        Walk { accepted: false, memo, steps: 0 }
    } else {
        let with_sibling = memo.insert(siblings[0]);
        let next = sorted_hash_pair(hash, siblings[0]);
        if with_sibling.contains(next) {
            Walk { accepted: true, memo: with_sibling, steps: 1 }
        } else {
            let rest = walk(with_sibling.insert(next), next, siblings.drop_first());
            Walk { steps: rest.steps + 1, ..rest }
        }
    }
}

/// Checks one proof against the memo: a leaf that the memo holds is accepted
/// as it is, any other leaf has to walk up to a hash that the memo holds.
pub open spec fn check_proof(memo: Set<H256>, proof: ProofView) -> Walk {
    if memo.contains(proof.leaf_hash) {
        Walk { accepted: true, memo, steps: 0 }
    } else {
        walk(memo, proof.leaf_hash, proof.sorted_hashes)
    }
}

/// Checks the proofs in order, each against the memo the one before left
/// behind. All of them have to be accepted.
pub open spec fn check_all(memo: Set<H256>, proofs: Seq<ProofView>) -> bool
    decreases proofs.len(),
{
    if proofs.len() == 0 {
        true
    } else {
        let first = check_proof(memo, proofs[0]);
        first.accepted && check_all(first.memo, proofs.drop_first())
    }
}

/// Whether a batch of proofs is valid for a document root: there is at least
/// one proof, the static hashes stand for that root, and every proof is
/// accepted.
pub open spec fn proofs_valid(
    doc_root: H256,
    proofs: Seq<ProofView>,
    static_proofs: [H256; 3],
) -> bool {
    &&& proofs.len() >= 1
    &&& document_root(static_proofs) == doc_root
    &&& check_all(initial_memo(static_proofs), proofs)
}

/// The views of a sequence of proofs.
pub open spec fn views(proofs: Seq<Proof>) -> Seq<ProofView> {
    proofs.map_values(|p: Proof| p@)
}

/// The leaves of the proofs, in the order of the proofs.
pub open spec fn leaves(proofs: Seq<ProofView>) -> Seq<H256> {
    proofs.map_values(|p: ProofView| p.leaf_hash)
}

/// The bytes that are hashed to bind a deposit address to the leaves of a
/// batch: the address bytes, then the bytes of each leaf, in the order given.
pub open spec fn bundle_preimage(proofs: Seq<ProofView>, deposit_address: [u8; 20]) -> Seq<u8> {
    deposit_address@ + concat_hashes(leaves(proofs))
}

/// The Keccak hash that binds a deposit address to the leaves of a batch.
pub open spec fn bundle_of(proofs: Seq<ProofView>, deposit_address: [u8; 20]) -> H256 {
    H256(keccak_256_of(bundle_preimage(proofs, deposit_address)))
}

/// Whether `matches` holds `hash`.
fn holds(matches: &Vec<H256>, hash: &H256) -> (r: bool)
    ensures
        r == matches@.to_set().contains(*hash),
{
    let mut i: usize = 0;
    while i < matches.len()
        invariant
            0 <= i <= matches@.len(),
            forall|j: int| 0 <= j < i ==> matches@[j] != *hash,
        decreases matches@.len() - i,
    {
        if matches[i].same(hash) {
            return true;
        }
        i = i + 1;
    }
    false
}

/// Adds `hash` to `matches`.
fn remember(matches: &mut Vec<H256>, hash: H256)
    ensures
        final(matches)@.to_set() == old(matches)@.to_set().insert(hash),
{
    proof {
        matches@.lemma_push_to_set_commute(hash);
    }
    matches.push(hash);
}

/// The 64 bytes that are hashed for a pair: the bytes of `a`, then the bytes
/// of `b`.
pub fn pair_bytes(a: &H256, b: &H256) -> (bytes: Vec<u8>)
    ensures
        bytes@ == a@ + b@,
{
    let mut bytes: Vec<u8> = Vec::with_capacity(64);
    a.append_to(&mut bytes);
    b.append_to(&mut bytes);
    bytes
}

/// The 64 bytes that are hashed for two children: the bytes of the smaller
/// one, in byte-wise order, then the bytes of the other.
pub fn sorted_pair_bytes(a: &H256, b: &H256) -> (bytes: Vec<u8>)
    ensures
        bytes@ == if lex_less(a@, b@) {
            a@ + b@
        } else {
            b@ + a@
        },
{
    if a.less_than(b) {
        pair_bytes(a, b)
    } else {
        pair_bytes(b, a)
    }
}

/// Hashes `a` followed by `b`.
fn hash_of(a: H256, b: H256) -> (h: H256)
    ensures
        h == hash_pair(a, b),
{
    let bytes = pair_bytes(&a, &b);
    H256(blake2_256(bytes.as_slice()))
}

/// Hashes `a` and `b`, the smaller one first.
fn sort_hash_of(a: H256, b: H256) -> (h: H256)
    ensures
        h == sorted_hash_pair(a, b),
{
    let bytes = sorted_pair_bytes(&a, &b);
    H256(blake2_256(bytes.as_slice()))
}

/// Checks one proof against `matches` and leaves in `matches` every hash the
/// proof passed through.
fn validate_proof(matches: &mut Vec<H256>, leaf: H256, proofs: &Vec<H256>) -> (r: bool)
    ensures
        r == check_proof(
            old(matches)@.to_set(),
            ProofView { leaf_hash: leaf, sorted_hashes: proofs@ },
        ).accepted,
        final(matches)@.to_set() == check_proof(
            old(matches)@.to_set(),
            ProofView { leaf_hash: leaf, sorted_hashes: proofs@ },
        ).memo,
{
    if holds(matches, &leaf) {
        return true;
    }
    let ghost start = matches@.to_set();
    let mut hash = leaf;
    let mut i: usize = 0;
    assert(proofs@.skip(0) == proofs@);
    while i < proofs.len()
        invariant
            0 <= i <= proofs@.len(),
            start == old(matches)@.to_set(),
            !start.contains(leaf),
            walk(start, leaf, proofs@).accepted == walk(
                matches@.to_set(),
                hash,
                proofs@.skip(i as int),
            ).accepted,
            walk(start, leaf, proofs@).memo == walk(
                matches@.to_set(),
                hash,
                proofs@.skip(i as int),
            ).memo,
        decreases proofs@.len() - i,
    {
        let sibling = proofs[i];
        assert(proofs@.skip(i as int).drop_first() == proofs@.skip(i + 1));
        remember(matches, sibling);
        hash = sort_hash_of(hash, sibling);
        if holds(matches, &hash) {
            return true;
        }
        remember(matches, hash);
        i = i + 1;
    }
    false
}

/// Seeds the memo with the three static hashes, their signing root and their
/// document root, and tells whether that document root is `doc_root`.
fn pre_matches(static_proofs: [H256; 3], doc_root: H256) -> (r: (bool, Vec<H256>))
    ensures
        r.0 == (document_root(static_proofs) == doc_root),
        r.1@.to_set() == initial_memo(static_proofs),
{
    let mut matches: Vec<H256> = Vec::new();
    let basic_data_root = static_proofs[0];
    let zk_data_root = static_proofs[1];
    let signature_root = static_proofs[2];
    remember(&mut matches, basic_data_root);
    remember(&mut matches, zk_data_root);
    let signing_root = hash_of(basic_data_root, zk_data_root);
    remember(&mut matches, signing_root);
    remember(&mut matches, signature_root);
    let calc_doc_root = hash_of(signing_root, signature_root);
    remember(&mut matches, calc_doc_root);
    (calc_doc_root.same(&doc_root), matches)
}

/// Validates a batch of proofs against a document root.
///
/// Returns `true` exactly if there is at least one proof, the three static
/// hashes (basic data root, zk data root, signature root) stand for
/// `doc_root`, and every proof, checked in order against the shared memo, is
/// accepted. In particular an empty batch is never valid, and no batch is
/// valid for static hashes that stand for another root.
pub fn validate_proofs(doc_root: H256, proofs: &Vec<Proof>, static_proofs: [H256; 3]) -> (r: bool)
    ensures
        r == proofs_valid(doc_root, views(proofs@), static_proofs),
        proofs@.len() == 0 ==> !r,
        document_root(static_proofs) != doc_root ==> !r,
{
    if proofs.len() < 1 {
        return false;
    }
    let (valid, mut matches) = pre_matches(static_proofs, doc_root);
    if !valid {
        return false;
    }
    let ghost all = views(proofs@);
    let mut accepted = true;
    let mut i: usize = 0;
    assert(all.skip(0) == all);
    while i < proofs.len()
        invariant
            0 <= i <= proofs@.len(),
            all == views(proofs@),
            check_all(initial_memo(static_proofs), all) == (accepted && check_all(
                matches@.to_set(),
                all.skip(i as int),
            )),
        decreases proofs@.len() - i,
    {
        let proof = &proofs[i];
        assert(all.skip(i as int).drop_first() == all.skip(i + 1));
        let b = validate_proof(&mut matches, proof.leaf_hash, &proof.sorted_hashes);
        accepted = accepted && b;
        i = i + 1;
    }
    accepted
}

/// The bytes that are hashed to bind a deposit address to the leaves of a
/// batch of proofs: the address bytes, then the bytes of each leaf, in the
/// order of the proofs.
pub fn bundle_bytes(proofs: &Vec<Proof>, deposit_address: &[u8; 20]) -> (bytes: Vec<u8>)
    ensures
        bytes@ == bundle_preimage(views(proofs@), *deposit_address),
{
    let ghost all = views(proofs@);
    let mut bytes: Vec<u8> = Vec::new();
    let mut k: usize = 0;
    while k < 20
        invariant
            0 <= k <= 20,
            bytes@ == deposit_address@.take(k as int),
        decreases 20 - k,
    {
        bytes.push(deposit_address[k]);
        k = k + 1;
    }
    let mut i: usize = 0;
    while i < proofs.len()
        invariant
            0 <= i <= proofs@.len(),
            all == views(proofs@),
            bytes@ == deposit_address@ + concat_hashes(leaves(all).take(i as int)),
        decreases proofs@.len() - i,
    {
        proofs[i].leaf_hash.append_to(&mut bytes);
        assert(leaves(all).take(i + 1).drop_last() == leaves(all).take(i as int));
        i = i + 1;
    }
    assert(leaves(all).take(proofs@.len() as int) == leaves(all));
    bytes
}

/// The hash that binds a deposit address to the leaves of a batch of proofs:
/// the Keccak hash of the address bytes followed by the bytes of each leaf.
/// The order of the proofs matters.
pub fn bundled_hash(proofs: Vec<Proof>, deposit_address: [u8; 20]) -> (h: H256)
    ensures
        h == bundle_of(views(proofs@), deposit_address),
{
    let bytes = bundle_bytes(&proofs, &deposit_address);
    H256(keccak_256(bytes.as_slice()))
}

/// The hash of two children does not depend on the order they are given in.
pub proof fn lemma_sorted_hash_pair_commutes(a: H256, b: H256)
    ensures
        sorted_hash_pair(a, b) == sorted_hash_pair(b, a),
{
    lemma_lex_less_total(a@, b@);
}

/// A walk only adds to the memo.
pub proof fn lemma_walk_memo_grows(memo: Set<H256>, hash: H256, siblings: Seq<H256>)
    ensures
        memo.subset_of(walk(memo, hash, siblings).memo),
    decreases siblings.len(),
{
    if siblings.len() > 0 {
        let with_sibling = memo.insert(siblings[0]);
        let next = sorted_hash_pair(hash, siblings[0]);
        if !with_sibling.contains(next) {
            lemma_walk_memo_grows(with_sibling.insert(next), next, siblings.drop_first());
        }
    }
}

/// Every hash a walk passes through is in the memo afterwards: the hash
/// reached after `k` siblings, for each `k` from one up to the number of
/// siblings the walk combined.
pub proof fn lemma_walk_caches_chain(memo: Set<H256>, hash: H256, siblings: Seq<H256>, k: int)
    requires
        1 <= k <= walk(memo, hash, siblings).steps,
    ensures
        k <= siblings.len(),
        walk(memo, hash, siblings).memo.contains(chain_end(hash, siblings.take(k))),
    decreases siblings.len(),
{
    let with_sibling = memo.insert(siblings[0]);
    let next = sorted_hash_pair(hash, siblings[0]);
    let rest = siblings.drop_first();
    assert(siblings.take(1).drop_first() == Seq::<H256>::empty());
    assert(chain_end(hash, siblings.take(1)) == chain_end(next, Seq::<H256>::empty()));
    if !with_sibling.contains(next) {
        lemma_walk_memo_grows(with_sibling.insert(next), next, rest);
        if k >= 2 {
            lemma_walk_caches_chain(with_sibling.insert(next), next, rest, k - 1);
            assert(siblings.take(k).drop_first() == rest.take(k - 1));
        }
    }
}

/// A walk whose last hash the memo already holds is accepted, wherever on
/// the way it stops.
pub proof fn lemma_walk_accepts_cached_end(memo: Set<H256>, hash: H256, siblings: Seq<H256>)
    requires
        siblings.len() >= 1,
        memo.contains(chain_end(hash, siblings)),
    ensures
        walk(memo, hash, siblings).accepted,
    decreases siblings.len(),
{
    let with_sibling = memo.insert(siblings[0]);
    let next = sorted_hash_pair(hash, siblings[0]);
    let rest = siblings.drop_first();
    if !with_sibling.contains(next) {
        if rest.len() == 0 {
            assert(chain_end(hash, siblings) == chain_end(next, rest));
        } else {
            lemma_walk_accepts_cached_end(with_sibling.insert(next), next, rest);
        }
    }
}

/// Every sibling a walk combines is in the memo afterwards.
pub proof fn lemma_walk_caches_siblings(memo: Set<H256>, hash: H256, siblings: Seq<H256>, j: int)
    requires
        0 <= j < walk(memo, hash, siblings).steps,
    ensures
        j < siblings.len(),
        walk(memo, hash, siblings).memo.contains(siblings[j]),
    decreases siblings.len(),
{
    let with_sibling = memo.insert(siblings[0]);
    let next = sorted_hash_pair(hash, siblings[0]);
    let rest = siblings.drop_first();
    if !with_sibling.contains(next) {
        lemma_walk_memo_grows(with_sibling.insert(next), next, rest);
        if j >= 1 {
            lemma_walk_caches_siblings(with_sibling.insert(next), next, rest, j - 1);
        }
    }
}

/// Proofs of one batch share the memo.
///
/// Let proof `a` be accepted, and let the chain of proof `b` end at a hash
/// that `a` left in the memo. Then the batch of `a` followed by `b` is valid,
/// though the chain of `b` may stop short of every hash of the document's own
/// small tree.
pub proof fn lemma_later_proof_stops_at_cached_hash(
    doc_root: H256,
    static_proofs: [H256; 3],
    a: ProofView,
    b: ProofView,
)
    requires
        document_root(static_proofs) == doc_root,
        check_proof(initial_memo(static_proofs), a).accepted,
        b.sorted_hashes.len() >= 1,
        check_proof(initial_memo(static_proofs), a).memo.contains(
            chain_end(b.leaf_hash, b.sorted_hashes),
        ),
    ensures
        proofs_valid(doc_root, seq![a, b], static_proofs),
{
    let first = check_proof(initial_memo(static_proofs), a);
    if !first.memo.contains(b.leaf_hash) {
        lemma_walk_accepts_cached_end(first.memo, b.leaf_hash, b.sorted_hashes);
    }
    let batch = seq![a, b];
    assert(batch.drop_first() == seq![b]);
    assert(seq![b].drop_first() == Seq::<ProofView>::empty());
    assert(check_all(check_proof(first.memo, b).memo, Seq::<ProofView>::empty()));
    assert(check_all(first.memo, seq![b]));
}

/// Batch memoization. Let proof `a` be accepted and pass, after `k` of the
/// siblings it combines, through a hash `x`. Let the chain of proof `b` be
/// cut off right after it reaches `x`. Then the batch of `a` followed by `b`
/// is valid: `a` has cached `x`.
pub proof fn lemma_later_proof_stops_where_earlier_passed(
    doc_root: H256,
    static_proofs: [H256; 3],
    a: ProofView,
    b: ProofView,
    k: int,
)
    requires
        document_root(static_proofs) == doc_root,
        check_proof(initial_memo(static_proofs), a).accepted,
        1 <= k <= check_proof(initial_memo(static_proofs), a).steps,
        b.sorted_hashes.len() >= 1,
        chain_end(b.leaf_hash, b.sorted_hashes) == chain_end(
            a.leaf_hash,
            a.sorted_hashes.take(k),
        ),
    ensures
        proofs_valid(doc_root, seq![a, b], static_proofs),
{
    lemma_walk_caches_chain(initial_memo(static_proofs), a.leaf_hash, a.sorted_hashes, k);
    lemma_later_proof_stops_at_cached_hash(doc_root, static_proofs, a, b);
}

} // verus!
