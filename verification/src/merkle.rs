//! Incremental binary Merkle root accumulator.
//!
//! The accumulator collects leaf byte-strings in order and produces the binary
//! Merkle root that the ledger embeds in its headers: an RFC 6962-shaped tree
//! over SHA-256, where a leaf node is the hash of `0x00` followed by the leaf
//! bytes, an internal node is the hash of `0x01` followed by the two child
//! hashes, the last unpaired node of a level is promoted, and the root over
//! zero leaves is the hash of the empty string. The hashing itself is done by
//! `fuel_merkle`, the same implementation the ledger deploys, so the roots
//! computed here are byte-for-byte comparable with claimed ones.

use vstd::prelude::*;

use crate::digest::Digest;
use fuel_merkle::binary::root_calculator::MerkleRootCalculator;

verus! {

#[verifier::external_type_specification]
#[verifier::external_body]
pub struct ExMerkleRootCalculator(MerkleRootCalculator);

/// The leaves pushed into a calculator so far, in insertion order.
pub uninterp spec fn calc_leaves(c: MerkleRootCalculator) -> Seq<Seq<u8>>;

/// The binary Merkle root over a sequence of leaves. A pure function of the
/// leaves and their order; what the ledger's deployed implementation returns.
pub uninterp spec fn merkle_root_of(leaves: Seq<Seq<u8>>) -> Seq<u8>;

/// The digest of a single leaf: SHA-256 over `0x00` followed by the leaf bytes.
pub uninterp spec fn leaf_hash_of(leaf: Seq<u8>) -> Seq<u8>;

/// The most leaves an accumulator accepts. The underlying tree addresses node
/// positions with 64-bit indices, whose arithmetic is exhausted near 2^63
/// leaves; staying below 2^62 keeps every position computation in range. A
/// sequence of that many leaves cannot be materialized in memory anyway.
pub const MAX_LEAVES: u64 = 0x4000_0000_0000_0000;

/// Relies on `fuel_merkle::binary::root_calculator::MerkleRootCalculator::new`:
/// returns a calculator with an empty node stack, that is, one no leaf has
/// been pushed into.
#[verifier::external_body]
fn calc_new() -> (r: MerkleRootCalculator)
    ensures
        calc_leaves(r) == Seq::<Seq<u8>>::empty(),
{
    MerkleRootCalculator::new()
}

/// Relies on `MerkleRootCalculator::push`: appends one leaf to the tree,
/// after the leaves already pushed. It panics only when the tree runs out of
/// 64-bit node positions, which the bound on the leaf count rules out.
#[verifier::external_body]
fn calc_push(c: &mut MerkleRootCalculator, leaf: &Vec<u8>)
    requires
        calc_leaves(*old(c)).len() < MAX_LEAVES,
    ensures
        calc_leaves(*final(c)) == calc_leaves(*old(c)).push(leaf@),
{
    c.push(leaf.as_slice())
}

/// Relies on `MerkleRootCalculator::root`: the root digest is a pure function
/// of the pushed leaves and their order. Its source further shows that the
/// root over exactly one leaf is that leaf's own hash (the stack holds one
/// leaf node and its hash is returned unmerged).
#[verifier::external_body]
fn calc_root(c: MerkleRootCalculator) -> (r: Digest)
    requires
        calc_leaves(c).len() <= MAX_LEAVES,
    ensures
        r@ == merkle_root_of(calc_leaves(c)),
        calc_leaves(c).len() == 1 ==> r@ == leaf_hash_of(calc_leaves(c)[0]),
{
    Digest { bytes: c.root().into() }
}

/// An append-only sequence of leaf byte-strings with a Merkle root on demand.
pub struct MerkleAccumulator {
    leaves: Vec<Vec<u8>>,
}

impl View for MerkleAccumulator {
    type V = Seq<Seq<u8>>;

    closed spec fn view(&self) -> Seq<Seq<u8>> {
        self.leaves@.map_values(|l: Vec<u8>| l@)
    }
}

impl MerkleAccumulator {
    /// An accumulator holding no leaves.
    pub fn new() -> (r: Self)
        ensures
            r@ == Seq::<Seq<u8>>::empty(),
    {
        let r = MerkleAccumulator { leaves: Vec::new() };
        proof {
            assert(r@ =~= Seq::<Seq<u8>>::empty());
        }
        r
    }

    /// Appends one leaf. Any byte length is accepted, including zero;
    /// insertion order is preserved.
    pub fn push(&mut self, leaf: Vec<u8>)
        requires
            old(self)@.len() < MAX_LEAVES,
        ensures
            final(self)@ == old(self)@.push(leaf@),
    {
        let ghost prev = self.leaves@;
        let ghost leaf_view = leaf@;
        self.leaves.push(leaf);
        proof {
            assert(self@ =~= prev.map_values(|l: Vec<u8>| l@).push(leaf_view));
        }
    }

    /// The Merkle root over the accumulated leaves, in order: a pure function
    /// of the leaf sequence. With zero leaves it is the canonical empty-tree
    /// digest (the hash of the empty string), never an error; with one leaf it
    /// is that leaf's own hash.
    pub fn root(&self) -> (r: Digest)
        requires
            self@.len() <= MAX_LEAVES,
        ensures
            r@ == merkle_root_of(self@),
            self@.len() == 1 ==> r@ == leaf_hash_of(self@[0]),
    {
        let mut calc = calc_new();
        let n = self.leaves.len();
        let mut i: usize = 0;
        while i < n
            invariant
                0 <= i <= n == self.leaves@.len(),
                self@.len() <= MAX_LEAVES,
                calc_leaves(calc) == self@.take(i as int),
            decreases n - i,
        {
            calc_push(&mut calc, &self.leaves[i]);
            proof {
                assert(self@.take(i as int).push(self.leaves@[i as int]@) =~= self@.take(
                    i + 1 as int,
                ));
            }
            i += 1;
        }
        proof {
            assert(self@.take(n as int) =~= self@);
        }
        calc_root(calc)
    }
}

/// The root is deterministic: equal leaf sequences give equal roots, however
/// and whenever each is computed.
pub proof fn lemma_root_deterministic(a: Seq<Seq<u8>>, b: Seq<Seq<u8>>)
    requires
        a == b,
    ensures
        merkle_root_of(a) == merkle_root_of(b),
{
}

} // verus!
