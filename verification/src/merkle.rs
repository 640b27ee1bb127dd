//! The binary merkle tree over a block's transaction list.
//!
//! Leaves are the transactions' digests; each level pairs adjacent nodes, a
//! lone last node being paired with the zero hash. The storage-mass-aware
//! variant differs only in the leaf digest, which then commits to the declared
//! mass.

use vstd::prelude::*;

use crate::hashing::{hash32, spec_hash32, spec_zero_hash, zero_hash, Hash32};
use crate::tx::{
    push_hash, spec_ser_hash, spec_tx_digest, Transaction, MERKLE_NODE_DOMAIN,
};

verus! {

/// The digest of an inner node over its two children.
pub open spec fn spec_merkle_node(left: Hash32, right: Hash32) -> Hash32 {
    spec_hash32(MERKLE_NODE_DOMAIN, spec_ser_hash(left) + spec_ser_hash(right))
}

fn merkle_node(left: Hash32, right: Hash32) -> (r: Hash32)
    ensures
        r == spec_merkle_node(left, right),
{
    let mut buf: Vec<u8> = Vec::new();
    push_hash(&mut buf, left);
    push_hash(&mut buf, right);
    assert(buf@ =~= spec_ser_hash(left) + spec_ser_hash(right));
    hash32(MERKLE_NODE_DOMAIN, &buf)
}

/// One level up: adjacent pairs combined, a lone last node paired with the
/// zero hash.
pub open spec fn spec_merkle_level(s: Seq<Hash32>) -> Seq<Hash32> {
    Seq::new(
        ((s.len() + 1) / 2) as nat,
        |i: int|
            if 2 * i + 1 < s.len() {
                spec_merkle_node(s[2 * i], s[2 * i + 1])
            } else {
                spec_merkle_node(s[2 * i], spec_zero_hash())
            },
    )
}

/// The root of the binary merkle tree whose leaves are `s`.
pub open spec fn spec_merkle_root(s: Seq<Hash32>) -> Hash32
    decreases s.len(),
{
    if s.len() == 0 {
        spec_zero_hash()
    } else if s.len() == 1 {
        s[0]
    } else {
        spec_merkle_root(spec_merkle_level(s))
    }
}

/// Combines one level into the next.
fn merkle_level(level: &Vec<Hash32>) -> (r: Vec<Hash32>)
    requires
        level@.len() >= 2,
    ensures
        r@ == spec_merkle_level(level@),
{
    let n = level.len();
    let m = n / 2 + n % 2;
    let mut next: Vec<Hash32> = Vec::new();
    for k in 0..m
        invariant
            n == level@.len(),
            m == n / 2 + n % 2,
            next@ == spec_merkle_level(level@).take(k as int),
    {
        let right = if 2 * k + 1 < n {
            level[2 * k + 1]
        } else {
            zero_hash()
        };
        next.push(merkle_node(level[2 * k], right));
        assert(spec_merkle_level(level@).take(k + 1) =~= spec_merkle_level(level@).take(
            k as int,
        ).push(spec_merkle_level(level@)[k as int]));
    }
    assert(spec_merkle_level(level@).take(m as int) =~= spec_merkle_level(level@));
    next
}

/// The merkle root over the given leaves.
pub fn merkle_root_from_leaves(leaves: Vec<Hash32>) -> (r: Hash32)
    requires
        leaves@.len() >= 1,
    ensures
        r == spec_merkle_root(leaves@),
{
    let mut level = leaves;
    while level.len() > 1
        invariant
            level@.len() >= 1,
            spec_merkle_root(level@) == spec_merkle_root(leaves@),
        decreases level@.len(),
    {
        level = merkle_level(&level);
    }
    level[0]
}

/// The transactions' leaf digests, in list order.
pub open spec fn spec_leaf_digests(txs: Seq<Transaction>, storage_mass_activated: bool) -> Seq<
    Hash32,
> {
    Seq::new(txs.len(), |i: int| spec_tx_digest(txs[i], storage_mass_activated))
}

/// The merkle root a block header commits to: the root over the transactions'
/// leaf digests, in list order.
pub open spec fn spec_block_merkle_root(txs: Seq<Transaction>, storage_mass_activated: bool) -> Hash32 {
    spec_merkle_root(spec_leaf_digests(txs, storage_mass_activated))
}

/// Recomputes the merkle root of an ordered transaction list, taking the
/// storage-mass-aware leaf digest when the flag is set.
#[verifier::rlimit(50)]
pub fn calc_hash_merkle_root_with_options(txs: &Vec<Transaction>, storage_mass_activated: bool) -> (r:
    Hash32)
    requires
        txs@.len() >= 1,
    ensures
        r == spec_block_merkle_root(txs@, storage_mass_activated),
{
    let mut leaves: Vec<Hash32> = Vec::new();
    let n = txs.len();
    for i in 0..n
        invariant
            n == txs@.len(),
            leaves@.len() == i,
            forall|j: int|
                0 <= j < i ==> leaves@[j] == spec_tx_digest(txs@[j], storage_mass_activated),
    {
        leaves.push(txs[i].digest(storage_mass_activated));
    }
    assert(leaves@ =~= spec_leaf_digests(txs@, storage_mass_activated));
    merkle_root_from_leaves(leaves)
}

/// The merkle root in the pre-activation form, whose leaves do not commit to
/// the declared mass.
pub fn calc_hash_merkle_root(txs: &Vec<Transaction>) -> (r: Hash32)
    requires
        txs@.len() >= 1,
    ensures
        r == spec_block_merkle_root(txs@, false),
{
    calc_hash_merkle_root_with_options(txs, false)
}

} // verus!
