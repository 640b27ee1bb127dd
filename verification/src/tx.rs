//! The transaction and block data model, and the canonical serialization that
//! transaction ids and merkle leaves commit to.

use vstd::prelude::*;

use crate::hashing::{
    hash32, push_bytes, spec_hash32, Hash32, TransactionId,
};

verus! {

/// Identifies the subnetwork a transaction belongs to.
pub type SubnetworkId = u64;

/// The subnetwork of ordinary (native) transactions.
pub const SUBNETWORK_ID_NATIVE: SubnetworkId = 0;

/// The subnetwork of coinbase transactions.
pub const SUBNETWORK_ID_COINBASE: SubnetworkId = 1;

/// Domain tag under which a transaction id is hashed.
pub const TX_ID_DOMAIN: u8 = 1;

/// Domain tag under which a transaction's merkle-leaf digest is hashed.
pub const TX_DIGEST_DOMAIN: u8 = 2;

/// Domain tag under which an inner merkle node is hashed.
pub const MERKLE_NODE_DOMAIN: u8 = 3;

/// The identity of a spendable output: the producing transaction and the
/// output's position in it.
#[derive(Clone, Copy, Debug, PartialEq, Eq, Structural)]
pub struct TransactionOutpoint {
    pub transaction_id: TransactionId,
    pub index: u32,
}

/// One spent output together with the material that unlocks it.
#[derive(Clone, Debug)]
pub struct TransactionInput {
    pub previous_outpoint: TransactionOutpoint,
    pub signature_script: Vec<u8>,
    pub sequence: u64,
    pub sig_op_count: u8,
}

/// A script version paired with the script bytes a new output is locked by.
#[derive(Clone, Debug)]
pub struct ScriptPublicKey {
    pub version: u16,
    pub script: Vec<u8>,
}

impl ScriptPublicKey {
    pub fn new(version: u16, script: Vec<u8>) -> (r: ScriptPublicKey)
        ensures
            r.version == version,
            r.script@ == script@,
    {
        ScriptPublicKey { version, script }
    }

    /// The script bytes.
    pub fn script(&self) -> (r: &Vec<u8>)
        ensures
            r@ == self.script@,
    {
        &self.script
    }
}

/// A newly created output: an amount in sompi and the script locking it.
#[derive(Clone, Debug)]
pub struct TransactionOutput {
    pub value: u64,
    pub script_public_key: ScriptPublicKey,
}

/// A transaction as this layer sees it. `mass` is the contextual mass the
/// sender committed to; it is checked only as a lower bound here.
#[derive(Clone, Debug)]
pub struct Transaction {
    pub version: u16,
    pub inputs: Vec<TransactionInput>,
    pub outputs: Vec<TransactionOutput>,
    pub lock_time: u64,
    pub subnetwork_id: SubnetworkId,
    pub gas: u64,
    pub payload: Vec<u8>,
    pub mass: u64,
}

/// The block-header fields this layer reads: the merkle commitment over the
/// transaction list and the DAA score used as the activation clock.
#[derive(Clone, Debug)]
pub struct Header {
    pub hash_merkle_root: Hash32,
    pub daa_score: u64,
}

/// A candidate block: a header and its ordered transaction list.
#[derive(Clone, Debug)]
pub struct Block {
    pub header: Header,
    pub transactions: Vec<Transaction>,
}

// ---------------------------------------------------------------------------
// Canonical serialization
// ---------------------------------------------------------------------------
/// The two little-endian bytes of `v`.
pub open spec fn spec_u16_le(v: u16) -> Seq<u8> {
    seq![(v % 0x100) as u8, (v / 0x100) as u8]
}

/// The four little-endian bytes of `v`.
pub open spec fn spec_u32_le(v: u32) -> Seq<u8> {
    seq![
        (v % 0x100) as u8,
        ((v / 0x100) % 0x100) as u8,
        ((v / 0x1_0000) % 0x100) as u8,
        ((v / 0x100_0000) % 0x100) as u8,
    ]
}

/// The eight little-endian bytes of `v`.
pub open spec fn spec_u64_le(v: u64) -> Seq<u8> {
    seq![
        (v % 0x100) as u8,
        ((v / 0x100) % 0x100) as u8,
        ((v / 0x1_0000) % 0x100) as u8,
        ((v / 0x100_0000) % 0x100) as u8,
        ((v / 0x1_0000_0000) % 0x100) as u8,
        ((v / 0x100_0000_0000) % 0x100) as u8,
        ((v / 0x1_0000_0000_0000) % 0x100) as u8,
        ((v / 0x100_0000_0000_0000) % 0x100) as u8,
    ]
}

/// A length-prefixed byte sequence.
pub open spec fn spec_var_bytes(b: Seq<u8>) -> Seq<u8> {
    spec_u64_le(b.len() as u64) + b
}

/// The 32 bytes of a hash value.
pub open spec fn spec_ser_hash(h: Hash32) -> Seq<u8> {
    spec_u64_le(h.w0) + spec_u64_le(h.w1) + spec_u64_le(h.w2) + spec_u64_le(h.w3)
}

pub open spec fn spec_ser_outpoint(o: TransactionOutpoint) -> Seq<u8> {
    spec_ser_hash(o.transaction_id) + spec_u32_le(o.index)
}

pub open spec fn spec_ser_input(inp: TransactionInput) -> Seq<u8> {
    spec_ser_outpoint(inp.previous_outpoint) + spec_var_bytes(inp.signature_script@)
        + spec_u64_le(inp.sequence) + seq![inp.sig_op_count]
}

pub open spec fn spec_ser_output(out: TransactionOutput) -> Seq<u8> {
    spec_u64_le(out.value) + spec_u16_le(out.script_public_key.version) + spec_var_bytes(
        out.script_public_key.script@,
    )
}

pub open spec fn spec_ser_inputs(inputs: Seq<TransactionInput>) -> Seq<u8>
    decreases inputs.len(),
{
    if inputs.len() == 0 {
        Seq::empty()
    } else {
        spec_ser_input(inputs[0]) + spec_ser_inputs(inputs.drop_first())
    }
}

pub open spec fn spec_ser_outputs(outputs: Seq<TransactionOutput>) -> Seq<u8>
    decreases outputs.len(),
{
    if outputs.len() == 0 {
        Seq::empty()
    } else {
        spec_ser_output(outputs[0]) + spec_ser_outputs(outputs.drop_first())
    }
}

/// The canonical serialization of a transaction. The committed mass is part of
/// it only when `include_mass` is set: that is the storage-mass-aware form.
#[verifier::opaque]
pub open spec fn spec_ser_tx(tx: Transaction, include_mass: bool) -> Seq<u8> {
    spec_u16_le(tx.version) + spec_u64_le(tx.inputs@.len() as u64) + spec_ser_inputs(tx.inputs@)
        + spec_u64_le(tx.outputs@.len() as u64) + spec_ser_outputs(tx.outputs@) + spec_u64_le(
        tx.lock_time,
    ) + spec_u64_le(tx.subnetwork_id) + spec_u64_le(tx.gas) + spec_var_bytes(tx.payload@) + (
    if include_mass {
        spec_u64_le(tx.mass)
    } else {
        Seq::<u8>::empty()
    })
}

/// The id of a transaction: the hash of its canonical serialization without
/// the mass commitment.
pub open spec fn spec_tx_id(tx: Transaction) -> TransactionId {
    spec_hash32(TX_ID_DOMAIN, spec_ser_tx(tx, false))
}

/// The merkle-leaf digest of a transaction; commits to the declared mass when
/// `include_mass` is set.
pub open spec fn spec_tx_digest(tx: Transaction, include_mass: bool) -> Hash32 {
    spec_hash32(TX_DIGEST_DOMAIN, spec_ser_tx(tx, include_mass))
}

pub(crate) fn push_u16_le(buf: &mut Vec<u8>, v: u16)
    ensures
        final(buf)@ == old(buf)@ + spec_u16_le(v),
{
    buf.push((v % 0x100) as u8);
    buf.push((v / 0x100) as u8);
    assert(buf@ =~= old(buf)@ + spec_u16_le(v));
}

pub(crate) fn push_u32_le(buf: &mut Vec<u8>, v: u32)
    ensures
        final(buf)@ == old(buf)@ + spec_u32_le(v),
{
    buf.push((v % 0x100) as u8);
    buf.push(((v / 0x100) % 0x100) as u8);
    buf.push(((v / 0x1_0000) % 0x100) as u8);
    buf.push(((v / 0x100_0000) % 0x100) as u8);
    assert(buf@ =~= old(buf)@ + spec_u32_le(v));
}

pub(crate) fn push_u64_le(buf: &mut Vec<u8>, v: u64)
    ensures
        final(buf)@ == old(buf)@ + spec_u64_le(v),
{
    buf.push((v % 0x100) as u8);
    buf.push(((v / 0x100) % 0x100) as u8);
    buf.push(((v / 0x1_0000) % 0x100) as u8);
    buf.push(((v / 0x100_0000) % 0x100) as u8);
    buf.push(((v / 0x1_0000_0000) % 0x100) as u8);
    buf.push(((v / 0x100_0000_0000) % 0x100) as u8);
    buf.push(((v / 0x1_0000_0000_0000) % 0x100) as u8);
    buf.push(((v / 0x100_0000_0000_0000) % 0x100) as u8);
    assert(buf@ =~= old(buf)@ + spec_u64_le(v));
}

pub(crate) fn push_var_bytes(buf: &mut Vec<u8>, b: &[u8])
    ensures
        final(buf)@ == old(buf)@ + spec_var_bytes(b@),
{
    push_u64_le(buf, b.len() as u64);
    push_bytes(buf, b);
    assert(buf@ =~= old(buf)@ + spec_var_bytes(b@));
}

pub(crate) fn push_hash(buf: &mut Vec<u8>, h: Hash32)
    ensures
        final(buf)@ == old(buf)@ + spec_ser_hash(h),
{
    push_u64_le(buf, h.w0);
    push_u64_le(buf, h.w1);
    push_u64_le(buf, h.w2);
    push_u64_le(buf, h.w3);
    assert(buf@ =~= old(buf)@ + spec_ser_hash(h));
}

fn push_input(buf: &mut Vec<u8>, inp: &TransactionInput)
    ensures
        final(buf)@ == old(buf)@ + spec_ser_input(*inp),
{
    push_hash(buf, inp.previous_outpoint.transaction_id);
    push_u32_le(buf, inp.previous_outpoint.index);
    push_var_bytes(buf, inp.signature_script.as_slice());
    push_u64_le(buf, inp.sequence);
    buf.push(inp.sig_op_count);
    assert(buf@ =~= old(buf)@ + spec_ser_input(*inp));
}

fn push_output(buf: &mut Vec<u8>, out: &TransactionOutput)
    ensures
        final(buf)@ == old(buf)@ + spec_ser_output(*out),
{
    push_u64_le(buf, out.value);
    push_u16_le(buf, out.script_public_key.version);
    push_var_bytes(buf, out.script_public_key.script.as_slice());
    assert(buf@ =~= old(buf)@ + spec_ser_output(*out));
}

proof fn lemma_ser_inputs_skip(s: Seq<TransactionInput>, i: int)
    requires
        0 <= i < s.len(),
    ensures
        spec_ser_inputs(s.skip(i)) == spec_ser_input(s[i]) + spec_ser_inputs(s.skip(i + 1)),
{
    assert(s.skip(i).drop_first() =~= s.skip(i + 1));
}

proof fn lemma_ser_outputs_skip(s: Seq<TransactionOutput>, i: int)
    requires
        0 <= i < s.len(),
    ensures
        spec_ser_outputs(s.skip(i)) == spec_ser_output(s[i]) + spec_ser_outputs(s.skip(i + 1)),
{
    assert(s.skip(i).drop_first() =~= s.skip(i + 1));
}

fn push_inputs(buf: &mut Vec<u8>, inputs: &Vec<TransactionInput>)
    ensures
        final(buf)@ == old(buf)@ + spec_ser_inputs(inputs@),
{
    let ghost orig: Seq<u8> = buf@;
    assert(inputs@.skip(0) =~= inputs@);
    let n = inputs.len();
    for i in 0..n
        invariant
            n == inputs@.len(),
            buf@ + spec_ser_inputs(inputs@.skip(i as int)) == orig + spec_ser_inputs(inputs@),
    {
        let ghost before: Seq<u8> = buf@;
        push_input(buf, &inputs[i]);
        proof {
            lemma_ser_inputs_skip(inputs@, i as int);
            assert(buf@ + spec_ser_inputs(inputs@.skip(i + 1)) =~= before + spec_ser_inputs(
                inputs@.skip(i as int),
            ));
        }
    }
    assert(inputs@.skip(n as int) =~= Seq::<TransactionInput>::empty());
    assert(buf@ + Seq::<u8>::empty() =~= buf@);
}

fn push_outputs(buf: &mut Vec<u8>, outputs: &Vec<TransactionOutput>)
    ensures
        final(buf)@ == old(buf)@ + spec_ser_outputs(outputs@),
{
    let ghost orig: Seq<u8> = buf@;
    assert(outputs@.skip(0) =~= outputs@);
    let n = outputs.len();
    for i in 0..n
        invariant
            n == outputs@.len(),
            buf@ + spec_ser_outputs(outputs@.skip(i as int)) == orig + spec_ser_outputs(outputs@),
    {
        let ghost before: Seq<u8> = buf@;
        push_output(buf, &outputs[i]);
        proof {
            lemma_ser_outputs_skip(outputs@, i as int);
            assert(buf@ + spec_ser_outputs(outputs@.skip(i + 1)) =~= before + spec_ser_outputs(
                outputs@.skip(i as int),
            ));
        }
    }
    assert(outputs@.skip(n as int) =~= Seq::<TransactionOutput>::empty());
    assert(buf@ + Seq::<u8>::empty() =~= buf@);
}

/// The canonical serialization, as bytes.
pub fn serialize_transaction(tx: &Transaction, include_mass: bool) -> (r: Vec<u8>)
    ensures
        r@ == spec_ser_tx(*tx, include_mass),
{
    let mut buf: Vec<u8> = Vec::new();
    push_u16_le(&mut buf, tx.version);
    push_u64_le(&mut buf, tx.inputs.len() as u64);
    push_inputs(&mut buf, &tx.inputs);
    push_u64_le(&mut buf, tx.outputs.len() as u64);
    push_outputs(&mut buf, &tx.outputs);
    push_u64_le(&mut buf, tx.lock_time);
    push_u64_le(&mut buf, tx.subnetwork_id);
    push_u64_le(&mut buf, tx.gas);
    push_var_bytes(&mut buf, tx.payload.as_slice());
    if include_mass {
        push_u64_le(&mut buf, tx.mass);
    }
    proof {
        reveal(spec_ser_tx);
    }
    assert(buf@ =~= spec_ser_tx(*tx, include_mass));
    buf
}

impl Transaction {
    /// A fresh transaction with no committed mass.
    pub fn new(
        version: u16,
        inputs: Vec<TransactionInput>,
        outputs: Vec<TransactionOutput>,
        lock_time: u64,
        subnetwork_id: SubnetworkId,
        gas: u64,
        payload: Vec<u8>,
    ) -> (r: Transaction)
        ensures
            r.version == version,
            r.inputs@ == inputs@,
            r.outputs@ == outputs@,
            r.lock_time == lock_time,
            r.subnetwork_id == subnetwork_id,
            r.gas == gas,
            r.payload@ == payload@,
            r.mass == 0,
    {
        Transaction { version, inputs, outputs, lock_time, subnetwork_id, gas, payload, mass: 0 }
    }

    /// A transaction is a coinbase exactly when it lives on the coinbase
    /// subnetwork.
    pub open spec fn spec_is_coinbase(self) -> bool {
        self.subnetwork_id == SUBNETWORK_ID_COINBASE
    }

    pub fn is_coinbase(&self) -> (r: bool)
        ensures
            r == self.spec_is_coinbase(),
    {
        self.subnetwork_id == SUBNETWORK_ID_COINBASE
    }

    /// The transaction id.
    pub fn id(&self) -> (r: TransactionId)
        ensures
            r == spec_tx_id(*self),
    {
        let bytes = serialize_transaction(self, false);
        hash32(TX_ID_DOMAIN, &bytes)
    }

    /// The merkle-leaf digest; commits to the declared mass when
    /// `include_mass` is set.
    pub fn digest(&self, include_mass: bool) -> (r: Hash32)
        ensures
            r == spec_tx_digest(*self, include_mass),
    {
        let bytes = serialize_transaction(self, include_mass);
        hash32(TX_DIGEST_DOMAIN, &bytes)
    }
}

} // verus!
