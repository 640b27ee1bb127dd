//! Compute-mass accounting.
//!
//! The compute mass of a transaction charges for its serialized size, for the
//! script-public-key bytes of its outputs and for its declared signature
//! operations, at configured per-unit rates. A coinbase transaction has zero
//! compute mass. All arithmetic saturates at `u64::MAX`; the block-level limit
//! check then rejects any block whose mass saturated past the cap.

use vstd::prelude::*;

use crate::tx::{spec_ser_tx, serialize_transaction, Transaction, TransactionInput, TransactionOutput};

verus! {

/// `a + b`, stuck at `u64::MAX`.
pub open spec fn sat_add64(a: u64, b: u64) -> u64 {
    if a + b > u64::MAX {
        u64::MAX
    } else {
        (a + b) as u64
    }
}

/// `a * b`, stuck at `u64::MAX`.
pub open spec fn sat_mul64(a: u64, b: u64) -> u64 {
    if a * b > u64::MAX {
        u64::MAX
    } else {
        (a * b) as u64
    }
}

fn sat_mul(a: u64, b: u64) -> (r: u64)
    ensures
        r == sat_mul64(a, b),
{
    match a.checked_mul(b) {
        Some(p) => p,
        None => u64::MAX,
    }
}

/// The script-public-key size a transaction's outputs are charged for: two
/// version bytes plus the script bytes, summed over the outputs.
pub open spec fn spec_spk_sizes(outputs: Seq<TransactionOutput>) -> u64
    decreases outputs.len(),
{
    if outputs.len() == 0 {
        0u64
    } else {
        sat_add64(
            spec_spk_sizes(outputs.drop_last()),
            sat_add64(2u64, outputs.last().script_public_key.script@.len() as u64),
        )
    }
}

/// The total declared signature operations over a transaction's inputs.
pub open spec fn spec_sig_ops(inputs: Seq<TransactionInput>) -> u64
    decreases inputs.len(),
{
    if inputs.len() == 0 {
        0u64
    } else {
        sat_add64(spec_sig_ops(inputs.drop_last()), inputs.last().sig_op_count as u64)
    }
}

/// Computes per-unit rates into a transaction's compute mass.
#[derive(Clone, Copy, Debug)]
pub struct MassCalculator {
    pub mass_per_tx_byte: u64,
    pub mass_per_script_pub_key_byte: u64,
    pub mass_per_sig_op: u64,
}

/// The compute mass of a transaction under the given rates. Zero for a
/// coinbase; otherwise the rated sum of serialized size, script-public-key
/// size and signature operations, saturating at `u64::MAX`.
pub open spec fn spec_compute_mass(c: MassCalculator, tx: Transaction) -> u64 {
    if tx.spec_is_coinbase() {
        0u64
    } else {
        sat_add64(
            sat_add64(
                sat_mul64(spec_ser_tx(tx, false).len() as u64, c.mass_per_tx_byte),
                sat_mul64(spec_spk_sizes(tx.outputs@), c.mass_per_script_pub_key_byte),
            ),
            sat_mul64(spec_sig_ops(tx.inputs@), c.mass_per_sig_op),
        )
    }
}

impl MassCalculator {
    pub fn new(mass_per_tx_byte: u64, mass_per_script_pub_key_byte: u64, mass_per_sig_op: u64) -> (r:
        MassCalculator)
        ensures
            r.mass_per_tx_byte == mass_per_tx_byte,
            r.mass_per_script_pub_key_byte == mass_per_script_pub_key_byte,
            r.mass_per_sig_op == mass_per_sig_op,
    {
        MassCalculator { mass_per_tx_byte, mass_per_script_pub_key_byte, mass_per_sig_op }
    }

    /// The compute mass of `tx`: only the compute part, the storage part
    /// cannot be known in isolation.
    pub fn calc_tx_compute_mass(&self, tx: &Transaction) -> (r: u64)
        ensures
            r == spec_compute_mass(*self, *tx),
    {
        if tx.is_coinbase() {
            return 0;
        }
        let bytes = serialize_transaction(tx, false);
        let size_mass = sat_mul(bytes.len() as u64, self.mass_per_tx_byte);

        let mut spk_size: u64 = 0;
        let n_out = tx.outputs.len();
        for i in 0..n_out
            invariant
                n_out == tx.outputs@.len(),
                spk_size == spec_spk_sizes(tx.outputs@.take(i as int)),
        {
            let script_len = tx.outputs[i].script_public_key.script.len();
            spk_size = spk_size.saturating_add(2u64.saturating_add(script_len as u64));
            assert(tx.outputs@.take(i + 1).drop_last() =~= tx.outputs@.take(i as int));
        }
        assert(tx.outputs@.take(n_out as int) =~= tx.outputs@);
        let spk_mass = sat_mul(spk_size, self.mass_per_script_pub_key_byte);

        let mut sig_ops: u64 = 0;
        let n_in = tx.inputs.len();
        for i in 0..n_in
            invariant
                n_in == tx.inputs@.len(),
                sig_ops == spec_sig_ops(tx.inputs@.take(i as int)),
        {
            sig_ops = sig_ops.saturating_add(tx.inputs[i].sig_op_count as u64);
            assert(tx.inputs@.take(i + 1).drop_last() =~= tx.inputs@.take(i as int));
        }
        assert(tx.inputs@.take(n_in as int) =~= tx.inputs@);
        let sig_op_mass = sat_mul(sig_ops, self.mass_per_sig_op);

        size_mass.saturating_add(spk_mass).saturating_add(sig_op_mass)
    }
}

} // verus!
