//! Per-transaction isolation rules: counts, sizes, values, duplicates, gas,
//! payload, version and coinbase shape, checked in a fixed order with the
//! first failure returned.

use vstd::prelude::*;

use crate::tx::{Transaction, TransactionInput, TransactionOutput};
use crate::{MAX_SOMPI, TX_VERSION};

verus! {

/// Why a transaction fails isolation validation. Payloads carry the offending
/// count or index and the configured limit, as applicable.
#[derive(Clone, Copy, Debug, PartialEq, Eq, Structural)]
pub enum TxRuleError {
    NoTxInputs,
    TooManyInputs(usize, usize),
    TooManyOutputs(usize, usize),
    TooBigSignatureScript(usize, usize),
    TooBigScriptPublicKey(usize, usize),
    CoinbaseHasInputs(usize),
    CoinbaseTooManyOutputs(usize, u64),
    CoinbaseScriptPublicKeyTooLong(usize),
    TxOutZero(usize),
    TxOutTooHigh(usize),
    OutputsValueOverflow,
    TotalTxOutTooHigh,
    TxDuplicateInputs,
    TxHasGas,
    NonCoinbaseTxHasPayload,
    UnknownTxVersion(u16),
}

/// The first index at or after `k` whose signature script exceeds `max`.
pub open spec fn spec_first_long_sig(inputs: Seq<TransactionInput>, max: int, k: int) -> Option<
    int,
>
    decreases inputs.len() - k,
{
    if k < 0 || k >= inputs.len() {
        None
    } else if inputs[k].signature_script@.len() > max {
        Some(k)
    } else {
        spec_first_long_sig(inputs, max, k + 1)
    }
}

/// The first index at or after `k` whose script public key exceeds `max`.
pub open spec fn spec_first_long_spk(outputs: Seq<TransactionOutput>, max: int, k: int) -> Option<
    int,
>
    decreases outputs.len() - k,
{
    if k < 0 || k >= outputs.len() {
        None
    } else if outputs[k].script_public_key.script@.len() > max {
        Some(k)
    } else {
        spec_first_long_spk(outputs, max, k + 1)
    }
}

/// Two inputs spend the same outpoint.
pub open spec fn spec_has_duplicate_outpoints(inputs: Seq<TransactionInput>) -> bool {
    exists|i: int, j: int|
        0 <= i < inputs.len() && 0 <= j < inputs.len() && i != j && inputs[i].previous_outpoint
            == inputs[j].previous_outpoint
}

/// Walks the outputs from index `k` with the running value sum `total`,
/// returning the first range violation.
pub open spec fn spec_check_output_values_from(
    outputs: Seq<TransactionOutput>,
    k: int,
    total: int,
) -> Result<(), TxRuleError>
    decreases outputs.len() - k,
{
    if k < 0 || k >= outputs.len() {
        Ok(())
    } else if outputs[k].value == 0 {
        Err(TxRuleError::TxOutZero(k as usize))
    } else if outputs[k].value > MAX_SOMPI {
        Err(TxRuleError::TxOutTooHigh(k as usize))
    } else if total + outputs[k].value > u64::MAX {
        Err(TxRuleError::OutputsValueOverflow)
    } else if total + outputs[k].value > MAX_SOMPI {
        Err(TxRuleError::TotalTxOutTooHigh)
    } else {
        spec_check_output_values_from(outputs, k + 1, total + outputs[k].value)
    }
}

/// Runs per-transaction isolation rules against immutable per-network
/// parameters fixed at startup.
#[derive(Clone, Copy, Debug)]
pub struct TransactionValidator {
    pub max_tx_inputs: usize,
    pub max_tx_outputs: usize,
    pub max_signature_script_len: usize,
    pub max_script_public_key_len: usize,
    pub ghostdag_k: u8,
    pub coinbase_payload_script_public_key_max_len: u8,
    /// Carried with the other per-network parameters; contextual validation
    /// reads it, the isolation rules do not.
    pub coinbase_maturity: u64,
}

/// Chains two checks: the first failure wins.
pub open spec fn spec_res_and(a: Result<(), TxRuleError>, b: Result<(), TxRuleError>) -> Result<
    (),
    TxRuleError,
> {
    if a is Err {
        a
    } else {
        b
    }
}

pub open spec fn spec_check_inputs_count(v: TransactionValidator, tx: Transaction) -> Result<
    (),
    TxRuleError,
> {
    if !tx.spec_is_coinbase() && tx.inputs@.len() == 0 {
        Err(TxRuleError::NoTxInputs)
    } else if tx.inputs@.len() > v.max_tx_inputs {
        Err(TxRuleError::TooManyInputs(tx.inputs@.len() as usize, v.max_tx_inputs))
    } else {
        Ok(())
    }
}

pub open spec fn spec_check_signature_scripts(v: TransactionValidator, tx: Transaction) -> Result<
    (),
    TxRuleError,
> {
    match spec_first_long_sig(tx.inputs@, v.max_signature_script_len as int, 0) {
        Some(i) => Err(TxRuleError::TooBigSignatureScript(i as usize, v.max_signature_script_len)),
        None => Ok(()),
    }
}

pub open spec fn spec_check_outputs_count(v: TransactionValidator, tx: Transaction) -> Result<
    (),
    TxRuleError,
> {
    if tx.outputs@.len() > v.max_tx_outputs {
        Err(TxRuleError::TooManyOutputs(tx.outputs@.len() as usize, v.max_tx_outputs))
    } else {
        Ok(())
    }
}

pub open spec fn spec_check_script_public_keys(v: TransactionValidator, tx: Transaction) -> Result<
    (),
    TxRuleError,
> {
    match spec_first_long_spk(tx.outputs@, v.max_script_public_key_len as int, 0) {
        Some(i) => Err(TxRuleError::TooBigScriptPublicKey(i as usize, v.max_script_public_key_len)),
        None => Ok(()),
    }
}

pub open spec fn spec_check_coinbase(v: TransactionValidator, tx: Transaction) -> Result<
    (),
    TxRuleError,
> {
    if !tx.spec_is_coinbase() {
        Ok(())
    } else if tx.inputs@.len() > 0 {
        Err(TxRuleError::CoinbaseHasInputs(tx.inputs@.len() as usize))
    } else if tx.outputs@.len() > v.ghostdag_k + 2 {
        Err(
            TxRuleError::CoinbaseTooManyOutputs(
                tx.outputs@.len() as usize,
                (v.ghostdag_k + 2) as u64,
            ),
        )
    } else {
        match spec_first_long_spk(
            tx.outputs@,
            v.coinbase_payload_script_public_key_max_len as int,
            0,
        ) {
            Some(i) => Err(TxRuleError::CoinbaseScriptPublicKeyTooLong(i as usize)),
            None => Ok(()),
        }
    }
}

pub open spec fn spec_check_output_value_ranges(tx: Transaction) -> Result<(), TxRuleError> {
    spec_check_output_values_from(tx.outputs@, 0, 0)
}

pub open spec fn spec_check_duplicate_inputs(tx: Transaction) -> Result<(), TxRuleError> {
    if spec_has_duplicate_outpoints(tx.inputs@) {
        Err(TxRuleError::TxDuplicateInputs)
    } else {
        Ok(())
    }
}

pub open spec fn spec_check_gas(tx: Transaction) -> Result<(), TxRuleError> {
    if tx.gas > 0 {
        Err(TxRuleError::TxHasGas)
    } else {
        Ok(())
    }
}

pub open spec fn spec_check_payload(tx: Transaction) -> Result<(), TxRuleError> {
    if !tx.spec_is_coinbase() && tx.payload@.len() > 0 {
        Err(TxRuleError::NonCoinbaseTxHasPayload)
    } else {
        Ok(())
    }
}

pub open spec fn spec_check_version(tx: Transaction) -> Result<(), TxRuleError> {
    if tx.version != TX_VERSION {
        Err(TxRuleError::UnknownTxVersion(tx.version))
    } else {
        Ok(())
    }
}

/// The whole per-transaction isolation run: every rule in order, first
/// failure returned.
pub open spec fn spec_validate_tx(v: TransactionValidator, tx: Transaction) -> Result<
    (),
    TxRuleError,
> {
    spec_res_and(
        spec_check_inputs_count(v, tx),
        spec_res_and(
            spec_check_signature_scripts(v, tx),
            spec_res_and(
                spec_check_outputs_count(v, tx),
                spec_res_and(
                    spec_check_script_public_keys(v, tx),
                    spec_res_and(
                        spec_check_coinbase(v, tx),
                        spec_res_and(
                            spec_check_output_value_ranges(tx),
                            spec_res_and(
                                spec_check_duplicate_inputs(tx),
                                spec_res_and(
                                    spec_check_gas(tx),
                                    spec_res_and(
                                        spec_check_payload(tx),
                                        spec_check_version(tx),
                                    ),
                                ),
                            ),
                        ),
                    ),
                ),
            ),
        ),
    )
}

impl TransactionValidator {
    pub fn new(
        max_tx_inputs: usize,
        max_tx_outputs: usize,
        max_signature_script_len: usize,
        max_script_public_key_len: usize,
        ghostdag_k: u8,
        coinbase_payload_script_public_key_max_len: u8,
        coinbase_maturity: u64,
    ) -> (r: TransactionValidator)
        ensures
            r == (TransactionValidator {
                max_tx_inputs,
                max_tx_outputs,
                max_signature_script_len,
                max_script_public_key_len,
                ghostdag_k,
                coinbase_payload_script_public_key_max_len,
                coinbase_maturity,
            }),
    {
        TransactionValidator {
            max_tx_inputs,
            max_tx_outputs,
            max_signature_script_len,
            max_script_public_key_len,
            ghostdag_k,
            coinbase_payload_script_public_key_max_len,
            coinbase_maturity,
        }
    }

    fn check_transaction_inputs_count(&self, tx: &Transaction) -> (r: Result<(), TxRuleError>)
        ensures
            r == spec_check_inputs_count(*self, *tx),
    {
        if !tx.is_coinbase() && tx.inputs.len() == 0 {
            return Err(TxRuleError::NoTxInputs);
        }
        if tx.inputs.len() > self.max_tx_inputs {
            return Err(TxRuleError::TooManyInputs(tx.inputs.len(), self.max_tx_inputs));
        }
        Ok(())
    }

    // The main purpose of this check is to avoid overflows when calculating
    // transaction mass later.
    fn check_transaction_signature_scripts(&self, tx: &Transaction) -> (r: Result<(), TxRuleError>)
        ensures
            r == spec_check_signature_scripts(*self, *tx),
    {
        let n = tx.inputs.len();
        for i in 0..n
            invariant
                n == tx.inputs@.len(),
                spec_first_long_sig(tx.inputs@, self.max_signature_script_len as int, 0)
                    == spec_first_long_sig(tx.inputs@, self.max_signature_script_len as int, i as int),
        {
            if tx.inputs[i].signature_script.len() > self.max_signature_script_len {
                return Err(TxRuleError::TooBigSignatureScript(i, self.max_signature_script_len));
            }
        }
        Ok(())
    }

    fn check_transaction_outputs_count(&self, tx: &Transaction) -> (r: Result<(), TxRuleError>)
        ensures
            r == spec_check_outputs_count(*self, *tx),
    {
        if tx.outputs.len() > self.max_tx_outputs {
            return Err(TxRuleError::TooManyOutputs(tx.outputs.len(), self.max_tx_outputs));
        }
        Ok(())
    }

    // The main purpose of this check is to avoid overflows when calculating
    // transaction mass later.
    fn check_transaction_script_public_keys(&self, tx: &Transaction) -> (r: Result<(), TxRuleError>)
        ensures
            r == spec_check_script_public_keys(*self, *tx),
    {
        let n = tx.outputs.len();
        for i in 0..n
            invariant
                n == tx.outputs@.len(),
                spec_first_long_spk(tx.outputs@, self.max_script_public_key_len as int, 0)
                    == spec_first_long_spk(
                    tx.outputs@,
                    self.max_script_public_key_len as int,
                    i as int,
                ),
        {
            if tx.outputs[i].script_public_key.script.len() > self.max_script_public_key_len {
                return Err(TxRuleError::TooBigScriptPublicKey(i, self.max_script_public_key_len));
            }
        }
        Ok(())
    }

    fn check_coinbase_in_isolation(&self, tx: &Transaction) -> (r: Result<(), TxRuleError>)
        ensures
            r == spec_check_coinbase(*self, *tx),
    {
        if !tx.is_coinbase() {
            return Ok(());
        }
        if tx.inputs.len() > 0 {
            return Err(TxRuleError::CoinbaseHasInputs(tx.inputs.len()));
        }
        let outputs_limit = self.ghostdag_k as u64 + 2;
        if tx.outputs.len() as u64 > outputs_limit {
            return Err(TxRuleError::CoinbaseTooManyOutputs(tx.outputs.len(), outputs_limit));
        }
        let max_len = self.coinbase_payload_script_public_key_max_len as usize;
        let n = tx.outputs.len();
        for i in 0..n
            invariant
                n == tx.outputs@.len(),
                max_len == self.coinbase_payload_script_public_key_max_len as usize,
                tx.spec_is_coinbase(),
                tx.inputs@.len() == 0,
                tx.outputs@.len() <= self.ghostdag_k + 2,
                spec_first_long_spk(
                    tx.outputs@,
                    self.coinbase_payload_script_public_key_max_len as int,
                    0,
                ) == spec_first_long_spk(
                    tx.outputs@,
                    self.coinbase_payload_script_public_key_max_len as int,
                    i as int,
                ),
        {
            if tx.outputs[i].script_public_key.script.len() > max_len {
                return Err(TxRuleError::CoinbaseScriptPublicKeyTooLong(i));
            }
        }
        Ok(())
    }

    /// Runs every per-transaction isolation rule, in order, returning the
    /// first failure.
    pub fn validate_tx_in_isolation(&self, tx: &Transaction) -> (r: Result<(), TxRuleError>)
        ensures
            r == spec_validate_tx(*self, *tx),
    {
        if let Err(e) = self.check_transaction_inputs_count(tx) {
            return Err(e);
        }
        if let Err(e) = self.check_transaction_signature_scripts(tx) {
            return Err(e);
        }
        if let Err(e) = self.check_transaction_outputs_count(tx) {
            return Err(e);
        }
        if let Err(e) = self.check_transaction_script_public_keys(tx) {
            return Err(e);
        }
        if let Err(e) = self.check_coinbase_in_isolation(tx) {
            return Err(e);
        }
        if let Err(e) = check_transaction_output_value_ranges(tx) {
            return Err(e);
        }
        if let Err(e) = check_duplicate_transaction_inputs(tx) {
            return Err(e);
        }
        if let Err(e) = check_gas(tx) {
            return Err(e);
        }
        if let Err(e) = check_transaction_payload(tx) {
            return Err(e);
        }
        check_transaction_version(tx)
    }
}

/// When success is owed: the validator accepts a transaction exactly when
/// every rule below holds of it.
pub open spec fn spec_tx_accepted(v: TransactionValidator, tx: Transaction) -> bool {
    &&& (tx.spec_is_coinbase() || tx.inputs@.len() > 0)
    &&& tx.inputs@.len() <= v.max_tx_inputs
    &&& (forall|i: int|
        0 <= i < tx.inputs@.len() ==> #[trigger] tx.inputs@[i].signature_script@.len()
            <= v.max_signature_script_len)
    &&& tx.outputs@.len() <= v.max_tx_outputs
    &&& (forall|i: int|
        0 <= i < tx.outputs@.len() ==> #[trigger] tx.outputs@[i].script_public_key.script@.len()
            <= v.max_script_public_key_len)
    &&& (tx.spec_is_coinbase() ==> tx.inputs@.len() == 0 && tx.outputs@.len() <= v.ghostdag_k + 2
        && (forall|i: int|
        0 <= i < tx.outputs@.len() ==> #[trigger] tx.outputs@[i].script_public_key.script@.len()
            <= v.coinbase_payload_script_public_key_max_len))
    &&& spec_check_output_values_from(tx.outputs@, 0, 0) is Ok
    &&& !spec_has_duplicate_outpoints(tx.inputs@)
    &&& tx.gas == 0
    &&& (!tx.spec_is_coinbase() ==> tx.payload@.len() == 0)
    &&& tx.version == TX_VERSION
}

proof fn lemma_first_long_sig_iff(inputs: Seq<TransactionInput>, max: int, k: int)
    requires
        0 <= k <= inputs.len(),
    ensures
        spec_first_long_sig(inputs, max, k) is None <==> (forall|i: int|
            k <= i < inputs.len() ==> #[trigger] inputs[i].signature_script@.len() <= max),
    decreases inputs.len() - k,
{
    if k < inputs.len() {
        lemma_first_long_sig_iff(inputs, max, k + 1);
    }
}

proof fn lemma_first_long_spk_iff(outputs: Seq<TransactionOutput>, max: int, k: int)
    requires
        0 <= k <= outputs.len(),
    ensures
        spec_first_long_spk(outputs, max, k) is None <==> (forall|i: int|
            k <= i < outputs.len() ==> #[trigger] outputs[i].script_public_key.script@.len()
                <= max),
    decreases outputs.len() - k,
{
    if k < outputs.len() {
        lemma_first_long_spk_iff(outputs, max, k + 1);
    }
}

/// The validator returns `Ok` exactly on the transactions that
/// [`spec_tx_accepted`] describes.
pub proof fn lemma_validate_tx_ok_iff(v: TransactionValidator, tx: Transaction)
    ensures
        spec_validate_tx(v, tx) is Ok <==> spec_tx_accepted(v, tx),
{
    lemma_first_long_sig_iff(tx.inputs@, v.max_signature_script_len as int, 0);
    lemma_first_long_spk_iff(tx.outputs@, v.max_script_public_key_len as int, 0);
    lemma_first_long_spk_iff(tx.outputs@, v.coinbase_payload_script_public_key_max_len as int, 0);
}

/// Acceptance is insensitive to input order: a transaction whose inputs are a
/// permutation of another's, everything else equal, is accepted exactly when
/// the other is. The permutation is given as the index map `perm` together
/// with its inverse `iperm`.
pub proof fn lemma_acceptance_insensitive_to_input_order(
    v: TransactionValidator,
    t1: Transaction,
    t2: Transaction,
    perm: Seq<int>,
    iperm: Seq<int>,
)
    requires
        t2.version == t1.version,
        t2.outputs@ == t1.outputs@,
        t2.lock_time == t1.lock_time,
        t2.subnetwork_id == t1.subnetwork_id,
        t2.gas == t1.gas,
        t2.payload@ == t1.payload@,
        t2.mass == t1.mass,
        perm.len() == t1.inputs@.len(),
        iperm.len() == t1.inputs@.len(),
        t2.inputs@.len() == t1.inputs@.len(),
        forall|i: int| 0 <= i < perm.len() ==> 0 <= #[trigger] perm[i] < perm.len(),
        forall|j: int| 0 <= j < perm.len() ==> 0 <= #[trigger] iperm[j] < perm.len(),
        forall|j: int| 0 <= j < perm.len() ==> #[trigger] perm[iperm[j]] == j,
        forall|i: int| 0 <= i < perm.len() ==> #[trigger] iperm[perm[i]] == i,
        forall|i: int| 0 <= i < perm.len() ==> #[trigger] t2.inputs@[i] == t1.inputs@[perm[i]],
    ensures
        spec_validate_tx(v, t2) is Ok <==> spec_validate_tx(v, t1) is Ok,
{
    lemma_validate_tx_ok_iff(v, t1);
    lemma_validate_tx_ok_iff(v, t2);
    let n = perm.len();
    // Signature-script sizes transfer from the permuted inputs back to the
    // originals; the forward direction needs no inverse.
    if (forall|i: int|
        0 <= i < n ==> #[trigger] t2.inputs@[i].signature_script@.len()
            <= v.max_signature_script_len) {
        assert forall|j: int| 0 <= j < n implies #[trigger] t1.inputs@[j].signature_script@.len()
            <= v.max_signature_script_len by {
            assert(t2.inputs@[iperm[j]] == t1.inputs@[j]);
        }
    }
    // Duplicate outpoints transfer both ways.
    if spec_has_duplicate_outpoints(t2.inputs@) {
        let (i, j) = choose|i: int, j: int|
            0 <= i < n && 0 <= j < n && i != j && t2.inputs@[i].previous_outpoint
                == t2.inputs@[j].previous_outpoint;
        assert(t1.inputs@[perm[i]].previous_outpoint == t1.inputs@[perm[j]].previous_outpoint);
        assert(iperm[perm[i]] == i && iperm[perm[j]] == j);
        assert(perm[i] != perm[j]);
        assert(spec_has_duplicate_outpoints(t1.inputs@));
    }
    if spec_has_duplicate_outpoints(t1.inputs@) {
        let (a, b) = choose|a: int, b: int|
            0 <= a < n && 0 <= b < n && a != b && t1.inputs@[a].previous_outpoint
                == t1.inputs@[b].previous_outpoint;
        let i = iperm[a];
        let j = iperm[b];
        assert(t2.inputs@[i] == t1.inputs@[a]);
        assert(t2.inputs@[j] == t1.inputs@[b]);
        assert(i != j);
        assert(spec_has_duplicate_outpoints(t2.inputs@));
    }
}

fn check_duplicate_transaction_inputs(tx: &Transaction) -> (r: Result<(), TxRuleError>)
    ensures
        r == spec_check_duplicate_inputs(*tx),
{
    let n = tx.inputs.len();
    for i in 0..n
        invariant
            n == tx.inputs@.len(),
            forall|p: int, q: int|
                0 <= p < i && 0 <= q < i && p != q ==> tx.inputs@[p].previous_outpoint
                    != tx.inputs@[q].previous_outpoint,
    {
        for j in 0..i
            invariant
                n == tx.inputs@.len(),
                i < n,
                forall|q: int|
                    0 <= q < j ==> tx.inputs@[q].previous_outpoint
                        != tx.inputs@[i as int].previous_outpoint,
                forall|p: int, q: int|
                    0 <= p < i && 0 <= q < i && p != q ==> tx.inputs@[p].previous_outpoint
                        != tx.inputs@[q].previous_outpoint,
        {
            if tx.inputs[j].previous_outpoint == tx.inputs[i].previous_outpoint {
                return Err(TxRuleError::TxDuplicateInputs);
            }
        }
    }
    Ok(())
}

fn check_gas(tx: &Transaction) -> (r: Result<(), TxRuleError>)
    ensures
        r == spec_check_gas(*tx),
{
    // This should be revised if subnetworks are activated.
    if tx.gas > 0 {
        return Err(TxRuleError::TxHasGas);
    }
    Ok(())
}

fn check_transaction_payload(tx: &Transaction) -> (r: Result<(), TxRuleError>)
    ensures
        r == spec_check_payload(*tx),
{
    // This should be revised if subnetworks are activated.
    if !tx.is_coinbase() && tx.payload.len() > 0 {
        return Err(TxRuleError::NonCoinbaseTxHasPayload);
    }
    Ok(())
}

fn check_transaction_version(tx: &Transaction) -> (r: Result<(), TxRuleError>)
    ensures
        r == spec_check_version(*tx),
{
    if tx.version != TX_VERSION {
        return Err(TxRuleError::UnknownTxVersion(tx.version));
    }
    Ok(())
}

fn check_transaction_output_value_ranges(tx: &Transaction) -> (r: Result<(), TxRuleError>)
    ensures
        r == spec_check_output_value_ranges(*tx),
{
    let mut total: u64 = 0;
    let n = tx.outputs.len();
    for i in 0..n
        invariant
            n == tx.outputs@.len(),
            spec_check_output_values_from(tx.outputs@, 0, 0) == spec_check_output_values_from(
                tx.outputs@,
                i as int,
                total as int,
            ),
    {
        let value = tx.outputs[i].value;
        if value == 0 {
            return Err(TxRuleError::TxOutZero(i));
        }
        if value > MAX_SOMPI {
            return Err(TxRuleError::TxOutTooHigh(i));
        }
        match total.checked_add(value) {
            Some(new_total) => total = new_total,
            None => {
                return Err(TxRuleError::OutputsValueOverflow);
            },
        }
        if total > MAX_SOMPI {
            return Err(TxRuleError::TotalTxOutTooHigh);
        }
    }
    Ok(())
}

} // verus!
