//! Block-body isolation validation: the checks a node runs on a candidate
//! block using only the block itself, composed in a fixed order with the first
//! failure returned, and the total block mass returned on success.

use vstd::prelude::*;

use crate::hashing::{Hash32, TransactionId};
use crate::mass::{sat_add64, spec_compute_mass, MassCalculator};
use crate::merkle::{calc_hash_merkle_root_with_options, spec_block_merkle_root};
use crate::tx::{spec_tx_id, Block, Transaction, TransactionInput, TransactionOutpoint};
use crate::tx_validate::{spec_validate_tx, TransactionValidator, TxRuleError};

verus! {

/// Why a block body fails isolation validation.
#[derive(Clone, Debug)]
pub enum RuleError {
    NoTransactions,
    /// The root the header commits to, then the recomputed root.
    BadMerkleRoot(Hash32, Hash32),
    FirstTxNotCoinbase,
    /// Offset of the extra coinbase within the transactions after the first.
    MultipleCoinbases(usize),
    TxInIsolationValidationFailed(TransactionId, TxRuleError),
    /// The offending transaction, its committed mass, the computed mass.
    MassFieldTooLow(TransactionId, u64, u64),
    ExceedsMassLimit(u64),
    DuplicateTransactions(TransactionId),
    DoubleSpendInSameBlock(TransactionOutpoint),
    ChainedTransaction(TransactionOutpoint),
    /// Produced by contextual validation elsewhere; carried here so that the
    /// cache policy below can name it.
    MissingParents(Vec<Hash32>),
}

impl RuleError {
    /// Whether the error may recur differently on a retry of the very same
    /// block bytes, so that an outer pipeline must not cache the block as
    /// known-invalid on its account.
    pub open spec fn spec_is_non_cacheable(&self) -> bool {
        self is BadMerkleRoot || self is MissingParents
    }

    /// A block rejected for one of these reasons must be revalidated when it
    /// is seen again, never answered from a known-invalid cache.
    pub fn is_non_cacheable(&self) -> (r: bool)
        ensures
            r == self.spec_is_non_cacheable(),
    {
        match self {
            RuleError::BadMerkleRoot(_, _) => true,
            RuleError::MissingParents(_) => true,
            _ => false,
        }
    }
}

// ---------------------------------------------------------------------------
// The specification of each check
// ---------------------------------------------------------------------------
/// The first coinbase at or after position `k`.
pub open spec fn spec_first_coinbase_after(txs: Seq<Transaction>, k: int) -> Option<int>
    decreases txs.len() - k,
{
    if k < 0 || k >= txs.len() {
        None
    } else if txs[k].spec_is_coinbase() {
        Some(k)
    } else {
        spec_first_coinbase_after(txs, k + 1)
    }
}

/// The first transaction at or after `k` that fails per-transaction isolation
/// rules, wrapped with its id.
pub open spec fn spec_first_invalid_tx(
    v: TransactionValidator,
    txs: Seq<Transaction>,
    k: int,
) -> Result<(), RuleError>
    decreases txs.len() - k,
{
    if k < 0 || k >= txs.len() {
        Ok(())
    } else {
        match spec_validate_tx(v, txs[k]) {
            Err(e) => Err(RuleError::TxInIsolationValidationFailed(spec_tx_id(txs[k]), e)),
            Ok(_) => spec_first_invalid_tx(v, txs, k + 1),
        }
    }
}

/// Accumulates block mass from transaction `k` on, starting at `total`.
/// After activation each transaction's committed mass must cover its compute
/// mass and the committed masses are summed; before activation the compute
/// masses are summed. Addition saturates and the running total may never
/// exceed the cap.
pub open spec fn spec_block_mass_from(
    p: BlockBodyProcessor,
    txs: Seq<Transaction>,
    activated: bool,
    k: int,
    total: u64,
) -> Result<u64, RuleError>
    decreases txs.len() - k,
{
    if k < 0 || k >= txs.len() {
        Ok(total)
    } else {
        let computed = spec_compute_mass(p.mass_calculator, txs[k]);
        let charged = if activated {
            txs[k].mass
        } else {
            computed
        };
        if activated && txs[k].mass < computed {
            Err(RuleError::MassFieldTooLow(spec_tx_id(txs[k]), txs[k].mass, computed))
        } else {
            let new_total = sat_add64(total, charged);
            if new_total > p.max_block_mass {
                Err(RuleError::ExceedsMassLimit(p.max_block_mass))
            } else {
                spec_block_mass_from(p, txs, activated, k + 1, new_total)
            }
        }
    }
}

/// The ids of the transactions, in list order.
pub open spec fn spec_ids(txs: Seq<Transaction>) -> Seq<TransactionId> {
    Seq::new(txs.len(), |i: int| spec_tx_id(txs[i]))
}

/// The first position at or after `k` whose id already occurred before it.
pub open spec fn spec_first_dup_id(ids: Seq<TransactionId>, k: int) -> Option<int>
    decreases ids.len() - k,
{
    if k < 0 || k >= ids.len() {
        None
    } else if exists|j: int| 0 <= j < k && ids[j] == ids[k] {
        Some(k)
    } else {
        spec_first_dup_id(ids, k + 1)
    }
}

/// The outpoints of a transaction's inputs, in order.
pub open spec fn spec_outpoints_of(inputs: Seq<TransactionInput>) -> Seq<TransactionOutpoint> {
    Seq::new(inputs.len(), |i: int| inputs[i].previous_outpoint)
}

/// Every outpoint spent by the block, transaction by transaction, in order.
pub open spec fn spec_block_outpoints(txs: Seq<Transaction>) -> Seq<TransactionOutpoint>
    decreases txs.len(),
{
    if txs.len() == 0 {
        Seq::empty()
    } else {
        spec_block_outpoints(txs.drop_last()) + spec_outpoints_of(txs.last().inputs@)
    }
}

/// The first position at or after `k` whose outpoint already occurred.
pub open spec fn spec_first_dup_outpoint(ops: Seq<TransactionOutpoint>, k: int) -> Option<int>
    decreases ops.len() - k,
{
    if k < 0 || k >= ops.len() {
        None
    } else if exists|j: int| 0 <= j < k && ops[j] == ops[k] {
        Some(k)
    } else {
        spec_first_dup_outpoint(ops, k + 1)
    }
}

/// The outpoint of output `b` of transaction `a` of the block.
pub open spec fn spec_created_outpoint(txs: Seq<Transaction>, a: int, b: int) -> TransactionOutpoint {
    TransactionOutpoint { transaction_id: spec_tx_id(txs[a]), index: b as u32 }
}

/// Whether some transaction of the block creates this outpoint.
pub open spec fn spec_is_block_created_outpoint(
    txs: Seq<Transaction>,
    op: TransactionOutpoint,
) -> bool {
    exists|a: int, b: int|
        0 <= a < txs.len() && 0 <= b < txs[a].outputs@.len() && op == #[trigger] spec_created_outpoint(
            txs,
            a,
            b,
        )
}

/// The first spent outpoint at or after `k` that a transaction of the same
/// block creates.
pub open spec fn spec_first_chained_outpoint(
    txs: Seq<Transaction>,
    ops: Seq<TransactionOutpoint>,
    k: int,
) -> Option<int>
    decreases ops.len() - k,
{
    if k < 0 || k >= ops.len() {
        None
    } else if spec_is_block_created_outpoint(txs, ops[k]) {
        Some(k)
    } else {
        spec_first_chained_outpoint(txs, ops, k + 1)
    }
}

pub open spec fn spec_check_duplicate_transactions(txs: Seq<Transaction>) -> Result<(), RuleError> {
    match spec_first_dup_id(spec_ids(txs), 0) {
        Some(i) => Err(RuleError::DuplicateTransactions(spec_ids(txs)[i])),
        None => Ok(()),
    }
}

pub open spec fn spec_check_double_spends(txs: Seq<Transaction>) -> Result<(), RuleError> {
    match spec_first_dup_outpoint(spec_block_outpoints(txs), 0) {
        Some(i) => Err(RuleError::DoubleSpendInSameBlock(spec_block_outpoints(txs)[i])),
        None => Ok(()),
    }
}

pub open spec fn spec_check_chained_transactions(txs: Seq<Transaction>) -> Result<(), RuleError> {
    match spec_first_chained_outpoint(txs, spec_block_outpoints(txs), 0) {
        Some(i) => Err(RuleError::ChainedTransaction(spec_block_outpoints(txs)[i])),
        None => Ok(()),
    }
}

/// Composes the immutable configuration with the stateless collaborators that
/// run the full block-isolation check.
#[derive(Clone, Copy, Debug)]
pub struct BlockBodyProcessor {
    pub max_block_mass: u64,
    pub storage_mass_activation_daa_score: u64,
    pub mass_calculator: MassCalculator,
    pub transaction_validator: TransactionValidator,
}

/// Whether the storage-mass regime is active for this block.
pub open spec fn spec_storage_mass_activated(p: BlockBodyProcessor, block: Block) -> bool {
    block.header.daa_score > p.storage_mass_activation_daa_score
}

/// The whole block-body isolation run: every check in order, first failure
/// returned, the accumulated block mass on success.
pub open spec fn spec_validate_body(p: BlockBodyProcessor, block: Block) -> Result<u64, RuleError> {
    let activated = spec_storage_mass_activated(p, block);
    let txs = block.transactions@;
    if txs.len() == 0 {
        Err(RuleError::NoTransactions)
    } else if spec_block_merkle_root(txs, activated) != block.header.hash_merkle_root {
        Err(
            RuleError::BadMerkleRoot(
                block.header.hash_merkle_root,
                spec_block_merkle_root(txs, activated),
            ),
        )
    } else if !txs[0].spec_is_coinbase() {
        Err(RuleError::FirstTxNotCoinbase)
    } else {
        match spec_first_coinbase_after(txs, 1) {
            Some(i) => Err(RuleError::MultipleCoinbases((i - 1) as usize)),
            None => match spec_first_invalid_tx(p.transaction_validator, txs, 0) {
                Err(e) => Err(e),
                Ok(_) => match spec_block_mass_from(p, txs, activated, 0, 0) {
                    Err(e) => Err(e),
                    Ok(mass) => match spec_check_duplicate_transactions(txs) {
                        Err(e) => Err(e),
                        Ok(_) => match spec_check_double_spends(txs) {
                            Err(e) => Err(e),
                            Ok(_) => match spec_check_chained_transactions(txs) {
                                Err(e) => Err(e),
                                Ok(_) => Ok(mass),
                            },
                        },
                    },
                },
            },
        }
    }
}

/// A block with no transactions is rejected with exactly `NoTransactions`.
pub proof fn lemma_empty_block_rejected(p: BlockBodyProcessor, block: Block)
    requires
        block.transactions@.len() == 0,
    ensures
        spec_validate_body(p, block) == Err::<u64, RuleError>(RuleError::NoTransactions),
{
}

/// A block whose header commits to anything but the recomputed merkle root is
/// rejected with exactly `BadMerkleRoot`, carrying the header's root and the
/// recomputed one.
pub proof fn lemma_merkle_mismatch_rejected(p: BlockBodyProcessor, block: Block)
    requires
        block.transactions@.len() >= 1,
        block.header.hash_merkle_root != spec_block_merkle_root(
            block.transactions@,
            spec_storage_mass_activated(p, block),
        ),
    ensures
        spec_validate_body(p, block) == Err::<u64, RuleError>(
            RuleError::BadMerkleRoot(
                block.header.hash_merkle_root,
                spec_block_merkle_root(block.transactions@, spec_storage_mass_activated(p, block)),
            ),
        ),
{
}

// ---------------------------------------------------------------------------
// Executable helpers
// ---------------------------------------------------------------------------
/// The transactions' ids, in list order.
fn collect_ids(txs: &Vec<Transaction>) -> (r: Vec<TransactionId>)
    ensures
        r@ == spec_ids(txs@),
{
    let mut ids: Vec<TransactionId> = Vec::new();
    let n = txs.len();
    for i in 0..n
        invariant
            n == txs@.len(),
            ids@.len() == i,
            forall|j: int| 0 <= j < i ==> ids@[j] == spec_tx_id(txs@[j]),
    {
        ids.push(txs[i].id());
    }
    assert(ids@ =~= spec_ids(txs@));
    ids
}

/// Every spent outpoint of the block, in transaction order.
fn collect_block_outpoints(txs: &Vec<Transaction>) -> (r: Vec<TransactionOutpoint>)
    ensures
        r@ == spec_block_outpoints(txs@),
{
    let mut ops: Vec<TransactionOutpoint> = Vec::new();
    let n = txs.len();
    for t in 0..n
        invariant
            n == txs@.len(),
            ops@ == spec_block_outpoints(txs@.take(t as int)),
    {
        let ghost outer_prefix: Seq<TransactionOutpoint> = ops@;
        let m = txs[t].inputs.len();
        for i in 0..m
            invariant
                n == txs@.len(),
                t < n,
                m == txs@[t as int].inputs@.len(),
                ops@ == outer_prefix + spec_outpoints_of(txs@[t as int].inputs@).take(i as int),
        {
            ops.push(txs[t].inputs[i].previous_outpoint);
            assert(ops@ =~= outer_prefix + spec_outpoints_of(txs@[t as int].inputs@).take(i + 1));
        }
        proof {
            assert(spec_outpoints_of(txs@[t as int].inputs@).take(m as int) =~= spec_outpoints_of(
                txs@[t as int].inputs@,
            ));
            assert(txs@.take(t + 1).drop_last() =~= txs@.take(t as int));
            assert(txs@.take(t + 1).last() == txs@[t as int]);
        }
    }
    assert(txs@.take(n as int) =~= txs@);
    ops
}

/// The first position whose id already occurred, if any.
fn first_repeated_id(ids: &Vec<TransactionId>) -> (r: Option<usize>)
    ensures
        match r {
            Some(i) => i < ids@.len() && spec_first_dup_id(ids@, 0) == Some(i as int),
            None => spec_first_dup_id(ids@, 0) is None,
        },
{
    let n = ids.len();
    for i in 0..n
        invariant
            n == ids@.len(),
            spec_first_dup_id(ids@, 0) == spec_first_dup_id(ids@, i as int),
    {
        for j in 0..i
            invariant
                n == ids@.len(),
                i < n,
                spec_first_dup_id(ids@, 0) == spec_first_dup_id(ids@, i as int),
                forall|q: int| 0 <= q < j ==> ids@[q] != ids@[i as int],
        {
            if ids[j] == ids[i] {
                return Some(i);
            }
        }
    }
    None
}

/// The first position whose outpoint already occurred, if any.
fn first_repeated_outpoint(ops: &Vec<TransactionOutpoint>) -> (r: Option<usize>)
    ensures
        match r {
            Some(i) => i < ops@.len() && spec_first_dup_outpoint(ops@, 0) == Some(i as int),
            None => spec_first_dup_outpoint(ops@, 0) is None,
        },
{
    let n = ops.len();
    for i in 0..n
        invariant
            n == ops@.len(),
            spec_first_dup_outpoint(ops@, 0) == spec_first_dup_outpoint(ops@, i as int),
    {
        for j in 0..i
            invariant
                n == ops@.len(),
                i < n,
                spec_first_dup_outpoint(ops@, 0) == spec_first_dup_outpoint(ops@, i as int),
                forall|q: int| 0 <= q < j ==> ops@[q] != ops@[i as int],
        {
            if ops[j] == ops[i] {
                return Some(i);
            }
        }
    }
    None
}

/// What the block's transactions create before position `j`.
pub open spec fn spec_created_by_prefix(
    txs: Seq<Transaction>,
    j: int,
    op: TransactionOutpoint,
) -> bool {
    exists|a: int, b: int|
        0 <= a < j && 0 <= b < txs[a].outputs@.len() && op == #[trigger] spec_created_outpoint(
            txs,
            a,
            b,
        )
}

/// Every outpoint the block's transactions create.
fn collect_created_outpoints(txs: &Vec<Transaction>) -> (r: Vec<TransactionOutpoint>)
    ensures
        forall|op: TransactionOutpoint| #[trigger]
            r@.contains(op) <==> spec_is_block_created_outpoint(txs@, op),
{
    let mut created: Vec<TransactionOutpoint> = Vec::new();
    let n = txs.len();
    for j in 0..n
        invariant
            n == txs@.len(),
            forall|op: TransactionOutpoint| #[trigger]
                created@.contains(op) <==> spec_created_by_prefix(txs@, j as int, op),
    {
        let id = txs[j].id();
        let m = txs[j].outputs.len();
        for k in 0..m
            invariant
                n == txs@.len(),
                j < n,
                m == txs@[j as int].outputs@.len(),
                id == spec_tx_id(txs@[j as int]),
                forall|op: TransactionOutpoint| #[trigger]
                    created@.contains(op) <==> spec_created_by_prefix(txs@, j as int, op) || (
                    exists|b: int| 0 <= b < k && op == #[trigger] spec_created_outpoint(
                        txs@,
                        j as int,
                        b,
                    )),
        {
            let ghost before: Seq<TransactionOutpoint> = created@;
            let newop = TransactionOutpoint { transaction_id: id, index: k as u32 };
            created.push(newop);
            proof {
                assert(newop == spec_created_outpoint(txs@, j as int, k as int));
                assert forall|op: TransactionOutpoint| #[trigger] created@.contains(op) implies (
                spec_created_by_prefix(txs@, j as int, op) || (exists|b: int|
                    0 <= b < k + 1 && op == #[trigger] spec_created_outpoint(
                        txs@,
                        j as int,
                        b,
                    ))) by {
                    let w = choose|w: int| 0 <= w < created@.len() && created@[w] == op;
                    if w < before.len() {
                        assert(before.contains(op));
                    } else {
                        assert(op == spec_created_outpoint(txs@, j as int, k as int));
                    }
                }
                assert forall|op: TransactionOutpoint|
                    spec_created_by_prefix(txs@, j as int, op) || (exists|b: int|
                        0 <= b < k + 1 && op == #[trigger] spec_created_outpoint(
                            txs@,
                            j as int,
                            b,
                        )) implies #[trigger] created@.contains(op) by {
                    if spec_created_by_prefix(txs@, j as int, op) {
                        assert(before.contains(op));
                        let w = choose|w: int| 0 <= w < before.len() && before[w] == op;
                        assert(created@[w] == op);
                    } else {
                        let b = choose|b: int|
                            0 <= b < k + 1 && op == spec_created_outpoint(txs@, j as int, b);
                        if b < k {
                            assert(before.contains(op));
                            let w = choose|w: int| 0 <= w < before.len() && before[w] == op;
                            assert(created@[w] == op);
                        } else {
                            assert(created@[created@.len() - 1] == op);
                        }
                    }
                }
            }
        }
        proof {
            assert forall|op: TransactionOutpoint| #[trigger]
                created@.contains(op) <==> spec_created_by_prefix(txs@, j + 1, op) by {
                if created@.contains(op) {
                    if spec_created_by_prefix(txs@, j as int, op) {
                        let (a, b) = choose|a: int, b: int|
                            0 <= a < j && 0 <= b < txs@[a].outputs@.len() && op
                                == #[trigger] spec_created_outpoint(txs@, a, b);
                        assert(0 <= a < j + 1 && 0 <= b < txs@[a].outputs@.len() && op
                            == spec_created_outpoint(txs@, a, b));
                    } else {
                        let b = choose|b: int|
                            0 <= b < m && op == spec_created_outpoint(txs@, j as int, b);
                        assert(0 <= j < j + 1 && 0 <= b < txs@[j as int].outputs@.len() && op
                            == spec_created_outpoint(txs@, j as int, b));
                    }
                }
                if spec_created_by_prefix(txs@, j + 1, op) {
                    let (a, b) = choose|a: int, b: int|
                        0 <= a < j + 1 && 0 <= b < txs@[a].outputs@.len() && op
                            == #[trigger] spec_created_outpoint(txs@, a, b);
                    if a < j {
                        assert(spec_created_by_prefix(txs@, j as int, op));
                    } else {
                        assert(exists|bb: int|
                            0 <= bb < m && op == #[trigger] spec_created_outpoint(
                                txs@,
                                j as int,
                                bb,
                            ));
                    }
                }
            }
        }
    }
    created
}

/// Whether `op` occurs in `v`.
fn contains_outpoint(v: &Vec<TransactionOutpoint>, op: TransactionOutpoint) -> (r: bool)
    ensures
        r == v@.contains(op),
{
    let n = v.len();
    for i in 0..n
        invariant
            n == v@.len(),
            forall|q: int| 0 <= q < i ==> v@[q] != op,
    {
        if v[i] == op {
            return true;
        }
    }
    false
}

impl BlockBodyProcessor {
    pub fn new(
        max_block_mass: u64,
        storage_mass_activation_daa_score: u64,
        mass_calculator: MassCalculator,
        transaction_validator: TransactionValidator,
    ) -> (r: BlockBodyProcessor)
        ensures
            r == (BlockBodyProcessor {
                max_block_mass,
                storage_mass_activation_daa_score,
                mass_calculator,
                transaction_validator,
            }),
    {
        BlockBodyProcessor {
            max_block_mass,
            storage_mass_activation_daa_score,
            mass_calculator,
            transaction_validator,
        }
    }

    fn check_has_transactions(block: &Block) -> (r: Result<(), RuleError>)
        ensures
            block.transactions@.len() == 0 ==> r == Err::<(), RuleError>(RuleError::NoTransactions),
            block.transactions@.len() > 0 ==> r == Ok::<(), RuleError>(()),
    {
        if block.transactions.len() == 0 {
            return Err(RuleError::NoTransactions);
        }
        Ok(())
    }

    fn check_hash_merkle_root(block: &Block, storage_mass_activated: bool) -> (r: Result<
        (),
        RuleError,
    >)
        requires
            block.transactions@.len() >= 1,
        ensures
            r == (if spec_block_merkle_root(block.transactions@, storage_mass_activated)
                != block.header.hash_merkle_root {
                Err::<(), RuleError>(
                    RuleError::BadMerkleRoot(
                        block.header.hash_merkle_root,
                        spec_block_merkle_root(block.transactions@, storage_mass_activated),
                    ),
                )
            } else {
                Ok::<(), RuleError>(())
            }),
    {
        let calculated = calc_hash_merkle_root_with_options(
            &block.transactions,
            storage_mass_activated,
        );
        if !(calculated == block.header.hash_merkle_root) {
            return Err(RuleError::BadMerkleRoot(block.header.hash_merkle_root, calculated));
        }
        Ok(())
    }

    fn check_only_one_coinbase(block: &Block) -> (r: Result<(), RuleError>)
        requires
            block.transactions@.len() >= 1,
        ensures
            r == (if !block.transactions@[0].spec_is_coinbase() {
                Err::<(), RuleError>(RuleError::FirstTxNotCoinbase)
            } else {
                match spec_first_coinbase_after(block.transactions@, 1) {
                    Some(i) => Err::<(), RuleError>(RuleError::MultipleCoinbases((i - 1) as usize)),
                    None => Ok::<(), RuleError>(()),
                }
            }),
    {
        if !block.transactions[0].is_coinbase() {
            return Err(RuleError::FirstTxNotCoinbase);
        }
        let n = block.transactions.len();
        for i in 1..n
            invariant
                n == block.transactions@.len(),
                1 <= i,
                block.transactions@[0].spec_is_coinbase(),
                spec_first_coinbase_after(block.transactions@, 1) == spec_first_coinbase_after(
                    block.transactions@,
                    i as int,
                ),
        {
            if block.transactions[i].is_coinbase() {
                return Err(RuleError::MultipleCoinbases(i - 1));
            }
        }
        Ok(())
    }

    fn check_transactions_in_isolation(&self, block: &Block) -> (r: Result<(), RuleError>)
        ensures
            r == spec_first_invalid_tx(self.transaction_validator, block.transactions@, 0),
    {
        let n = block.transactions.len();
        for i in 0..n
            invariant
                n == block.transactions@.len(),
                spec_first_invalid_tx(self.transaction_validator, block.transactions@, 0)
                    == spec_first_invalid_tx(
                    self.transaction_validator,
                    block.transactions@,
                    i as int,
                ),
        {
            if let Err(e) = self.transaction_validator.validate_tx_in_isolation(
                &block.transactions[i],
            ) {
                return Err(
                    RuleError::TxInIsolationValidationFailed(block.transactions[i].id(), e),
                );
            }
        }
        Ok(())
    }

    fn check_block_mass(&self, block: &Block, storage_mass_activated: bool) -> (r: Result<
        u64,
        RuleError,
    >)
        ensures
            r == spec_block_mass_from(
                *self,
                block.transactions@,
                storage_mass_activated,
                0,
                0,
            ),
    {
        let mut total_mass: u64 = 0;
        let n = block.transactions.len();
        for i in 0..n
            invariant
                n == block.transactions@.len(),
                spec_block_mass_from(*self, block.transactions@, storage_mass_activated, 0, 0)
                    == spec_block_mass_from(
                    *self,
                    block.transactions@,
                    storage_mass_activated,
                    i as int,
                    total_mass,
                ),
        {
            let tx = &block.transactions[i];
            // This is only the compute part of the mass; the storage part
            // cannot be computed in isolation.
            let computed = self.mass_calculator.calc_tx_compute_mass(tx);
            if storage_mass_activated {
                let committed = tx.mass;
                // Only the lower bound is checked here; the precise mass
                // commitment is validated in context.
                if committed < computed {
                    return Err(RuleError::MassFieldTooLow(tx.id(), committed, computed));
                }
                total_mass = total_mass.saturating_add(committed);
            } else {
                total_mass = total_mass.saturating_add(computed);
            }
            if total_mass > self.max_block_mass {
                return Err(RuleError::ExceedsMassLimit(self.max_block_mass));
            }
        }
        Ok(total_mass)
    }

    fn check_duplicate_transactions(&self, block: &Block) -> (r: Result<(), RuleError>)
        ensures
            r == spec_check_duplicate_transactions(block.transactions@),
    {
        let ids = collect_ids(&block.transactions);
        match first_repeated_id(&ids) {
            Some(i) => Err(RuleError::DuplicateTransactions(ids[i])),
            None => Ok(()),
        }
    }

    fn check_block_double_spends(&self, block: &Block) -> (r: Result<(), RuleError>)
        ensures
            r == spec_check_double_spends(block.transactions@),
    {
        let ops = collect_block_outpoints(&block.transactions);
        match first_repeated_outpoint(&ops) {
            Some(i) => Err(RuleError::DoubleSpendInSameBlock(ops[i])),
            None => Ok(()),
        }
    }

    fn check_no_chained_transactions(&self, block: &Block) -> (r: Result<(), RuleError>)
        ensures
            r == spec_check_chained_transactions(block.transactions@),
    {
        let created = collect_created_outpoints(&block.transactions);
        let ops = collect_block_outpoints(&block.transactions);
        let n = ops.len();
        for i in 0..n
            invariant
                n == ops@.len(),
                ops@ == spec_block_outpoints(block.transactions@),
                forall|op: TransactionOutpoint| #[trigger]
                    created@.contains(op) <==> spec_is_block_created_outpoint(
                        block.transactions@,
                        op,
                    ),
                spec_first_chained_outpoint(block.transactions@, ops@, 0)
                    == spec_first_chained_outpoint(block.transactions@, ops@, i as int),
        {
            if contains_outpoint(&created, ops[i]) {
                return Err(RuleError::ChainedTransaction(ops[i]));
            }
        }
        Ok(())
    }

    /// Runs the full block-body isolation check, returning the total block
    /// mass, or the first rule violation in check order.
    pub fn validate_body_in_isolation(&self, block: &Block) -> (r: Result<u64, RuleError>)
        ensures
            r == spec_validate_body(*self, *block),
    {
        let storage_mass_activated = block.header.daa_score
            > self.storage_mass_activation_daa_score;

        if let Err(e) = Self::check_has_transactions(block) {
            return Err(e);
        }
        if let Err(e) = Self::check_hash_merkle_root(block, storage_mass_activated) {
            return Err(e);
        }
        if let Err(e) = Self::check_only_one_coinbase(block) {
            return Err(e);
        }
        if let Err(e) = self.check_transactions_in_isolation(block) {
            return Err(e);
        }
        let mass = match self.check_block_mass(block, storage_mass_activated) {
            Err(e) => {
                return Err(e);
            },
            Ok(mass) => mass,
        };
        if let Err(e) = self.check_duplicate_transactions(block) {
            return Err(e);
        }
        if let Err(e) = self.check_block_double_spends(block) {
            return Err(e);
        }
        if let Err(e) = self.check_no_chained_transactions(block) {
            return Err(e);
        }
        Ok(mass)
    }
}

} // verus!
