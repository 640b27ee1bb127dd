//! Context-free (isolation) validation for blocks and transactions of a
//! DAG-based ledger, together with a canonical script byte-code builder.
//!
//! Everything a node can check about a candidate block using only the block
//! itself lives here: structural checks, the merkle commitment, per-transaction
//! rules, mass accounting and intra-block integrity. The script builder
//! produces canonically encoded push sequences under the engine's size caps.

pub mod body_validate;
pub mod hashing;
pub mod mass;
pub mod merkle;
pub mod opcodes;
pub mod script_builder;
pub mod tx;
pub mod tx_validate;

use vstd::prelude::*;

verus! {

/// Maximum total script length the script engine accepts.
pub const MAX_SCRIPTS_SIZE: usize = 10_000;

/// Maximum size of a single pushed data element.
pub const MAX_SCRIPT_ELEMENT_SIZE: usize = 520;

/// Largest monetary amount (in sompi) a single output or an output sum may hold.
pub const MAX_SOMPI: u64 = 2_900_000_000_000_000_000;

/// The only transaction version this layer recognizes.
pub const TX_VERSION: u16 = 0;

} // verus!
