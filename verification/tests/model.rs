//! The data model: hashing, canonical serialization, merkle roots and mass.

use consensus_isolation::hashing::{Hash32, TransactionId};
use consensus_isolation::mass::MassCalculator;
use consensus_isolation::merkle::{calc_hash_merkle_root, calc_hash_merkle_root_with_options};
use consensus_isolation::tx::{
    serialize_transaction, ScriptPublicKey, Transaction, TransactionInput, TransactionOutpoint,
    TransactionOutput, SUBNETWORK_ID_COINBASE, SUBNETWORK_ID_NATIVE,
};

fn sample_input(id_word: u64, index: u32, sig_op_count: u8) -> TransactionInput {
    TransactionInput {
        previous_outpoint: TransactionOutpoint {
            transaction_id: TransactionId { w0: id_word, w1: 0, w2: 0, w3: 0 },
            index,
        },
        signature_script: vec![],
        sequence: 0,
        sig_op_count,
    }
}

fn sample_tx(id_word: u64) -> Transaction {
    Transaction::new(
        0,
        vec![sample_input(id_word, 0, 5)],
        vec![TransactionOutput {
            value: 1_000,
            script_public_key: ScriptPublicKey::new(0, vec![1, 2, 3]),
        }],
        0,
        SUBNETWORK_ID_NATIVE,
        0,
        vec![],
    )
}

#[test]
fn hash_from_slice_reads_little_endian_words() {
    let mut bytes = [0u8; 32];
    bytes[0] = 1;
    bytes[8] = 2;
    bytes[16] = 3;
    bytes[25] = 4;
    let h = Hash32::from_slice(&bytes);
    assert_eq!(h, Hash32 { w0: 1, w1: 2, w2: 3, w3: 4 * 0x100 });
}

#[test]
fn serialization_commits_to_mass_only_when_asked() {
    let tx = sample_tx(7);
    let without = serialize_transaction(&tx, false);
    let with = serialize_transaction(&tx, true);
    assert_eq!(with.len(), without.len() + 8);
    assert_eq!(&with[..without.len()], &without[..]);
}

#[test]
fn transaction_id_is_a_digest_not_the_serialization() {
    // If the hash oracle handed its input back unchanged, the id would be the
    // first 32 bytes of the domain-tagged serialization. It must not be.
    let tx = sample_tx(7);
    let ser = serialize_transaction(&tx, false);
    let mut tagged = vec![consensus_isolation::tx::TX_ID_DOMAIN];
    tagged.extend_from_slice(&ser);
    let echoed = Hash32::from_slice(&tagged[..32]);
    assert_ne!(tx.id(), echoed);
}

#[test]
fn transaction_id_is_deterministic_and_content_sensitive() {
    let a = sample_tx(7);
    let b = sample_tx(7);
    assert_eq!(a.id(), b.id());
    let mut c = sample_tx(7);
    c.version += 1;
    assert_ne!(a.id(), c.id());
}

#[test]
fn merkle_root_of_one_transaction_is_its_digest() {
    let tx = sample_tx(7);
    let root = calc_hash_merkle_root(&vec![tx.clone()]);
    assert_eq!(root, tx.digest(false));
}

#[test]
fn merkle_root_is_order_sensitive() {
    let a = sample_tx(1);
    let b = sample_tx(2);
    let ab = calc_hash_merkle_root(&vec![a.clone(), b.clone()]);
    let ba = calc_hash_merkle_root(&vec![b, a]);
    assert_ne!(ab, ba);
}

#[test]
fn merkle_variants_differ_only_through_the_mass_commitment() {
    let mut tx = sample_tx(1);
    tx.mass = 1234;
    let plain = calc_hash_merkle_root_with_options(&vec![tx.clone()], false);
    let committed = calc_hash_merkle_root_with_options(&vec![tx.clone()], true);
    assert_ne!(plain, committed);
    let mut other = tx.clone();
    other.mass = 0;
    // Without the commitment the declared mass does not matter.
    assert_eq!(calc_hash_merkle_root_with_options(&vec![other], false), plain);
}

#[test]
fn compute_mass_charges_size_keys_and_sig_ops() {
    let calc = MassCalculator::new(1, 10, 1_000);
    let tx = sample_tx(7);
    // Serialized size: version 2, input count 8, one input 53 (outpoint 36,
    // script length prefix 8, empty script, sequence 8, sig op count 1),
    // output count 8, one output 21 (value 8, key version 2, script length
    // prefix 8, three script bytes), lock time 8, subnetwork 8, gas 8,
    // payload length prefix 8.
    assert_eq!(serialize_transaction(&tx, false).len(), 124);
    // Mass: 124 size bytes, (2 + 3) key bytes at 10 each, 5 sig ops at 1000.
    assert_eq!(calc.calc_tx_compute_mass(&tx), 124 + 50 + 5_000);
}

#[test]
fn coinbase_compute_mass_is_zero() {
    let calc = MassCalculator::new(1, 10, 1_000);
    let cb = Transaction::new(
        0,
        vec![],
        vec![TransactionOutput {
            value: 1_000,
            script_public_key: ScriptPublicKey::new(0, vec![1, 2, 3]),
        }],
        0,
        SUBNETWORK_ID_COINBASE,
        0,
        vec![9, 0, 0],
    );
    assert_eq!(calc.calc_tx_compute_mass(&cb), 0);
}
