//! The consensus oracles: transaction mass, transaction identifier and
//! per-input signature digests, consumed from the ledger SDK. Each figure
//! is a pure function of the assembled transaction, so it is named by an
//! uninterpreted spec function and the trusted wrapper returns exactly
//! that name's value.

use vstd::prelude::*;
use crate::model::{AssembledTransaction, AssembledTransactionV};
use kaspa_consensus_core::config::params::Params;
use kaspa_consensus_core::hashing::sighash::{
    calc_ecdsa_signature_hash, calc_schnorr_signature_hash, SigHashReusedValuesUnsync,
};
use kaspa_consensus_core::hashing::sighash_type::SigHashType;
use kaspa_consensus_core::mass::MassCalculator;
use kaspa_consensus_core::network::NetworkType;
use kaspa_consensus_core::subnets::SubnetworkId;
use kaspa_consensus_core::tx::{
    ScriptPublicKey, SignableTransaction, Transaction, TransactionId, TransactionInput,
    TransactionOutpoint, TransactionOutput, UtxoEntry,
};

verus! {

#[verifier::external_type_specification]
#[verifier::external_body]
pub struct ExTransaction(Transaction);

#[verifier::external_type_specification]
#[verifier::external_body]
pub struct ExUtxoEntry(UtxoEntry);

#[verifier::external_type_specification]
#[verifier::external_body]
pub struct ExTransactionInput(TransactionInput);

/// What the consensus wrappers can be called on: the ledger's version-zero
/// transaction encoding, with 32-byte input txids.
pub open spec fn consensus_ready(tx: AssembledTransactionV) -> bool {
    &&& tx.version == 0
    &&& forall|i: int| 0 <= i < tx.inputs.len() ==> (#[trigger] tx.inputs[i]).txid.len() == 32
}

/// Names the result of `MassCalculator::calc_non_contextual_masses` with
/// mainnet consensus parameters: the (compute, transient) mass pair.
pub uninterp spec fn non_contextual_masses_of(tx: AssembledTransactionV) -> (u64, u64);

/// Names the result of `MassCalculator::calc_contextual_masses` with
/// mainnet consensus parameters: the storage mass, or `None` where the
/// calculator declines (an incomputable, too-high mass).
pub uninterp spec fn storage_mass_of(tx: AssembledTransactionV) -> Option<u64>;

/// The exact sum of the spent amounts.
pub open spec fn input_amount_sum(ins: Seq<crate::model::TxInputV>) -> int
    decreases ins.len(),
{
    if ins.len() == 0 {
        0
    } else {
        input_amount_sum(ins.drop_last()) + ins.last().utxo_amount
    }
}

/// When the storage-mass calculator may be consulted: it divides by the
/// spent and created amounts and sums the spent amounts exactly, so it is
/// only called on transactions with at least one input, positive amounts
/// on both sides, spent locking scripts of sane size, and an input total
/// that fits 64 bits. Anywhere else the storage mass counts as zero.
pub open spec fn storage_mass_callable(tx: AssembledTransactionV) -> bool {
    &&& tx.inputs.len() > 0
    &&& forall|i: int|
        0 <= i < tx.inputs.len() ==> (#[trigger] tx.inputs[i]).utxo_amount > 0
            && tx.inputs[i].utxo_script.len() <= 10000
    &&& forall|i: int| 0 <= i < tx.outputs.len() ==> (#[trigger] tx.outputs[i]).value > 0
    &&& input_amount_sum(tx.inputs) <= u64::MAX
}

/// Names the result of `Transaction::id`: the transaction identifier as it
/// is rendered, 64 lowercase hex digits.
pub uninterp spec fn tx_id_of(tx: AssembledTransactionV) -> Seq<char>;

/// Names the result of `calc_schnorr_signature_hash` for one input.
pub uninterp spec fn schnorr_sighash_of(
    tx: AssembledTransactionV,
    input_index: int,
    hash_type: u8,
) -> Seq<u8>;

/// Names the result of `calc_ecdsa_signature_hash` for one input.
pub uninterp spec fn ecdsa_sighash_of(
    tx: AssembledTransactionV,
    input_index: int,
    hash_type: u8,
) -> Seq<u8>;

/// The signature-hash type selectors that the ledger accepts (the allowed
/// values of `SigHashType::from_u8`).
pub open spec fn is_allowed_sighash_type(t: u8) -> bool {
    t == 1 || t == 2 || t == 4 || t == 0x81 || t == 0x82 || t == 0x84
}

/// Checks a sighash selector against the ledger's allowed values.
pub fn sighash_type_check(t: u8) -> (r: bool)
    ensures
        r == is_allowed_sighash_type(t),
{
    t == 1 || t == 2 || t == 4 || t == 0x81 || t == 0x82 || t == 0x84
}

/// Relies on `TransactionInput::new`, `TransactionOutpoint::new` and
/// `TransactionId::from_slice` to build the ledger form of each input.
/// Pure conversion; callers state their contracts over `tx` itself.
#[verifier::external_body]
fn to_inputs(tx: &AssembledTransaction) -> (r: Vec<TransactionInput>)
    requires
        consensus_ready(tx@),
{
    tx.inputs.iter().map(|i| TransactionInput::new(TransactionOutpoint::new(TransactionId::from_slice(&i.txid), i.index), i.signature_script.clone(), i.sequence, i.sig_op_count)).collect()
}

/// Relies on `UtxoEntry::new` and `ScriptPublicKey::new` to build the UTXO
/// context of each input, one entry per input, in input order. Pure
/// conversion; callers state their contracts over `tx` itself.
#[verifier::external_body]
fn to_entries(tx: &AssembledTransaction) -> (r: Vec<UtxoEntry>)
    requires
        consensus_ready(tx@),
{
    tx.inputs.iter().map(|i| UtxoEntry::new(i.utxo_amount, ScriptPublicKey::new(i.utxo_script_version, i.utxo_script.clone().into()), i.utxo_daa_score, i.utxo_is_coinbase, None)).collect()
}

/// Relies on `TransactionOutput::new`, `ScriptPublicKey::new` and
/// `Transaction::new` to build the ledger form of `tx`, with one UTXO
/// entry per input. Pure conversion; callers state their contracts over
/// `tx` itself.
#[verifier::external_body]
fn to_consensus(tx: &AssembledTransaction) -> (r: (Transaction, Vec<UtxoEntry>))
    requires
        consensus_ready(tx@),
{
    let outs = tx.outputs.iter().map(|o| TransactionOutput::new(o.value, ScriptPublicKey::new(o.script_version, o.script.clone().into()))).collect();
    (Transaction::new(tx.version, to_inputs(tx), outs, tx.lock_time, SubnetworkId::default(), tx.gas, tx.payload.clone()), to_entries(tx))
}

/// Relies on `MassCalculator::calc_non_contextual_masses` (mainnet
/// parameters): the compute and transient masses of the transaction.
#[verifier::external_body]
pub fn non_contextual_masses(tx: &AssembledTransaction) -> (r: (u64, u64))
    requires
        consensus_ready(tx@),
    ensures
        r == non_contextual_masses_of(tx@),
{
    let (ktx, _entries) = to_consensus(tx);
    let m = MassCalculator::new_with_consensus_params(&Params::from(NetworkType::Mainnet)).calc_non_contextual_masses(&ktx);
    (m.compute_mass, m.transient_mass)
}

/// Relies on `MassCalculator::calc_contextual_masses` (mainnet
/// parameters): the storage mass of the transaction in its UTXO context.
/// Outside its documented assumptions the calculator panics, so the
/// callability guard is part of the contract.
#[verifier::external_body]
pub fn contextual_mass(tx: &AssembledTransaction) -> (r: Option<u64>)
    requires
        consensus_ready(tx@),
        storage_mass_callable(tx@),
    ensures
        r == storage_mass_of(tx@),
{
    let (ktx, entries) = to_consensus(tx);
    let s = SignableTransaction::with_entries(ktx, entries);
    let mc = MassCalculator::new_with_consensus_params(&Params::from(NetworkType::Mainnet));
    let r = mc.calc_contextual_masses(&s.as_verifiable()).map(|c| c.storage_mass);
    r
}

/// Relies on `Transaction::id` (and its `Display` rendering): the derived
/// transaction identifier, a 32-byte hash shown as 64 lowercase hex digits.
#[verifier::external_body]
pub fn consensus_tx_id(tx: &AssembledTransaction) -> (r: String)
    requires
        consensus_ready(tx@),
    ensures
        r@ == tx_id_of(tx@),
        r@.len() == 64,
        crate::hexcode::is_valid_hex(r@),
{
    let (ktx, _entries) = to_consensus(tx);
    ktx.id().to_string()
}

/// Relies on `calc_schnorr_signature_hash`: the 32-byte digest one input's
/// Schnorr signature commits to.
#[verifier::external_body]
pub fn schnorr_sighash(tx: &AssembledTransaction, input_index: usize, hash_type: u8) -> (r: Vec<
    u8,
>)
    requires
        consensus_ready(tx@),
        input_index < tx@.inputs.len(),
        is_allowed_sighash_type(hash_type),
    ensures
        r@ == schnorr_sighash_of(tx@, input_index as int, hash_type),
        r@.len() == 32,
{
    let (ktx, entries) = to_consensus(tx);
    let s = SignableTransaction::with_entries(ktx, entries);
    let reused = SigHashReusedValuesUnsync::new();
    let t = SigHashType::from_u8(hash_type).unwrap();
    let r = calc_schnorr_signature_hash(&s.as_verifiable(), input_index, t, &reused);
    r.as_bytes().to_vec()
}

/// Relies on `calc_ecdsa_signature_hash`: the 32-byte digest one input's
/// ECDSA signature commits to.
#[verifier::external_body]
pub fn ecdsa_sighash(tx: &AssembledTransaction, input_index: usize, hash_type: u8) -> (r: Vec<u8>)
    requires
        consensus_ready(tx@),
        input_index < tx@.inputs.len(),
        is_allowed_sighash_type(hash_type),
    ensures
        r@ == ecdsa_sighash_of(tx@, input_index as int, hash_type),
        r@.len() == 32,
{
    let (ktx, entries) = to_consensus(tx);
    let s = SignableTransaction::with_entries(ktx, entries);
    let reused = SigHashReusedValuesUnsync::new();
    let t = SigHashType::from_u8(hash_type).unwrap();
    let r = calc_ecdsa_signature_hash(&s.as_verifiable(), input_index, t, &reused);
    r.as_bytes().to_vec()
}

} // verus!
