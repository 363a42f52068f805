//! The fee estimator: builds a throwaway transaction with placeholder
//! spending scripts sized to a typical signature, asks the mass oracles for
//! its cost, and derives the minimum fee at a given rate. The fee formula
//! `min_fee = ceil(mass * rate / 1000)` is exact, monotone in the mass for
//! a fixed rate and monotone in the rate for a fixed mass.

use vstd::prelude::*;
use vstd::arithmetic::div_mod::lemma_div_is_ordered;
use vstd::arithmetic::mul::{lemma_mul_inequality, lemma_mul_upper_bound};
use crate::address::{addr_prefix_code_of, expected_prefix_code, parse_address, pay_script_of};
use crate::consensus::{
    consensus_ready, contextual_mass, input_amount_sum, non_contextual_masses,
    non_contextual_masses_of, storage_mass_callable, storage_mass_of,
};
use crate::errors::EngineError;
use crate::hexcode::{bytes_of_hex, hex_decode, is_valid_hex};
use crate::model::{AssembledTransaction, AssembledTransactionV, TxInput, TxInputV, TxOutput, TxOutputV};
use crate::strutil::{trim_spaces, trim_spaces_spec};
use vstd::string::StrSliceExecFns;

verus! {

/// The default fee rate, in sompi per kilo-mass.
pub const DEFAULT_FEE_RATE: u64 = 1000;

/// A UTXO handed to the estimator or builder across the boundary: the txid
/// and locking script still in hex.
#[derive(Clone, Debug)]
pub struct KaspaUtxoEntry {
    pub txid_be_hex: String,
    pub index: u32,
    pub amount: u64,
    pub script_pub_key_hex: String,
}

#[verifier::ext_equal]
pub ghost struct KaspaUtxoEntryV {
    pub txid_be_hex: Seq<char>,
    pub index: u32,
    pub amount: u64,
    pub script_pub_key_hex: Seq<char>,
}

impl View for KaspaUtxoEntry {
    type V = KaspaUtxoEntryV;

    open spec fn view(&self) -> KaspaUtxoEntryV {
        KaspaUtxoEntryV {
            txid_be_hex: self.txid_be_hex@,
            index: self.index,
            amount: self.amount,
            script_pub_key_hex: self.script_pub_key_hex@,
        }
    }
}

/// A declared output handed to the estimator or builder across the
/// boundary.
#[derive(Clone, Debug)]
pub struct KaspaOutputEntry {
    pub address: String,
    pub amount: u64,
}

#[verifier::ext_equal]
pub ghost struct KaspaOutputEntryV {
    pub address: Seq<char>,
    pub amount: u64,
}

impl View for KaspaOutputEntry {
    type V = KaspaOutputEntryV;

    open spec fn view(&self) -> KaspaOutputEntryV {
        KaspaOutputEntryV { address: self.address@, amount: self.amount }
    }
}

/// The estimator's result: the transaction's mass, the minimum fee at the
/// effective rate, the totals, and the signed leftover.
#[derive(Clone, Copy, Debug, PartialEq, Eq, Structural)]
pub struct FeeEstimate {
    pub mass: u64,
    pub min_fee: u64,
    pub total_input: u64,
    pub total_output: u64,
    pub change: i64,
}

/// The rate actually used: the default whenever the caller's rate is
/// non-positive.
pub open spec fn effective_rate(fee_rate: i64) -> u64 {
    if fee_rate <= 0 {
        DEFAULT_FEE_RATE
    } else {
        fee_rate as u64
    }
}

/// Returns the effective fee rate for a caller-supplied rate.
pub fn effective_rate_exec(fee_rate: i64) -> (r: u64)
    ensures
        r == effective_rate(fee_rate),
{
    if fee_rate <= 0 {
        DEFAULT_FEE_RATE
    } else {
        fee_rate as u64
    }
}

/// The minimum network fee: `ceil(mass * rate / 1000)`.
pub open spec fn min_fee(mass: int, rate: int) -> int {
    (mass * rate + 999) / 1000
}

/// Clamp to the unsigned 64-bit range (from above).
pub open spec fn clamp_u64(x: int) -> int {
    if x > u64::MAX {
        u64::MAX as int
    } else {
        x
    }
}

/// Clamp to the signed 64-bit range.
pub open spec fn clamp_i64(x: int) -> int {
    if x < i64::MIN {
        i64::MIN as int
    } else if x > i64::MAX {
        i64::MAX as int
    } else {
        x
    }
}

/// Saturating 64-bit addition.
pub open spec fn sat_add_u64(a: int, b: int) -> int {
    if a + b > u64::MAX {
        u64::MAX as int
    } else {
        a + b
    }
}

/// The fee is exactly `ceil(mass * rate / 1000)`: zero mass costs nothing,
/// and the least positive mass at the least positive rate costs one unit.
pub proof fn lemma_min_fee_boundaries(rate: int)
    requires
        rate >= 0,
    ensures
        min_fee(0, rate) == 0,
        min_fee(1, 1) == 1,
{
}

/// For a fixed rate, the fee never decreases when the mass grows.
pub proof fn lemma_min_fee_monotone_in_mass(m1: int, m2: int, rate: int)
    requires
        0 <= m1 <= m2,
        0 <= rate,
    ensures
        min_fee(m1, rate) <= min_fee(m2, rate),
{
    lemma_mul_inequality(m1, m2, rate);
    lemma_div_is_ordered(m1 * rate + 999, m2 * rate + 999, 1000);
}

/// For a fixed mass, the fee never decreases when the rate grows.
pub proof fn lemma_min_fee_monotone_in_rate(mass: int, r1: int, r2: int)
    requires
        0 <= mass,
        0 <= r1 <= r2,
    ensures
        min_fee(mass, r1) <= min_fee(mass, r2),
{
    lemma_mul_inequality(r1, r2, mass);
    assert(mass * r1 == r1 * mass && mass * r2 == r2 * mass) by (nonlinear_arith);
    lemma_div_is_ordered(mass * r1 + 999, mass * r2 + 999, 1000);
}

/// The authoritative mass of a transaction: the greatest of its compute,
/// transient and storage masses (storage counting as zero where the
/// calculator declines or may not be consulted at all).
pub open spec fn authoritative_mass(tx: AssembledTransactionV) -> int {
    let c = non_contextual_masses_of(tx).0 as int;
    let t = non_contextual_masses_of(tx).1 as int;
    let s = if storage_mass_callable(tx) {
        match storage_mass_of(tx) {
            Some(v) => v as int,
            None => 0,
        }
    } else {
        0
    };
    if c >= t && c >= s {
        c
    } else if t >= s {
        t
    } else {
        s
    }
}

/// Computes the authoritative mass of `tx` from the consensus oracles.
pub fn compute_tx_mass(tx: &AssembledTransaction) -> (r: u64)
    requires
        consensus_ready(tx@),
    ensures
        r as int == authoritative_mass(tx@),
{
    let (c, t) = non_contextual_masses(tx);
    let s = if storage_guard(tx) {
        match contextual_mass(tx) {
            Some(v) => v,
            None => 0,
        }
    } else {
        0
    };
    let m = if c >= t {
        c
    } else {
        t
    };
    if m >= s {
        m
    } else {
        s
    }
}

/// Checks [`storage_mass_callable`] on a concrete transaction.
fn storage_guard(tx: &AssembledTransaction) -> (r: bool)
    ensures
        r == storage_mass_callable(tx@),
{
    let ghost ins = tx@.inputs;
    if tx.inputs.len() == 0 {
        return false;
    }
    let mut sum: u64 = 0;
    let mut i: usize = 0;
    while i < tx.inputs.len()
        invariant
            0 <= i <= ins.len(),
            ins == tx@.inputs,
            ins.len() == tx.inputs@.len(),
            sum as int == input_amount_sum(ins.take(i as int)),
            forall|j: int|
                0 <= j < i ==> (#[trigger] ins[j]).utxo_amount > 0 && ins[j].utxo_script.len()
                    <= 10000,
        decreases ins.len() - i,
    {
        let u = &tx.inputs[i];
        proof {
            assert(ins[i as int] == tx.inputs@[i as int]@);
        }
        if u.utxo_amount == 0 || u.utxo_script.len() > 10000 {
            return false;
        }
        proof {
            assert(ins.take(i + 1).drop_last() =~= ins.take(i as int));
            assert(ins.take(i + 1).last() == ins[i as int]);
        }
        sum = match sum.checked_add(u.utxo_amount) {
            Some(v) => v,
            None => {
                proof {
                    lemma_input_sum_prefix(ins, i + 1);
                }
                return false;
            },
        };
        i = i + 1;
    }
    proof {
        assert(ins.take(ins.len() as int) =~= ins);
    }
    let mut k: usize = 0;
    while k < tx.outputs.len()
        invariant
            0 <= k <= tx@.outputs.len(),
            tx@.outputs.len() == tx.outputs@.len(),
            input_amount_sum(tx@.inputs) <= u64::MAX,
            tx@.inputs.len() > 0,
            forall|j: int|
                0 <= j < tx@.inputs.len() ==> (#[trigger] tx@.inputs[j]).utxo_amount > 0
                    && tx@.inputs[j].utxo_script.len() <= 10000,
            forall|j: int| 0 <= j < k ==> (#[trigger] tx@.outputs[j]).value > 0,
        decreases tx@.outputs.len() - k,
    {
        proof {
            assert(tx@.outputs[k as int] == tx.outputs@[k as int]@);
        }
        if tx.outputs[k].value == 0 {
            return false;
        }
        k = k + 1;
    }
    true
}

/// A prefix of the spent amounts never outweighs the whole.
proof fn lemma_input_sum_prefix(ins: Seq<TxInputV>, i: int)
    requires
        0 <= i <= ins.len(),
    ensures
        input_amount_sum(ins.take(i)) <= input_amount_sum(ins),
    decreases ins.len() - i,
{
    if i < ins.len() {
        lemma_input_sum_prefix(ins, i + 1);
        assert(ins.take(i + 1).drop_last() =~= ins.take(i));
        assert(ins.take(i + 1).last() == ins[i]);
    } else {
        assert(ins.take(i) =~= ins);
    }
}

/// Computes `ceil(mass * rate / 1000)` exactly, in 128 bits.
pub fn min_fee_u128(mass: u64, rate: u64) -> (r: u128)
    ensures
        r as int == min_fee(mass as int, rate as int),
{
    proof {
        lemma_mul_upper_bound(mass as int, u64::MAX as int, rate as int, u64::MAX as int);
        assert((u64::MAX as int) * (u64::MAX as int) + 999 <= u128::MAX as int);
    }
    let p: u128 = (mass as u128) * (rate as u128);
    (p + 999) / 1000
}

/// The minimum fee clamped to 64 bits, as the estimator reports it.
pub fn min_fee_clamped(mass: u64, rate: u64) -> (r: u64)
    ensures
        r as int == clamp_u64(min_fee(mass as int, rate as int)),
{
    let f = min_fee_u128(mass, rate);
    if f > u64::MAX as u128 {
        u64::MAX
    } else {
        f as u64
    }
}

/// Saturating add, as the totals use it.
pub fn sat_add(a: u64, b: u64) -> (r: u64)
    ensures
        r as int == sat_add_u64(a as int, b as int),
{
    if u64::MAX - b < a {
        u64::MAX
    } else {
        a + b
    }
}

/// How one boundary UTXO becomes a placeholder transaction input: its txid
/// hex must decode to 32 bytes and its locking-script hex (with an optional
/// version prefix, stripped) must decode; the spending script is sized to a
/// typical signature so the mass estimate is realistic before signing.
pub open spec fn estimate_input_spec(u: KaspaUtxoEntryV) -> Result<TxInputV, EngineError> {
    let txid_hex = trim_spaces_spec(u.txid_be_hex);
    if !is_valid_hex(txid_hex) {
        Err(EngineError::DecodeHex)
    } else if bytes_of_hex(txid_hex).len() != 32 {
        Err(EngineError::DecodeLength)
    } else if !is_valid_hex(spk_strip_spec(u.script_pub_key_hex)) {
        Err(EngineError::DecodeHex)
    } else {
        Ok(TxInputV {
            txid: bytes_of_hex(txid_hex),
            index: u.index,
            signature_script: Seq::new(66, |i: int| 0u8),
            sequence: 0,
            sig_op_count: 1,
            utxo_amount: u.amount,
            utxo_script_version: 0,
            utxo_script: bytes_of_hex(spk_strip_spec(u.script_pub_key_hex)),
            utxo_daa_score: 0,
            utxo_is_coinbase: false,
        })
    }
}

/// How one boundary output becomes a transaction output: its address must
/// parse and carry the expected network prefix; the locking script is the
/// address's canonical pay script.
pub open spec fn estimate_output_spec(o: KaspaOutputEntryV, is_testnet: bool) -> Result<
    TxOutputV,
    EngineError,
> {
    if addr_prefix_code_of(o.address) is None {
        Err(EngineError::AddressParse)
    } else if addr_prefix_code_of(o.address) != Some(expected_prefix_code(is_testnet)) {
        Err(EngineError::AddressNetwork)
    } else {
        Ok(TxOutputV { value: o.amount, script_version: 0, script: pay_script_of(o.address) })
    }
}

pub open spec fn estimate_inputs_spec(s: Seq<KaspaUtxoEntryV>) -> Result<Seq<TxInputV>, EngineError>
    decreases s.len(),
{
    if s.len() == 0 {
        Ok(Seq::<TxInputV>::empty())
    } else {
        match estimate_input_spec(s.first()) {
            Err(e) => Err(e),
            Ok(v) => match estimate_inputs_spec(s.drop_first()) {
                Err(e) => Err(e),
                Ok(vs) => Ok(seq![v] + vs),
            },
        }
    }
}

pub open spec fn estimate_outputs_spec(s: Seq<KaspaOutputEntryV>, is_testnet: bool) -> Result<
    Seq<TxOutputV>,
    EngineError,
>
    decreases s.len(),
{
    if s.len() == 0 {
        Ok(Seq::<TxOutputV>::empty())
    } else {
        match estimate_output_spec(s.first(), is_testnet) {
            Err(e) => Err(e),
            Ok(v) => match estimate_outputs_spec(s.drop_first(), is_testnet) {
                Err(e) => Err(e),
                Ok(vs) => Ok(seq![v] + vs),
            },
        }
    }
}

/// The payload hex accepted by the estimator and builder: surrounding
/// whitespace is ignored and an empty string means no payload.
pub open spec fn payload_spec(s: Seq<char>) -> Result<Seq<u8>, EngineError> {
    let t = trim_spaces_spec(s);
    if t.len() == 0 {
        Ok(Seq::<u8>::empty())
    } else if !is_valid_hex(t) {
        Err(EngineError::DecodeHex)
    } else {
        Ok(bytes_of_hex(t))
    }
}

/// The locking script of a boundary UTXO: surrounding whitespace is
/// ignored, and an optional leading `0000` encoding-version prefix is
/// stripped before hex interpretation.
pub open spec fn spk_strip_spec(s: Seq<char>) -> Seq<char> {
    let t = trim_spaces_spec(s);
    if t.len() >= 4 && t[0] == '0' && t[1] == '0' && t[2] == '0' && t[3] == '0' {
        t.skip(4)
    } else {
        t
    }
}

/// Decodes a locking-script hex field, stripping an optional 2-byte
/// version prefix (`0000`) first.
pub fn decode_spk_hex_strip_optional_version_prefix(hex_str: &str) -> (r: Result<
    Vec<u8>,
    EngineError,
>)
    ensures
        r is Ok <==> is_valid_hex(spk_strip_spec(hex_str@)),
        r is Ok ==> r->Ok_0@ == bytes_of_hex(spk_strip_spec(hex_str@)),
        r is Err ==> r->Err_0 == EngineError::DecodeHex,
{
    let t = trim_spaces(hex_str);
    let len = t.unicode_len();
    let stripped: &str = if len >= 4 && t.get_char(0) == '0' && t.get_char(1) == '0' && t.get_char(
        2,
    ) == '0' && t.get_char(3) == '0' {
        t.substring_char(4, len)
    } else {
        t
    };
    proof {
        assert(stripped@ =~= spk_strip_spec(hex_str@));
    }
    hex_decode(stripped)
}

/// The throwaway transaction the estimator prices: the decoded inputs and
/// outputs with zero lock time and gas, no identifier, and the given
/// payload.
pub open spec fn estimate_tx_spec(
    ins: Seq<TxInputV>,
    outs: Seq<TxOutputV>,
    payload: Seq<u8>,
) -> AssembledTransactionV {
    AssembledTransactionV {
        version: 0,
        inputs: ins,
        outputs: outs,
        lock_time: 0,
        gas: 0,
        payload: payload,
        id: Seq::<char>::empty(),
        mass: 0,
    }
}

pub open spec fn total_in_spec(ins: Seq<TxInputV>) -> int
    decreases ins.len(),
{
    if ins.len() == 0 {
        0
    } else {
        sat_add_u64(total_in_spec(ins.drop_last()), ins.last().utxo_amount as int)
    }
}

pub open spec fn total_out_spec(outs: Seq<TxOutputV>) -> int
    decreases outs.len(),
{
    if outs.len() == 0 {
        0
    } else {
        sat_add_u64(total_out_spec(outs.drop_last()), outs.last().value as int)
    }
}

proof fn lemma_estimate_inputs_ok(s: Seq<KaspaUtxoEntryV>, vs: Seq<TxInputV>)
    requires
        s.len() == vs.len(),
        forall|j: int|
            0 <= j < s.len() ==> estimate_input_spec(#[trigger] s[j]) == Ok::<
                TxInputV,
                EngineError,
            >(vs[j]),
    ensures
        estimate_inputs_spec(s) == Ok::<Seq<TxInputV>, EngineError>(vs),
    decreases s.len(),
{
    if s.len() == 0 {
        assert(vs =~= Seq::<TxInputV>::empty());
    } else {
        lemma_estimate_inputs_ok(s.drop_first(), vs.drop_first());
        assert(vs =~= seq![vs.first()] + vs.drop_first());
    }
}

/// The elementwise reading of a successful input fold.
proof fn lemma_estimate_inputs_elts(s: Seq<KaspaUtxoEntryV>, vs: Seq<TxInputV>)
    requires
        estimate_inputs_spec(s) == Ok::<Seq<TxInputV>, EngineError>(vs),
    ensures
        vs.len() == s.len(),
        forall|j: int|
            0 <= j < s.len() ==> estimate_input_spec(#[trigger] s[j]) == Ok::<
                TxInputV,
                EngineError,
            >(vs[j]),
    decreases s.len(),
{
    if s.len() > 0 {
        let tail = estimate_inputs_spec(s.drop_first())->Ok_0;
        lemma_estimate_inputs_elts(s.drop_first(), tail);
        assert(vs == seq![estimate_input_spec(s.first())->Ok_0] + tail);
        assert(forall|j: int| 1 <= j < s.len() ==> #[trigger] s[j] == s.drop_first()[j - 1]);
    }
}

proof fn lemma_estimate_inputs_err(s: Seq<KaspaUtxoEntryV>, i: int, e: EngineError)
    requires
        0 <= i < s.len(),
        forall|j: int| 0 <= j < i ==> estimate_input_spec(#[trigger] s[j]) is Ok,
        estimate_input_spec(s[i]) == Err::<TxInputV, EngineError>(e),
    ensures
        estimate_inputs_spec(s) == Err::<Seq<TxInputV>, EngineError>(e),
    decreases s.len(),
{
    if i > 0 {
        lemma_estimate_inputs_err(s.drop_first(), i - 1, e);
    }
}

proof fn lemma_estimate_outputs_ok(s: Seq<KaspaOutputEntryV>, vs: Seq<TxOutputV>, is_testnet: bool)
    requires
        s.len() == vs.len(),
        forall|j: int|
            0 <= j < s.len() ==> estimate_output_spec(#[trigger] s[j], is_testnet) == Ok::<
                TxOutputV,
                EngineError,
            >(vs[j]),
    ensures
        estimate_outputs_spec(s, is_testnet) == Ok::<Seq<TxOutputV>, EngineError>(vs),
    decreases s.len(),
{
    if s.len() == 0 {
        assert(vs =~= Seq::<TxOutputV>::empty());
    } else {
        lemma_estimate_outputs_ok(s.drop_first(), vs.drop_first(), is_testnet);
        assert(vs =~= seq![vs.first()] + vs.drop_first());
    }
}

proof fn lemma_estimate_outputs_err(s: Seq<KaspaOutputEntryV>, i: int, e: EngineError, is_testnet: bool)
    requires
        0 <= i < s.len(),
        forall|j: int| 0 <= j < i ==> estimate_output_spec(#[trigger] s[j], is_testnet) is Ok,
        estimate_output_spec(s[i], is_testnet) == Err::<TxOutputV, EngineError>(e),
    ensures
        estimate_outputs_spec(s, is_testnet) == Err::<Seq<TxOutputV>, EngineError>(e),
    decreases s.len(),
{
    if i > 0 {
        lemma_estimate_outputs_err(s.drop_first(), i - 1, e, is_testnet);
    }
}

/// Decodes the boundary UTXOs into placeholder transaction inputs.
pub fn build_estimate_inputs(utxos: &Vec<KaspaUtxoEntry>) -> (r: Result<Vec<TxInput>, EngineError>)
    ensures
        r is Ok <==> estimate_inputs_spec(utxos@.map_values(|u: KaspaUtxoEntry| u@)) is Ok,
        r is Ok ==> estimate_inputs_spec(utxos@.map_values(|u: KaspaUtxoEntry| u@)) == Ok::<
            Seq<TxInputV>,
            EngineError,
        >(r->Ok_0@.map_values(|t: TxInput| t@)),
        r is Err ==> estimate_inputs_spec(utxos@.map_values(|u: KaspaUtxoEntry| u@)) == Err::<
            Seq<TxInputV>,
            EngineError,
        >(r->Err_0),
{
    let ghost s = utxos@.map_values(|u: KaspaUtxoEntry| u@);
    let mut ins: Vec<TxInput> = Vec::new();
    let mut i: usize = 0;
    while i < utxos.len()
        invariant
            0 <= i <= utxos@.len(),
            ins@.len() == i,
            s == utxos@.map_values(|u: KaspaUtxoEntry| u@),
            forall|j: int|
                0 <= j < i ==> estimate_input_spec(#[trigger] s[j]) == Ok::<
                    TxInputV,
                    EngineError,
                >(ins@[j]@),
        decreases utxos@.len() - i,
    {
        let u = &utxos[i];
        let txid_hex = trim_spaces(u.txid_be_hex.as_str());
        let txid = match hex_decode(txid_hex) {
            Ok(v) => v,
            Err(_) => {
                proof {
                    lemma_estimate_inputs_err(s, i as int, EngineError::DecodeHex);
                }
                return Err(EngineError::DecodeHex);
            },
        };
        if txid.len() != 32 {
            proof {
                lemma_estimate_inputs_err(s, i as int, EngineError::DecodeLength);
            }
            return Err(EngineError::DecodeLength);
        }
        let script = match decode_spk_hex_strip_optional_version_prefix(
            u.script_pub_key_hex.as_str(),
        ) {
            Ok(v) => v,
            Err(_) => {
                proof {
                    lemma_estimate_inputs_err(s, i as int, EngineError::DecodeHex);
                }
                return Err(EngineError::DecodeHex);
            },
        };
        let placeholder: Vec<u8> = vec![0u8; 66];
        proof {
            assert(placeholder@ =~= Seq::new(66, |k: int| 0u8));
        }
        let t = TxInput {
            txid,
            index: u.index,
            signature_script: placeholder,
            sequence: 0,
            sig_op_count: 1,
            utxo_amount: u.amount,
            utxo_script_version: 0,
            utxo_script: script,
            utxo_daa_score: 0,
            utxo_is_coinbase: false,
        };
        proof {
            assert(estimate_input_spec(s[i as int]) == Ok::<TxInputV, EngineError>(t@)) by {
                assert(t@ =~= estimate_input_spec(s[i as int])->Ok_0);
            }
        }
        ins.push(t);
        i = i + 1;
    }
    proof {
        lemma_estimate_inputs_ok(s, ins@.map_values(|t: TxInput| t@));
    }
    Ok(ins)
}

/// Decodes and validates the boundary outputs against the network flag.
pub fn build_estimate_outputs(outputs: &Vec<KaspaOutputEntry>, is_testnet: bool) -> (r: Result<
    Vec<TxOutput>,
    EngineError,
>)
    ensures
        r is Ok <==> estimate_outputs_spec(
            outputs@.map_values(|o: KaspaOutputEntry| o@),
            is_testnet,
        ) is Ok,
        r is Ok ==> estimate_outputs_spec(
            outputs@.map_values(|o: KaspaOutputEntry| o@),
            is_testnet,
        ) == Ok::<Seq<TxOutputV>, EngineError>(r->Ok_0@.map_values(|t: TxOutput| t@)),
        r is Err ==> estimate_outputs_spec(
            outputs@.map_values(|o: KaspaOutputEntry| o@),
            is_testnet,
        ) == Err::<Seq<TxOutputV>, EngineError>(r->Err_0),
{
    let ghost s = outputs@.map_values(|o: KaspaOutputEntry| o@);
    let mut outs: Vec<TxOutput> = Vec::new();
    let mut i: usize = 0;
    while i < outputs.len()
        invariant
            0 <= i <= outputs@.len(),
            outs@.len() == i,
            s == outputs@.map_values(|o: KaspaOutputEntry| o@),
            forall|j: int|
                0 <= j < i ==> estimate_output_spec(#[trigger] s[j], is_testnet) == Ok::<
                    TxOutputV,
                    EngineError,
                >(outs@[j]@),
        decreases outputs@.len() - i,
    {
        let o = &outputs[i];
        let (code, script) = match parse_address(o.address.as_str()) {
            Some(p) => p,
            None => {
                proof {
                    lemma_estimate_outputs_err(s, i as int, EngineError::AddressParse, is_testnet);
                }
                return Err(EngineError::AddressParse);
            },
        };
        let expected: u8 = if is_testnet {
            crate::address::PREFIX_TESTNET
        } else {
            crate::address::PREFIX_MAINNET
        };
        if code != expected {
            proof {
                lemma_estimate_outputs_err(s, i as int, EngineError::AddressNetwork, is_testnet);
            }
            return Err(EngineError::AddressNetwork);
        }
        let t = TxOutput { value: o.amount, script_version: 0, script };
        proof {
            assert(estimate_output_spec(s[i as int], is_testnet) == Ok::<TxOutputV, EngineError>(
                t@,
            )) by {
                assert(t@ =~= estimate_output_spec(s[i as int], is_testnet)->Ok_0);
            }
        }
        outs.push(t);
        i = i + 1;
    }
    proof {
        lemma_estimate_outputs_ok(s, outs@.map_values(|t: TxOutput| t@), is_testnet);
    }
    Ok(outs)
}

/// Decodes the optional payload hex field.
pub fn decode_payload_hex(payload_hex: &str) -> (r: Result<Vec<u8>, EngineError>)
    ensures
        r is Ok <==> payload_spec(payload_hex@) is Ok,
        r is Ok ==> r->Ok_0@ == payload_spec(payload_hex@)->Ok_0,
        r is Err ==> r->Err_0 == EngineError::DecodeHex && payload_spec(payload_hex@) == Err::<
            Seq<u8>,
            EngineError,
        >(EngineError::DecodeHex),
{
    let t = trim_spaces(payload_hex);
    if t.unicode_len() == 0 {
        proof {
            assert(payload_spec(payload_hex@)->Ok_0 =~= Seq::<u8>::empty());
        }
        return Ok(Vec::new());
    }
    hex_decode(t)
}

/// Sums the spent amounts, saturating at the 64-bit maximum.
pub fn total_input_amount(ins: &Vec<TxInput>) -> (r: u64)
    ensures
        r as int == total_in_spec(ins@.map_values(|t: TxInput| t@)),
{
    let ghost s = ins@.map_values(|t: TxInput| t@);
    let mut acc: u64 = 0;
    let mut i: usize = 0;
    while i < ins.len()
        invariant
            0 <= i <= ins@.len(),
            s == ins@.map_values(|t: TxInput| t@),
            acc as int == total_in_spec(s.take(i as int)),
        decreases ins@.len() - i,
    {
        proof {
            assert(s.take(i + 1).drop_last() =~= s.take(i as int));
            assert(s.take(i + 1).last() == s[i as int]);
        }
        acc = sat_add(acc, ins[i].utxo_amount);
        i = i + 1;
    }
    proof {
        assert(s.take(s.len() as int) =~= s);
    }
    acc
}

/// Sums the declared output values, saturating at the 64-bit maximum.
pub fn total_output_amount(outs: &Vec<TxOutput>) -> (r: u64)
    ensures
        r as int == total_out_spec(outs@.map_values(|t: TxOutput| t@)),
{
    let ghost s = outs@.map_values(|t: TxOutput| t@);
    let mut acc: u64 = 0;
    let mut i: usize = 0;
    while i < outs.len()
        invariant
            0 <= i <= outs@.len(),
            s == outs@.map_values(|t: TxOutput| t@),
            acc as int == total_out_spec(s.take(i as int)),
        decreases outs@.len() - i,
    {
        proof {
            assert(s.take(i + 1).drop_last() =~= s.take(i as int));
            assert(s.take(i + 1).last() == s[i as int]);
        }
        acc = sat_add(acc, outs[i].value);
        i = i + 1;
    }
    proof {
        assert(s.take(s.len() as int) =~= s);
    }
    acc
}

/// Estimates the mass, minimum fee, totals and leftover of spending the
/// given UTXOs into the given outputs at the given rate: the throwaway
/// transaction of [`estimate_tx_spec`] is priced by the mass oracles and
/// the exact ceiling formula. Both entry lists must be nonempty; every
/// field is validated as stated by the per-entry specs.
pub fn kaspa_estimate_fee_from_entries(
    utxos: &Vec<KaspaUtxoEntry>,
    outputs: &Vec<KaspaOutputEntry>,
    network_is_testnet: bool,
    fee_rate: i64,
    payload_hex: &str,
) -> (r: Result<FeeEstimate, EngineError>)
    ensures
        ({
            let us = utxos@.map_values(|u: KaspaUtxoEntry| u@);
            let os = outputs@.map_values(|o: KaspaOutputEntry| o@);
            &&& (r is Ok <==> us.len() > 0 && os.len() > 0 && estimate_inputs_spec(us) is Ok
                && estimate_outputs_spec(os, network_is_testnet) is Ok && payload_spec(
                payload_hex@,
            ) is Ok)
            &&& (r is Ok ==> {
                let ins = estimate_inputs_spec(us)->Ok_0;
                let outs = estimate_outputs_spec(os, network_is_testnet)->Ok_0;
                let tx = estimate_tx_spec(ins, outs, payload_spec(payload_hex@)->Ok_0);
                let mass = authoritative_mass(tx);
                let rate = effective_rate(fee_rate) as int;
                let fee = clamp_u64(min_fee(mass, rate));
                let ti = total_in_spec(ins);
                let to = total_out_spec(outs);
                &&& r->Ok_0.mass as int == mass
                &&& r->Ok_0.min_fee as int == fee
                &&& r->Ok_0.total_input as int == ti
                &&& r->Ok_0.total_output as int == to
                &&& r->Ok_0.change as int == clamp_i64(ti - to - fee)
            })
            &&& (r is Err && (us.len() == 0 || os.len() == 0) ==> r->Err_0
                == EngineError::InvalidArgument)
            &&& (r is Err && us.len() > 0 && os.len() > 0 ==> r->Err_0 == (
            if estimate_inputs_spec(us) is Err {
                estimate_inputs_spec(us)->Err_0
            } else if estimate_outputs_spec(os, network_is_testnet) is Err {
                estimate_outputs_spec(os, network_is_testnet)->Err_0
            } else {
                EngineError::DecodeHex
            }))
        }),
{
    if utxos.len() == 0 || outputs.len() == 0 {
        return Err(EngineError::InvalidArgument);
    }
    let ins = match build_estimate_inputs(utxos) {
        Ok(v) => v,
        Err(e) => {
            return Err(e);
        },
    };
    let outs = match build_estimate_outputs(outputs, network_is_testnet) {
        Ok(v) => v,
        Err(e) => {
            return Err(e);
        },
    };
    let payload = match decode_payload_hex(payload_hex) {
        Ok(v) => v,
        Err(e) => {
            return Err(e);
        },
    };
    let total_input = total_input_amount(&ins);
    let total_output = total_output_amount(&outs);
    let tx = AssembledTransaction {
        version: 0,
        inputs: ins,
        outputs: outs,
        lock_time: 0,
        gas: 0,
        payload,
        id: String::new(),
        mass: 0,
    };
    proof {
        let us = utxos@.map_values(|u: KaspaUtxoEntry| u@);
        let ins_s = estimate_inputs_spec(us)->Ok_0;
        lemma_estimate_inputs_elts(us, ins_s);
        assert forall|j: int| 0 <= j < ins_s.len() implies (#[trigger] ins_s[j]).txid.len()
            == 32 by {
            assert(estimate_input_spec(us[j]) == Ok::<TxInputV, EngineError>(ins_s[j]));
        }
        assert(tx@ =~= estimate_tx_spec(
            estimate_inputs_spec(us)->Ok_0,
            estimate_outputs_spec(
                outputs@.map_values(|o: KaspaOutputEntry| o@),
                network_is_testnet,
            )->Ok_0,
            payload_spec(payload_hex@)->Ok_0,
        ));
        assert(consensus_ready(tx@));
    }
    let mass = compute_tx_mass(&tx);
    let rate = effective_rate_exec(fee_rate);
    let fee = min_fee_clamped(mass, rate);
    let change_wide: i128 = (total_input as i128) - (total_output as i128) - (fee as i128);
    let change: i64 = if change_wide < i64::MIN as i128 {
        i64::MIN
    } else if change_wide > i64::MAX as i128 {
        i64::MAX
    } else {
        change_wide as i64
    };
    Ok(FeeEstimate { mass, min_fee: fee, total_input, total_output, change })
}

} // verus!
