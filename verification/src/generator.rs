//! The transaction generator: a registry of builder handles, the add/set
//! operations that accumulate builder state, and the fee/change negotiation
//! that assembles the unsigned or signed transaction and emits its
//! canonical document.

use vstd::prelude::*;
use crate::address::{addr_prefix_code_of, parse_address, pay_script_of, PREFIX_MAINNET, PREFIX_TESTNET};
use crate::codec::{encode_document, encode_spec, CanonicalDocument};
use crate::consensus::{
    consensus_ready, consensus_tx_id, ecdsa_sighash, ecdsa_sighash_of, is_allowed_sighash_type,
    schnorr_sighash, schnorr_sighash_of, sighash_type_check, tx_id_of,
};
use crate::errors::EngineError;
use crate::fee::{
    authoritative_mass, build_estimate_outputs, compute_tx_mass, decode_payload_hex,
    decode_spk_hex_strip_optional_version_prefix, effective_rate, effective_rate_exec,
    estimate_outputs_spec, estimate_tx_spec, min_fee, min_fee_u128, payload_spec, spk_strip_spec,
    total_in_spec, total_input_amount, total_out_spec, total_output_amount, KaspaOutputEntry,
    KaspaOutputEntryV, KaspaUtxoEntry, KaspaUtxoEntryV,
};
use crate::fee::lemma_min_fee_monotone_in_mass;
use crate::hexcode::{bytes_of_hex, hex_decode, is_valid_hex};
use crate::model::{
    AssembledTransaction, AssembledTransactionV, BuilderState, BuilderStateV, DeclaredOutput,
    DeclaredOutputV, SpendEntry, SpendEntryV, TxInput, TxInputV, TxOutput, TxOutputV,
};
use crate::registry::{Registry, RegistryV, lowest_free};
use crate::secp::{
    ecdsa_der_sig_of, ecdsa_key_check, ecdsa_key_ok, ecdsa_sign_der, schnorr_key_check,
    schnorr_key_ok, schnorr_sig_of, schnorr_sign,
};
use crate::strutil::{trim_spaces, trim_spaces_spec};

verus! {

/// The state a fresh builder handle starts from.
pub open spec fn fresh_builder(is_testnet: bool) -> BuilderStateV {
    BuilderStateV {
        is_testnet,
        fee_rate: 0,
        change_address: None,
        utxos: Seq::<SpendEntryV>::empty(),
        outputs: Seq::<DeclaredOutputV>::empty(),
        payload: Seq::<u8>::empty(),
    }
}

/// The builder state behind a handle, when the handle is valid.
pub open spec fn builder_at(r: RegistryV<BuilderState>, h: int) -> Option<BuilderStateV> {
    if r.valid_handle(h) {
        Some(r.contents(h)->0@)
    } else {
        None
    }
}

/// Every other slot of the registry is untouched.
pub open spec fn regs_unchanged_except(
    a: RegistryV<BuilderState>,
    b: RegistryV<BuilderState>,
    h: int,
) -> bool {
    &&& b.base == a.base
    &&& b.slots.len() == a.slots.len()
    &&& forall|k: int|
        0 <= k < a.slots.len() && k != h - a.base ==> a.slots[k] == #[trigger] b.slots[k]
}

/// Creates a builder for the given network and returns its handle: the
/// lowest free slot, holding exactly the fresh state.
pub fn tx_generator_new(regs: &mut Registry<BuilderState>, is_testnet: bool) -> (h: i32)
    requires
        old(regs)@.wf(),
        old(regs)@.base + old(regs)@.slots.len() < i32::MAX,
    ensures
        final(regs)@.wf(),
        final(regs)@.base == old(regs)@.base,
        h == old(regs)@.base + lowest_free(old(regs)@.slots),
        final(regs)@.valid_handle(h as int),
        builder_at(final(regs)@, h as int) == Some(fresh_builder(is_testnet)),
        final(regs)@.slots.len() == (if lowest_free(old(regs)@.slots) < old(regs)@.slots.len() {
            old(regs)@.slots.len() as int
        } else {
            old(regs)@.slots.len() as int + 1
        }),
        forall|k: int|
            0 <= k < old(regs)@.slots.len() && k != h - old(regs)@.base
                ==> final(regs)@.slots[k] == old(regs)@.slots[k],
{
    let st = BuilderState {
        is_testnet,
        fee_rate: 0,
        change_address: None,
        utxos: Vec::new(),
        outputs: Vec::new(),
        payload: Vec::new(),
    };
    proof {
        assert(st@ =~= fresh_builder(is_testnet));
    }
    regs.acquire(st)
}

/// Destroys the builder behind `handle`; the handle becomes invalid and its
/// slot is eligible for reuse. Fails only on an unknown handle.
pub fn tx_generator_free(regs: &mut Registry<BuilderState>, handle: i32) -> (r: Result<
    (),
    EngineError,
>)
    requires
        old(regs)@.wf(),
    ensures
        final(regs)@.wf(),
        final(regs)@.base == old(regs)@.base,
        r is Ok <==> old(regs)@.valid_handle(handle as int),
        r is Err ==> r->Err_0 == EngineError::UnknownHandle && final(regs)@ == old(regs)@,
        r is Ok ==> final(regs)@.slots == old(regs)@.slots.update(
            handle - old(regs)@.base,
            None::<BuilderState>,
        ),
{
    if regs.release(handle) {
        Ok(())
    } else {
        Err(EngineError::UnknownHandle)
    }
}

/// Empties the builder's entries, payload and change address in place,
/// keeping its identity, network flag and fee rate.
pub fn tx_generator_clear(regs: &mut Registry<BuilderState>, handle: i32) -> (r: Result<
    (),
    EngineError,
>)
    requires
        old(regs)@.wf(),
    ensures
        final(regs)@.wf(),
        r is Ok <==> old(regs)@.valid_handle(handle as int),
        r is Err ==> r->Err_0 == EngineError::UnknownHandle && final(regs)@ == old(regs)@,
        r is Ok ==> {
            let st = builder_at(old(regs)@, handle as int)->0;
            &&& regs_unchanged_except(old(regs)@, final(regs)@, handle as int)
            &&& builder_at(final(regs)@, handle as int) == Some(
                BuilderStateV {
                    is_testnet: st.is_testnet,
                    fee_rate: st.fee_rate,
                    change_address: None,
                    utxos: Seq::<SpendEntryV>::empty(),
                    outputs: Seq::<DeclaredOutputV>::empty(),
                    payload: Seq::<u8>::empty(),
                },
            )
        },
{
    let mut st = match regs.take(handle) {
        Some(s) => s,
        None => {
            return Err(EngineError::UnknownHandle);
        },
    };
    st.utxos = Vec::new();
    st.outputs = Vec::new();
    st.change_address = None;
    st.payload = Vec::new();
    regs.restore(handle, st);
    proof {
        lemma_take_restore(old(regs)@, regs@, handle as int);
    }
    Ok(())
}

/// Taking a slot's value and restoring a new one touches only that slot.
proof fn lemma_take_restore(a: RegistryV<BuilderState>, b: RegistryV<BuilderState>, h: int)
    requires
        a.base == b.base,
        a.base <= h < a.base + a.slots.len(),
        b.slots == a.slots.update(h - a.base, None::<BuilderState>).update(
            h - a.base,
            b.slots[h - a.base],
        ),
    ensures
        regs_unchanged_except(a, b, h),
{
}

/// Sets where leftover value will be returned. Fails on an unknown handle,
/// an unparseable address, or an address whose network prefix does not
/// match the builder; the builder is unchanged on failure.
pub fn tx_generator_set_change_address(
    regs: &mut Registry<BuilderState>,
    handle: i32,
    address: &str,
) -> (r: Result<(), EngineError>)
    requires
        old(regs)@.wf(),
    ensures
        final(regs)@.wf(),
        ({
            let sto = builder_at(old(regs)@, handle as int);
            &&& (r is Ok <==> old(regs)@.valid_handle(handle as int) && addr_prefix_code_of(
                address@,
            ) == Some(crate::address::expected_prefix_code(sto->0.is_testnet)))
            &&& (r is Err ==> final(regs)@ == old(regs)@ && r->Err_0 == (if !old(
                regs,
            )@.valid_handle(handle as int) {
                EngineError::UnknownHandle
            } else if addr_prefix_code_of(address@) is None {
                EngineError::AddressParse
            } else {
                EngineError::AddressNetwork
            }))
            &&& (r is Ok ==> regs_unchanged_except(old(regs)@, final(regs)@, handle as int)
                && builder_at(final(regs)@, handle as int) == Some(
                BuilderStateV { change_address: Some(address@), ..sto->0 },
            ))
        }),
{
    let mut st = match regs.take(handle) {
        Some(s) => s,
        None => {
            return Err(EngineError::UnknownHandle);
        },
    };
    let code = match parse_address(address) {
        Some((c, _script)) => c,
        None => {
            regs.restore(handle, st);
            proof {
                assert(regs@.slots =~= old(regs)@.slots);
                assert(regs@ =~= old(regs)@);
            }
            return Err(EngineError::AddressParse);
        },
    };
    let expected: u8 = if st.is_testnet {
        PREFIX_TESTNET
    } else {
        PREFIX_MAINNET
    };
    if code != expected {
        regs.restore(handle, st);
        proof {
            assert(regs@.slots =~= old(regs)@.slots);
            assert(regs@ =~= old(regs)@);
        }
        return Err(EngineError::AddressNetwork);
    }
    st.change_address = Some(address.to_owned());
    regs.restore(handle, st);
    proof {
        lemma_take_restore(old(regs)@, regs@, handle as int);
    }
    Ok(())
}

/// Sets the fee rate in sompi per kilo-mass; a non-positive rate selects
/// the default at build time. Fails only on an unknown handle.
pub fn tx_generator_set_fee_rate(
    regs: &mut Registry<BuilderState>,
    handle: i32,
    fee_rate_sompi_per_kilomass: i64,
) -> (r: Result<(), EngineError>)
    requires
        old(regs)@.wf(),
    ensures
        final(regs)@.wf(),
        r is Ok <==> old(regs)@.valid_handle(handle as int),
        r is Err ==> r->Err_0 == EngineError::UnknownHandle && final(regs)@ == old(regs)@,
        r is Ok ==> regs_unchanged_except(old(regs)@, final(regs)@, handle as int) && builder_at(
            final(regs)@,
            handle as int,
        ) == Some(
            BuilderStateV {
                fee_rate: fee_rate_sompi_per_kilomass,
                ..builder_at(old(regs)@, handle as int)->0
            },
        ),
{
    let mut st = match regs.take(handle) {
        Some(s) => s,
        None => {
            return Err(EngineError::UnknownHandle);
        },
    };
    st.fee_rate = fee_rate_sompi_per_kilomass;
    regs.restore(handle, st);
    proof {
        lemma_take_restore(old(regs)@, regs@, handle as int);
    }
    Ok(())
}

/// Sets the transaction payload from a hex string; an empty or whitespace
/// string clears it. Fails on an unknown handle or invalid hex, leaving
/// the builder unchanged.
pub fn tx_generator_set_payload_hex(
    regs: &mut Registry<BuilderState>,
    handle: i32,
    payload_hex: &str,
) -> (r: Result<(), EngineError>)
    requires
        old(regs)@.wf(),
    ensures
        final(regs)@.wf(),
        r is Ok <==> old(regs)@.valid_handle(handle as int) && payload_spec(payload_hex@) is Ok,
        r is Err ==> final(regs)@ == old(regs)@ && r->Err_0 == (if !old(regs)@.valid_handle(
            handle as int,
        ) {
            EngineError::UnknownHandle
        } else {
            EngineError::DecodeHex
        }),
        r is Ok ==> regs_unchanged_except(old(regs)@, final(regs)@, handle as int) && builder_at(
            final(regs)@,
            handle as int,
        ) == Some(
            BuilderStateV {
                payload: payload_spec(payload_hex@)->Ok_0,
                ..builder_at(old(regs)@, handle as int)->0
            },
        ),
{
    let mut st = match regs.take(handle) {
        Some(s) => s,
        None => {
            return Err(EngineError::UnknownHandle);
        },
    };
    let payload = match decode_payload_hex(payload_hex) {
        Ok(v) => v,
        Err(_) => {
            regs.restore(handle, st);
            proof {
                assert(regs@.slots =~= old(regs)@.slots);
                assert(regs@ =~= old(regs)@);
            }
            return Err(EngineError::DecodeHex);
        },
    };
    st.payload = payload;
    regs.restore(handle, st);
    proof {
        lemma_take_restore(old(regs)@, regs@, handle as int);
    }
    Ok(())
}

/// How one boundary UTXO becomes a stored spend entry: the txid hex must
/// decode to 32 bytes and the locking-script hex (optional version prefix
/// stripped) must decode.
pub open spec fn spend_entry_spec(u: KaspaUtxoEntryV) -> Result<SpendEntryV, EngineError> {
    let txid_hex = trim_spaces_spec(u.txid_be_hex);
    if !is_valid_hex(txid_hex) {
        Err(EngineError::DecodeHex)
    } else if bytes_of_hex(txid_hex).len() != 32 {
        Err(EngineError::DecodeLength)
    } else if !is_valid_hex(spk_strip_spec(u.script_pub_key_hex)) {
        Err(EngineError::DecodeHex)
    } else {
        Ok(
            SpendEntryV {
                txid: bytes_of_hex(txid_hex),
                index: u.index,
                amount: u.amount,
                script: bytes_of_hex(spk_strip_spec(u.script_pub_key_hex)),
            },
        )
    }
}

/// Registers one UTXO to spend. Its fields are validated before the handle
/// is looked up, as the boundary contract fixes that order; on any failure
/// the builder is unchanged.
pub fn tx_generator_add_utxo(
    regs: &mut Registry<BuilderState>,
    handle: i32,
    utxo: &KaspaUtxoEntry,
) -> (r: Result<(), EngineError>)
    requires
        old(regs)@.wf(),
    ensures
        final(regs)@.wf(),
        r is Ok <==> spend_entry_spec(utxo@) is Ok && old(regs)@.valid_handle(handle as int),
        r is Err ==> final(regs)@ == old(regs)@ && r->Err_0 == (if spend_entry_spec(
            utxo@,
        ) is Err {
            spend_entry_spec(utxo@)->Err_0
        } else {
            EngineError::UnknownHandle
        }),
        r is Ok ==> regs_unchanged_except(old(regs)@, final(regs)@, handle as int) && builder_at(
            final(regs)@,
            handle as int,
        ) == Some(
            BuilderStateV {
                utxos: builder_at(old(regs)@, handle as int)->0.utxos.push(
                    spend_entry_spec(utxo@)->Ok_0,
                ),
                ..builder_at(old(regs)@, handle as int)->0
            },
        ),
{
    let txid_hex = trim_spaces(utxo.txid_be_hex.as_str());
    let txid = match hex_decode(txid_hex) {
        Ok(v) => v,
        Err(_) => {
            return Err(EngineError::DecodeHex);
        },
    };
    if txid.len() != 32 {
        return Err(EngineError::DecodeLength);
    }
    let script = match decode_spk_hex_strip_optional_version_prefix(
        utxo.script_pub_key_hex.as_str(),
    ) {
        Ok(v) => v,
        Err(_) => {
            return Err(EngineError::DecodeHex);
        },
    };
    let mut st = match regs.take(handle) {
        Some(s) => s,
        None => {
            return Err(EngineError::UnknownHandle);
        },
    };
    let entry = SpendEntry { txid, index: utxo.index, amount: utxo.amount, script };
    proof {
        assert(entry@ =~= spend_entry_spec(utxo@)->Ok_0);
    }
    st.utxos.push(entry);
    regs.restore(handle, st);
    proof {
        lemma_take_restore(old(regs)@, regs@, handle as int);
        let st_old = builder_at(old(regs)@, handle as int)->0;
        assert(builder_at(regs@, handle as int)->0 =~= BuilderStateV {
            utxos: st_old.utxos.push(spend_entry_spec(utxo@)->Ok_0),
            ..st_old
        });
    }
    Ok(())
}

/// Declares one output. The handle is looked up first, then the address is
/// validated against the builder's network; on any failure the builder is
/// unchanged.
pub fn tx_generator_add_output(
    regs: &mut Registry<BuilderState>,
    handle: i32,
    output: &KaspaOutputEntry,
) -> (r: Result<(), EngineError>)
    requires
        old(regs)@.wf(),
    ensures
        final(regs)@.wf(),
        ({
            let sto = builder_at(old(regs)@, handle as int);
            &&& (r is Ok <==> old(regs)@.valid_handle(handle as int) && addr_prefix_code_of(
                output@.address,
            ) == Some(crate::address::expected_prefix_code(sto->0.is_testnet)))
            &&& (r is Err ==> final(regs)@ == old(regs)@ && r->Err_0 == (if !old(
                regs,
            )@.valid_handle(handle as int) {
                EngineError::UnknownHandle
            } else if addr_prefix_code_of(output@.address) is None {
                EngineError::AddressParse
            } else {
                EngineError::AddressNetwork
            }))
            &&& (r is Ok ==> regs_unchanged_except(old(regs)@, final(regs)@, handle as int)
                && builder_at(final(regs)@, handle as int) == Some(
                BuilderStateV {
                    outputs: sto->0.outputs.push(
                        DeclaredOutputV { address: output@.address, amount: output@.amount },
                    ),
                    ..sto->0
                },
            ))
        }),
{
    let mut st = match regs.take(handle) {
        Some(s) => s,
        None => {
            return Err(EngineError::UnknownHandle);
        },
    };
    let code = match parse_address(output.address.as_str()) {
        Some((c, _script)) => c,
        None => {
            regs.restore(handle, st);
            proof {
                assert(regs@.slots =~= old(regs)@.slots);
                assert(regs@ =~= old(regs)@);
            }
            return Err(EngineError::AddressParse);
        },
    };
    let expected: u8 = if st.is_testnet {
        PREFIX_TESTNET
    } else {
        PREFIX_MAINNET
    };
    if code != expected {
        regs.restore(handle, st);
        proof {
            assert(regs@.slots =~= old(regs)@.slots);
            assert(regs@ =~= old(regs)@);
        }
        return Err(EngineError::AddressNetwork);
    }
    let decl = DeclaredOutput { address: output.address.clone(), amount: output.amount };
    st.outputs.push(decl);
    regs.restore(handle, st);
    proof {
        lemma_take_restore(old(regs)@, regs@, handle as int);
        let st_old = builder_at(old(regs)@, handle as int)->0;
        assert(builder_at(regs@, handle as int)->0 =~= BuilderStateV {
            outputs: st_old.outputs.push(
                DeclaredOutputV { address: output@.address, amount: output@.amount },
            ),
            ..st_old
        });
    }
    Ok(())
}

// ----- assembling a transaction from builder state -----

/// One stored spend entry as a transaction input carrying the given
/// spending script: sequence zero, one signature operation, and zero DAA
/// score / non-coinbase as informational passthrough.
pub open spec fn input_with_script(u: SpendEntryV, script: Seq<u8>) -> TxInputV {
    TxInputV {
        txid: u.txid,
        index: u.index,
        signature_script: script,
        sequence: 0,
        sig_op_count: 1,
        utxo_amount: u.amount,
        utxo_script_version: 0,
        utxo_script: u.script,
        utxo_daa_score: 0,
        utxo_is_coinbase: false,
    }
}

pub open spec fn inputs_with_script(us: Seq<SpendEntryV>, script: Seq<u8>) -> Seq<TxInputV> {
    us.map_values(|u: SpendEntryV| input_with_script(u, script))
}

/// The placeholder spending script used before signing: 66 zero bytes,
/// sized to a typical signature so the mass estimate is realistic.
pub open spec fn placeholder_script() -> Seq<u8> {
    Seq::new(66, |i: int| 0u8)
}

pub open spec fn utxos_wf(st: BuilderStateV) -> bool {
    forall|i: int| 0 <= i < st.utxos.len() ==> (#[trigger] st.utxos[i]).wf()
}

pub open spec fn declared_as_entries(os: Seq<DeclaredOutputV>) -> Seq<KaspaOutputEntryV> {
    os.map_values(|o: DeclaredOutputV| KaspaOutputEntryV { address: o.address, amount: o.amount })
}

/// The declared outputs revalidated and turned into transaction outputs.
pub open spec fn build_outputs_spec(st: BuilderStateV) -> Result<Seq<TxOutputV>, EngineError> {
    estimate_outputs_spec(declared_as_entries(st.outputs), st.is_testnet)
}

pub open spec fn outputs_ok(st: BuilderStateV) -> bool {
    build_outputs_spec(st) is Ok
}

pub open spec fn builder_tx(
    st: BuilderStateV,
    script: Seq<u8>,
    outs: Seq<TxOutputV>,
) -> AssembledTransactionV {
    estimate_tx_spec(inputs_with_script(st.utxos, script), outs, st.payload)
}

/// The no-change transaction priced in phase zero, with placeholder
/// scripts.
pub open spec fn phase0_tx(st: BuilderStateV) -> AssembledTransactionV {
    builder_tx(st, placeholder_script(), build_outputs_spec(st)->Ok_0)
}

pub open spec fn builder_rate(st: BuilderStateV) -> int {
    effective_rate(st.fee_rate) as int
}

/// The phase-zero minimum fee, unclamped.
pub open spec fn fee0(st: BuilderStateV) -> int {
    min_fee(authoritative_mass(phase0_tx(st)), builder_rate(st))
}

pub open spec fn total_in0(st: BuilderStateV) -> int {
    total_in_spec(inputs_with_script(st.utxos, placeholder_script()))
}

pub open spec fn total_out0(st: BuilderStateV) -> int {
    total_out_spec(build_outputs_spec(st)->Ok_0)
}

/// The phase-zero leftover: inputs minus declared outputs minus the
/// phase-zero fee.
pub open spec fn change0(st: BuilderStateV) -> int {
    total_in0(st) - total_out0(st) - fee0(st)
}

/// A change output is added only when a change address was set and the
/// leftover is positive; otherwise the leftover is donated as extra fee.
pub open spec fn include_change(st: BuilderStateV) -> bool {
    st.change_address is Some && change0(st) > 0
}

pub open spec fn change_parse_ok(st: BuilderStateV) -> bool {
    addr_prefix_code_of(st.change_address->0) is Some
}

pub open spec fn change_output(st: BuilderStateV, value: u64) -> TxOutputV {
    TxOutputV { value, script_version: 0, script: pay_script_of(st.change_address->0) }
}

/// The outputs the unsigned path emits: the declared outputs, plus a
/// change output valued at the phase-zero leftover when one is included.
/// The phase-zero fee is not re-derived after adding the change output —
/// an intentional asymmetry from the signed path.
pub open spec fn unsigned_outputs(st: BuilderStateV) -> Seq<TxOutputV> {
    if include_change(st) {
        build_outputs_spec(st)->Ok_0.push(change_output(st, change0(st) as u64))
    } else {
        build_outputs_spec(st)->Ok_0
    }
}

/// The unsigned transaction before its identifier and mass are filled in:
/// spending scripts cleared to empty.
pub open spec fn unsigned_base(st: BuilderStateV) -> AssembledTransactionV {
    builder_tx(st, Seq::<u8>::empty(), unsigned_outputs(st))
}

/// A transaction with its derived identifier and authoritative mass
/// filled in from the consensus oracles.
pub open spec fn with_ids(tx: AssembledTransactionV) -> AssembledTransactionV {
    AssembledTransactionV {
        id: tx_id_of(tx),
        mass: authoritative_mass(tx) as u64,
        ..tx
    }
}

/// Exactly what the unsigned build emits, as a transaction.
pub open spec fn unsigned_tx(st: BuilderStateV) -> AssembledTransactionV {
    with_ids(unsigned_base(st))
}

/// Change inclusion is deterministic: one and the same builder state
/// always yields the same decision, the same change amount and the same
/// unsigned document. The decision depends on nothing but the state.
pub proof fn lemma_change_decision_deterministic(a: BuilderStateV, b: BuilderStateV)
    requires
        a == b,
    ensures
        include_change(a) == include_change(b),
        change0(a) == change0(b),
        unsigned_tx(a) == unsigned_tx(b),
{
}

/// When a build can succeed: every stored txid is 32 bytes, every declared
/// output address still validates, and the change address (when one will
/// be used) still parses.
pub open spec fn build_ok(st: BuilderStateV) -> bool {
    &&& utxos_wf(st)
    &&& outputs_ok(st)
    &&& (include_change(st) ==> change_parse_ok(st))
}

pub open spec fn build_err(st: BuilderStateV) -> EngineError {
    if !utxos_wf(st) {
        EngineError::DecodeLength
    } else if build_outputs_spec(st) is Err {
        build_outputs_spec(st)->Err_0
    } else {
        EngineError::AddressParse
    }
}

/// Copies a list of transaction outputs.
fn clone_outputs(v: &Vec<TxOutput>) -> (r: Vec<TxOutput>)
    ensures
        r@.map_values(|t: TxOutput| t@) == v@.map_values(|t: TxOutput| t@),
{
    let mut r: Vec<TxOutput> = Vec::new();
    let mut i: usize = 0;
    while i < v.len()
        invariant
            0 <= i <= v@.len(),
            r@.len() == i,
            forall|j: int| 0 <= j < i ==> #[trigger] r@[j]@ == v@[j]@,
        decreases v@.len() - i,
    {
        let o = &v[i];
        r.push(TxOutput {
            value: o.value,
            script_version: o.script_version,
            script: clone_bytes(&o.script),
        });
        i = i + 1;
    }
    proof {
        assert(r@.map_values(|t: TxOutput| t@) =~= v@.map_values(|t: TxOutput| t@));
    }
    r
}

/// Copies a byte vector.
fn clone_bytes(v: &Vec<u8>) -> (r: Vec<u8>)
    ensures
        r@ == v@,
{
    let mut r: Vec<u8> = Vec::new();
    r.extend_from_slice(v.as_slice());
    proof {
        assert(r@ =~= v@);
    }
    r
}

/// Builds the transaction inputs from the stored spend entries, each
/// carrying the placeholder script or an empty one.
fn build_inputs(utxos: &Vec<SpendEntry>, placeholder: bool) -> (r: Result<Vec<TxInput>, EngineError>)
    ensures
        ({
            let us = utxos@.map_values(|u: SpendEntry| u@);
            let script = if placeholder {
                placeholder_script()
            } else {
                Seq::<u8>::empty()
            };
            &&& (r is Ok <==> forall|i: int| 0 <= i < us.len() ==> (#[trigger] us[i]).wf())
            &&& (r is Ok ==> r->Ok_0@.map_values(|t: TxInput| t@) == inputs_with_script(us, script))
            &&& (r is Ok ==> forall|i: int|
                0 <= i < r->Ok_0@.len() ==> (#[trigger] r->Ok_0@[i]@).txid.len() == 32)
            &&& (r is Err ==> r->Err_0 == EngineError::DecodeLength)
        }),
{
    let ghost us = utxos@.map_values(|u: SpendEntry| u@);
    let ghost script = if placeholder {
        placeholder_script()
    } else {
        Seq::<u8>::empty()
    };
    let mut ins: Vec<TxInput> = Vec::new();
    let mut i: usize = 0;
    while i < utxos.len()
        invariant
            0 <= i <= utxos@.len(),
            ins@.len() == i,
            us == utxos@.map_values(|u: SpendEntry| u@),
            script == if placeholder {
                placeholder_script()
            } else {
                Seq::<u8>::empty()
            },
            forall|j: int| 0 <= j < i ==> (#[trigger] us[j]).wf(),
            forall|j: int| 0 <= j < i ==> #[trigger] ins@[j]@ == input_with_script(us[j], script),
        decreases utxos@.len() - i,
    {
        let u = &utxos[i];
        if u.txid.len() != 32 {
            proof {
                assert(us[i as int] == utxos@[i as int]@);
                assert(!us[i as int].wf());
            }
            return Err(EngineError::DecodeLength);
        }
        let sig: Vec<u8> = if placeholder {
            vec![0u8; 66]
        } else {
            Vec::new()
        };
        proof {
            assert(sig@ =~= script);
        }
        let t = TxInput {
            txid: clone_bytes(&u.txid),
            index: u.index,
            signature_script: sig,
            sequence: 0,
            sig_op_count: 1,
            utxo_amount: u.amount,
            utxo_script_version: 0,
            utxo_script: clone_bytes(&u.script),
            utxo_daa_score: 0,
            utxo_is_coinbase: false,
        };
        proof {
            assert(t@ =~= input_with_script(us[i as int], script));
        }
        ins.push(t);
        i = i + 1;
    }
    proof {
        assert(ins@.map_values(|t: TxInput| t@) =~= inputs_with_script(us, script));
    }
    Ok(ins)
}

/// Copies the declared outputs into boundary output entries so the same
/// validation used by the estimator applies at build time.
fn declared_to_entries(os: &Vec<DeclaredOutput>) -> (r: Vec<KaspaOutputEntry>)
    ensures
        r@.map_values(|o: KaspaOutputEntry| o@) == declared_as_entries(
            os@.map_values(|o: DeclaredOutput| o@),
        ),
{
    let mut r: Vec<KaspaOutputEntry> = Vec::new();
    let mut i: usize = 0;
    while i < os.len()
        invariant
            0 <= i <= os@.len(),
            r@.len() == i,
            forall|j: int|
                0 <= j < i ==> #[trigger] r@[j]@ == (KaspaOutputEntryV {
                    address: os@[j]@.address,
                    amount: os@[j]@.amount,
                }),
        decreases os@.len() - i,
    {
        let o = &os[i];
        r.push(KaspaOutputEntry { address: o.address.clone(), amount: o.amount });
        i = i + 1;
    }
    proof {
        assert(r@.map_values(|o: KaspaOutputEntry| o@) =~= declared_as_entries(
            os@.map_values(|o: DeclaredOutput| o@),
        ));
    }
    r
}

/// The minimum fee always fits comfortably inside a signed 128-bit value.
proof fn lemma_fee_fits(mass: int, rate: int)
    requires
        0 <= mass <= u64::MAX,
        0 <= rate <= u64::MAX,
    ensures
        0 <= min_fee(mass, rate),
        min_fee(mass, rate) <= ((u64::MAX as int) * (u64::MAX as int) + 999) / 1000,
{
    lemma_min_fee_monotone_in_mass(0, mass, rate);
    assert(min_fee(0, rate) == 0);
    vstd::arithmetic::mul::lemma_mul_upper_bound(mass, u64::MAX as int, rate, u64::MAX as int);
    vstd::arithmetic::div_mod::lemma_div_is_ordered(
        mass * rate + 999,
        (u64::MAX as int) * (u64::MAX as int) + 999,
        1000,
    );
}

/// Builds the unsigned transaction behind `handle` and emits its canonical
/// document: declared inputs and outputs exactly as stored, a change
/// output at the phase-zero leftover when a change address is set and the
/// leftover is positive, spending scripts cleared to empty, and the
/// derived identifier and authoritative mass filled in. The registry is
/// only read.
pub fn tx_generator_build_unsigned(regs: &Registry<BuilderState>, handle: i32) -> (r: Result<
    CanonicalDocument,
    EngineError,
>)
    requires
        regs@.wf(),
    ensures
        ({
            let sto = builder_at(regs@, handle as int);
            &&& (r is Ok <==> regs@.valid_handle(handle as int) && build_ok(sto->0))
            &&& (r is Ok ==> r->Ok_0@ == encode_spec(unsigned_tx(sto->0)))
            &&& (r is Err ==> r->Err_0 == (if !regs@.valid_handle(handle as int) {
                EngineError::UnknownHandle
            } else {
                build_err(sto->0)
            }))
        }),
{
    let st = match regs.get(handle) {
        Some(s) => s,
        None => {
            return Err(EngineError::UnknownHandle);
        },
    };
    let ghost stv = st@;
    let ins66 = match build_inputs(&st.utxos, true) {
        Ok(v) => v,
        Err(e) => {
            return Err(e);
        },
    };
    let entries = declared_to_entries(&st.outputs);
    let outs0 = match build_estimate_outputs(&entries, st.is_testnet) {
        Ok(v) => v,
        Err(e) => {
            return Err(e);
        },
    };
    let total_input = total_input_amount(&ins66);
    let total_output = total_output_amount(&outs0);
    let tx0 = AssembledTransaction {
        version: 0,
        inputs: ins66,
        outputs: outs0,
        lock_time: 0,
        gas: 0,
        payload: clone_bytes(&st.payload),
        id: String::new(),
        mass: 0,
    };
    proof {
        assert(tx0@ =~= phase0_tx(stv));
        assert(consensus_ready(tx0@));
    }
    let mass0 = compute_tx_mass(&tx0);
    let rate = effective_rate_exec(st.fee_rate);
    let fee0_wide = min_fee_u128(mass0, rate);
    proof {
        lemma_fee_fits(mass0 as int, rate as int);
        assert(((u64::MAX as int) * (u64::MAX as int) + 999) / 1000 + (u64::MAX as int)
            < i128::MAX);
    }
    let change_wide: i128 = (total_input as i128) - (total_output as i128) - (fee0_wide as i128);
    proof {
        assert(change_wide as int == change0(stv));
    }
    let ins0 = match build_inputs(&st.utxos, false) {
        Ok(v) => v,
        Err(e) => {
            return Err(e);
        },
    };
    let mut outs_final = match build_estimate_outputs(&entries, st.is_testnet) {
        Ok(v) => v,
        Err(e) => {
            return Err(e);
        },
    };
    if change_wide > 0 {
        match &st.change_address {
            Some(addr) => {
                let script = match parse_address(addr.as_str()) {
                    Some((_c, s)) => s,
                    None => {
                        return Err(EngineError::AddressParse);
                    },
                };
                outs_final.push(
                    TxOutput { value: change_wide as u64, script_version: 0, script },
                );
            },
            None => {},
        }
    }
    proof {
        assert(outs_final@.map_values(|t: TxOutput| t@) =~= unsigned_outputs(stv));
    }
    let mut tx = AssembledTransaction {
        version: 0,
        inputs: ins0,
        outputs: outs_final,
        lock_time: 0,
        gas: 0,
        payload: clone_bytes(&st.payload),
        id: String::new(),
        mass: 0,
    };
    proof {
        assert(tx@ =~= unsigned_base(stv));
        assert(consensus_ready(tx@));
    }
    let id = consensus_tx_id(&tx);
    let mass = compute_tx_mass(&tx);
    tx.id = id;
    tx.mass = mass;
    proof {
        assert(tx@ =~= unsigned_tx(stv));
    }
    Ok(encode_document(&tx))
}

// ----- the signed build -----

/// The outputs of the signed transaction. After deciding to include a
/// change output, the fee is recomputed against the change-inclusive
/// transaction: adding an output increases mass, so a single-pass estimate
/// can leave the transaction under-paying. If the recomputed leftover is
/// no longer positive the change output is abandoned (its value folds into
/// the fee); otherwise the change output carries the recomputed leftover.
/// No further iteration happens: a second-order shortfall is accepted.
pub open spec fn signed_outputs(st: BuilderStateV) -> Seq<TxOutputV> {
    if include_change(st) {
        let withc = build_outputs_spec(st)->Ok_0.push(change_output(st, change0(st) as u64));
        let fee1 = min_fee(
            authoritative_mass(builder_tx(st, placeholder_script(), withc)),
            builder_rate(st),
        );
        let change1 = total_in0(st) - total_out0(st) - fee1;
        if change1 <= 0 {
            build_outputs_spec(st)->Ok_0
        } else {
            build_outputs_spec(st)->Ok_0.push(change_output(st, change1 as u64))
        }
    } else {
        build_outputs_spec(st)->Ok_0
    }
}

/// The change-resolved transaction the signature digests commit to, still
/// carrying the placeholder scripts.
pub open spec fn presign_tx(st: BuilderStateV) -> AssembledTransactionV {
    builder_tx(st, placeholder_script(), signed_outputs(st))
}

/// Minimal push-data framing for a blob of at most 75 bytes: its length as
/// the push opcode, then the bytes.
pub open spec fn push_data_spec(d: Seq<u8>) -> Seq<u8>
    recommends
        1 <= d.len() <= 75,
{
    seq![d.len() as u8] + d
}

/// The spending script of one signed input: push-data of the signature
/// over that input's digest with the sighash-type tag appended.
pub open spec fn sig_script_for(
    tx: AssembledTransactionV,
    i: int,
    hash_type: u8,
    sk: Seq<u8>,
    use_ecdsa: bool,
) -> Seq<u8> {
    if use_ecdsa {
        push_data_spec(ecdsa_der_sig_of(ecdsa_sighash_of(tx, i, hash_type), sk).push(hash_type))
    } else {
        push_data_spec(schnorr_sig_of(schnorr_sighash_of(tx, i, hash_type), sk).push(hash_type))
    }
}

/// The signed transaction before its identifier and mass are filled in:
/// the change-resolved transaction with every placeholder script replaced
/// by that input's spending script.
pub open spec fn signed_base(
    st: BuilderStateV,
    hash_type: u8,
    sk: Seq<u8>,
    use_ecdsa: bool,
) -> AssembledTransactionV {
    let p = presign_tx(st);
    AssembledTransactionV {
        inputs: p.inputs.map(
            |i: int, inp: TxInputV| TxInputV {
                signature_script: sig_script_for(p, i, hash_type, sk, use_ecdsa),
                ..inp
            },
        ),
        ..p
    }
}

/// Exactly what the signed build emits, as a transaction.
pub open spec fn signed_tx(
    st: BuilderStateV,
    hash_type: u8,
    sk: Seq<u8>,
    use_ecdsa: bool,
) -> AssembledTransactionV {
    with_ids(signed_base(st, hash_type, sk, use_ecdsa))
}

/// Whether the key material is a valid scalar for the selected scheme.
pub open spec fn signing_key_ok(sk: Seq<u8>, use_ecdsa: bool) -> bool {
    if use_ecdsa {
        ecdsa_key_ok(sk)
    } else {
        schnorr_key_ok(sk)
    }
}

/// The key bytes denoted by the private-key hex argument.
pub open spec fn sk_bytes_of(s: Seq<char>) -> Seq<u8> {
    bytes_of_hex(trim_spaces_spec(s))
}

pub open spec fn sk_hex_ok(s: Seq<char>) -> bool {
    is_valid_hex(trim_spaces_spec(s))
}

/// Frames a blob as push-data.
fn push_data(d: &Vec<u8>) -> (r: Vec<u8>)
    requires
        1 <= d@.len() <= 75,
    ensures
        r@ == push_data_spec(d@),
{
    let mut r: Vec<u8> = Vec::new();
    r.push(d.len() as u8);
    r.extend_from_slice(d.as_slice());
    proof {
        assert(r@ =~= push_data_spec(d@));
    }
    r
}

/// Computes every input's spending script over the change-resolved
/// transaction. The key is already known to be valid for the scheme, so
/// signing cannot fail.
fn sign_all(presign: &AssembledTransaction, sk: &Vec<u8>, hash_type: u8, use_ecdsa: bool) -> (r:
    Vec<Vec<u8>>)
    requires
        consensus_ready(presign@),
        is_allowed_sighash_type(hash_type),
        sk@.len() == 32,
        signing_key_ok(sk@, use_ecdsa),
    ensures
        r@.len() == presign@.inputs.len(),
        forall|j: int|
            0 <= j < r@.len() ==> #[trigger] r@[j]@ == sig_script_for(
                presign@,
                j,
                hash_type,
                sk@,
                use_ecdsa,
            ),
{
    let n = presign.inputs.len();
    let mut scripts: Vec<Vec<u8>> = Vec::new();
    let mut i: usize = 0;
    while i < n
        invariant
            0 <= i <= n,
            n == presign@.inputs.len(),
            consensus_ready(presign@),
            is_allowed_sighash_type(hash_type),
            sk@.len() == 32,
            signing_key_ok(sk@, use_ecdsa),
            scripts@.len() == i,
            forall|j: int|
                0 <= j < i ==> #[trigger] scripts@[j]@ == sig_script_for(
                    presign@,
                    j,
                    hash_type,
                    sk@,
                    use_ecdsa,
                ),
        decreases n - i,
    {
        let mut blob: Vec<u8> = if use_ecdsa {
            let digest = ecdsa_sighash(presign, i, hash_type);
            match ecdsa_sign_der(&digest, sk) {
                Some(s) => s,
                None => {
                    // Unreachable: the key was checked before signing.
                    proof {
                        assert(false);
                    }
                    Vec::new()
                },
            }
        } else {
            let digest = schnorr_sighash(presign, i, hash_type);
            match schnorr_sign(&digest, sk) {
                Some(s) => s,
                None => {
                    // Unreachable: the key was checked before signing.
                    proof {
                        assert(false);
                    }
                    Vec::new()
                },
            }
        };
        blob.push(hash_type);
        scripts.push(push_data(&blob));
        i = i + 1;
    }
    scripts
}

/// Builds, signs and emits the transaction behind `handle`: the same
/// phase-zero pricing and change decision as the unsigned path, one fee
/// recheck against the change-inclusive transaction, then one signature
/// per input (Schnorr for algorithm 0, ECDSA for algorithm 1) over the
/// change-resolved transaction, and the identifier and mass of the signed
/// result. The key material is one 32-byte secret in hex; it is used for
/// this call only. No partial signing is ever returned. The registry is
/// only read.
pub fn tx_generator_build_and_sign(
    regs: &Registry<BuilderState>,
    handle: i32,
    private_key_hex: &str,
    sighash_type: u8,
    algo: u8,
) -> (r: Result<CanonicalDocument, EngineError>)
    requires
        regs@.wf(),
    ensures
        ({
            let sto = builder_at(regs@, handle as int);
            let st = sto->0;
            let skb = sk_bytes_of(private_key_hex@);
            let use_ecdsa = algo == 1;
            &&& (r is Ok <==> regs@.valid_handle(handle as int) && is_allowed_sighash_type(
                sighash_type,
            ) && algo <= 1 && sk_hex_ok(private_key_hex@) && skb.len() == 32 && build_ok(st)
                && signing_key_ok(skb, use_ecdsa))
            &&& (r is Ok ==> r->Ok_0@ == encode_spec(
                signed_tx(st, sighash_type, skb, use_ecdsa),
            ))
            &&& (r is Err ==> r->Err_0 == (if !regs@.valid_handle(handle as int) {
                EngineError::UnknownHandle
            } else if !is_allowed_sighash_type(sighash_type) {
                EngineError::SigningHashType
            } else if algo > 1 {
                EngineError::SigningAlgorithm
            } else if !sk_hex_ok(private_key_hex@) {
                EngineError::DecodeHex
            } else if skb.len() != 32 {
                EngineError::DecodeLength
            } else if !build_ok(st) {
                build_err(st)
            } else {
                EngineError::SigningKey
            }))
        }),
{
    let st = match regs.get(handle) {
        Some(s) => s,
        None => {
            return Err(EngineError::UnknownHandle);
        },
    };
    let ghost stv = st@;
    if !sighash_type_check(sighash_type) {
        return Err(EngineError::SigningHashType);
    }
    if algo > 1 {
        return Err(EngineError::SigningAlgorithm);
    }
    let use_ecdsa = algo == 1;
    let sk = match hex_decode(trim_spaces(private_key_hex)) {
        Ok(v) => v,
        Err(_) => {
            return Err(EngineError::DecodeHex);
        },
    };
    if sk.len() != 32 {
        return Err(EngineError::DecodeLength);
    }
    let ins66 = match build_inputs(&st.utxos, true) {
        Ok(v) => v,
        Err(e) => {
            return Err(e);
        },
    };
    let entries = declared_to_entries(&st.outputs);
    let outs0 = match build_estimate_outputs(&entries, st.is_testnet) {
        Ok(v) => v,
        Err(e) => {
            return Err(e);
        },
    };
    let total_input = total_input_amount(&ins66);
    let total_output = total_output_amount(&outs0);
    let tx0 = AssembledTransaction {
        version: 0,
        inputs: ins66,
        outputs: outs0,
        lock_time: 0,
        gas: 0,
        payload: clone_bytes(&st.payload),
        id: String::new(),
        mass: 0,
    };
    proof {
        assert(tx0@ =~= phase0_tx(stv));
        assert(consensus_ready(tx0@));
    }
    let mass0 = compute_tx_mass(&tx0);
    let rate = effective_rate_exec(st.fee_rate);
    let fee0_wide = min_fee_u128(mass0, rate);
    proof {
        lemma_fee_fits(mass0 as int, rate as int);
        assert(((u64::MAX as int) * (u64::MAX as int) + 999) / 1000 + (u64::MAX as int)
            < i128::MAX);
    }
    let change_wide: i128 = (total_input as i128) - (total_output as i128) - (fee0_wide as i128);
    proof {
        assert(change_wide as int == change0(stv));
    }
    // Decide the change output, rechecking the fee against the
    // change-inclusive transaction.
    let mut outs_final = match build_estimate_outputs(&entries, st.is_testnet) {
        Ok(v) => v,
        Err(e) => {
            return Err(e);
        },
    };
    let mut change_script: Option<Vec<u8>> = None;
    if change_wide > 0 {
        match &st.change_address {
            Some(addr) => {
                let script = match parse_address(addr.as_str()) {
                    Some((_c, s)) => s,
                    None => {
                        return Err(EngineError::AddressParse);
                    },
                };
                change_script = Some(script);
            },
            None => {},
        }
    }
    match change_script {
        Some(script) => {
            let ins66b = match build_inputs(&st.utxos, true) {
                Ok(v) => v,
                Err(e) => {
                    return Err(e);
                },
            };
            let mut outs_c = match build_estimate_outputs(&entries, st.is_testnet) {
                Ok(v) => v,
                Err(e) => {
                    return Err(e);
                },
            };
            outs_c.push(
                TxOutput {
                    value: change_wide as u64,
                    script_version: 0,
                    script: clone_bytes(&script),
                },
            );
            let tx1 = AssembledTransaction {
                version: 0,
                inputs: ins66b,
                outputs: outs_c,
                lock_time: 0,
                gas: 0,
                payload: clone_bytes(&st.payload),
                id: String::new(),
                mass: 0,
            };
            proof {
                assert(tx1@.outputs =~= build_outputs_spec(stv)->Ok_0.push(
                    change_output(stv, change0(stv) as u64),
                ));
                assert(tx1@ =~= builder_tx(
                    stv,
                    placeholder_script(),
                    build_outputs_spec(stv)->Ok_0.push(change_output(stv, change0(stv) as u64)),
                ));
                assert(consensus_ready(tx1@));
            }
            let mass1 = compute_tx_mass(&tx1);
            let fee1_wide = min_fee_u128(mass1, rate);
            proof {
                lemma_fee_fits(mass1 as int, rate as int);
            }
            let change1_wide: i128 = (total_input as i128) - (total_output as i128) - (
            fee1_wide as i128);
            if change1_wide > 0 {
                outs_final.push(
                    TxOutput { value: change1_wide as u64, script_version: 0, script },
                );
            }
        },
        None => {},
    }
    proof {
        assert(outs_final@.map_values(|t: TxOutput| t@) =~= signed_outputs(stv));
    }
    let ins_presign = match build_inputs(&st.utxos, true) {
        Ok(v) => v,
        Err(e) => {
            return Err(e);
        },
    };
    let outs_for_final = clone_outputs(&outs_final);
    let presign = AssembledTransaction {
        version: 0,
        inputs: ins_presign,
        outputs: outs_final,
        lock_time: 0,
        gas: 0,
        payload: clone_bytes(&st.payload),
        id: String::new(),
        mass: 0,
    };
    proof {
        assert(presign@ =~= presign_tx(stv));
        assert(consensus_ready(presign@));
    }
    let key_ok = if use_ecdsa {
        ecdsa_key_check(&sk)
    } else {
        schnorr_key_check(&sk)
    };
    if !key_ok {
        return Err(EngineError::SigningKey);
    }
    let mut scripts = sign_all(&presign, &sk, sighash_type, use_ecdsa);
    // Replace the placeholder scripts with the computed spending scripts.
    let mut signed_ins: Vec<TxInput> = Vec::new();
    let n = presign.inputs.len();
    let mut i: usize = 0;
    while i < n
        invariant
            0 <= i <= n,
            n == presign@.inputs.len(),
            scripts@.len() == n - i,
            signed_ins@.len() == i,
            forall|j: int|
                0 <= j < n - i ==> #[trigger] scripts@[j]@ == sig_script_for(
                    presign@,
                    i + j,
                    sighash_type,
                    sk@,
                    use_ecdsa,
                ),
            forall|j: int|
                0 <= j < i ==> #[trigger] signed_ins@[j]@ == (TxInputV {
                    signature_script: sig_script_for(
                        presign@,
                        j,
                        sighash_type,
                        sk@,
                        use_ecdsa,
                    ),
                    ..presign@.inputs[j]
                }),
        decreases n - i,
    {
        let u = &presign.inputs[i];
        let script = scripts.remove(0);
        let t = TxInput {
            txid: clone_bytes(&u.txid),
            index: u.index,
            signature_script: script,
            sequence: u.sequence,
            sig_op_count: u.sig_op_count,
            utxo_amount: u.utxo_amount,
            utxo_script_version: u.utxo_script_version,
            utxo_script: clone_bytes(&u.utxo_script),
            utxo_daa_score: u.utxo_daa_score,
            utxo_is_coinbase: u.utxo_is_coinbase,
        };
        proof {
            assert(t@ =~= (TxInputV {
                signature_script: sig_script_for(presign@, i as int, sighash_type, sk@, use_ecdsa),
                ..presign@.inputs[i as int]
            }));
        }
        signed_ins.push(t);
        i = i + 1;
    }
    let mut tx = AssembledTransaction {
        version: 0,
        inputs: signed_ins,
        outputs: outs_for_final,
        lock_time: 0,
        gas: 0,
        payload: clone_bytes(&st.payload),
        id: String::new(),
        mass: 0,
    };
    proof {
        assert(tx@ =~= signed_base(stv, sighash_type, sk@, use_ecdsa));
        assert(consensus_ready(tx@));
    }
    let id = consensus_tx_id(&tx);
    let mass = compute_tx_mass(&tx);
    tx.id = id;
    tx.mass = mass;
    proof {
        assert(tx@ =~= signed_tx(stv, sighash_type, sk@, use_ecdsa));
    }
    Ok(encode_document(&tx))
}

} // verus!
