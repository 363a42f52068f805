//! End-to-end builder flows: the unsigned change decision, the signed fee
//! recheck, network-mismatch failures, and clearing and reuse of handles.

use kaspa_addresses::{Address, Prefix, Version};
use kaspa_txgen::errors::EngineError;
use kaspa_txgen::fee::{kaspa_estimate_fee_from_entries, KaspaOutputEntry, KaspaUtxoEntry};
use kaspa_txgen::generator::{
    tx_generator_add_output, tx_generator_add_utxo, tx_generator_build_and_sign,
    tx_generator_build_unsigned, tx_generator_clear, tx_generator_free, tx_generator_new,
    tx_generator_set_change_address, tx_generator_set_fee_rate, tx_generator_set_payload_hex,
};
use kaspa_txgen::model::BuilderState;
use kaspa_txgen::registry::Registry;

fn mainnet_address(seed: u8) -> String {
    String::from(&Address::new(Prefix::Mainnet, Version::PubKey, &[seed; 32]))
}

fn testnet_address(seed: u8) -> String {
    String::from(&Address::new(Prefix::Testnet, Version::PubKey, &[seed; 32]))
}

fn sample_utxo(amount: u64) -> KaspaUtxoEntry {
    KaspaUtxoEntry {
        txid_be_hex: "11".repeat(32),
        index: 0,
        amount,
        script_pub_key_hex: format!("0000{}", "20".to_owned() + &"07".repeat(32) + "ac"),
    }
}

const SK_HEX: &str = "0101010101010101010101010101010101010101010101010101010101010101";

#[test]
fn unsigned_without_change_address_donates_leftover() {
    // One 100000 UTXO, one 90000 output, no change address, rate 1000: the
    // document has exactly one output and the leftover silently becomes
    // fee; mass and id are present and the input's UTXO script carries the
    // version prefix.
    let mut regs: Registry<BuilderState> = Registry::new(1);
    let h = tx_generator_new(&mut regs, false);
    tx_generator_add_utxo(&mut regs, h, &sample_utxo(100000)).unwrap();
    tx_generator_add_output(
        &mut regs,
        h,
        &KaspaOutputEntry { address: mainnet_address(7), amount: 90000 },
    )
    .unwrap();
    tx_generator_set_fee_rate(&mut regs, h, 1000).unwrap();
    let doc = tx_generator_build_unsigned(&regs, h).unwrap();
    assert_eq!(doc.outputs.len(), 1);
    assert_eq!(doc.outputs[0].value, "90000");
    assert_eq!(doc.id.len(), 64);
    assert!(doc.id.chars().all(|c| c.is_ascii_hexdigit()));
    assert!(doc.mass.parse::<u64>().unwrap() > 0);
    assert!(doc.inputs[0].utxo.script_public_key.starts_with("0000"));
    assert_eq!(doc.inputs[0].signature_script, "");
    assert_eq!(doc.inputs[0].utxo.amount, "100000");
    // The output's locking script is the canonical pay-to-address script of
    // the destination: a 32-byte push of the payload and a check-sig opcode.
    let expected_spk = format!("000020{}ac", "07".repeat(32));
    assert_eq!(doc.outputs[0].script_public_key, expected_spk);
    // The emitted document decodes back to a transaction with the declared
    // entries.
    let tx = kaspa_txgen::codec::decode_document(&doc).unwrap();
    assert_eq!(tx.inputs.len(), 1);
    assert_eq!(tx.inputs[0].utxo_amount, 100000);
    assert_eq!(tx.outputs[0].value, 90000);
    assert_eq!(tx.mass.to_string(), doc.mass);
}

#[test]
fn different_transactions_get_different_ids() {
    let build = |amount: u64| {
        let mut regs: Registry<BuilderState> = Registry::new(1);
        let h = tx_generator_new(&mut regs, false);
        tx_generator_add_utxo(&mut regs, h, &sample_utxo(100000)).unwrap();
        tx_generator_add_output(
            &mut regs,
            h,
            &KaspaOutputEntry { address: mainnet_address(7), amount },
        )
        .unwrap();
        tx_generator_build_unsigned(&regs, h).unwrap()
    };
    assert_ne!(build(90000).id, build(80000).id);
}

#[test]
fn signing_is_deterministic() {
    let build = |algo: u8| {
        let mut regs: Registry<BuilderState> = Registry::new(1);
        let h = tx_generator_new(&mut regs, false);
        tx_generator_add_utxo(&mut regs, h, &sample_utxo(100000)).unwrap();
        tx_generator_add_output(
            &mut regs,
            h,
            &KaspaOutputEntry { address: mainnet_address(7), amount: 90000 },
        )
        .unwrap();
        tx_generator_build_and_sign(&regs, h, SK_HEX, 1, algo).unwrap()
    };
    assert_eq!(build(0), build(0));
    assert_eq!(build(1), build(1));
}

#[test]
fn unsigned_with_change_address_conserves_value() {
    // Same entries with a testnet change address and builder at rate 1:
    // two outputs, and input total equals output total plus the phase-zero
    // fee, exactly.
    let mut regs: Registry<BuilderState> = Registry::new(1);
    let h = tx_generator_new(&mut regs, true);
    tx_generator_add_utxo(&mut regs, h, &sample_utxo(100000)).unwrap();
    tx_generator_add_output(
        &mut regs,
        h,
        &KaspaOutputEntry { address: testnet_address(7), amount: 90000 },
    )
    .unwrap();
    tx_generator_set_change_address(&mut regs, h, &testnet_address(9)).unwrap();
    tx_generator_set_fee_rate(&mut regs, h, 1).unwrap();
    let doc = tx_generator_build_unsigned(&regs, h).unwrap();
    assert_eq!(doc.outputs.len(), 2);
    // The phase-zero fee is the estimator's fee for the same entries.
    let est = kaspa_estimate_fee_from_entries(
        &vec![sample_utxo(100000)],
        &vec![KaspaOutputEntry { address: testnet_address(7), amount: 90000 }],
        true,
        1,
        "",
    )
    .unwrap();
    let out_sum: u64 = doc.outputs.iter().map(|o| o.value.parse::<u64>().unwrap()).sum();
    assert_eq!(100000, out_sum + est.min_fee);
}

#[test]
fn unsigned_change_decision_is_deterministic() {
    let build = || {
        let mut regs: Registry<BuilderState> = Registry::new(1);
        let h = tx_generator_new(&mut regs, false);
        tx_generator_add_utxo(&mut regs, h, &sample_utxo(100000)).unwrap();
        tx_generator_add_output(
            &mut regs,
            h,
            &KaspaOutputEntry { address: mainnet_address(7), amount: 90000 },
        )
        .unwrap();
        tx_generator_set_change_address(&mut regs, h, &mainnet_address(9)).unwrap();
        tx_generator_set_fee_rate(&mut regs, h, 1).unwrap();
        tx_generator_build_unsigned(&regs, h).unwrap()
    };
    let a = build();
    let b = build();
    assert_eq!(a, b);
}

#[test]
fn signed_recheck_abandons_marginal_change() {
    // At rate 1 the storage mass of the small change output pushes the
    // recomputed fee far above the phase-zero leftover, so the signed path
    // falls back to the no-change transaction while the unsigned path
    // (which never rechecks) keeps two outputs.
    let mut regs: Registry<BuilderState> = Registry::new(1);
    let h = tx_generator_new(&mut regs, false);
    tx_generator_add_utxo(&mut regs, h, &sample_utxo(100000)).unwrap();
    tx_generator_add_output(
        &mut regs,
        h,
        &KaspaOutputEntry { address: mainnet_address(7), amount: 90000 },
    )
    .unwrap();
    tx_generator_set_change_address(&mut regs, h, &mainnet_address(9)).unwrap();
    tx_generator_set_fee_rate(&mut regs, h, 1).unwrap();
    let unsigned = tx_generator_build_unsigned(&regs, h).unwrap();
    assert_eq!(unsigned.outputs.len(), 2);
    let signed = tx_generator_build_and_sign(&regs, h, SK_HEX, 1, 0).unwrap();
    assert_eq!(signed.outputs.len(), 1);
    assert_eq!(signed.outputs[0].value, "90000");
}

#[test]
fn signed_schnorr_script_shape() {
    let mut regs: Registry<BuilderState> = Registry::new(1);
    let h = tx_generator_new(&mut regs, false);
    tx_generator_add_utxo(&mut regs, h, &sample_utxo(100000)).unwrap();
    tx_generator_add_output(
        &mut regs,
        h,
        &KaspaOutputEntry { address: mainnet_address(7), amount: 90000 },
    )
    .unwrap();
    let doc = tx_generator_build_and_sign(&regs, h, SK_HEX, 1, 0).unwrap();
    // Push of 65 bytes: a 64-byte Schnorr signature plus the sighash tag.
    let script = &doc.inputs[0].signature_script;
    assert_eq!(script.len(), 132);
    assert!(script.starts_with("41"));
    assert!(script.ends_with("01"));
    assert_eq!(doc.id.len(), 64);
}

#[test]
fn signed_ecdsa_script_shape() {
    let mut regs: Registry<BuilderState> = Registry::new(1);
    let h = tx_generator_new(&mut regs, false);
    tx_generator_add_utxo(&mut regs, h, &sample_utxo(100000)).unwrap();
    tx_generator_add_output(
        &mut regs,
        h,
        &KaspaOutputEntry { address: mainnet_address(7), amount: 90000 },
    )
    .unwrap();
    let doc = tx_generator_build_and_sign(&regs, h, SK_HEX, 1, 1).unwrap();
    let script = &doc.inputs[0].signature_script;
    // Push opcode, DER signature (at most 72 bytes), sighash tag.
    let push_len = u8::from_str_radix(&script[0..2], 16).unwrap() as usize;
    assert!(push_len <= 73);
    assert_eq!(script.len(), 2 + 2 * push_len);
    assert!(script.ends_with("01"));
    // The two schemes give different scripts.
    let schnorr = tx_generator_build_and_sign(&regs, h, SK_HEX, 1, 0).unwrap();
    assert_ne!(schnorr.inputs[0].signature_script, doc.inputs[0].signature_script);
}

#[test]
fn signed_rejects_bad_arguments() {
    let mut regs: Registry<BuilderState> = Registry::new(1);
    let h = tx_generator_new(&mut regs, false);
    tx_generator_add_utxo(&mut regs, h, &sample_utxo(100000)).unwrap();
    tx_generator_add_output(
        &mut regs,
        h,
        &KaspaOutputEntry { address: mainnet_address(7), amount: 90000 },
    )
    .unwrap();
    assert_eq!(
        tx_generator_build_and_sign(&regs, 99, SK_HEX, 1, 0).unwrap_err(),
        EngineError::UnknownHandle
    );
    assert_eq!(
        tx_generator_build_and_sign(&regs, h, SK_HEX, 3, 0).unwrap_err(),
        EngineError::SigningHashType
    );
    assert_eq!(
        tx_generator_build_and_sign(&regs, h, SK_HEX, 1, 2).unwrap_err(),
        EngineError::SigningAlgorithm
    );
    assert_eq!(
        tx_generator_build_and_sign(&regs, h, "xyz", 1, 0).unwrap_err(),
        EngineError::DecodeHex
    );
    assert_eq!(
        tx_generator_build_and_sign(&regs, h, "0101", 1, 0).unwrap_err(),
        EngineError::DecodeLength
    );
    let zero_key = "00".repeat(32);
    assert_eq!(
        tx_generator_build_and_sign(&regs, h, &zero_key, 1, 0).unwrap_err(),
        EngineError::SigningKey
    );
    assert_eq!(
        tx_generator_build_and_sign(&regs, h, &zero_key, 1, 1).unwrap_err(),
        EngineError::SigningKey
    );
}

#[test]
fn network_mismatch_leaves_builder_unchanged() {
    // A mainnet-prefixed address against a testnet builder fails on
    // add_output and set_change_address without mutating state.
    let mut regs: Registry<BuilderState> = Registry::new(1);
    let h = tx_generator_new(&mut regs, true);
    tx_generator_add_utxo(&mut regs, h, &sample_utxo(100000)).unwrap();
    tx_generator_add_output(
        &mut regs,
        h,
        &KaspaOutputEntry { address: testnet_address(7), amount: 40000 },
    )
    .unwrap();
    assert_eq!(
        tx_generator_add_output(
            &mut regs,
            h,
            &KaspaOutputEntry { address: mainnet_address(8), amount: 1 },
        )
        .unwrap_err(),
        EngineError::AddressNetwork
    );
    assert_eq!(
        tx_generator_set_change_address(&mut regs, h, &mainnet_address(9)).unwrap_err(),
        EngineError::AddressNetwork
    );
    assert_eq!(
        tx_generator_set_change_address(&mut regs, h, "garbage").unwrap_err(),
        EngineError::AddressParse
    );
    // The failed calls left exactly one declared output and no change
    // address: the document still has a single output.
    let doc = tx_generator_build_unsigned(&regs, h).unwrap();
    assert_eq!(doc.outputs.len(), 1);
    assert_eq!(doc.outputs[0].value, "40000");
}

#[test]
fn clear_keeps_identity_and_fee_rate() {
    let mut regs: Registry<BuilderState> = Registry::new(1);
    let h = tx_generator_new(&mut regs, false);
    tx_generator_add_utxo(&mut regs, h, &sample_utxo(100000)).unwrap();
    tx_generator_add_output(
        &mut regs,
        h,
        &KaspaOutputEntry { address: mainnet_address(7), amount: 90000 },
    )
    .unwrap();
    tx_generator_set_payload_hex(&mut regs, h, "aabb").unwrap();
    tx_generator_clear(&mut regs, h).unwrap();
    let doc = tx_generator_build_unsigned(&regs, h).unwrap();
    assert_eq!(doc.inputs.len(), 0);
    assert_eq!(doc.outputs.len(), 0);
    assert_eq!(doc.payload, "");
    // A mainnet output is still accepted: the network flag survived.
    tx_generator_add_output(
        &mut regs,
        h,
        &KaspaOutputEntry { address: mainnet_address(7), amount: 1 },
    )
    .unwrap();
}

#[test]
fn free_then_reuse_shows_no_prior_state() {
    let mut regs: Registry<BuilderState> = Registry::new(1);
    let h1 = tx_generator_new(&mut regs, false);
    tx_generator_add_utxo(&mut regs, h1, &sample_utxo(100000)).unwrap();
    tx_generator_set_payload_hex(&mut regs, h1, "aabb").unwrap();
    tx_generator_free(&mut regs, h1).unwrap();
    assert_eq!(
        tx_generator_build_unsigned(&regs, h1).unwrap_err(),
        EngineError::UnknownHandle
    );
    // The same handle value comes back and carries none of the old state.
    let h2 = tx_generator_new(&mut regs, true);
    assert_eq!(h2, h1);
    let doc = tx_generator_build_unsigned(&regs, h2).unwrap();
    assert_eq!(doc.inputs.len(), 0);
    assert_eq!(doc.payload, "");
}

#[test]
fn payload_hex_validation() {
    let mut regs: Registry<BuilderState> = Registry::new(1);
    let h = tx_generator_new(&mut regs, false);
    assert_eq!(
        tx_generator_set_payload_hex(&mut regs, h, "abc").unwrap_err(),
        EngineError::DecodeHex
    );
    tx_generator_set_payload_hex(&mut regs, h, " aabb ").unwrap();
    tx_generator_add_utxo(&mut regs, h, &sample_utxo(100000)).unwrap();
    tx_generator_add_output(
        &mut regs,
        h,
        &KaspaOutputEntry { address: mainnet_address(7), amount: 90000 },
    )
    .unwrap();
    let doc = tx_generator_build_unsigned(&regs, h).unwrap();
    assert_eq!(doc.payload, "aabb");
    tx_generator_set_payload_hex(&mut regs, h, "").unwrap();
    let doc = tx_generator_build_unsigned(&regs, h).unwrap();
    assert_eq!(doc.payload, "");
}

#[test]
fn add_utxo_validates_before_handle() {
    let mut regs: Registry<BuilderState> = Registry::new(1);
    let mut bad = sample_utxo(1);
    bad.txid_be_hex = "xx".to_string();
    // Field validation fires even on an unknown handle.
    assert_eq!(
        tx_generator_add_utxo(&mut regs, 42, &bad).unwrap_err(),
        EngineError::DecodeHex
    );
    assert_eq!(
        tx_generator_add_utxo(&mut regs, 42, &sample_utxo(1)).unwrap_err(),
        EngineError::UnknownHandle
    );
}
