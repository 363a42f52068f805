//! The exact fee formula, the estimator on real entries, and its error
//! behaviour.

use kaspa_addresses::{Address, Prefix, Version};
use kaspa_txgen::errors::EngineError;
use kaspa_txgen::fee::{
    decode_spk_hex_strip_optional_version_prefix, kaspa_estimate_fee_from_entries,
    min_fee_clamped, sat_add, KaspaOutputEntry, KaspaUtxoEntry,
};

fn mainnet_address() -> String {
    String::from(&Address::new(Prefix::Mainnet, Version::PubKey, &[7u8; 32]))
}

fn testnet_address() -> String {
    String::from(&Address::new(Prefix::Testnet, Version::PubKey, &[7u8; 32]))
}

fn sample_utxo(amount: u64) -> KaspaUtxoEntry {
    KaspaUtxoEntry {
        txid_be_hex: "11".repeat(32),
        index: 0,
        amount,
        script_pub_key_hex: format!("0000{}", "20".to_owned() + &"07".repeat(32) + "ac"),
    }
}

#[test]
fn min_fee_formula_boundaries() {
    assert_eq!(min_fee_clamped(0, 1), 0);
    assert_eq!(min_fee_clamped(0, 1000), 0);
    assert_eq!(min_fee_clamped(1, 1), 1);
    assert_eq!(min_fee_clamped(1000, 1000), 1000);
    assert_eq!(min_fee_clamped(1001, 1), 2);
    assert_eq!(min_fee_clamped(2036, 1000), 2036);
    assert_eq!(min_fee_clamped(u64::MAX, u64::MAX), u64::MAX);
}

#[test]
fn min_fee_is_monotone_on_samples() {
    let mut last = 0;
    for mass in [0u64, 1, 999, 1000, 1001, 5000, 100000] {
        let fee = min_fee_clamped(mass, 1000);
        assert!(fee >= last);
        last = fee;
    }
    let mut last = 0;
    for rate in [0u64, 1, 2, 999, 1000, 100000] {
        let fee = min_fee_clamped(2000, rate);
        assert!(fee >= last);
        last = fee;
    }
}

#[test]
fn sat_add_saturates() {
    assert_eq!(sat_add(1, 2), 3);
    assert_eq!(sat_add(u64::MAX, 1), u64::MAX);
    assert_eq!(sat_add(u64::MAX - 1, 1), u64::MAX);
}

#[test]
fn spk_prefix_stripping() {
    assert_eq!(
        decode_spk_hex_strip_optional_version_prefix("0000aabb").unwrap(),
        vec![0xaa, 0xbb]
    );
    assert_eq!(
        decode_spk_hex_strip_optional_version_prefix("aabb").unwrap(),
        vec![0xaa, 0xbb]
    );
    assert_eq!(
        decode_spk_hex_strip_optional_version_prefix(" 0000aabb\n").unwrap(),
        vec![0xaa, 0xbb]
    );
    assert_eq!(
        decode_spk_hex_strip_optional_version_prefix("0000").unwrap(),
        Vec::<u8>::new()
    );
    assert_eq!(
        decode_spk_hex_strip_optional_version_prefix("xyz").unwrap_err(),
        EngineError::DecodeHex
    );
}

#[test]
fn estimate_produces_consistent_figures() {
    let utxos = vec![sample_utxo(100000)];
    let outputs = vec![KaspaOutputEntry { address: mainnet_address(), amount: 90000 }];
    let est = kaspa_estimate_fee_from_entries(&utxos, &outputs, false, 1000, "").unwrap();
    assert!(est.mass > 0);
    assert_eq!(est.total_input, 100000);
    assert_eq!(est.total_output, 90000);
    assert_eq!(est.min_fee, est.mass);
    assert_eq!(
        est.change,
        100000i64 - 90000i64 - est.min_fee as i64
    );
}

#[test]
fn estimate_uses_default_rate_for_non_positive() {
    let utxos = vec![sample_utxo(100000)];
    let outputs = vec![KaspaOutputEntry { address: mainnet_address(), amount: 90000 }];
    let at_default = kaspa_estimate_fee_from_entries(&utxos, &outputs, false, 0, "").unwrap();
    let at_1000 = kaspa_estimate_fee_from_entries(&utxos, &outputs, false, 1000, "").unwrap();
    let negative = kaspa_estimate_fee_from_entries(&utxos, &outputs, false, -5, "").unwrap();
    assert_eq!(at_default, at_1000);
    assert_eq!(negative, at_1000);
}

#[test]
fn estimate_rejects_empty_lists() {
    let utxos = vec![sample_utxo(100000)];
    let outputs = vec![KaspaOutputEntry { address: mainnet_address(), amount: 90000 }];
    assert_eq!(
        kaspa_estimate_fee_from_entries(&vec![], &outputs, false, 1000, "").unwrap_err(),
        EngineError::InvalidArgument
    );
    assert_eq!(
        kaspa_estimate_fee_from_entries(&utxos, &vec![], false, 1000, "").unwrap_err(),
        EngineError::InvalidArgument
    );
}

#[test]
fn estimate_rejects_bad_utxo_fields() {
    let outputs = vec![KaspaOutputEntry { address: mainnet_address(), amount: 90000 }];
    let mut bad_txid = sample_utxo(100000);
    bad_txid.txid_be_hex = "zz".repeat(32);
    assert_eq!(
        kaspa_estimate_fee_from_entries(&vec![bad_txid], &outputs, false, 1000, "").unwrap_err(),
        EngineError::DecodeHex
    );
    let mut short_txid = sample_utxo(100000);
    short_txid.txid_be_hex = "11".repeat(31);
    assert_eq!(
        kaspa_estimate_fee_from_entries(&vec![short_txid], &outputs, false, 1000, "").unwrap_err(),
        EngineError::DecodeLength
    );
    let mut bad_spk = sample_utxo(100000);
    bad_spk.script_pub_key_hex = "0q".to_string();
    assert_eq!(
        kaspa_estimate_fee_from_entries(&vec![bad_spk], &outputs, false, 1000, "").unwrap_err(),
        EngineError::DecodeHex
    );
}

#[test]
fn estimate_rejects_network_mismatch() {
    // A mainnet-prefixed address supplied to a testnet estimate fails with
    // an address error.
    let utxos = vec![sample_utxo(100000)];
    let outputs = vec![KaspaOutputEntry { address: mainnet_address(), amount: 90000 }];
    assert_eq!(
        kaspa_estimate_fee_from_entries(&utxos, &outputs, true, 1000, "").unwrap_err(),
        EngineError::AddressNetwork
    );
    let testnet_outputs = vec![KaspaOutputEntry { address: testnet_address(), amount: 90000 }];
    assert_eq!(
        kaspa_estimate_fee_from_entries(&utxos, &testnet_outputs, false, 1000, "").unwrap_err(),
        EngineError::AddressNetwork
    );
}

#[test]
fn estimate_rejects_unparseable_address() {
    let utxos = vec![sample_utxo(100000)];
    let outputs = vec![KaspaOutputEntry { address: "not an address".to_string(), amount: 1 }];
    assert_eq!(
        kaspa_estimate_fee_from_entries(&utxos, &outputs, false, 1000, "").unwrap_err(),
        EngineError::AddressParse
    );
}

#[test]
fn estimate_rejects_bad_payload_hex() {
    let utxos = vec![sample_utxo(100000)];
    let outputs = vec![KaspaOutputEntry { address: mainnet_address(), amount: 90000 }];
    assert_eq!(
        kaspa_estimate_fee_from_entries(&utxos, &outputs, false, 1000, "abc").unwrap_err(),
        EngineError::DecodeHex
    );
    // An empty or whitespace payload means no payload.
    assert!(kaspa_estimate_fee_from_entries(&utxos, &outputs, false, 1000, " \n").is_ok());
}

#[test]
fn estimate_payload_increases_mass() {
    // Large, nearly balanced amounts keep the storage mass negligible, so
    // the compute mass (which grows with the payload) is authoritative.
    let utxos = vec![sample_utxo(1_000_000_000_000)];
    let outputs = vec![KaspaOutputEntry {
        address: mainnet_address(),
        amount: 999_000_000_000,
    }];
    let without = kaspa_estimate_fee_from_entries(&utxos, &outputs, false, 1000, "").unwrap();
    let with = kaspa_estimate_fee_from_entries(&utxos, &outputs, false, 1000, &"ab".repeat(1000))
        .unwrap();
    assert!(with.mass > without.mass);
}
