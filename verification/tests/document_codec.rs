//! Canonical document encoding and decoding, including the concrete round
//! trip and every decode-failure class.

use kaspa_txgen::codec::{decode_document, encode_document, CanonicalDocument};
use kaspa_txgen::errors::EngineError;
use kaspa_txgen::model::{AssembledTransaction, TxInput, TxOutput};

fn sample_tx() -> AssembledTransaction {
    AssembledTransaction {
        version: 0,
        inputs: vec![TxInput {
            txid: vec![0xab; 32],
            index: 2,
            signature_script: vec![],
            sequence: 0,
            sig_op_count: 1,
            utxo_amount: 100000,
            utxo_script_version: 0,
            utxo_script: vec![0x20, 0x01, 0xff],
            utxo_daa_score: 0,
            utxo_is_coinbase: false,
        }],
        outputs: vec![TxOutput { value: 90000, script_version: 0, script: vec![0x51] }],
        lock_time: 0,
        gas: 0,
        payload: vec![1, 2, 3],
        id: "ab".repeat(32),
        mass: 2036,
    }
}

#[test]
fn encode_fields_exact() {
    let doc = encode_document(&sample_tx());
    assert_eq!(doc.id, "ab".repeat(32));
    assert_eq!(doc.inputs.len(), 1);
    assert_eq!(doc.inputs[0].transaction_id, "ab".repeat(32));
    assert_eq!(doc.inputs[0].index, 2);
    assert_eq!(doc.inputs[0].signature_script, "");
    assert_eq!(doc.inputs[0].sequence, "0");
    assert_eq!(doc.inputs[0].sig_op_count, 1);
    assert_eq!(doc.inputs[0].utxo.address, None);
    assert_eq!(doc.inputs[0].utxo.amount, "100000");
    assert_eq!(doc.inputs[0].utxo.script_public_key, "00002001ff");
    assert_eq!(doc.inputs[0].utxo.block_daa_score, "0");
    assert!(!doc.inputs[0].utxo.is_coinbase);
    assert_eq!(doc.outputs.len(), 1);
    assert_eq!(doc.outputs[0].value, "90000");
    assert_eq!(doc.outputs[0].script_public_key, "000051");
    assert_eq!(doc.version, 0);
    assert_eq!(doc.lock_time, "0");
    assert_eq!(doc.gas, "0");
    assert_eq!(doc.subnetwork_id, "0".repeat(40));
    assert_eq!(doc.payload, "010203");
    assert_eq!(doc.mass, "2036");
}

#[test]
fn decode_of_encode_is_identity() {
    let tx = sample_tx();
    let doc = encode_document(&tx);
    let back = decode_document(&doc).unwrap();
    assert_eq!(back, tx);
}

#[test]
fn decode_of_encode_empty_tx() {
    let tx = AssembledTransaction {
        version: 0,
        inputs: vec![],
        outputs: vec![],
        lock_time: 5,
        gas: 7,
        payload: vec![],
        id: "0".repeat(64),
        mass: 0,
    };
    let doc = encode_document(&tx);
    assert_eq!(doc.payload, "");
    let back = decode_document(&doc).unwrap();
    assert_eq!(back, tx);
}

fn good_doc() -> CanonicalDocument {
    encode_document(&sample_tx())
}

#[test]
fn decode_rejects_bad_id() {
    let mut doc = good_doc();
    doc.id = "zz".repeat(32);
    assert_eq!(decode_document(&doc).unwrap_err(), EngineError::DecodeHex);
    let mut doc = good_doc();
    doc.id = "ab".repeat(31);
    assert_eq!(decode_document(&doc).unwrap_err(), EngineError::DecodeLength);
}

#[test]
fn decode_rejects_bad_input_fields() {
    let mut doc = good_doc();
    doc.inputs[0].transaction_id = "ab".repeat(33);
    assert_eq!(decode_document(&doc).unwrap_err(), EngineError::DecodeLength);
    let mut doc = good_doc();
    doc.inputs[0].signature_script = "abc".to_string();
    assert_eq!(decode_document(&doc).unwrap_err(), EngineError::DecodeHex);
    let mut doc = good_doc();
    doc.inputs[0].sequence = "ten".to_string();
    assert_eq!(decode_document(&doc).unwrap_err(), EngineError::DecodeNumber);
    let mut doc = good_doc();
    doc.inputs[0].utxo.amount = "99999999999999999999999".to_string();
    assert_eq!(decode_document(&doc).unwrap_err(), EngineError::DecodeNumber);
    let mut doc = good_doc();
    doc.inputs[0].utxo.script_public_key = "00".to_string();
    assert_eq!(decode_document(&doc).unwrap_err(), EngineError::DecodeLength);
}

#[test]
fn decode_rejects_short_output_script_prefix() {
    let mut doc = good_doc();
    doc.outputs[0].script_public_key = "00".to_string();
    assert_eq!(decode_document(&doc).unwrap_err(), EngineError::DecodeLength);
    let mut doc = good_doc();
    doc.outputs[0].value = "".to_string();
    assert_eq!(decode_document(&doc).unwrap_err(), EngineError::DecodeNumber);
}

#[test]
fn decode_rejects_bad_trailing_fields() {
    let mut doc = good_doc();
    doc.lock_time = "x".to_string();
    assert_eq!(decode_document(&doc).unwrap_err(), EngineError::DecodeNumber);
    let mut doc = good_doc();
    doc.subnetwork_id = "0".repeat(38);
    assert_eq!(decode_document(&doc).unwrap_err(), EngineError::DecodeLength);
    let mut doc = good_doc();
    doc.payload = "1".to_string();
    assert_eq!(decode_document(&doc).unwrap_err(), EngineError::DecodeHex);
    let mut doc = good_doc();
    doc.mass = "1e3".to_string();
    assert_eq!(decode_document(&doc).unwrap_err(), EngineError::DecodeNumber);
}

#[test]
fn decode_keeps_script_version() {
    let mut tx = sample_tx();
    tx.outputs[0].script_version = 0x0102;
    let doc = encode_document(&tx);
    assert_eq!(doc.outputs[0].script_public_key, "010251");
    let back = decode_document(&doc).unwrap();
    assert_eq!(back.outputs[0].script_version, 0x0102);
    assert_eq!(back.outputs[0].script, vec![0x51]);
}
