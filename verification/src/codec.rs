//! The canonical transaction codec: a bidirectional, field-by-field mapping
//! between an [`AssembledTransaction`] and the canonical document whose JSON
//! projection crosses the boundary. All 64-bit numbers travel as decimal
//! strings, all binary fields as lowercase hex, and every script-public-key
//! field carries a 2-byte big-endian encoding-version prefix.

use vstd::prelude::*;
use crate::errors::EngineError;
use crate::hexcode::{
    bytes_of_hex, hex_decode, hex_encode, hex_of_bytes, is_valid_hex, lemma_hex_round_trip,
};
use crate::decimal::{dec_of, dec_val, is_valid_dec_u64, lemma_dec_round_trip, parse_dec_u64, u64_to_dec};
use crate::model::{
    AssembledTransaction, AssembledTransactionV, TxInput, TxInputV, TxOutput, TxOutputV,
};
use crate::strutil::string_push;

verus! {

/// The UTXO context carried for one input of a canonical document.
#[derive(Clone, Debug, PartialEq, Eq)]
pub struct CanonicalUtxo {
    /// Not reconstructed by the engine; always absent in emitted documents.
    pub address: Option<String>,
    /// Amount of the spent output, in decimal.
    pub amount: String,
    /// Locking script with 2-byte version prefix, in hex.
    pub script_public_key: String,
    /// DAA score passthrough, in decimal.
    pub block_daa_score: String,
    pub is_coinbase: bool,
}

#[verifier::ext_equal]
pub ghost struct CanonicalUtxoV {
    pub address: Option<Seq<char>>,
    pub amount: Seq<char>,
    pub script_public_key: Seq<char>,
    pub block_daa_score: Seq<char>,
    pub is_coinbase: bool,
}

impl View for CanonicalUtxo {
    type V = CanonicalUtxoV;

    open spec fn view(&self) -> CanonicalUtxoV {
        CanonicalUtxoV {
            address: match self.address {
                Some(a) => Some(a@),
                None => None,
            },
            amount: self.amount@,
            script_public_key: self.script_public_key@,
            block_daa_score: self.block_daa_score@,
            is_coinbase: self.is_coinbase,
        }
    }
}

/// One input of a canonical document.
#[derive(Clone, Debug, PartialEq, Eq)]
pub struct CanonicalInput {
    /// 32-byte previous transaction id, in hex.
    pub transaction_id: String,
    pub index: u32,
    /// The spending script, in hex; empty while unsigned.
    pub signature_script: String,
    /// Sequence number, in decimal.
    pub sequence: String,
    pub sig_op_count: u8,
    pub utxo: CanonicalUtxo,
}

#[verifier::ext_equal]
pub ghost struct CanonicalInputV {
    pub transaction_id: Seq<char>,
    pub index: u32,
    pub signature_script: Seq<char>,
    pub sequence: Seq<char>,
    pub sig_op_count: u8,
    pub utxo: CanonicalUtxoV,
}

impl View for CanonicalInput {
    type V = CanonicalInputV;

    open spec fn view(&self) -> CanonicalInputV {
        CanonicalInputV {
            transaction_id: self.transaction_id@,
            index: self.index,
            signature_script: self.signature_script@,
            sequence: self.sequence@,
            sig_op_count: self.sig_op_count,
            utxo: self.utxo@,
        }
    }
}

/// One output of a canonical document.
#[derive(Clone, Debug, PartialEq, Eq)]
pub struct CanonicalOutput {
    /// Output value, in decimal.
    pub value: String,
    /// Locking script with 2-byte version prefix, in hex.
    pub script_public_key: String,
}

#[verifier::ext_equal]
pub ghost struct CanonicalOutputV {
    pub value: Seq<char>,
    pub script_public_key: Seq<char>,
}

impl View for CanonicalOutput {
    type V = CanonicalOutputV;

    open spec fn view(&self) -> CanonicalOutputV {
        CanonicalOutputV { value: self.value@, script_public_key: self.script_public_key@ }
    }
}

/// The canonical document: the JSON projection of an assembled transaction.
#[derive(Clone, Debug, PartialEq, Eq)]
pub struct CanonicalDocument {
    /// Transaction identifier, 64 hex digits.
    pub id: String,
    pub inputs: Vec<CanonicalInput>,
    pub outputs: Vec<CanonicalOutput>,
    pub version: u16,
    pub lock_time: String,
    pub gas: String,
    /// Fixed-width, zero-padded hex of the zero subnetwork.
    pub subnetwork_id: String,
    /// Payload bytes, in hex.
    pub payload: String,
    /// Authoritative mass, in decimal.
    pub mass: String,
}

#[verifier::ext_equal]
pub ghost struct CanonicalDocumentV {
    pub id: Seq<char>,
    pub inputs: Seq<CanonicalInputV>,
    pub outputs: Seq<CanonicalOutputV>,
    pub version: u16,
    pub lock_time: Seq<char>,
    pub gas: Seq<char>,
    pub subnetwork_id: Seq<char>,
    pub payload: Seq<char>,
    pub mass: Seq<char>,
}

impl View for CanonicalDocument {
    type V = CanonicalDocumentV;

    open spec fn view(&self) -> CanonicalDocumentV {
        CanonicalDocumentV {
            id: self.id@,
            inputs: self.inputs@.map_values(|i: CanonicalInput| i@),
            outputs: self.outputs@.map_values(|o: CanonicalOutput| o@),
            version: self.version,
            lock_time: self.lock_time@,
            gas: self.gas@,
            subnetwork_id: self.subnetwork_id@,
            payload: self.payload@,
            mass: self.mass@,
        }
    }
}

/// Hex rendering of a locking script with its 2-byte big-endian version
/// prefix prepended.
pub open spec fn spk_hex(version: u16, script: Seq<u8>) -> Seq<char> {
    hex_of_bytes(seq![(version / 256) as u8, (version % 256) as u8] + script)
}

/// The fixed-width rendering of the zero subnetwork id: forty zeros.
pub open spec fn subnetwork_zero_hex() -> Seq<char> {
    Seq::new(40, |i: int| '0')
}

pub open spec fn encode_input_spec(i: TxInputV) -> CanonicalInputV {
    CanonicalInputV {
        transaction_id: hex_of_bytes(i.txid),
        index: i.index,
        signature_script: hex_of_bytes(i.signature_script),
        sequence: dec_of(i.sequence as nat),
        sig_op_count: i.sig_op_count,
        utxo: CanonicalUtxoV {
            address: None,
            amount: dec_of(i.utxo_amount as nat),
            script_public_key: spk_hex(i.utxo_script_version, i.utxo_script),
            block_daa_score: dec_of(i.utxo_daa_score as nat),
            is_coinbase: i.utxo_is_coinbase,
        },
    }
}

pub open spec fn encode_output_spec(o: TxOutputV) -> CanonicalOutputV {
    CanonicalOutputV {
        value: dec_of(o.value as nat),
        script_public_key: spk_hex(o.script_version, o.script),
    }
}

/// What encoding a transaction yields, field by field.
pub open spec fn encode_spec(tx: AssembledTransactionV) -> CanonicalDocumentV {
    CanonicalDocumentV {
        id: tx.id,
        inputs: tx.inputs.map_values(|i: TxInputV| encode_input_spec(i)),
        outputs: tx.outputs.map_values(|o: TxOutputV| encode_output_spec(o)),
        version: tx.version,
        lock_time: dec_of(tx.lock_time as nat),
        gas: dec_of(tx.gas as nat),
        subnetwork_id: subnetwork_zero_hex(),
        payload: hex_of_bytes(tx.payload),
        mass: dec_of(tx.mass as nat),
    }
}

pub open spec fn decode_input_spec(ci: CanonicalInputV) -> Result<TxInputV, EngineError> {
    if !is_valid_hex(ci.transaction_id) {
        Err(EngineError::DecodeHex)
    } else if bytes_of_hex(ci.transaction_id).len() != 32 {
        Err(EngineError::DecodeLength)
    } else if !is_valid_hex(ci.signature_script) {
        Err(EngineError::DecodeHex)
    } else if !is_valid_dec_u64(ci.sequence) {
        Err(EngineError::DecodeNumber)
    } else if !is_valid_dec_u64(ci.utxo.amount) {
        Err(EngineError::DecodeNumber)
    } else if !is_valid_hex(ci.utxo.script_public_key) {
        Err(EngineError::DecodeHex)
    } else if bytes_of_hex(ci.utxo.script_public_key).len() < 2 {
        Err(EngineError::DecodeLength)
    } else if !is_valid_dec_u64(ci.utxo.block_daa_score) {
        Err(EngineError::DecodeNumber)
    } else {
        let spk = bytes_of_hex(ci.utxo.script_public_key);
        Ok(TxInputV {
            txid: bytes_of_hex(ci.transaction_id),
            index: ci.index,
            signature_script: bytes_of_hex(ci.signature_script),
            sequence: dec_val(ci.sequence) as u64,
            sig_op_count: ci.sig_op_count,
            utxo_amount: dec_val(ci.utxo.amount) as u64,
            utxo_script_version: (spk[0] as int * 256 + spk[1] as int) as u16,
            utxo_script: spk.skip(2),
            utxo_daa_score: dec_val(ci.utxo.block_daa_score) as u64,
            utxo_is_coinbase: ci.utxo.is_coinbase,
        })
    }
}

pub open spec fn decode_output_spec(co: CanonicalOutputV) -> Result<TxOutputV, EngineError> {
    if !is_valid_dec_u64(co.value) {
        Err(EngineError::DecodeNumber)
    } else if !is_valid_hex(co.script_public_key) {
        Err(EngineError::DecodeHex)
    } else if bytes_of_hex(co.script_public_key).len() < 2 {
        Err(EngineError::DecodeLength)
    } else {
        let spk = bytes_of_hex(co.script_public_key);
        Ok(TxOutputV {
            value: dec_val(co.value) as u64,
            script_version: (spk[0] as int * 256 + spk[1] as int) as u16,
            script: spk.skip(2),
        })
    }
}

pub open spec fn decode_inputs_spec(s: Seq<CanonicalInputV>) -> Result<Seq<TxInputV>, EngineError>
    decreases s.len(),
{
    if s.len() == 0 {
        Ok(Seq::<TxInputV>::empty())
    } else {
        match decode_input_spec(s.first()) {
            Err(e) => Err(e),
            Ok(v) => match decode_inputs_spec(s.drop_first()) {
                Err(e) => Err(e),
                Ok(vs) => Ok(seq![v] + vs),
            },
        }
    }
}

pub open spec fn decode_outputs_spec(s: Seq<CanonicalOutputV>) -> Result<
    Seq<TxOutputV>,
    EngineError,
>
    decreases s.len(),
{
    if s.len() == 0 {
        Ok(Seq::<TxOutputV>::empty())
    } else {
        match decode_output_spec(s.first()) {
            Err(e) => Err(e),
            Ok(v) => match decode_outputs_spec(s.drop_first()) {
                Err(e) => Err(e),
                Ok(vs) => Ok(seq![v] + vs),
            },
        }
    }
}

/// What decoding a document yields: the transaction it denotes, or the
/// first decode failure in field order.
pub open spec fn decode_spec(d: CanonicalDocumentV) -> Result<AssembledTransactionV, EngineError> {
    if !is_valid_hex(d.id) {
        Err(EngineError::DecodeHex)
    } else if d.id.len() != 64 {
        Err(EngineError::DecodeLength)
    } else {
        match decode_inputs_spec(d.inputs) {
            Err(e) => Err(e),
            Ok(ins) => match decode_outputs_spec(d.outputs) {
                Err(e) => Err(e),
                Ok(outs) => {
                    if !is_valid_dec_u64(d.lock_time) {
                        Err(EngineError::DecodeNumber)
                    } else if !is_valid_dec_u64(d.gas) {
                        Err(EngineError::DecodeNumber)
                    } else if !is_valid_hex(d.subnetwork_id) {
                        Err(EngineError::DecodeHex)
                    } else if d.subnetwork_id.len() != 40 {
                        Err(EngineError::DecodeLength)
                    } else if !is_valid_hex(d.payload) {
                        Err(EngineError::DecodeHex)
                    } else if !is_valid_dec_u64(d.mass) {
                        Err(EngineError::DecodeNumber)
                    } else {
                        Ok(AssembledTransactionV {
                            version: d.version,
                            inputs: ins,
                            outputs: outs,
                            lock_time: dec_val(d.lock_time) as u64,
                            gas: dec_val(d.gas) as u64,
                            payload: bytes_of_hex(d.payload),
                            id: d.id,
                            mass: dec_val(d.mass) as u64,
                        })
                    }
                },
            },
        }
    }
}

/// Renders a locking script as hex with its 2-byte version prefix.
pub fn spk_to_hex(version: u16, script: &Vec<u8>) -> (r: String)
    ensures
        r@ == spk_hex(version, script@),
{
    let mut b: Vec<u8> = Vec::new();
    b.push((version / 256) as u8);
    b.push((version % 256) as u8);
    b.extend_from_slice(script.as_slice());
    proof {
        assert(b@ =~= seq![(version / 256) as u8, (version % 256) as u8] + script@);
    }
    hex_encode(&b)
}

fn encode_input(i: &TxInput) -> (r: CanonicalInput)
    ensures
        r@ == encode_input_spec(i@),
{
    CanonicalInput {
        transaction_id: hex_encode(&i.txid),
        index: i.index,
        signature_script: hex_encode(&i.signature_script),
        sequence: u64_to_dec(i.sequence),
        sig_op_count: i.sig_op_count,
        utxo: CanonicalUtxo {
            address: None,
            amount: u64_to_dec(i.utxo_amount),
            script_public_key: spk_to_hex(i.utxo_script_version, &i.utxo_script),
            block_daa_score: u64_to_dec(i.utxo_daa_score),
            is_coinbase: i.utxo_is_coinbase,
        },
    }
}

fn encode_output(o: &TxOutput) -> (r: CanonicalOutput)
    ensures
        r@ == encode_output_spec(o@),
{
    CanonicalOutput {
        value: u64_to_dec(o.value),
        script_public_key: spk_to_hex(o.script_version, &o.script),
    }
}

fn subnetwork_zero_string() -> (r: String)
    ensures
        r@ == subnetwork_zero_hex(),
{
    let mut r = String::new();
    let mut i: usize = 0;
    while i < 40
        invariant
            0 <= i <= 40,
            r@ =~= Seq::new(i as nat, |j: int| '0'),
        decreases 40 - i,
    {
        string_push(&mut r, '0');
        proof {
            assert(r@ =~= Seq::new((i + 1) as nat, |j: int| '0'));
        }
        i = i + 1;
    }
    r
}

/// Encodes an assembled transaction as a canonical document.
pub fn encode_document(tx: &AssembledTransaction) -> (r: CanonicalDocument)
    ensures
        r@ == encode_spec(tx@),
{
    let mut inputs: Vec<CanonicalInput> = Vec::new();
    let mut i: usize = 0;
    while i < tx.inputs.len()
        invariant
            0 <= i <= tx.inputs@.len(),
            inputs@.len() == i,
            forall|k: int|
                0 <= k < i ==> #[trigger] inputs@[k]@ == encode_input_spec(tx.inputs@[k]@),
        decreases tx.inputs@.len() - i,
    {
        inputs.push(encode_input(&tx.inputs[i]));
        i = i + 1;
    }
    let mut outputs: Vec<CanonicalOutput> = Vec::new();
    let mut j: usize = 0;
    while j < tx.outputs.len()
        invariant
            0 <= j <= tx.outputs@.len(),
            outputs@.len() == j,
            forall|k: int|
                0 <= k < j ==> #[trigger] outputs@[k]@ == encode_output_spec(tx.outputs@[k]@),
        decreases tx.outputs@.len() - j,
    {
        outputs.push(encode_output(&tx.outputs[j]));
        j = j + 1;
    }
    let r = CanonicalDocument {
        id: tx.id.clone(),
        inputs,
        outputs,
        version: tx.version,
        lock_time: u64_to_dec(tx.lock_time),
        gas: u64_to_dec(tx.gas),
        subnetwork_id: subnetwork_zero_string(),
        payload: hex_encode(&tx.payload),
        mass: u64_to_dec(tx.mass),
    };
    proof {
        assert(tx@.inputs =~= tx.inputs@.map_values(|t: TxInput| t@));
        assert(r@.inputs =~= encode_spec(tx@).inputs) by {
            assert(forall|k: int|
                0 <= k < tx.inputs@.len() ==> #[trigger] encode_spec(tx@).inputs[k]
                    == encode_input_spec(tx.inputs@[k]@));
            assert(forall|k: int|
                0 <= k < tx.inputs@.len() ==> #[trigger] r@.inputs[k] == r.inputs@[k]@);
        }
        assert(r@.outputs =~= encode_spec(tx@).outputs) by {
            assert(forall|k: int|
                0 <= k < tx.outputs@.len() ==> #[trigger] encode_spec(tx@).outputs[k]
                    == encode_output_spec(tx.outputs@[k]@));
            assert(forall|k: int|
                0 <= k < tx.outputs@.len() ==> #[trigger] r@.outputs[k] == r.outputs@[k]@);
        }
        assert(r@ =~= encode_spec(tx@));
    }
    r
}

fn decode_input(ci: &CanonicalInput) -> (r: Result<TxInput, EngineError>)
    ensures
        r is Ok <==> decode_input_spec(ci@) is Ok,
        r is Ok ==> decode_input_spec(ci@) == Ok::<TxInputV, EngineError>(r->Ok_0@),
        r is Err ==> decode_input_spec(ci@) == Err::<TxInputV, EngineError>(r->Err_0),
{
    let txid = match hex_decode(ci.transaction_id.as_str()) {
        Ok(v) => v,
        Err(_) => {
            return Err(EngineError::DecodeHex);
        },
    };
    if txid.len() != 32 {
        return Err(EngineError::DecodeLength);
    }
    let sig_script = match hex_decode(ci.signature_script.as_str()) {
        Ok(v) => v,
        Err(_) => {
            return Err(EngineError::DecodeHex);
        },
    };
    let sequence = match parse_dec_u64(ci.sequence.as_str()) {
        Ok(v) => v,
        Err(_) => {
            return Err(EngineError::DecodeNumber);
        },
    };
    let amount = match parse_dec_u64(ci.utxo.amount.as_str()) {
        Ok(v) => v,
        Err(_) => {
            return Err(EngineError::DecodeNumber);
        },
    };
    let mut spk = match hex_decode(ci.utxo.script_public_key.as_str()) {
        Ok(v) => v,
        Err(_) => {
            return Err(EngineError::DecodeHex);
        },
    };
    if spk.len() < 2 {
        return Err(EngineError::DecodeLength);
    }
    let daa = match parse_dec_u64(ci.utxo.block_daa_score.as_str()) {
        Ok(v) => v,
        Err(_) => {
            return Err(EngineError::DecodeNumber);
        },
    };
    let version: u16 = (spk[0] as u16) * 256 + (spk[1] as u16);
    let script = spk.split_off(2);
    Ok(TxInput {
        txid,
        index: ci.index,
        signature_script: sig_script,
        sequence,
        sig_op_count: ci.sig_op_count,
        utxo_amount: amount,
        utxo_script_version: version,
        utxo_script: script,
        utxo_daa_score: daa,
        utxo_is_coinbase: ci.utxo.is_coinbase,
    })
}

fn decode_output(co: &CanonicalOutput) -> (r: Result<TxOutput, EngineError>)
    ensures
        r is Ok <==> decode_output_spec(co@) is Ok,
        r is Ok ==> decode_output_spec(co@) == Ok::<TxOutputV, EngineError>(r->Ok_0@),
        r is Err ==> decode_output_spec(co@) == Err::<TxOutputV, EngineError>(r->Err_0),
{
    let value = match parse_dec_u64(co.value.as_str()) {
        Ok(v) => v,
        Err(_) => {
            return Err(EngineError::DecodeNumber);
        },
    };
    let mut spk = match hex_decode(co.script_public_key.as_str()) {
        Ok(v) => v,
        Err(_) => {
            return Err(EngineError::DecodeHex);
        },
    };
    if spk.len() < 2 {
        return Err(EngineError::DecodeLength);
    }
    let version: u16 = (spk[0] as u16) * 256 + (spk[1] as u16);
    let script = spk.split_off(2);
    Ok(TxOutput { value, script_version: version, script })
}

proof fn lemma_decode_inputs_ok(s: Seq<CanonicalInputV>, vs: Seq<TxInputV>)
    requires
        s.len() == vs.len(),
        forall|j: int|
            0 <= j < s.len() ==> decode_input_spec(#[trigger] s[j]) == Ok::<
                TxInputV,
                EngineError,
            >(vs[j]),
    ensures
        decode_inputs_spec(s) == Ok::<Seq<TxInputV>, EngineError>(vs),
    decreases s.len(),
{
    if s.len() == 0 {
        assert(vs =~= Seq::<TxInputV>::empty());
    } else {
        lemma_decode_inputs_ok(s.drop_first(), vs.drop_first());
        assert(vs =~= seq![vs.first()] + vs.drop_first());
    }
}

proof fn lemma_decode_inputs_err(s: Seq<CanonicalInputV>, i: int, e: EngineError)
    requires
        0 <= i < s.len(),
        forall|j: int| 0 <= j < i ==> decode_input_spec(#[trigger] s[j]) is Ok,
        decode_input_spec(s[i]) == Err::<TxInputV, EngineError>(e),
    ensures
        decode_inputs_spec(s) == Err::<Seq<TxInputV>, EngineError>(e),
    decreases s.len(),
{
    if i == 0 {
    } else {
        lemma_decode_inputs_err(s.drop_first(), i - 1, e);
    }
}

proof fn lemma_decode_outputs_ok(s: Seq<CanonicalOutputV>, vs: Seq<TxOutputV>)
    requires
        s.len() == vs.len(),
        forall|j: int|
            0 <= j < s.len() ==> decode_output_spec(#[trigger] s[j]) == Ok::<
                TxOutputV,
                EngineError,
            >(vs[j]),
    ensures
        decode_outputs_spec(s) == Ok::<Seq<TxOutputV>, EngineError>(vs),
    decreases s.len(),
{
    if s.len() == 0 {
        assert(vs =~= Seq::<TxOutputV>::empty());
    } else {
        lemma_decode_outputs_ok(s.drop_first(), vs.drop_first());
        assert(vs =~= seq![vs.first()] + vs.drop_first());
    }
}

proof fn lemma_decode_outputs_err(s: Seq<CanonicalOutputV>, i: int, e: EngineError)
    requires
        0 <= i < s.len(),
        forall|j: int| 0 <= j < i ==> decode_output_spec(#[trigger] s[j]) is Ok,
        decode_output_spec(s[i]) == Err::<TxOutputV, EngineError>(e),
    ensures
        decode_outputs_spec(s) == Err::<Seq<TxOutputV>, EngineError>(e),
    decreases s.len(),
{
    if i == 0 {
    } else {
        lemma_decode_outputs_err(s.drop_first(), i - 1, e);
    }
}

/// Decodes a canonical document back to the transaction it denotes,
/// rejecting malformed hex, wrong fixed lengths and out-of-range numbers.
pub fn decode_document(d: &CanonicalDocument) -> (r: Result<AssembledTransaction, EngineError>)
    ensures
        r is Ok <==> decode_spec(d@) is Ok,
        r is Ok ==> decode_spec(d@) == Ok::<AssembledTransactionV, EngineError>(r->Ok_0@),
        r is Err ==> decode_spec(d@) == Err::<AssembledTransactionV, EngineError>(r->Err_0),
{
    let id_bytes = match hex_decode(d.id.as_str()) {
        Ok(v) => v,
        Err(_) => {
            return Err(EngineError::DecodeHex);
        },
    };
    if id_bytes.len() != 32 {
        proof {
            crate::hexcode::lemma_bytes_of_hex_len(d.id@);
        }
        return Err(EngineError::DecodeLength);
    }
    proof {
        crate::hexcode::lemma_bytes_of_hex_len(d.id@);
    }
    let mut ins: Vec<TxInput> = Vec::new();
    let mut i: usize = 0;
    while i < d.inputs.len()
        invariant
            0 <= i <= d.inputs@.len(),
            ins@.len() == i,
            is_valid_hex(d@.id),
            d@.id.len() == 64,
            forall|j: int|
                0 <= j < i ==> decode_input_spec(#[trigger] d.inputs@[j]@) == Ok::<
                    TxInputV,
                    EngineError,
                >(ins@[j]@),
        decreases d.inputs@.len() - i,
    {
        match decode_input(&d.inputs[i]) {
            Ok(v) => {
                ins.push(v);
            },
            Err(e) => {
                proof {
                    let s = d@.inputs;
                    assert(forall|j: int| 0 <= j < i ==> #[trigger] s[j] == d.inputs@[j]@);
                    assert(s[i as int] == d.inputs@[i as int]@);
                    lemma_decode_inputs_err(s, i as int, e);
                }
                return Err(e);
            },
        }
        i = i + 1;
    }
    proof {
        let s = d@.inputs;
        assert(forall|j: int| 0 <= j < s.len() ==> #[trigger] s[j] == d.inputs@[j]@);
        lemma_decode_inputs_ok(s, ins@.map_values(|t: TxInput| t@));
    }
    let mut outs: Vec<TxOutput> = Vec::new();
    let mut j: usize = 0;
    while j < d.outputs.len()
        invariant
            0 <= j <= d.outputs@.len(),
            outs@.len() == j,
            is_valid_hex(d@.id),
            d@.id.len() == 64,
            decode_inputs_spec(d@.inputs) is Ok,
            forall|k: int|
                0 <= k < j ==> decode_output_spec(#[trigger] d.outputs@[k]@) == Ok::<
                    TxOutputV,
                    EngineError,
                >(outs@[k]@),
        decreases d.outputs@.len() - j,
    {
        match decode_output(&d.outputs[j]) {
            Ok(v) => {
                outs.push(v);
            },
            Err(e) => {
                proof {
                    let s = d@.outputs;
                    assert(forall|k: int| 0 <= k < j ==> #[trigger] s[k] == d.outputs@[k]@);
                    assert(s[j as int] == d.outputs@[j as int]@);
                    lemma_decode_outputs_err(s, j as int, e);
                }
                return Err(e);
            },
        }
        j = j + 1;
    }
    proof {
        let s = d@.outputs;
        assert(forall|k: int| 0 <= k < s.len() ==> #[trigger] s[k] == d.outputs@[k]@);
        lemma_decode_outputs_ok(s, outs@.map_values(|t: TxOutput| t@));
    }
    let lock_time = match parse_dec_u64(d.lock_time.as_str()) {
        Ok(v) => v,
        Err(_) => {
            return Err(EngineError::DecodeNumber);
        },
    };
    let gas = match parse_dec_u64(d.gas.as_str()) {
        Ok(v) => v,
        Err(_) => {
            return Err(EngineError::DecodeNumber);
        },
    };
    let subnetwork = match hex_decode(d.subnetwork_id.as_str()) {
        Ok(v) => v,
        Err(_) => {
            return Err(EngineError::DecodeHex);
        },
    };
    if subnetwork.len() != 20 {
        proof {
            crate::hexcode::lemma_bytes_of_hex_len(d.subnetwork_id@);
        }
        return Err(EngineError::DecodeLength);
    }
    proof {
        crate::hexcode::lemma_bytes_of_hex_len(d.subnetwork_id@);
    }
    let payload = match hex_decode(d.payload.as_str()) {
        Ok(v) => v,
        Err(_) => {
            return Err(EngineError::DecodeHex);
        },
    };
    let mass = match parse_dec_u64(d.mass.as_str()) {
        Ok(v) => v,
        Err(_) => {
            return Err(EngineError::DecodeNumber);
        },
    };
    let r = AssembledTransaction {
        version: d.version,
        inputs: ins,
        outputs: outs,
        lock_time,
        gas,
        payload,
        id: d.id.clone(),
        mass,
    };
    proof {
        assert(r@ =~= decode_spec(d@)->Ok_0);
    }
    Ok(r)
}

proof fn lemma_input_round_trip(iv: TxInputV)
    requires
        iv.wf(),
    ensures
        decode_input_spec(encode_input_spec(iv)) == Ok::<TxInputV, EngineError>(iv),
{
    let ci = encode_input_spec(iv);
    lemma_hex_round_trip(iv.txid);
    lemma_hex_round_trip(iv.signature_script);
    lemma_dec_round_trip(iv.sequence as nat);
    lemma_dec_round_trip(iv.utxo_amount as nat);
    lemma_dec_round_trip(iv.utxo_daa_score as nat);
    let pre = seq![
        (iv.utxo_script_version / 256) as u8,
        (iv.utxo_script_version % 256) as u8,
    ] + iv.utxo_script;
    lemma_hex_round_trip(pre);
    assert(bytes_of_hex(ci.utxo.script_public_key) == pre);
    assert(pre.skip(2) =~= iv.utxo_script);
    assert(pre[0] as int * 256 + pre[1] as int == iv.utxo_script_version) by {
        vstd::arithmetic::div_mod::lemma_fundamental_div_mod(iv.utxo_script_version as int, 256);
    }
    assert(decode_input_spec(ci)->Ok_0 =~= iv);
}

proof fn lemma_output_round_trip(ov: TxOutputV)
    ensures
        decode_output_spec(encode_output_spec(ov)) == Ok::<TxOutputV, EngineError>(ov),
{
    let co = encode_output_spec(ov);
    lemma_dec_round_trip(ov.value as nat);
    let pre = seq![(ov.script_version / 256) as u8, (ov.script_version % 256) as u8] + ov.script;
    lemma_hex_round_trip(pre);
    assert(bytes_of_hex(co.script_public_key) == pre);
    assert(pre.skip(2) =~= ov.script);
    assert(pre[0] as int * 256 + pre[1] as int == ov.script_version) by {
        vstd::arithmetic::div_mod::lemma_fundamental_div_mod(ov.script_version as int, 256);
    }
    assert(decode_output_spec(co)->Ok_0 =~= ov);
}

/// Round trip: decoding the encoding of any well-formed assembled
/// transaction gives the transaction back, exactly.
pub proof fn lemma_codec_round_trip(tx: AssembledTransactionV)
    requires
        tx.wf(),
    ensures
        decode_spec(encode_spec(tx)) == Ok::<AssembledTransactionV, EngineError>(tx),
{
    let d = encode_spec(tx);
    assert forall|j: int| 0 <= j < d.inputs.len() implies decode_input_spec(#[trigger] d.inputs[j])
        == Ok::<TxInputV, EngineError>(tx.inputs[j]) by {
        lemma_input_round_trip(tx.inputs[j]);
    }
    lemma_decode_inputs_ok(d.inputs, tx.inputs);
    assert forall|j: int| 0 <= j < d.outputs.len() implies decode_output_spec(
        #[trigger] d.outputs[j],
    ) == Ok::<TxOutputV, EngineError>(tx.outputs[j]) by {
        lemma_output_round_trip(tx.outputs[j]);
    }
    lemma_decode_outputs_ok(d.outputs, tx.outputs);
    lemma_dec_round_trip(tx.lock_time as nat);
    lemma_dec_round_trip(tx.gas as nat);
    lemma_dec_round_trip(tx.mass as nat);
    lemma_hex_round_trip(tx.payload);
    assert(is_valid_hex(subnetwork_zero_hex()));
    assert(decode_spec(d)->Ok_0 =~= tx);
}

} // verus!
