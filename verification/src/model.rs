//! The engine's transaction data model: spendable entries, declared
//! outputs, per-handle builder state, and the assembled transaction that
//! the codec serializes.

use vstd::prelude::*;

verus! {

/// A UTXO being consumed: the previous output it spends, its amount, and
/// its locking script (version prefix already stripped).
#[derive(Clone, Debug, PartialEq, Eq)]
pub struct SpendEntry {
    /// 32-byte big-endian identifier of the transaction being spent.
    pub txid: Vec<u8>,
    /// Output index inside that transaction.
    pub index: u32,
    /// Amount in the smallest unit.
    pub amount: u64,
    /// Locking script bytes, without the 2-byte encoding-version prefix.
    pub script: Vec<u8>,
}

#[verifier::ext_equal]
pub ghost struct SpendEntryV {
    pub txid: Seq<u8>,
    pub index: u32,
    pub amount: u64,
    pub script: Seq<u8>,
}

impl View for SpendEntry {
    type V = SpendEntryV;

    open spec fn view(&self) -> SpendEntryV {
        SpendEntryV { txid: self.txid@, index: self.index, amount: self.amount, script: self.script@ }
    }
}

impl SpendEntryV {
    /// A spend entry always references exactly 32 bytes of transaction id.
    pub open spec fn wf(self) -> bool {
        self.txid.len() == 32
    }
}

/// A declared output: a destination address (already validated against the
/// builder's network) and an amount.
#[derive(Clone, Debug, PartialEq, Eq)]
pub struct DeclaredOutput {
    pub address: String,
    pub amount: u64,
}

#[verifier::ext_equal]
pub ghost struct DeclaredOutputV {
    pub address: Seq<char>,
    pub amount: u64,
}

impl View for DeclaredOutput {
    type V = DeclaredOutputV;

    open spec fn view(&self) -> DeclaredOutputV {
        DeclaredOutputV { address: self.address@, amount: self.amount }
    }
}

/// The accumulated state behind one builder handle.
pub struct BuilderState {
    /// Fixed at creation; all addresses must carry the matching prefix.
    pub is_testnet: bool,
    /// Sompi per kilo-mass; non-positive selects the default rate.
    pub fee_rate: i64,
    /// Where leftover value goes, when set and positive.
    pub change_address: Option<String>,
    /// The UTXOs to spend, in insertion order.
    pub utxos: Vec<SpendEntry>,
    /// The declared outputs, in insertion order.
    pub outputs: Vec<DeclaredOutput>,
    /// Arbitrary payload bytes carried by the transaction.
    pub payload: Vec<u8>,
}

#[verifier::ext_equal]
pub ghost struct BuilderStateV {
    pub is_testnet: bool,
    pub fee_rate: i64,
    pub change_address: Option<Seq<char>>,
    pub utxos: Seq<SpendEntryV>,
    pub outputs: Seq<DeclaredOutputV>,
    pub payload: Seq<u8>,
}

impl View for BuilderState {
    type V = BuilderStateV;

    open spec fn view(&self) -> BuilderStateV {
        BuilderStateV {
            is_testnet: self.is_testnet,
            fee_rate: self.fee_rate,
            change_address: match self.change_address {
                Some(a) => Some(a@),
                None => None,
            },
            utxos: self.utxos@.map_values(|u: SpendEntry| u@),
            outputs: self.outputs@.map_values(|o: DeclaredOutput| o@),
            payload: self.payload@,
        }
    }
}

/// One input of an assembled transaction, together with the UTXO context
/// that the canonical document carries for it.
#[derive(Clone, Debug, PartialEq, Eq)]
pub struct TxInput {
    /// 32-byte id of the transaction whose output is spent.
    pub txid: Vec<u8>,
    /// Index of the spent output.
    pub index: u32,
    /// The spending script: empty while unsigned, placeholder bytes during
    /// estimation, push-data of the signature once signed.
    pub signature_script: Vec<u8>,
    pub sequence: u64,
    pub sig_op_count: u8,
    /// Amount of the spent output.
    pub utxo_amount: u64,
    /// Encoding version of the spent output's locking script.
    pub utxo_script_version: u16,
    /// The spent output's locking script, without version prefix.
    pub utxo_script: Vec<u8>,
    /// Informational passthrough: DAA score of the accepting block.
    pub utxo_daa_score: u64,
    /// Informational passthrough: whether the spent output was coinbase.
    pub utxo_is_coinbase: bool,
}

#[verifier::ext_equal]
pub ghost struct TxInputV {
    pub txid: Seq<u8>,
    pub index: u32,
    pub signature_script: Seq<u8>,
    pub sequence: u64,
    pub sig_op_count: u8,
    pub utxo_amount: u64,
    pub utxo_script_version: u16,
    pub utxo_script: Seq<u8>,
    pub utxo_daa_score: u64,
    pub utxo_is_coinbase: bool,
}

impl View for TxInput {
    type V = TxInputV;

    open spec fn view(&self) -> TxInputV {
        TxInputV {
            txid: self.txid@,
            index: self.index,
            signature_script: self.signature_script@,
            sequence: self.sequence,
            sig_op_count: self.sig_op_count,
            utxo_amount: self.utxo_amount,
            utxo_script_version: self.utxo_script_version,
            utxo_script: self.utxo_script@,
            utxo_daa_score: self.utxo_daa_score,
            utxo_is_coinbase: self.utxo_is_coinbase,
        }
    }
}

impl TxInputV {
    pub open spec fn wf(self) -> bool {
        self.txid.len() == 32
    }
}

/// One output of an assembled transaction.
#[derive(Clone, Debug, PartialEq, Eq)]
pub struct TxOutput {
    pub value: u64,
    /// Encoding version of the locking script.
    pub script_version: u16,
    /// Locking script bytes, without version prefix.
    pub script: Vec<u8>,
}

#[verifier::ext_equal]
pub ghost struct TxOutputV {
    pub value: u64,
    pub script_version: u16,
    pub script: Seq<u8>,
}

impl View for TxOutput {
    type V = TxOutputV;

    open spec fn view(&self) -> TxOutputV {
        TxOutputV { value: self.value, script_version: self.script_version, script: self.script@ }
    }
}

/// A fully assembled transaction: what the canonical codec serializes.
/// Constructed fresh on every build call. The subnetwork is always the
/// zero (native) subnetwork and is therefore not a field.
#[derive(Clone, Debug, PartialEq, Eq)]
pub struct AssembledTransaction {
    pub version: u16,
    pub inputs: Vec<TxInput>,
    pub outputs: Vec<TxOutput>,
    pub lock_time: u64,
    pub gas: u64,
    pub payload: Vec<u8>,
    /// The derived transaction identifier, as 64 lowercase hex characters.
    pub id: String,
    /// The authoritative mass figure for the emitted document.
    pub mass: u64,
}

#[verifier::ext_equal]
pub ghost struct AssembledTransactionV {
    pub version: u16,
    pub inputs: Seq<TxInputV>,
    pub outputs: Seq<TxOutputV>,
    pub lock_time: u64,
    pub gas: u64,
    pub payload: Seq<u8>,
    pub id: Seq<char>,
    pub mass: u64,
}

impl View for AssembledTransaction {
    type V = AssembledTransactionV;

    open spec fn view(&self) -> AssembledTransactionV {
        AssembledTransactionV {
            version: self.version,
            inputs: self.inputs@.map_values(|i: TxInput| i@),
            outputs: self.outputs@.map_values(|o: TxOutput| o@),
            lock_time: self.lock_time,
            gas: self.gas,
            payload: self.payload@,
            id: self.id@,
            mass: self.mass,
        }
    }
}

impl AssembledTransactionV {
    /// Every input references a 32-byte txid and the identifier is the
    /// 64-digit hex form of a 32-byte hash.
    pub open spec fn wf(self) -> bool {
        &&& forall|i: int| 0 <= i < self.inputs.len() ==> (#[trigger] self.inputs[i]).wf()
        &&& self.id.len() == 64
        &&& crate::hexcode::is_valid_hex(self.id)
    }
}

} // verus!
