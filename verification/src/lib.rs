//! Transaction-assembly and fee-negotiation engine for a UTXO ledger.
//!
//! The crate builds unsigned or signed transactions from caller-supplied
//! spendable entries and declared outputs, negotiates whether a change
//! output is worth adding at a given fee rate, and emits the result as a
//! canonical document with decimal-string amounts and lowercase-hex binary
//! fields. Consensus-level oracles (transaction mass, address decoding,
//! signature digests and curve signatures) are consumed from the ledger's
//! SDK crates through narrow trusted wrappers; everything around them is
//! verified.

pub mod errors;
pub mod strutil;
pub mod hexcode;
pub mod decimal;
pub mod model;
pub mod codec;
pub mod registry;
pub mod address;
pub mod consensus;
pub mod secp;
pub mod fee;
pub mod generator;
pub mod rpc;
