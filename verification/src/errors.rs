//! Error taxonomy and the last-error channel.
//!
//! Every fallible operation of the engine returns a typed error. A boundary
//! adapter that must present the classic "sentinel value plus last error
//! message" shape keeps an [`ErrorChannel`] and deposits one message per
//! failure; the message is consumed exactly once.

use vstd::prelude::*;

verus! {

/// Why an engine operation failed.
#[derive(Clone, Copy, Debug, PartialEq, Eq, Structural)]
pub enum EngineError {
    /// A required argument was missing or empty.
    InvalidArgument,
    /// A hex field held an odd number of digits or a non-hex character.
    DecodeHex,
    /// A fixed-length binary field decoded to the wrong length.
    DecodeLength,
    /// A decimal field did not parse as an unsigned integer of its width.
    DecodeNumber,
    /// An address string did not parse.
    AddressParse,
    /// An address parsed but its network prefix does not match the builder.
    AddressNetwork,
    /// The handle names no live registry slot.
    UnknownHandle,
    /// The private key material was malformed or not a valid scalar.
    SigningKey,
    /// The signature-hash type selector is not an allowed value.
    SigningHashType,
    /// The signature-algorithm selector is not an allowed value.
    SigningAlgorithm,
}

impl EngineError {
    /// A human-readable description, deposited in the error channel by
    /// boundary adapters.
    pub fn message(&self) -> (r: String)
        ensures
            self == EngineError::InvalidArgument ==> r@ == "invalid argument"@,
            self == EngineError::DecodeHex ==> r@ == "invalid hex encoding"@,
            self == EngineError::DecodeLength ==> r@ == "decoded field has the wrong length"@,
            self == EngineError::DecodeNumber ==> r@ == "invalid decimal number"@,
            self == EngineError::AddressParse ==> r@ == "invalid address"@,
            self == EngineError::AddressNetwork ==> r@ == "address prefix mismatch"@,
            self == EngineError::UnknownHandle ==> r@ == "unknown handle"@,
            self == EngineError::SigningKey ==> r@ == "invalid private key"@,
            self == EngineError::SigningHashType ==> r@ == "unsupported sighash type"@,
            self == EngineError::SigningAlgorithm ==> r@ == "unsupported signature algorithm"@,
            r@.len() > 0,
    {
        let s: &str = match self {
            EngineError::InvalidArgument => "invalid argument",
            EngineError::DecodeHex => "invalid hex encoding",
            EngineError::DecodeLength => "decoded field has the wrong length",
            EngineError::DecodeNumber => "invalid decimal number",
            EngineError::AddressParse => "invalid address",
            EngineError::AddressNetwork => "address prefix mismatch",
            EngineError::UnknownHandle => "unknown handle",
            EngineError::SigningKey => "invalid private key",
            EngineError::SigningHashType => "unsupported sighash type",
            EngineError::SigningAlgorithm => "unsupported signature algorithm",
        };
        proof {
            reveal_strlit("invalid argument");
            reveal_strlit("invalid hex encoding");
            reveal_strlit("decoded field has the wrong length");
            reveal_strlit("invalid decimal number");
            reveal_strlit("invalid address");
            reveal_strlit("address prefix mismatch");
            reveal_strlit("unknown handle");
            reveal_strlit("invalid private key");
            reveal_strlit("unsupported sighash type");
            reveal_strlit("unsupported signature algorithm");
        }
        String::from_str(s)
    }
}

/// Holds the most recent failure message until a caller fetches it.
pub struct ErrorChannel {
    pub last: Option<String>,
}

impl ErrorChannel {
    /// A channel with no pending message.
    pub fn new() -> (r: ErrorChannel)
        ensures
            r.last is None,
    {
        ErrorChannel { last: None }
    }
}

/// Deposits a failure message; a previous unread message is overwritten.
pub fn set_last_error(channel: &mut ErrorChannel, msg: String)
    ensures
        final(channel).last == Some(msg),
{
    channel.last = Some(msg);
}

/// Returns and clears the most recent failure message, if one is pending.
pub fn take_last_error(channel: &mut ErrorChannel) -> (r: Option<String>)
    ensures
        r == old(channel).last,
        final(channel).last is None,
{
    let mut taken: Option<String> = None;
    core::mem::swap(&mut channel.last, &mut taken);
    taken
}

} // verus!
