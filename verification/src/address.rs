//! The address oracle: parsing and validating a bech32 address string and
//! deriving its canonical pay-to-address locking script. Both are consumed
//! from the ledger SDK as a single parse-and-validate primitive; parsing is
//! a pure function of the address text.

use vstd::prelude::*;

verus! {

/// Network prefix code of [`parse_address`]: mainnet.
pub const PREFIX_MAINNET: u8 = 0;

/// Network prefix code of [`parse_address`]: testnet.
pub const PREFIX_TESTNET: u8 = 1;

/// Network prefix code of [`parse_address`]: simnet.
pub const PREFIX_SIMNET: u8 = 2;

/// Network prefix code of [`parse_address`]: devnet.
pub const PREFIX_DEVNET: u8 = 3;

/// Names the result of `kaspa_addresses::Address::try_from` on an address
/// string: `Some` of the network prefix code exactly when the string
/// parses, `None` otherwise.
pub uninterp spec fn addr_prefix_code_of(s: Seq<char>) -> Option<u8>;

/// Names the result of `kaspa_txscript::pay_to_address_script` on the
/// address that `s` parses to: its canonical locking script bytes.
pub uninterp spec fn pay_script_of(s: Seq<char>) -> Seq<u8>;

/// The prefix code every address handed to a builder must carry.
pub open spec fn expected_prefix_code(is_testnet: bool) -> u8 {
    if is_testnet {
        PREFIX_TESTNET
    } else {
        PREFIX_MAINNET
    }
}

/// Relies on `kaspa_addresses::Address::try_from` to parse and validate the
/// address text (a pure function of the string), and on
/// `kaspa_txscript::pay_to_address_script` for the parsed address's
/// canonical locking script (a pure function of the address). The script's
/// encoding version is the ledger's current version zero.
#[verifier::external_body]
pub fn parse_address(s: &str) -> (r: Option<(u8, Vec<u8>)>)
    ensures
        r is Some <==> addr_prefix_code_of(s@) is Some,
        r is Some ==> (r->0).0 == addr_prefix_code_of(s@)->0,
        r is Some ==> (r->0).0 <= 3,
        r is Some ==> (r->0).1@ == pay_script_of(s@),
{
    match kaspa_addresses::Address::try_from(s) {
        Ok(a) => {
            let code = match a.prefix {
                kaspa_addresses::Prefix::Mainnet => 0u8,
                kaspa_addresses::Prefix::Testnet => 1u8,
                kaspa_addresses::Prefix::Simnet => 2u8,
                kaspa_addresses::Prefix::Devnet => 3u8,
            };
            Some((code, kaspa_txscript::pay_to_address_script(&a).script().to_vec()))
        },
        Err(_) => None,
    }
}

} // verus!
