//! The decision logic of the network bridge: mapping a network name to a
//! network choice, the idempotent check-and-set that guarantees at most
//! one notification forwarder per client, and the routing of chain
//! notifications into tagged watcher messages. The connections, tasks and
//! queues themselves live with the embedding application; it performs the
//! network work and feeds these functions plain values.

use vstd::prelude::*;
use vstd::string::StringExecFns;

verus! {

/// A ledger network.
#[derive(Clone, Copy, Debug, PartialEq, Eq, Structural)]
pub enum NetworkKind {
    Mainnet,
    Testnet,
    Simnet,
    Devnet,
}

/// A parsed network name: the network and an optional numeric suffix that
/// distinguishes parallel test networks.
#[derive(Clone, Copy, Debug, PartialEq, Eq, Structural)]
pub struct NetworkChoice {
    pub kind: NetworkKind,
    pub suffix: Option<u32>,
}

/// Names the result of `kaspa_consensus_core::network::NetworkId::from_str`
/// on a network name: the network type as a code (mainnet 0, testnet 1,
/// simnet 2, devnet 3) and the optional suffix, or `None` where the name
/// does not parse.
pub uninterp spec fn network_id_parse(s: Seq<char>) -> Option<(u8, Option<u32>)>;

/// Relies on `NetworkId::from_str`: a pure function of the name.
#[verifier::external_body]
fn network_id_from_str(s: &str) -> (r: Option<(u8, Option<u32>)>)
    ensures
        r == network_id_parse(s@),
        r is Some ==> (r->0).0 <= 3,
{
    match <kaspa_consensus_core::network::NetworkId as core::str::FromStr>::from_str(s) {
        Ok(id) => {
            let code = match id.network_type {
                kaspa_consensus_core::network::NetworkType::Mainnet => 0u8,
                kaspa_consensus_core::network::NetworkType::Testnet => 1u8,
                kaspa_consensus_core::network::NetworkType::Simnet => 2u8,
                kaspa_consensus_core::network::NetworkType::Devnet => 3u8,
            };
            Some((code, id.suffix))
        },
        Err(_) => None,
    }
}

/// The network a prefix code of [`network_id_parse`] denotes.
pub open spec fn kind_of_code(c: u8) -> NetworkKind {
    if c == 0 {
        NetworkKind::Mainnet
    } else if c == 1 {
        NetworkKind::Testnet
    } else if c == 2 {
        NetworkKind::Simnet
    } else {
        NetworkKind::Devnet
    }
}

/// What [`parse_network_id`] returns: the well-known names map directly
/// (a bare `testnet` means the tenth test network), anything else is
/// handed to the ledger SDK's own parser.
pub open spec fn parse_network_id_spec(s: Seq<char>) -> Option<NetworkChoice> {
    if s == "mainnet"@ {
        Some(NetworkChoice { kind: NetworkKind::Mainnet, suffix: None })
    } else if s == "testnet"@ || s == "testnet-10"@ {
        Some(NetworkChoice { kind: NetworkKind::Testnet, suffix: Some(10u32) })
    } else if s == "simnet"@ {
        Some(NetworkChoice { kind: NetworkKind::Simnet, suffix: None })
    } else if s == "devnet"@ {
        Some(NetworkChoice { kind: NetworkKind::Devnet, suffix: None })
    } else {
        match network_id_parse(s) {
            Some((c, suffix)) => Some(NetworkChoice { kind: kind_of_code(c), suffix }),
            None => None,
        }
    }
}

/// Whether two strings hold the same characters.
fn str_eq(a: &str, b: &str) -> (r: bool)
    ensures
        r == (a@ == b@),
{
    let sa: String = a.to_owned();
    let sb: String = b.to_owned();
    sa == sb
}

/// Parses a network name into a network choice, as
/// [`parse_network_id_spec`] states.
pub fn parse_network_id(network: &str) -> (r: Option<NetworkChoice>)
    ensures
        r == parse_network_id_spec(network@),
{
    if str_eq(network, "mainnet") {
        Some(NetworkChoice { kind: NetworkKind::Mainnet, suffix: None })
    } else if str_eq(network, "testnet") || str_eq(network, "testnet-10") {
        Some(NetworkChoice { kind: NetworkKind::Testnet, suffix: Some(10u32) })
    } else if str_eq(network, "simnet") {
        Some(NetworkChoice { kind: NetworkKind::Simnet, suffix: None })
    } else if str_eq(network, "devnet") {
        Some(NetworkChoice { kind: NetworkKind::Devnet, suffix: None })
    } else {
        match network_id_from_str(network) {
            Some((c, suffix)) => Some(NetworkChoice { kind: kind_of_code_exec(c), suffix }),
            None => None,
        }
    }
}

fn kind_of_code_exec(c: u8) -> (r: NetworkKind)
    ensures
        r == kind_of_code(c),
{
    if c == 0 {
        NetworkKind::Mainnet
    } else if c == 1 {
        NetworkKind::Testnet
    } else if c == 2 {
        NetworkKind::Simnet
    } else {
        NetworkKind::Devnet
    }
}

/// The idempotent check-and-set that starts a client's notification
/// forwarder at most once: grows the flag table to cover `idx`, reports
/// whether the forwarder was already running, and marks it running. The
/// caller spawns the forwarding task only when this returns `false`, so
/// multiple forwarders are never spawned for one client.
pub fn ensure_forwarder_flag(flags: &mut Vec<bool>, idx: usize) -> (already: bool)
    requires
        idx < usize::MAX,
    ensures
        final(flags)@.len() == (if idx < old(flags)@.len() {
            old(flags)@.len() as int
        } else {
            idx + 1
        }),
        already == (idx < old(flags)@.len() && old(flags)@[idx as int]),
        final(flags)@[idx as int] == true,
        forall|k: int|
            0 <= k < final(flags)@.len() && k != idx ==> final(flags)@[k] == (if k < old(
                flags,
            )@.len() {
                old(flags)@[k]
            } else {
                false
            }),
{
    if flags.len() <= idx {
        flags.resize(idx + 1, false);
    }
    let running = flags[idx];
    if !running {
        flags.remove(idx);
        flags.insert(idx, true);
    }
    running
}

/// Which chain notifications are forwarded to a handle's watcher queue,
/// and under which type tag: block additions and virtual DAA score
/// changes; every other kind is silently dropped.
#[derive(Clone, Copy, Debug, PartialEq, Eq, Structural)]
pub enum NotificationKind {
    BlockAdded,
    VirtualDaaScoreChanged,
    Other,
}

/// The type tag a forwarded notification carries, or `None` where the
/// notification is dropped.
pub fn notification_route(kind: NotificationKind) -> (r: Option<String>)
    ensures
        kind == NotificationKind::BlockAdded ==> r is Some && r->0@ == "blockAdded"@,
        kind == NotificationKind::VirtualDaaScoreChanged ==> r is Some && r->0@
            == "virtualDaaScoreChanged"@,
        kind == NotificationKind::Other ==> r is None,
{
    match kind {
        NotificationKind::BlockAdded => Some(String::from_str("blockAdded")),
        NotificationKind::VirtualDaaScoreChanged => Some(
            String::from_str("virtualDaaScoreChanged"),
        ),
        NotificationKind::Other => None,
    }
}

} // verus!
