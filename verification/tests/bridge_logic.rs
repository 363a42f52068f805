//! The network-bridge decision logic: network-name parsing, the forwarder
//! check-and-set, and notification routing.

use kaspa_txgen::rpc::{
    ensure_forwarder_flag, notification_route, parse_network_id, NetworkChoice, NetworkKind,
    NotificationKind,
};

#[test]
fn parse_network_id_known_names() {
    assert_eq!(
        parse_network_id("mainnet"),
        Some(NetworkChoice { kind: NetworkKind::Mainnet, suffix: None })
    );
    assert_eq!(
        parse_network_id("testnet"),
        Some(NetworkChoice { kind: NetworkKind::Testnet, suffix: Some(10) })
    );
    assert_eq!(
        parse_network_id("testnet-10"),
        Some(NetworkChoice { kind: NetworkKind::Testnet, suffix: Some(10) })
    );
    assert_eq!(
        parse_network_id("simnet"),
        Some(NetworkChoice { kind: NetworkKind::Simnet, suffix: None })
    );
    assert_eq!(
        parse_network_id("devnet"),
        Some(NetworkChoice { kind: NetworkKind::Devnet, suffix: None })
    );
}

#[test]
fn parse_network_id_falls_back_to_general_names() {
    assert_eq!(
        parse_network_id("testnet-11"),
        Some(NetworkChoice { kind: NetworkKind::Testnet, suffix: Some(11) })
    );
    assert_eq!(parse_network_id("lanternnet"), None);
    assert_eq!(parse_network_id(""), None);
}

#[test]
fn forwarder_flag_is_set_at_most_once() {
    let mut flags: Vec<bool> = Vec::new();
    assert!(!ensure_forwarder_flag(&mut flags, 2));
    assert_eq!(flags, vec![false, false, true]);
    assert!(ensure_forwarder_flag(&mut flags, 2));
    assert!(!ensure_forwarder_flag(&mut flags, 0));
    assert!(ensure_forwarder_flag(&mut flags, 0));
    assert_eq!(flags, vec![true, false, true]);
}

#[test]
fn notification_routing_tags() {
    assert_eq!(
        notification_route(NotificationKind::BlockAdded),
        Some("blockAdded".to_string())
    );
    assert_eq!(
        notification_route(NotificationKind::VirtualDaaScoreChanged),
        Some("virtualDaaScoreChanged".to_string())
    );
    assert_eq!(notification_route(NotificationKind::Other), None);
}
