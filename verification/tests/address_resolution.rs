use rsocket_transport_iroh::address::join;
use rsocket_transport_iroh::address::AddressDiscoveryWaiter;
use rsocket_transport_iroh::address::DiscoveryPhase;
use rsocket_transport_iroh::address::PhaseTimeouts;
use rsocket_transport_iroh::address::ResolvedPeerAddress;

fn timeouts() -> PhaseTimeouts {
    PhaseTimeouts { direct_ms: 5000, relay_ms: 3000, snapshot_ms: 1000 }
}

#[test]
fn join_of_nothing_is_empty() {
    assert_eq!(join(&Vec::new(), ", "), "");
}

#[test]
fn join_of_one_part_has_no_separator() {
    assert_eq!(join(&vec!["a".to_string()], ", "), "a");
}

#[test]
fn join_puts_separator_between_neighbours() {
    let parts = vec!["a".to_string(), "".to_string(), "c".to_string()];
    assert_eq!(join(&parts, " | "), "a |  | c");
}

#[test]
fn describe_identity_only() {
    let address = ResolvedPeerAddress {
        node_id: "abc".to_string(),
        relay_url: None,
        direct_addresses: Vec::new(),
    };
    assert!(address.is_identity_only());
    assert_eq!(address.describe(), "NodeId: abc");
}

#[test]
fn describe_with_relay_only() {
    let address = ResolvedPeerAddress {
        node_id: "abc".to_string(),
        relay_url: Some("https://r/".to_string()),
        direct_addresses: Vec::new(),
    };
    assert!(!address.is_identity_only());
    assert_eq!(address.describe(), "NodeId: abc | Relay: https://r/");
}

#[test]
fn describe_with_direct_only() {
    let address = ResolvedPeerAddress {
        node_id: "abc".to_string(),
        relay_url: None,
        direct_addresses: vec!["1.2.3.4:5".to_string()],
    };
    assert!(!address.is_identity_only());
    assert_eq!(address.describe(), "NodeId: abc | Direct: [1.2.3.4:5]");
}

#[test]
fn describe_with_everything() {
    let address = ResolvedPeerAddress {
        node_id: "abc".to_string(),
        relay_url: Some("https://r/".to_string()),
        direct_addresses: vec!["1.2.3.4:5".to_string(), "6.7.8.9:10".to_string()],
    };
    assert_eq!(
        address.describe(),
        "NodeId: abc | Relay: https://r/ | Direct: [1.2.3.4:5, 6.7.8.9:10]"
    );
}

#[test]
fn waits_follow_one_another_with_their_own_bounds() {
    let mut waiter = AddressDiscoveryWaiter::new(timeouts());
    assert_eq!(waiter.phase(), DiscoveryPhase::DirectAddresses);
    assert_eq!(waiter.timeout_ms(), Some(5000));
    assert!(!waiter.is_done());
    assert!(waiter.on_direct_addresses(Some(vec!["1.1.1.1:1".to_string()])));
    assert_eq!(waiter.phase(), DiscoveryPhase::HomeRelay);
    assert_eq!(waiter.timeout_ms(), Some(3000));
    assert!(waiter.on_home_relay(None));
    assert_eq!(waiter.phase(), DiscoveryPhase::Snapshot);
    assert_eq!(waiter.timeout_ms(), Some(1000));
    assert!(waiter.on_snapshot(None));
    assert_eq!(waiter.phase(), DiscoveryPhase::Done);
    assert_eq!(waiter.timeout_ms(), None);
    assert!(waiter.is_done());
    assert_eq!(waiter.warnings(), vec![DiscoveryPhase::HomeRelay, DiscoveryPhase::Snapshot]);
    let address = waiter.into_address("me".to_string());
    assert_eq!(address.node_id, "me");
    assert_eq!(address.direct_addresses, vec!["1.1.1.1:1".to_string()]);
    assert_eq!(address.relay_url, None);
}

#[test]
fn outcome_out_of_turn_is_ignored() {
    let mut waiter = AddressDiscoveryWaiter::new(timeouts());
    assert!(!waiter.on_home_relay(Some(Some("https://r/".to_string()))));
    assert!(!waiter.on_snapshot(Some((vec!["x".to_string()], None))));
    assert_eq!(waiter.phase(), DiscoveryPhase::DirectAddresses);
    assert!(waiter.warnings().is_empty());
    assert!(waiter.on_direct_addresses(None));
    assert!(!waiter.on_direct_addresses(Some(vec!["late".to_string()])));
    assert_eq!(waiter.warnings(), vec![DiscoveryPhase::DirectAddresses]);
    let address = waiter.into_address("me".to_string());
    assert!(address.is_identity_only());
}

#[test]
fn published_address_replaces_earlier_parts() {
    let mut waiter = AddressDiscoveryWaiter::new(timeouts());
    waiter.on_direct_addresses(Some(vec!["old".to_string()]));
    waiter.on_home_relay(Some(Some("https://old/".to_string())));
    waiter.on_snapshot(Some((vec!["new1".to_string(), "new2".to_string()], None)));
    assert!(waiter.warnings().is_empty());
    let address = waiter.into_address("me".to_string());
    assert_eq!(address.direct_addresses, vec!["new1".to_string(), "new2".to_string()]);
    assert_eq!(address.relay_url, None);
    assert_eq!(address.describe(), "NodeId: me | Direct: [new1, new2]");
}

#[test]
fn unfinished_resolution_gives_what_it_has() {
    let mut waiter = AddressDiscoveryWaiter::new(timeouts());
    waiter.on_direct_addresses(Some(vec!["a:1".to_string()]));
    assert!(!waiter.is_done());
    let address = waiter.into_address("me".to_string());
    assert_eq!(address.describe(), "NodeId: me | Direct: [a:1]");
}

#[test]
fn default_bounds_are_ten_seconds_each() {
    let timeouts = PhaseTimeouts::default();
    assert_eq!(timeouts, PhaseTimeouts { direct_ms: 10_000, relay_ms: 10_000, snapshot_ms: 10_000 });
    let waiter = AddressDiscoveryWaiter::new(timeouts);
    assert_eq!(waiter.timeout_ms(), Some(10_000));
}
