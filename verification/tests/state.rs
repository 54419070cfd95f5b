use tcp_relay::addr::{IpAddress, PeerAddr};
use tcp_relay::state::State;

#[test]
fn new_state_is_empty() {
    let state = State::new();
    assert_eq!(state.active_connections(), 0);
    assert_eq!(state.completed_connections(), 0);
    assert_eq!(state.peer_count(), 0);
    assert!(state.peer_addresses().is_empty());
    assert!(state.has_room());
}

#[test]
fn peer_constructors_hold_what_they_are_given() {
    let v4 = PeerAddr::v4(0x7f00_0001, 3333);
    assert_eq!(v4, PeerAddr { ip: IpAddress::V4(0x7f00_0001), port: 3333 });
    let v6 = PeerAddr::v6(1, 4444);
    assert_eq!(v6, PeerAddr { ip: IpAddress::V6(1), port: 4444 });
    assert_ne!(PeerAddr::v4(1, 80), PeerAddr::v6(1, 80));
}

#[test]
fn register_counts_and_records_peer() {
    let peer = PeerAddr::v4(0x7f00_0001, 50_000);
    let mut state = State::new();
    assert!(!state.has_peer(peer));
    state.register(peer);
    assert_eq!(state.active_connections(), 1);
    assert_eq!(state.completed_connections(), 0);
    assert_eq!(state.peer_count(), 1);
    assert!(state.has_peer(peer));
    assert_eq!(state.peer_addresses(), vec![peer]);
}

#[test]
fn deregister_moves_one_connection_from_active_to_completed() {
    let first = PeerAddr::v4(0x0a00_0001, 1);
    let second = PeerAddr::v4(0x0a00_0002, 2);
    let mut state = State::new();
    state.register(first);
    state.register(second);
    assert_eq!(state.active_connections(), 2);
    state.deregister();
    assert_eq!(state.active_connections(), 1);
    assert_eq!(state.completed_connections(), 1);
    state.deregister();
    assert_eq!(state.active_connections(), 0);
    assert_eq!(state.completed_connections(), 2);
    assert_eq!(state.peer_count(), 2);
    assert!(state.has_peer(first));
    assert!(state.has_peer(second));
}

#[test]
fn same_peer_twice_is_one_entry() {
    let peer = PeerAddr::v6(0x2001_0db8_0000_0000_0000_0000_0000_0001, 443);
    let mut state = State::new();
    state.register(peer);
    state.register(peer);
    assert_eq!(state.active_connections(), 2);
    assert_eq!(state.peer_count(), 1);
    assert_eq!(state.peer_addresses(), vec![peer]);
    state.deregister();
    state.register(peer);
    assert_eq!(state.peer_count(), 1);
    assert_eq!(state.active_connections(), 2);
    assert_eq!(state.completed_connections(), 1);
}

#[test]
fn peers_differ_by_address_family_address_and_port() {
    let mut state = State::new();
    let peers = [
        PeerAddr::v4(0x7f00_0001, 1000),
        PeerAddr::v4(0x7f00_0001, 1001),
        PeerAddr::v4(0x7f00_0002, 1000),
        PeerAddr::v6(0x7f00_0001, 1000),
    ];
    for peer in peers {
        state.register(peer);
    }
    assert_eq!(state.peer_count(), 4);
    assert_eq!(state.peer_addresses(), peers.to_vec());
    assert!(!state.has_peer(PeerAddr::v6(0x7f00_0002, 1000)));
}

#[test]
fn peers_are_kept_after_their_connections_end() {
    let peer = PeerAddr::v4(0xc0a8_0001, 8080);
    let mut state = State::new();
    state.register(peer);
    state.deregister();
    assert_eq!(state.active_connections(), 0);
    assert!(state.has_peer(peer));
    assert_eq!(state.peer_count(), 1);
}
