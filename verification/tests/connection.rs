use tcp_relay::addr::PeerAddr;
use tcp_relay::connection::{
    forward_ready, forward_step, Connection, ForwardAction, ForwardError, ForwardEvent, Phase,
};
use tcp_relay::relay::{Direction, RelayFailure, Stage};
use tcp_relay::state::State;

fn peer() -> PeerAddr {
    PeerAddr::v4(0x7f00_0001, 40_000)
}

#[test]
fn accepted_connection_waits_for_its_task() {
    let connection = Connection::accepted(peer());
    assert_eq!(connection, Connection { peer: peer(), phase: Phase::Accepted });
}

#[test]
fn lifecycle_of_a_clean_connection() {
    let mut state = State::new();
    let connection = Connection::accepted(peer());

    let (connection, action) = forward_step(connection, ForwardEvent::Dispatched, &mut state);
    assert_eq!(action, ForwardAction::Connect);
    assert_eq!(connection.phase, Phase::Connecting);
    assert_eq!(state.active_connections(), 0);
    assert_eq!(state.peer_count(), 0);

    let (connection, action) = forward_step(connection, ForwardEvent::UpstreamConnected, &mut state);
    assert_eq!(action, ForwardAction::Relay);
    assert_eq!(connection.phase, Phase::Relaying);
    assert_eq!(connection.peer, peer());
    assert_eq!(state.active_connections(), 1);
    assert_eq!(state.completed_connections(), 0);
    assert_eq!(state.peer_addresses(), vec![peer()]);

    let (connection, action) = forward_step(connection, ForwardEvent::RelayEnded(Ok(())), &mut state);
    assert_eq!(action, ForwardAction::Finish(Ok(())));
    assert_eq!(connection.phase, Phase::Completed);
    assert_eq!(state.active_connections(), 0);
    assert_eq!(state.completed_connections(), 1);
    assert_eq!(state.peer_addresses(), vec![peer()]);
}

#[test]
fn failed_connect_is_not_counted() {
    let mut state = State::new();
    let connection = Connection::accepted(peer());
    let (connection, _) = forward_step(connection, ForwardEvent::Dispatched, &mut state);
    let (connection, action) =
        forward_step(connection, ForwardEvent::UpstreamUnreachable, &mut state);
    assert_eq!(action, ForwardAction::Finish(Err(ForwardError::UpstreamConnect)));
    assert_eq!(connection.phase, Phase::ConnectFailed);
    assert_eq!(state.active_connections(), 0);
    assert_eq!(state.completed_connections(), 0);
    assert_eq!(state.peer_count(), 0);
    assert!(!state.has_peer(peer()));
}

#[test]
fn failed_relay_is_deregistered_like_a_clean_one() {
    let failure = RelayFailure { direction: Direction::UpstreamToDownstream, stage: Stage::Copy };
    let mut state = State::new();
    let connection = Connection::accepted(peer());
    let (connection, _) = forward_step(connection, ForwardEvent::Dispatched, &mut state);
    let (connection, _) = forward_step(connection, ForwardEvent::UpstreamConnected, &mut state);
    let (connection, action) =
        forward_step(connection, ForwardEvent::RelayEnded(Err(failure)), &mut state);
    assert_eq!(action, ForwardAction::Finish(Err(ForwardError::Relay(failure))));
    assert_eq!(connection.phase, Phase::Failed);
    assert_eq!(state.active_connections(), 0);
    assert_eq!(state.completed_connections(), 1);
    assert!(state.has_peer(peer()));
}

#[test]
fn events_that_do_not_fit_the_phase_change_nothing() {
    let failure = RelayFailure { direction: Direction::DownstreamToUpstream, stage: Stage::Shutdown };
    let events = [
        ForwardEvent::Dispatched,
        ForwardEvent::UpstreamConnected,
        ForwardEvent::UpstreamUnreachable,
        ForwardEvent::RelayEnded(Ok(())),
        ForwardEvent::RelayEnded(Err(failure)),
    ];
    let fits = |phase: Phase, event: ForwardEvent| match (phase, event) {
        (Phase::Accepted, ForwardEvent::Dispatched) => true,
        (Phase::Connecting, ForwardEvent::UpstreamConnected) => true,
        (Phase::Connecting, ForwardEvent::UpstreamUnreachable) => true,
        (Phase::Relaying, ForwardEvent::RelayEnded(_)) => true,
        _ => false,
    };
    for phase in [
        Phase::Accepted,
        Phase::Connecting,
        Phase::ConnectFailed,
        Phase::Relaying,
        Phase::Completed,
        Phase::Failed,
    ] {
        for event in events {
            if fits(phase, event) {
                continue;
            }
            let mut state = State::new();
            state.register(PeerAddr::v4(1, 1));
            let connection = Connection { peer: peer(), phase };
            assert!(forward_ready(connection, event, &state));
            let (after, action) = forward_step(connection, event, &mut state);
            assert_eq!(action, ForwardAction::Ignore);
            assert_eq!(after, connection);
            assert_eq!(state.active_connections(), 1);
            assert_eq!(state.completed_connections(), 0);
            assert_eq!(state.peer_addresses(), vec![PeerAddr::v4(1, 1)]);
        }
    }
}

#[test]
fn forward_ready_tells_when_the_counters_can_take_the_step() {
    let state = State::new();
    let connecting = Connection { peer: peer(), phase: Phase::Connecting };
    let relaying = Connection { peer: peer(), phase: Phase::Relaying };
    assert!(forward_ready(connecting, ForwardEvent::UpstreamConnected, &state));
    assert!(forward_ready(connecting, ForwardEvent::UpstreamUnreachable, &state));
    // Nothing is active in a new state, so there is nothing to deregister.
    assert!(!forward_ready(relaying, ForwardEvent::RelayEnded(Ok(())), &state));
    let mut state = state;
    state.register(peer());
    assert!(forward_ready(relaying, ForwardEvent::RelayEnded(Ok(())), &state));
}
