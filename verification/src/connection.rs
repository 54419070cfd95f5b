//! The lifecycle of one forwarded connection.
//!
//! An accepted connection is dispatched to a task of its own. The task
//! connects to the upstream. If that fails the connection is dropped and was
//! never counted. If it succeeds the connection is registered in the shared
//! [`State`], relayed, and deregistered when the relay ends, whether the
//! relay went well or not.
//!
//! The program performs the connect and the relay and reports their results
//! to [`forward_step`], which updates the shared state and answers with what
//! to do next.

use vstd::prelude::*;
use crate::addr::PeerAddr;
use crate::relay::RelayFailure;
use crate::state::{State, StateView};

verus! {

/// Where a connection stands.
#[derive(Clone, Copy, Debug, PartialEq, Eq, Structural, Hash)]
pub enum Phase {
    /// Accepted by the listener, not yet picked up by its task.
    Accepted,
    /// Waiting for the upstream connect.
    Connecting,
    /// The upstream could not be reached. Final; the connection was never
    /// counted.
    ConnectFailed,
    /// Registered, with bytes being copied in both directions.
    Relaying,
    /// The relay ended cleanly. Final.
    Completed,
    /// The relay ended with an error. Final.
    Failed,
}

impl Phase {
    /// Whether the connection got past the upstream connect, and so was
    /// registered.
    pub open spec fn is_registered(self) -> bool {
        self is Relaying || self is Completed || self is Failed
    }

    /// Whether the relay of the connection has ended.
    pub open spec fn is_finished(self) -> bool {
        self is Completed || self is Failed
    }

    /// Whether nothing more can happen to the connection.
    pub open spec fn is_final(self) -> bool {
        self is ConnectFailed || self is Completed || self is Failed
    }

    /// How far along its way the connection is.
    pub open spec fn progress(self) -> nat {
        match self {
            Phase::Accepted => 0,
            Phase::Connecting => 1,
            Phase::Relaying => 2,
            Phase::ConnectFailed | Phase::Completed | Phase::Failed => 3,
        }
    }
}

/// One downstream connection: who it came from and where it stands.
#[derive(Clone, Copy, Debug, PartialEq, Eq, Structural, Hash)]
pub struct Connection {
    pub peer: PeerAddr,
    pub phase: Phase,
}

impl Connection {
    /// The connection in another phase.
    pub open spec fn in_phase(self, phase: Phase) -> Connection {
        Connection { peer: self.peer, phase }
    }

    /// A connection that the listener has just accepted from `peer`.
    pub fn accepted(peer: PeerAddr) -> (connection: Connection)
        ensures
            connection == (Connection { peer, phase: Phase::Accepted }),
    {
        Connection { peer, phase: Phase::Accepted }
    }
}

/// What the program reports about a connection.
#[derive(Clone, Copy, Debug, PartialEq, Eq)]
pub enum ForwardEvent {
    /// The connection's task has started.
    Dispatched,
    /// The upstream connect succeeded.
    UpstreamConnected,
    /// The upstream connect failed.
    UpstreamUnreachable,
    /// Both directions of the relay are over, with this result.
    RelayEnded(Result<(), RelayFailure>),
}

/// Why forwarding a connection failed.
#[derive(Clone, Copy, Debug, PartialEq, Eq)]
pub enum ForwardError {
    /// The upstream could not be reached.
    UpstreamConnect,
    /// An I/O error stopped one direction of the relay.
    Relay(RelayFailure),
}

/// What the connection's task does next.
#[derive(Clone, Copy, Debug, PartialEq, Eq)]
pub enum ForwardAction {
    /// Open the connection to the upstream.
    Connect,
    /// Copy bytes in both directions until both are over.
    Relay,
    /// The task ends with this result.
    Finish(Result<(), ForwardError>),
    /// The event does not belong to the phase the connection is in; nothing
    /// has changed and nothing is to be done.
    Ignore,
}

/// What one step makes of a connection and of the shared state.
pub struct Forwarded {
    pub connection: Connection,
    pub state: StateView,
    pub action: ForwardAction,
}

/// The step that `event` causes for `connection` while the shared state is
/// `state`.
///
/// The state changes in two places only: a successful upstream connect
/// registers the connection, and the end of its relay deregisters it.
pub open spec fn forward_transition(
    connection: Connection,
    event: ForwardEvent,
    state: StateView,
) -> Forwarded {
    match (connection.phase, event) {
        (Phase::Accepted, ForwardEvent::Dispatched) => Forwarded {
            connection: connection.in_phase(Phase::Connecting),
            state,
            action: ForwardAction::Connect,
        },
        (Phase::Connecting, ForwardEvent::UpstreamConnected) => Forwarded {
            connection: connection.in_phase(Phase::Relaying),
            state: state.register(connection.peer),
            action: ForwardAction::Relay,
        },
        (Phase::Connecting, ForwardEvent::UpstreamUnreachable) => Forwarded {
            connection: connection.in_phase(Phase::ConnectFailed),
            state,
            action: ForwardAction::Finish(Err(ForwardError::UpstreamConnect)),
        },
        (Phase::Relaying, ForwardEvent::RelayEnded(Ok(()))) => Forwarded {
            connection: connection.in_phase(Phase::Completed),
            state: state.deregister(),
            action: ForwardAction::Finish(Ok(())),
        },
        (Phase::Relaying, ForwardEvent::RelayEnded(Err(failure))) => Forwarded {
            connection: connection.in_phase(Phase::Failed),
            state: state.deregister(),
            action: ForwardAction::Finish(Err(ForwardError::Relay(failure))),
        },
        _ => Forwarded { connection, state, action: ForwardAction::Ignore },
    }
}

/// A failed upstream connect ends the connection without a trace in the
/// shared state: the attempt is not counted at all.
pub proof fn lemma_failed_connect_is_not_counted(connection: Connection, state: StateView)
    requires
        connection.phase is Connecting,
    ensures
        forward_transition(connection, ForwardEvent::UpstreamUnreachable, state).state == state,
        forward_transition(connection, ForwardEvent::UpstreamUnreachable, state).action
            == ForwardAction::Finish(Err(ForwardError::UpstreamConnect)),
        forward_transition(
            connection,
            ForwardEvent::UpstreamUnreachable,
            state,
        ).connection.phase is ConnectFailed,
{
}

/// A connection that was registered is deregistered at the end of its
/// relay, in the same way whether the relay succeeded or failed.
pub proof fn lemma_relay_end_deregisters(
    connection: Connection,
    outcome: Result<(), RelayFailure>,
    state: StateView,
)
    requires
        connection.phase is Relaying,
    ensures
        forward_transition(connection, ForwardEvent::RelayEnded(outcome), state).state
            == state.deregister(),
        forward_transition(
            connection,
            ForwardEvent::RelayEnded(outcome),
            state,
        ).connection.phase.is_finished(),
        forward_transition(connection, ForwardEvent::RelayEnded(outcome), state).action is Finish,
        forward_transition(connection, ForwardEvent::RelayEnded(outcome), state).action
            == ForwardAction::Finish(Ok(())) <==> outcome is Ok,
{
}

/// A connection only moves forward, and every step that is not ignored
/// moves it: so it is registered at most once and deregistered at most
/// once, and after a final phase every event is ignored.
pub proof fn lemma_connection_only_advances(
    connection: Connection,
    event: ForwardEvent,
    state: StateView,
)
    ensures
        ({
            let next = forward_transition(connection, event, state);
            &&& next.action is Ignore ==> next.connection == connection && next.state == state
            &&& !(next.action is Ignore) ==> next.connection.phase.progress()
                > connection.phase.progress()
            &&& connection.phase.is_final() ==> next.action is Ignore
            &&& next.action is Finish <==> !connection.phase.is_final()
                && next.connection.phase.is_final()
        }),
{
}

/// The shared state changes only when a connection is registered or
/// deregistered, and a connection never changes its peer.
pub proof fn lemma_state_changes_with_registration_only(
    connection: Connection,
    event: ForwardEvent,
    state: StateView,
)
    ensures
        ({
            let next = forward_transition(connection, event, state);
            &&& next.connection.peer == connection.peer
            &&& next.state == if !connection.phase.is_registered()
                && next.connection.phase.is_registered() {
                state.register(connection.peer)
            } else if !connection.phase.is_finished() && next.connection.phase.is_finished() {
                state.deregister()
            } else {
                state
            }
        }),
{
}

/// Whether the counters of `state` can take the step: a registration needs
/// room for one more connection, a deregistration an active one.
pub open spec fn forward_enabled(connection: Connection, event: ForwardEvent, state: StateView) -> bool {
    &&& connection.phase is Connecting && event is UpstreamConnected ==> state.registered()
        < usize::MAX
    &&& connection.phase is Relaying && event is RelayEnded ==> state.active > 0
}

/// Says whether [`forward_step`] may be called with these arguments.
pub fn forward_ready(connection: Connection, event: ForwardEvent, state: &State) -> (ready: bool)
    ensures
        ready == forward_enabled(connection, event, state@),
{
    match (connection.phase, event) {
        (Phase::Connecting, ForwardEvent::UpstreamConnected) => state.has_room(),
        (Phase::Relaying, ForwardEvent::RelayEnded(_)) => state.active_connections() > 0,
        _ => true,
    }
}

/// Takes the report of one event on one connection, updates the shared
/// state, and returns the connection after the event and the next action of
/// its task.
pub fn forward_step(connection: Connection, event: ForwardEvent, state: &mut State) -> (next: (
    Connection,
    ForwardAction,
))
    requires
        forward_enabled(connection, event, old(state)@),
    ensures
        next.0 == forward_transition(connection, event, old(state)@).connection,
        next.1 == forward_transition(connection, event, old(state)@).action,
        final(state)@ == forward_transition(connection, event, old(state)@).state,
        next.0.peer == connection.peer,
        !(event is UpstreamConnected) && !(event is RelayEnded) ==> final(state)@ == old(state)@,
{
    match (connection.phase, event) {
        (Phase::Accepted, ForwardEvent::Dispatched) => (
            Connection { peer: connection.peer, phase: Phase::Connecting },
            ForwardAction::Connect,
        ),
        (Phase::Connecting, ForwardEvent::UpstreamConnected) => {
            state.register(connection.peer);
            (Connection { peer: connection.peer, phase: Phase::Relaying }, ForwardAction::Relay)
        },
        (Phase::Connecting, ForwardEvent::UpstreamUnreachable) => (
            Connection { peer: connection.peer, phase: Phase::ConnectFailed },
            ForwardAction::Finish(Err(ForwardError::UpstreamConnect)),
        ),
        (Phase::Relaying, ForwardEvent::RelayEnded(Ok(()))) => {
            state.deregister();
            (
                Connection { peer: connection.peer, phase: Phase::Completed },
                ForwardAction::Finish(Ok(())),
            )
        },
        (Phase::Relaying, ForwardEvent::RelayEnded(Err(failure))) => {
            state.deregister();
            (
                Connection { peer: connection.peer, phase: Phase::Failed },
                ForwardAction::Finish(Err(ForwardError::Relay(failure))),
            )
        },
        _ => (connection, ForwardAction::Ignore),
    }
}

} // verus!
