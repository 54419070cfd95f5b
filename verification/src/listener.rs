//! The accept loop.
//!
//! The listener binds its address once. A failed bind is fatal and is the
//! only error the loop returns. Once bound it accepts connections without
//! end and dispatches each to a task of its own, never waiting for one: what
//! becomes of a connection is no event here, so no failure of a connection
//! can reach the loop. The first failed accept ends the loop, whatever the
//! cause; the loop then returns normally, and its final phase says that an
//! accept failed, so that the program can report it.
//!
//! The program binds and accepts and reports the results to
//! [`listen_step`], which answers with what to do next.

use vstd::prelude::*;
use crate::addr::PeerAddr;
use crate::connection::{Connection, Phase};

verus! {

/// Where the accept loop stands.
#[derive(Clone, Copy, Debug, PartialEq, Eq, Structural, Hash)]
pub enum ListenPhase {
    /// Not started.
    Idle,
    /// Waiting for the bind of the listen address.
    Binding,
    /// Bound, and accepting connections.
    Accepting,
    /// The listen address could not be bound. Final.
    BindFailed,
    /// An accept failed and the loop has stopped. Final.
    AcceptFailed,
}

/// What the program reports to the accept loop.
#[derive(Clone, Copy, Debug, PartialEq, Eq, Structural, Hash)]
pub enum ListenEvent {
    /// The loop was started.
    Started,
    /// The listen address is bound.
    Bound,
    /// The listen address is invalid or in use.
    BindFailed,
    /// A connection from this peer was accepted.
    Accepted(PeerAddr),
    /// The accept call failed.
    AcceptFailed,
}

/// Why the accept loop failed.
#[derive(Clone, Copy, Debug, PartialEq, Eq, Structural, Hash)]
pub enum ListenError {
    /// The listen address could not be bound.
    Bind,
}

/// What the accept loop does next.
#[derive(Clone, Copy, Debug, PartialEq, Eq)]
pub enum ListenAction {
    /// Bind the listen address.
    Bind,
    /// Accept the next connection.
    Accept,
    /// Hand this connection to a new task, without waiting for it, and
    /// accept the next one.
    Dispatch(Connection),
    /// The loop ends with this result.
    Finish(Result<(), ListenError>),
    /// The event does not belong to the phase the loop is in; nothing has
    /// changed and nothing is to be done.
    Ignore,
}

/// The step that `event` causes in `phase`.
pub open spec fn listen_transition(phase: ListenPhase, event: ListenEvent) -> (
    ListenPhase,
    ListenAction,
) {
    match (phase, event) {
        (ListenPhase::Idle, ListenEvent::Started) => (ListenPhase::Binding, ListenAction::Bind),
        (ListenPhase::Binding, ListenEvent::Bound) => (ListenPhase::Accepting, ListenAction::Accept),
        (ListenPhase::Binding, ListenEvent::BindFailed) => (
            ListenPhase::BindFailed,
            ListenAction::Finish(Err(ListenError::Bind)),
        ),
        (ListenPhase::Accepting, ListenEvent::Accepted(peer)) => (
            ListenPhase::Accepting,
            ListenAction::Dispatch(Connection { peer, phase: Phase::Accepted }),
        ),
        (ListenPhase::Accepting, ListenEvent::AcceptFailed) => (
            ListenPhase::AcceptFailed,
            ListenAction::Finish(Ok(())),
        ),
        _ => (phase, ListenAction::Ignore),
    }
}

/// Takes the report of one event, and returns the phase of the accept loop
/// after it and the next action.
pub fn listen_step(phase: ListenPhase, event: ListenEvent) -> (next: (ListenPhase, ListenAction))
    ensures
        next == listen_transition(phase, event),
{
    match (phase, event) {
        (ListenPhase::Idle, ListenEvent::Started) => (ListenPhase::Binding, ListenAction::Bind),
        (ListenPhase::Binding, ListenEvent::Bound) => (ListenPhase::Accepting, ListenAction::Accept),
        (ListenPhase::Binding, ListenEvent::BindFailed) => (
            ListenPhase::BindFailed,
            ListenAction::Finish(Err(ListenError::Bind)),
        ),
        (ListenPhase::Accepting, ListenEvent::Accepted(peer)) => (
            ListenPhase::Accepting,
            ListenAction::Dispatch(Connection::accepted(peer)),
        ),
        (ListenPhase::Accepting, ListenEvent::AcceptFailed) => (
            ListenPhase::AcceptFailed,
            ListenAction::Finish(Ok(())),
        ),
        _ => (phase, ListenAction::Ignore),
    }
}

} // verus!
