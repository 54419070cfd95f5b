//! The duplex copy of one connection.
//!
//! A connection is copied in two directions at once. Each direction copies
//! until its reader ends or an error stops it, then half-closes the writer it
//! copied into, so that the far peer sees the end of the stream. The relay is
//! over when both directions have gone through both stages; a failure in one
//! direction never stops the other.
//!
//! The program runs the copies and the half-closes and reports the end of
//! each to [`relay_step`], which answers with what to do next.

use vstd::prelude::*;

verus! {

/// One of the two ways bytes travel through a connection.
#[derive(Clone, Copy, Debug, PartialEq, Eq, Structural, Hash)]
pub enum Direction {
    /// From the accepted client to the upstream server.
    DownstreamToUpstream,
    /// From the upstream server back to the accepted client.
    UpstreamToDownstream,
}

impl Direction {
    /// The other direction of the same connection.
    pub open spec fn spec_opposite(self) -> Direction {
        match self {
            Direction::DownstreamToUpstream => Direction::UpstreamToDownstream,
            Direction::UpstreamToDownstream => Direction::DownstreamToUpstream,
        }
    }

    /// The other direction of the same connection.
    #[verifier::when_used_as_spec(spec_opposite)]
    pub fn opposite(self) -> (other: Direction)
        ensures
            other == self.spec_opposite(),
    {
        match self {
            Direction::DownstreamToUpstream => Direction::UpstreamToDownstream,
            Direction::UpstreamToDownstream => Direction::DownstreamToUpstream,
        }
    }
}

/// The two stages a direction goes through.
#[derive(Clone, Copy, Debug, PartialEq, Eq, Structural, Hash)]
pub enum Stage {
    /// Copying bytes from the reader to the writer.
    Copy,
    /// Half-closing the writer.
    Shutdown,
}

/// Where and at which stage a relay first failed.
#[derive(Clone, Copy, Debug, PartialEq, Eq, Structural, Hash)]
pub struct RelayFailure {
    pub direction: Direction,
    pub stage: Stage,
}

/// How far one direction has come.
#[derive(Clone, Copy, Debug, PartialEq, Eq, Structural, Hash)]
pub enum PipePhase {
    /// The copy is running.
    Copying,
    /// The copy has ended and the writer is being half-closed.
    ShuttingDown,
    /// Both stages are over.
    Closed,
}

/// What the program reports about one direction.
#[derive(Clone, Copy, Debug, PartialEq, Eq, Structural, Hash)]
pub enum PipeEvent {
    /// The reader reached the end of its stream and every byte was written.
    CopyFinished,
    /// A read or a write failed.
    CopyFailed,
    /// The writer was half-closed.
    ShutdownFinished,
    /// The half-close failed.
    ShutdownFailed,
}

impl PipeEvent {
    /// The stage whose end the event reports.
    pub open spec fn stage(self) -> Stage {
        match self {
            PipeEvent::CopyFinished | PipeEvent::CopyFailed => Stage::Copy,
            PipeEvent::ShutdownFinished | PipeEvent::ShutdownFailed => Stage::Shutdown,
        }
    }

    /// Whether the event reports an I/O error.
    pub open spec fn is_failure(self) -> bool {
        self is CopyFailed || self is ShutdownFailed
    }
}

/// What the program does next for the direction it reported on.
#[derive(Clone, Copy, Debug, PartialEq, Eq)]
pub enum RelayAction {
    /// Half-close the writer of this direction.
    Shutdown,
    /// This direction is over; the other one is still running.
    Wait,
    /// Both directions are over: the relay ends with this result.
    Finish(Result<(), RelayFailure>),
    /// The event does not belong to the phase the direction is in; nothing
    /// has changed and nothing is to be done.
    Ignore,
}

/// The relay of one connection: the phase of each direction, and the first
/// failure that was reported.
#[derive(Clone, Copy, Debug, PartialEq, Eq)]
pub struct Relay {
    pub downstream_to_upstream: PipePhase,
    pub upstream_to_downstream: PipePhase,
    pub first_failure: Option<RelayFailure>,
}

impl Relay {
    /// A relay whose two copies have just been started.
    pub open spec fn started() -> Relay {
        Relay {
            downstream_to_upstream: PipePhase::Copying,
            upstream_to_downstream: PipePhase::Copying,
            first_failure: None,
        }
    }

    /// How far `direction` has come.
    pub open spec fn spec_phase(self, direction: Direction) -> PipePhase {
        match direction {
            Direction::DownstreamToUpstream => self.downstream_to_upstream,
            Direction::UpstreamToDownstream => self.upstream_to_downstream,
        }
    }

    /// The relay with `direction` moved to `phase`.
    pub open spec fn with_phase(self, direction: Direction, phase: PipePhase) -> Relay {
        match direction {
            Direction::DownstreamToUpstream => Relay { downstream_to_upstream: phase, ..self },
            Direction::UpstreamToDownstream => Relay { upstream_to_downstream: phase, ..self },
        }
    }

    /// The relay after `failure` was reported: the first failure is kept.
    pub open spec fn noting(self, failure: RelayFailure) -> Relay {
        match self.first_failure {
            Some(_) => self,
            None => Relay { first_failure: Some(failure), ..self },
        }
    }

    /// Whether both directions are over.
    pub open spec fn spec_is_finished(self) -> bool {
        self.downstream_to_upstream is Closed && self.upstream_to_downstream is Closed
    }

    /// The result of the relay: success unless a failure was reported.
    pub open spec fn result(self) -> Result<(), RelayFailure> {
        match self.first_failure {
            Some(failure) => Err(failure),
            None => Ok(()),
        }
    }

    /// The result of the relay once both directions are over, `None` before.
    pub open spec fn spec_outcome(self) -> Option<Result<(), RelayFailure>> {
        if self.spec_is_finished() {
            Some(self.result())
        } else {
            None
        }
    }

    /// A relay whose two copies have just been started.
    pub fn new() -> (relay: Relay)
        ensures
            relay == Relay::started(),
    {
        Relay {
            downstream_to_upstream: PipePhase::Copying,
            upstream_to_downstream: PipePhase::Copying,
            first_failure: None,
        }
    }

    /// How far `direction` has come.
    #[verifier::when_used_as_spec(spec_phase)]
    pub fn phase(self, direction: Direction) -> (phase: PipePhase)
        ensures
            phase == self.spec_phase(direction),
    {
        match direction {
            Direction::DownstreamToUpstream => self.downstream_to_upstream,
            Direction::UpstreamToDownstream => self.upstream_to_downstream,
        }
    }

    /// Whether both directions are over.
    #[verifier::when_used_as_spec(spec_is_finished)]
    pub fn is_finished(self) -> (finished: bool)
        ensures
            finished == self.spec_is_finished(),
    {
        match (self.downstream_to_upstream, self.upstream_to_downstream) {
            (PipePhase::Closed, PipePhase::Closed) => true,
            _ => false,
        }
    }

    /// The result of the relay once both directions are over, `None` before.
    #[verifier::when_used_as_spec(spec_outcome)]
    pub fn outcome(self) -> (outcome: Option<Result<(), RelayFailure>>)
        ensures
            outcome == self.spec_outcome(),
    {
        if self.is_finished() {
            match self.first_failure {
                Some(failure) => Some(Err(failure)),
                None => Some(Ok(())),
            }
        } else {
            None
        }
    }

    fn moved(self, direction: Direction, phase: PipePhase) -> (relay: Relay)
        ensures
            relay == self.with_phase(direction, phase),
    {
        match direction {
            Direction::DownstreamToUpstream => Relay { downstream_to_upstream: phase, ..self },
            Direction::UpstreamToDownstream => Relay { upstream_to_downstream: phase, ..self },
        }
    }

    fn noted(self, failure: RelayFailure) -> (relay: Relay)
        ensures
            relay == self.noting(failure),
    {
        match self.first_failure {
            Some(_) => self,
            None => Relay { first_failure: Some(failure), ..self },
        }
    }

    fn settled(self) -> (next: (Relay, RelayAction))
        ensures
            next.0 == self,
            next.1 == if self.spec_is_finished() {
                RelayAction::Finish(self.result())
            } else {
                RelayAction::Wait
            },
    {
        match self.outcome() {
            Some(result) => (self, RelayAction::Finish(result)),
            None => (self, RelayAction::Wait),
        }
    }
}

/// The relay after `event` was reported for `direction`, and what the
/// program does next for that direction.
///
/// The end of a copy, clean or not, is followed by the half-close of the
/// writer. The end of a half-close closes the direction; the relay finishes
/// when that was the second direction to close. A failure is noted unless an
/// earlier one was. An event that does not end the stage the direction is in
/// changes nothing.
pub open spec fn relay_transition(relay: Relay, direction: Direction, event: PipeEvent) -> (
    Relay,
    RelayAction,
) {
    let failure = RelayFailure { direction, stage: event.stage() };
    let noted = if event.is_failure() {
        relay.noting(failure)
    } else {
        relay
    };
    match (relay.spec_phase(direction), event.stage()) {
        (PipePhase::Copying, Stage::Copy) => (
            noted.with_phase(direction, PipePhase::ShuttingDown),
            RelayAction::Shutdown,
        ),
        (PipePhase::ShuttingDown, Stage::Shutdown) => {
            let closed = noted.with_phase(direction, PipePhase::Closed);
            if closed.spec_is_finished() {
                (closed, RelayAction::Finish(closed.result()))
            } else {
                (closed, RelayAction::Wait)
            }
        },
        _ => (relay, RelayAction::Ignore),
    }
}

/// When the reader of one direction reaches the end of its stream, the
/// writer of that direction is half-closed next, so that the far peer sees
/// the end; nothing that is reported for one direction, a failure included,
/// changes the phase of the other.
pub proof fn lemma_half_close_propagates(relay: Relay, direction: Direction, event: PipeEvent)
    ensures
        relay.phase(direction) is Copying ==> relay_transition(
            relay,
            direction,
            PipeEvent::CopyFinished,
        ).1 == RelayAction::Shutdown,
        relay_transition(relay, direction, event).0.phase(direction.opposite()) == relay.phase(
            direction.opposite(),
        ),
{
}

/// The relay finishes only with the step that closes the second direction,
/// and then with the result on record: success if no failure was reported,
/// else the failure that was reported first.
pub proof fn lemma_relay_joins_both_directions(relay: Relay, direction: Direction, event: PipeEvent)
    ensures
        ({
            let (next, action) = relay_transition(relay, direction, event);
            &&& action is Finish ==> {
                &&& next.is_finished()
                &&& relay.phase(direction) is ShuttingDown
                &&& relay.phase(direction.opposite()) is Closed
                &&& action == RelayAction::Finish(next.result())
            }
            &&& relay.phase(direction) is ShuttingDown && event.stage() is Shutdown
                && relay.phase(direction.opposite()) is Closed ==> action is Finish
            &&& next.result() is Ok <==> relay.first_failure is None && (action is Ignore
                || !event.is_failure())
        }),
{
}

/// A failure on record is never replaced: the relay reports the failure
/// that came first.
pub proof fn lemma_first_failure_is_kept(relay: Relay, direction: Direction, event: PipeEvent)
    requires
        relay.first_failure is Some,
    ensures
        relay_transition(relay, direction, event).0.first_failure == relay.first_failure,
{
}

/// Takes the report of one event on one direction of a relay, and returns
/// the relay after it and the next action for that direction.
pub fn relay_step(relay: Relay, direction: Direction, event: PipeEvent) -> (next: (
    Relay,
    RelayAction,
))
    ensures
        next == relay_transition(relay, direction, event),
        next.0.phase(direction.opposite()) == relay.phase(direction.opposite()),
        next.1 is Finish <==> next.0.is_finished() && relay.phase(direction) is ShuttingDown && (
        event is ShutdownFinished || event is ShutdownFailed),
{
    match (relay.phase(direction), event) {
        (PipePhase::Copying, PipeEvent::CopyFinished) => (
            relay.moved(direction, PipePhase::ShuttingDown),
            RelayAction::Shutdown,
        ),
        (PipePhase::Copying, PipeEvent::CopyFailed) => {
            let failure = RelayFailure { direction, stage: Stage::Copy };
            (relay.noted(failure).moved(direction, PipePhase::ShuttingDown), RelayAction::Shutdown)
        },
        (PipePhase::ShuttingDown, PipeEvent::ShutdownFinished) => {
            relay.moved(direction, PipePhase::Closed).settled()
        },
        (PipePhase::ShuttingDown, PipeEvent::ShutdownFailed) => {
            let failure = RelayFailure { direction, stage: Stage::Shutdown };
            relay.noted(failure).moved(direction, PipePhase::Closed).settled()
        },
        _ => (relay, RelayAction::Ignore),
    }
}

} // verus!
