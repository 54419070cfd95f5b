//! The whole relay as a model: one accept loop, the connections it has
//! dispatched, and the state they share.
//!
//! Connections run concurrently, but every change to the shared state is made
//! in one step under its lock, so a run of the relay is a sequence of steps,
//! each taken by the accept loop or by one connection. The model replays such
//! a sequence with the transitions that the executable steps are held to,
//! and the lemmas say what holds after every sequence.

use vstd::prelude::*;
use crate::addr::PeerAddr;
use crate::connection::{forward_transition, Connection, ForwardEvent, Phase};
use crate::listener::{listen_transition, ListenAction, ListenEvent, ListenPhase};
use crate::state::StateView;

verus! {

/// One thing that happens in the relay.
pub enum EngineEvent {
    /// Something is reported to the accept loop.
    Listener(ListenEvent),
    /// Something is reported about the connection that was dispatched as
    /// number `id`, counting from zero.
    Connection { id: int, event: ForwardEvent },
}

/// The relay at one instant.
pub struct Engine {
    pub listener: ListenPhase,
    /// Every connection dispatched so far, in the order of dispatch.
    pub connections: Seq<Connection>,
    pub state: StateView,
}

impl Engine {
    /// The relay at process start.
    pub open spec fn initial() -> Engine {
        Engine {
            listener: ListenPhase::Idle,
            connections: Seq::empty(),
            state: StateView::initial(),
        }
    }

    /// The relay after one more event. An event for a connection that was
    /// never dispatched changes nothing.
    pub open spec fn step(self, event: EngineEvent) -> Engine {
        match event {
            EngineEvent::Listener(event) => {
                let (listener, action) = listen_transition(self.listener, event);
                match action {
                    ListenAction::Dispatch(connection) => Engine {
                        listener,
                        connections: self.connections.push(connection),
                        state: self.state,
                    },
                    _ => Engine { listener, connections: self.connections, state: self.state },
                }
            },
            EngineEvent::Connection { id, event } => {
                if 0 <= id < self.connections.len() {
                    let forwarded = forward_transition(self.connections[id], event, self.state);
                    Engine {
                        listener: self.listener,
                        connections: self.connections.update(id, forwarded.connection),
                        state: forwarded.state,
                    }
                } else {
                    self
                }
            },
        }
    }

    /// The relay after a sequence of events, from process start.
    pub open spec fn run(events: Seq<EngineEvent>) -> Engine
        decreases events.len(),
    {
        if events.len() == 0 {
            Engine::initial()
        } else {
            Engine::run(events.drop_last()).step(events.last())
        }
    }

    /// The counters and the peer set say what the connections say.
    pub open spec fn consistent(self) -> bool {
        &&& self.state.active == relaying(self.connections)
        &&& self.state.completed == finished(self.connections)
        &&& self.state.peers == registered_peers(self.connections)
        &&& self.state.peers.finite()
        &&& self.state.peers.len() <= self.state.registered()
    }
}

/// How many of `connections` are in a phase that `wanted` holds of.
pub open spec fn count(connections: Seq<Connection>, wanted: spec_fn(Phase) -> bool) -> nat
    decreases connections.len(),
{
    if connections.len() == 0 {
        0
    } else {
        count(connections.drop_last(), wanted) + if wanted(connections.last().phase) {
            1nat
        } else {
            0nat
        }
    }
}

/// How many connections are being relayed.
pub open spec fn relaying(connections: Seq<Connection>) -> nat {
    count(connections, |phase: Phase| phase is Relaying)
}

/// How many connections have ended their relay.
pub open spec fn finished(connections: Seq<Connection>) -> nat {
    count(connections, |phase: Phase| phase.is_finished())
}

/// How many connections got past the upstream connect.
pub open spec fn registered(connections: Seq<Connection>) -> nat {
    count(connections, |phase: Phase| phase.is_registered())
}

/// Whether connection number `id` came from `peer` and got past the
/// upstream connect.
pub open spec fn registered_at(connections: Seq<Connection>, id: int, peer: PeerAddr) -> bool {
    &&& 0 <= id < connections.len()
    &&& connections[id].peer == peer
    &&& connections[id].phase.is_registered()
}

/// The peers of the connections that got past the upstream connect.
pub open spec fn registered_peers(connections: Seq<Connection>) -> Set<PeerAddr> {
    Set::new(|peer: PeerAddr| exists|id: int| registered_at(connections, id, peer))
}

proof fn lemma_count_update(
    connections: Seq<Connection>,
    id: int,
    connection: Connection,
    wanted: spec_fn(Phase) -> bool,
)
    requires
        0 <= id < connections.len(),
    ensures
        count(connections.update(id, connection), wanted) + (if wanted(connections[id].phase) {
            1nat
        } else {
            0nat
        }) == count(connections, wanted) + (if wanted(connection.phase) {
            1nat
        } else {
            0nat
        }),
    decreases connections.len(),
{
    let updated = connections.update(id, connection);
    if id == connections.len() - 1 {
        assert(updated.drop_last() =~= connections.drop_last());
    } else {
        assert(updated.drop_last() =~= connections.drop_last().update(id, connection));
        lemma_count_update(connections.drop_last(), id, connection, wanted);
    }
}

proof fn lemma_count_member(connections: Seq<Connection>, id: int, wanted: spec_fn(Phase) -> bool)
    requires
        0 <= id < connections.len(),
        wanted(connections[id].phase),
    ensures
        count(connections, wanted) > 0,
    decreases connections.len(),
{
    if id < connections.len() - 1 {
        lemma_count_member(connections.drop_last(), id, wanted);
    }
}

proof fn lemma_count_split(connections: Seq<Connection>)
    ensures
        registered(connections) == relaying(connections) + finished(connections),
    decreases connections.len(),
{
    if connections.len() > 0 {
        lemma_count_split(connections.drop_last());
    }
}

proof fn lemma_step_keeps_consistent(engine: Engine, event: EngineEvent)
    requires
        engine.consistent(),
    ensures
        engine.step(event).consistent(),
{
    let next = engine.step(event);
    let before = engine.connections;
    let after = next.connections;
    match event {
        EngineEvent::Listener(listen_event) => {
            if listen_transition(engine.listener, listen_event).1 is Dispatch {
                assert(after.drop_last() =~= before);
                assert forall|peer: PeerAddr, id: int|
                    registered_at(after, id, peer) <==> registered_at(before, id, peer) by {}
                assert(registered_peers(after) =~= registered_peers(before));
            }
        },
        EngineEvent::Connection { id, event: forward_event } => {
            if 0 <= id < before.len() {
                let old_connection = before[id];
                let new_connection = after[id];
                lemma_count_update(before, id, new_connection, |phase: Phase| phase is Relaying);
                lemma_count_update(before, id, new_connection, |phase: Phase| phase.is_finished());
                if old_connection.phase is Relaying {
                    lemma_count_member(before, id, |phase: Phase| phase is Relaying);
                }
                assert forall|peer: PeerAddr|
                    registered_peers(after).contains(peer) <==> next.state.peers.contains(
                        peer,
                    ) by {
                    if registered_peers(after).contains(peer) {
                        let other = choose|other: int| registered_at(after, other, peer);
                        if other != id {
                            assert(registered_at(before, other, peer));
                        } else if old_connection.phase.is_registered() {
                            assert(registered_at(before, id, peer));
                        }
                    }
                    if registered_peers(before).contains(peer) {
                        let other = choose|other: int| registered_at(before, other, peer);
                        assert(registered_at(after, other, peer));
                    }
                    if new_connection.phase.is_registered() && peer == new_connection.peer {
                        assert(registered_at(after, id, peer));
                    }
                }
                assert(registered_peers(after) =~= next.state.peers);
            }
        },
    }
}

/// At every instant of every run, the number of active connections is the
/// number of connections that are being relayed, the number of completed
/// connections is the number whose relay has ended, the two together are the
/// number that ever got past the upstream connect, and the peers on record
/// are the peers of exactly those connections, so there are at most as many
/// of them.
pub proof fn lemma_counters_track_connections(events: Seq<EngineEvent>)
    ensures
        Engine::run(events).consistent(),
        Engine::run(events).state.registered() == registered(Engine::run(events).connections),
    decreases events.len(),
{
    if events.len() == 0 {
        assert(registered_peers(Seq::<Connection>::empty()) =~= Set::<PeerAddr>::empty());
    } else {
        lemma_counters_track_connections(events.drop_last());
        lemma_step_keeps_consistent(Engine::run(events.drop_last()), events.last());
    }
    lemma_count_split(Engine::run(events).connections);
}

/// In every run, whenever a connection is being relayed, the shared state
/// counts at least one active connection: the end of a relay always finds a
/// connection to deregister.
pub proof fn lemma_relaying_connection_is_counted(events: Seq<EngineEvent>, id: int)
    requires
        0 <= id < Engine::run(events).connections.len(),
        Engine::run(events).connections[id].phase is Relaying,
    ensures
        Engine::run(events).state.active > 0,
{
    lemma_counters_track_connections(events);
    lemma_count_member(Engine::run(events).connections, id, |phase: Phase| phase is Relaying);
}

/// What is reported about one connection changes neither the accept loop
/// nor any other connection.
pub proof fn lemma_connections_are_isolated(engine: Engine, id: int, event: ForwardEvent, other: int)
    requires
        0 <= other < engine.connections.len(),
        other != id,
    ensures
        engine.step(EngineEvent::Connection { id, event }).listener == engine.listener,
        engine.step(EngineEvent::Connection { id, event }).connections.len()
            == engine.connections.len(),
        engine.step(EngineEvent::Connection { id, event }).connections[other]
            == engine.connections[other],
{
}

/// No event ever lowers the count of completed connections or removes a
/// peer from the record.
pub proof fn lemma_history_only_grows(engine: Engine, event: EngineEvent)
    ensures
        engine.step(event).state.completed >= engine.state.completed,
        engine.state.peers.subset_of(engine.step(event).state.peers),
{
}

} // verus!
