//! The counters and peer history that every connection of the relay shares.

use vstd::prelude::*;
use crate::addr::PeerAddr;

verus! {

/// What a [`State`] holds, as mathematics.
pub struct StateView {
    /// Connections that are being relayed right now.
    pub active: nat,
    /// Connections whose relay has ended, well or badly.
    pub completed: nat,
    /// Every peer whose connection reached the upstream.
    pub peers: Set<PeerAddr>,
}

impl StateView {
    /// The state at process start: nothing counted, no peer seen.
    pub open spec fn initial() -> StateView {
        StateView { active: 0, completed: 0, peers: Set::empty() }
    }

    /// Connections that were ever registered.
    pub open spec fn registered(self) -> nat {
        self.active + self.completed
    }

    /// One more connection is being relayed, and its peer is remembered.
    pub open spec fn register(self, peer: PeerAddr) -> StateView {
        StateView { active: self.active + 1, completed: self.completed, peers: self.peers.insert(peer) }
    }

    /// One relayed connection has ended. Peers are never forgotten.
    pub open spec fn deregister(self) -> StateView {
        StateView {
            active: (self.active - 1) as nat,
            completed: self.completed + 1,
            peers: self.peers,
        }
    }
}

/// A peer is on record once, however many of its connections are
/// registered: a second registration from the same peer adds no entry.
pub proof fn lemma_peer_is_recorded_once(state: StateView, peer: PeerAddr)
    requires
        state.peers.finite(),
    ensures
        state.register(peer).register(peer).peers == state.register(peer).peers,
        state.register(peer).peers.len() == state.peers.len() + (if state.peers.contains(peer) {
            0nat
        } else {
            1nat
        }),
        state.register(peer).register(peer).peers.len() == state.register(peer).peers.len(),
        StateView::initial().register(peer).register(peer).peers.len() == 1,
{
    assert(state.register(peer).register(peer).peers =~= state.register(peer).peers);
    assert(StateView::initial().register(peer).register(peer).peers =~= Set::empty().insert(peer));
}

/// A registration followed by its deregistration leaves the number of
/// active connections as it was and counts one more completed connection.
pub proof fn lemma_register_then_deregister(state: StateView, peer: PeerAddr)
    ensures
        state.register(peer).deregister().active == state.active,
        state.register(peer).deregister().completed == state.completed + 1,
        state.register(peer).deregister().registered() == state.registered() + 1,
        state.register(peer).deregister().peers == state.peers.insert(peer),
{
}

/// Connection counters and the set of peers seen, shared by the accept loop
/// and every connection. The program keeps one behind a lock.
#[derive(Debug)]
pub struct State {
    active_connections: usize,
    completed_connections: usize,
    peer_addresses: Vec<PeerAddr>,
}

impl View for State {
    type V = StateView;

    closed spec fn view(&self) -> StateView {
        StateView {
            active: self.active_connections as nat,
            completed: self.completed_connections as nat,
            peers: self.peer_addresses@.to_set(),
        }
    }
}

impl State {
    /// No peer is stored twice, and the two counters together fit a `usize`.
    #[verifier::type_invariant]
    spec fn well_formed(self) -> bool {
        &&& self.peer_addresses@.no_duplicates()
        &&& self.active_connections + self.completed_connections <= usize::MAX
    }

    /// The peers on record are finitely many.
    pub proof fn lemma_peers_are_finite(self)
        ensures
            self@.peers.finite(),
    {
        vstd::seq_lib::seq_to_set_is_finite(self.peer_addresses@);
    }

    /// The state at process start.
    pub fn new() -> (state: State)
        ensures
            state@ == StateView::initial(),
    {
        let state = State {
            active_connections: 0,
            completed_connections: 0,
            peer_addresses: Vec::new(),
        };
        assert(state.peer_addresses@.to_set() =~= Set::empty());
        state
    }

    /// Connections that are being relayed right now.
    pub fn active_connections(&self) -> (n: usize)
        ensures
            n == self@.active,
    {
        self.active_connections
    }

    /// Connections whose relay has ended.
    pub fn completed_connections(&self) -> (n: usize)
        ensures
            n == self@.completed,
    {
        self.completed_connections
    }

    /// Whether one more connection can be registered: the two counters
    /// together have not reached the largest `usize`.
    pub fn has_room(&self) -> (room: bool)
        ensures
            room == (self@.registered() < usize::MAX),
    {
        proof {
            use_type_invariant(self);
        }
        self.active_connections < usize::MAX - self.completed_connections
    }

    /// Whether a connection from `peer` was ever registered.
    pub fn has_peer(&self, peer: PeerAddr) -> (found: bool)
        ensures
            found == self@.peers.contains(peer),
    {
        let mut i: usize = 0;
        while i < self.peer_addresses.len()
            invariant
                i <= self.peer_addresses.len(),
                forall|j: int| 0 <= j < i ==> self.peer_addresses@[j] != peer,
            decreases self.peer_addresses.len() - i,
        {
            if self.peer_addresses[i] == peer {
                return true;
            }
            i += 1;
        }
        false
    }

    /// How many distinct peers were registered.
    pub fn peer_count(&self) -> (n: usize)
        ensures
            n == self@.peers.len(),
    {
        proof {
            use_type_invariant(self);
            self.peer_addresses@.unique_seq_to_set();
        }
        self.peer_addresses.len()
    }

    /// The peers on record, each once, in the order in which they were
    /// first registered.
    pub fn peer_addresses(&self) -> (peers: Vec<PeerAddr>)
        ensures
            peers@.no_duplicates(),
            peers@.to_set() == self@.peers,
    {
        proof {
            use_type_invariant(self);
        }
        let mut peers: Vec<PeerAddr> = Vec::new();
        let mut i: usize = 0;
        while i < self.peer_addresses.len()
            invariant
                i <= self.peer_addresses.len(),
                peers@ == self.peer_addresses@.take(i as int),
            decreases self.peer_addresses.len() - i,
        {
            peers.push(self.peer_addresses[i]);
            assert(self.peer_addresses@.take(i + 1) =~= self.peer_addresses@.take(i as int).push(
                self.peer_addresses@[i as int],
            ));
            i += 1;
        }
        assert(peers@ =~= self.peer_addresses@);
        peers
    }

    /// Counts a connection whose upstream connect has succeeded, and
    /// remembers its peer.
    pub fn register(&mut self, peer: PeerAddr)
        requires
            old(self)@.registered() < usize::MAX,
        ensures
            final(self)@ == old(self)@.register(peer),
    {
        proof {
            use_type_invariant(&*self);
        }
        let known = self.has_peer(peer);
        self.active_connections = self.active_connections + 1;
        if !known {
            let mut peers: Vec<PeerAddr> = Vec::new();
            std::mem::swap(&mut peers, &mut self.peer_addresses);
            peers.push(peer);
            self.peer_addresses = peers;
        }
        proof {
            let before = old(self).peer_addresses@;
            let after = self.peer_addresses@;
            assert forall|p: PeerAddr| after.contains(p) <==> (before.contains(p) || p == peer) by {
                if after.contains(p) {
                    let i = choose|i: int| 0 <= i < after.len() && after[i] == p;
                    if i < before.len() {
                        assert(before[i] == p);
                    }
                }
                if before.contains(p) {
                    let i = choose|i: int| 0 <= i < before.len() && before[i] == p;
                    assert(after[i] == p);
                }
                if p == peer && !known {
                    assert(after[before.len() as int] == p);
                }
            }
            assert(after.to_set() =~= before.to_set().insert(peer));
        }
    }

    /// Counts the end of a relay: one connection fewer is active, one more
    /// is completed.
    pub fn deregister(&mut self)
        requires
            old(self)@.active > 0,
        ensures
            final(self)@ == old(self)@.deregister(),
    {
        proof {
            use_type_invariant(&*self);
        }
        self.active_connections = self.active_connections - 1;
        self.completed_connections = self.completed_connections + 1;
    }
}

} // verus!
