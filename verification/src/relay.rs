//! The relay: the registry of peers together with the outbound queues of the
//! live connections. One value of it is shared by all connection handlers;
//! whoever holds it exclusively performs one operation at a time.

use crate::document::{json_members, json_string, json_text};
use crate::queue::{OutboundQueue, QueueState};
use crate::registry::{Registry, SinkId};
use crate::router::{
    accepted, destination_of, forwarded, peer_id_key, readdress, Envelope, RouteOutcome,
};
use std::collections::HashMap;
use vstd::prelude::*;

verus! {

/// What the relay is: who is registered, and what waits for whom.
pub struct RelayState {
    pub registry: Map<Seq<char>, SinkId>,
    pub queues: Map<SinkId, QueueState>,
    pub next_sink: SinkId,
}

/// What a connection finds when it asks for its next outbound message.
#[derive(Clone, Debug, PartialEq, Eq)]
pub enum Outbound {
    /// The message that has waited longest.
    Message(String),
    /// Nothing waits.
    Idle,
    /// The queue is closed: the sink belongs to no live connection.
    Closed,
}

impl RelayState {
    /// Every registered sink is the queue of a live connection that was opened
    /// under that identifier, and every sink in use was handed out already.
    pub open spec fn wf(self) -> bool {
        &&& forall|id: Seq<char>| #[trigger]
            self.registry.contains_key(id) ==> self.queues.contains_key(self.registry[id])
                && self.queues[self.registry[id]].owner == id
        &&& forall|sink: SinkId| #[trigger] self.queues.contains_key(sink) ==> sink < self.next_sink
    }

    /// The relay before any connection.
    pub open spec fn initial() -> RelayState {
        RelayState { registry: Map::empty(), queues: Map::empty(), next_sink: 0 }
    }

    /// The sink registered for `id`, if any.
    pub open spec fn lookup(self, id: Seq<char>) -> Option<SinkId> {
        if self.registry.contains_key(id) {
            Some(self.registry[id])
        } else {
            None
        }
    }

    /// The relay after a connection was opened for `peer_id`: a fresh, empty
    /// queue, registered under the identifier in place of any earlier entry.
    pub open spec fn opened(self, peer_id: Seq<char>) -> RelayState {
        RelayState {
            registry: self.registry.insert(peer_id, self.next_sink),
            queues: self.queues.insert(
                self.next_sink,
                QueueState { owner: peer_id, pending: Seq::empty() },
            ),
            next_sink: (self.next_sink + 1) as SinkId,
        }
    }

    /// The relay after `message` was put on the queue of `sink`.
    pub open spec fn enqueued(self, sink: SinkId, message: Seq<char>) -> RelayState {
        RelayState {
            queues: self.queues.insert(
                sink,
                QueueState {
                    owner: self.queues[sink].owner,
                    pending: self.queues[sink].pending.push(message),
                },
            ),
            ..self
        }
    }

    /// What becomes of a message once it was read: without an addressee it is
    /// malformed; for an addressee that is not registered it is dropped; else
    /// it goes to the end of the addressee's queue. Only the last changes the relay.
    pub open spec fn delivered(self, addressed: Option<(Seq<char>, Seq<char>)>) -> (
        RelayState,
        RouteOutcome,
    ) {
        match addressed {
            None => (self, RouteOutcome::Malformed),
            Some((destination, message)) => match self.lookup(destination) {
                None => (self, RouteOutcome::DestinationNotFound),
                Some(sink) => (self.enqueued(sink, message), RouteOutcome::Delivered(sink)),
            },
        }
    }

    /// What the router reads from a raw message of `sender`: the addressee and
    /// the text to forward, or nothing where the message is not accepted.
    pub open spec fn addressed(sender: Seq<char>, raw: Seq<char>) -> Option<(Seq<char>, Seq<char>)> {
        match accepted(raw) {
            None => None,
            Some(doc) => Some((destination_of(doc), json_text(forwarded(doc, sender)))),
        }
    }

    /// The relay after the queue of `sink` gave up its oldest message.
    pub open spec fn dequeued(self, sink: SinkId) -> RelayState {
        RelayState {
            queues: self.queues.insert(
                sink,
                QueueState {
                    owner: self.queues[sink].owner,
                    pending: self.queues[sink].pending.drop_first(),
                },
            ),
            ..self
        }
    }

    /// The relay after the connection of `sink` was closed: its queue is gone,
    /// and so is whatever entry stood under its peer identifier. A sink
    /// without a queue changes nothing.
    pub open spec fn closed(self, sink: SinkId) -> RelayState {
        if self.queues.contains_key(sink) {
            RelayState {
                registry: self.registry.remove(self.queues[sink].owner),
                queues: self.queues.remove(sink),
                ..self
            }
        } else {
            self
        }
    }
}

/// The registry and the outbound queues of all live connections.
pub struct Relay {
    registry: Registry,
    queues: HashMap<SinkId, OutboundQueue>,
    next_sink: SinkId,
}

impl View for Relay {
    type V = RelayState;

    closed spec fn view(&self) -> RelayState {
        RelayState {
            registry: self.registry@,
            queues: self.queues@.map_values(|q: OutboundQueue| q@),
            next_sink: self.next_sink,
        }
    }
}

impl Relay {
    /// A relay without connections.
    pub fn new() -> (relay: Relay)
        ensures
            relay@ == RelayState::initial(),
            relay@.wf(),
    {
        broadcast use vstd::std_specs::hash::group_hash_axioms;

        let relay = Relay { registry: Registry::new(), queues: HashMap::new(), next_sink: 0 };
        assert(relay@.queues =~= Map::empty());
        relay
    }

    /// The sink currently registered for `id`, if any.
    pub fn lookup(&self, id: &str) -> (found: Option<SinkId>)
        ensures
            found == self@.lookup(id@),
    {
        self.registry.lookup(id)
    }

    /// How many messages wait on the queue of `sink`; `None` for a sink
    /// without a queue.
    pub fn pending(&self, sink: SinkId) -> (count: Option<usize>)
        ensures
            count == (if self@.queues.contains_key(sink) {
                Some(self@.queues[sink].pending.len() as usize)
            } else {
                None
            }),
    {
        broadcast use vstd::std_specs::hash::group_hash_axioms;

        match self.queues.get(&sink) {
            Some(queue) => Some(queue.len()),
            None => None,
        }
    }

    /// Opens a connection for `peer_id`: makes its outbound queue and
    /// registers it, replacing an earlier entry under the same identifier.
    /// Returns the sink of the queue. Only a relay that has handed out every
    /// sink refuses, and stays as it was.
    pub fn open(&mut self, peer_id: &str) -> (sink: Option<SinkId>)
        requires
            old(self)@.wf(),
        ensures
            final(self)@.wf(),
            old(self)@.next_sink < u64::MAX ==> sink == Some(old(self)@.next_sink) && final(self)@
                == old(self)@.opened(peer_id@),
            old(self)@.next_sink == u64::MAX ==> sink is None && final(self)@ == old(self)@,
    {
        broadcast use vstd::std_specs::hash::group_hash_axioms;

        if self.next_sink == u64::MAX {
            return None;
        }
        let sink = self.next_sink;
        self.queues.insert(sink, OutboundQueue::new(peer_id));
        self.registry.register(peer_id, sink);
        self.next_sink = sink + 1;
        assert(final(self)@.queues =~= old(self)@.opened(peer_id@).queues);
        Some(sink)
    }

    /// Hands a message that was read to its addressee: nothing for a message
    /// without addressee or for an addressee that is not registered; else the
    /// text goes to the end of the addressee's queue.
    pub fn deliver(&mut self, envelope: Option<Envelope>) -> (outcome: RouteOutcome)
        requires
            old(self)@.wf(),
        ensures
            final(self)@.wf(),
            (final(self)@, outcome) == old(self)@.delivered(
                match envelope {
                    Some(e) => Some((e.destination@, e.message@)),
                    None => None,
                },
            ),
    {
        broadcast use vstd::std_specs::hash::group_hash_axioms;

        let Envelope { destination, message } = match envelope {
            Some(envelope) => envelope,
            None => {
                return RouteOutcome::Malformed;
            },
        };
        let sink = match self.registry.lookup(destination.as_str()) {
            Some(sink) => sink,
            None => {
                return RouteOutcome::DestinationNotFound;
            },
        };
        assert(old(self)@.registry.contains_key(destination@));
        assert(old(self)@.queues.contains_key(sink));
        match self.queues.remove(&sink) {
            Some(mut queue) => {
                queue.enqueue(message);
                self.queues.insert(sink, queue);
                assert(final(self)@.queues =~= old(self)@.enqueued(sink, message@).queues);
                RouteOutcome::Delivered(sink)
            },
            None => RouteOutcome::DestinationNotFound,
        }
    }

    /// Routes one raw message of `sender_id`. A message that is not accepted
    /// is malformed; one whose addressee is not registered is dropped; else
    /// the text of the document that names the sender under `peer_id`, with
    /// every other member as it was received, goes to the end of the
    /// addressee's queue. Only that last case changes the relay.
    pub fn route(&mut self, sender_id: &str, raw_message: &str) -> (outcome: RouteOutcome)
        requires
            old(self)@.wf(),
        ensures
            final(self)@.wf(),
            (final(self)@, outcome) == old(self)@.delivered(
                RelayState::addressed(sender_id@, raw_message@),
            ),
            accepted(raw_message@) matches Some(doc) ==> {
                &&& json_members(forwarded(doc, sender_id@)) == json_members(doc).insert(
                    peer_id_key(),
                    json_string(sender_id@),
                )
                &&& destination_of(forwarded(doc, sender_id@)) == sender_id@
            },
    {
        let envelope = readdress(sender_id, raw_message);
        self.deliver(envelope)
    }

    /// Takes the oldest message from the queue of `sink`.
    pub fn next_outbound(&mut self, sink: SinkId) -> (next: Outbound)
        requires
            old(self)@.wf(),
        ensures
            final(self)@.wf(),
            !old(self)@.queues.contains_key(sink) ==> next is Closed && final(self)@ == old(self)@,
            old(self)@.queues.contains_key(sink) && old(self)@.queues[sink].pending.len() == 0
                ==> next is Idle && final(self)@ == old(self)@,
            old(self)@.queues.contains_key(sink) && old(self)@.queues[sink].pending.len() > 0 ==> {
                &&& next matches Outbound::Message(m) && m@ == old(self)@.queues[sink].pending[0]
                &&& final(self)@ == old(self)@.dequeued(sink)
            },
    {
        broadcast use vstd::std_specs::hash::group_hash_axioms;

        match self.queues.remove(&sink) {
            Some(mut queue) => {
                let message = queue.dequeue();
                self.queues.insert(sink, queue);
                match message {
                    Some(m) => {
                        assert(final(self)@.queues =~= old(self)@.dequeued(sink).queues);
                        Outbound::Message(m)
                    },
                    None => {
                        assert(final(self)@.queues =~= old(self)@.queues);
                        Outbound::Idle
                    },
                }
            },
            None => {
                assert(final(self)@.queues =~= old(self)@.queues);
                Outbound::Closed
            },
        }
    }

    /// Closes the connection of `sink`: removes its queue and the entry under
    /// its peer identifier. Closing again changes nothing.
    pub fn close(&mut self, sink: SinkId)
        requires
            old(self)@.wf(),
        ensures
            final(self)@.wf(),
            final(self)@ == old(self)@.closed(sink),
    {
        broadcast use vstd::std_specs::hash::group_hash_axioms;

        match self.queues.remove(&sink) {
            Some(queue) => {
                self.registry.remove(queue.owner());
                assert(final(self)@.queues =~= old(self)@.closed(sink).queues);
            },
            None => {
                assert(final(self)@.queues =~= old(self)@.queues);
            },
        }
    }
}

} // verus!
