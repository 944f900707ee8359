//! What holds of the relay as a whole, proved from the definitions of its
//! operations.

use crate::document::json_text;
use crate::handler::HandlerState;
use crate::registry::SinkId;
use crate::relay::RelayState;
use crate::router::{accepted, destination_of, forwarded, RouteOutcome};
use vstd::prelude::*;

verus! {

impl HandlerState {
    /// An active handler owns a queue of the relay, opened under its identifier.
    pub open spec fn attached(self, relay: RelayState) -> bool {
        self.state is Active ==> relay.queues.contains_key(self.sink) && relay.queues[self.sink].owner
            == self.peer_id
    }
}

impl RelayState {
    /// The relay after the queue of `sink` gave up its `count` oldest messages.
    pub open spec fn drained(self, sink: SinkId, count: nat) -> RelayState
        decreases count,
    {
        if count == 0 {
            self
        } else {
            self.dequeued(sink).drained(sink, (count - 1) as nat)
        }
    }
}

/// One operation on the relay, as any connection may perform it.
pub enum Event {
    /// A connection opens under an identifier.
    Open(Seq<char>),
    /// A message that was read is handed on.
    Deliver(Option<(Seq<char>, Seq<char>)>),
    /// The connection of a sink takes its next message.
    Dequeue(SinkId),
    /// The connection of a sink closes.
    Close(SinkId),
}

impl RelayState {
    /// The relay after one event. Opening without a sink left and taking from
    /// a queue that is gone or empty change nothing.
    pub open spec fn after(self, event: Event) -> RelayState {
        match event {
            Event::Open(peer_id) => if self.next_sink < u64::MAX {
                self.opened(peer_id)
            } else {
                self
            },
            Event::Deliver(addressed) => self.delivered(addressed).0,
            Event::Dequeue(sink) => if self.queues.contains_key(sink) && self.queues[sink].pending.len()
                > 0 {
                self.dequeued(sink)
            } else {
                self
            },
            Event::Close(sink) => self.closed(sink),
        }
    }

    /// The relay after a run of events, in order.
    pub open spec fn after_all(self, events: Seq<Event>) -> RelayState
        decreases events.len(),
    {
        if events.len() == 0 {
            self
        } else {
            self.after(events[0]).after_all(events.drop_first())
        }
    }
}

/// Whatever the connections do, in whatever order, the relay stays
/// well-formed: no entry of the registry ever names a queue that is gone or
/// that belongs to another identifier.
pub proof fn law_every_run_keeps_the_relay_well_formed(relay: RelayState, events: Seq<Event>)
    requires
        relay.wf(),
    ensures
        relay.after_all(events).wf(),
    decreases events.len(),
{
    if events.len() > 0 {
        law_every_run_keeps_the_relay_well_formed(relay.after(events[0]), events.drop_first());
    }
}

/// Once nothing is registered under an identifier, it stays so through any
/// run of events in which no connection opens under that identifier.
pub proof fn law_deregistered_identifier_stays_gone(
    relay: RelayState,
    id: Seq<char>,
    events: Seq<Event>,
)
    requires
        relay.lookup(id) is None,
        forall|i: int| 0 <= i < events.len() ==> events[i] != Event::Open(id),
    ensures
        relay.after_all(events).lookup(id) is None,
    decreases events.len(),
{
    if events.len() > 0 {
        assert(events[0] != Event::Open(id));
        let rest = events.drop_first();
        assert forall|i: int| 0 <= i < rest.len() implies rest[i] != Event::Open(id) by {
            assert(rest[i] == events[i + 1]);
        }
        law_deregistered_identifier_stays_gone(relay.after(events[0]), id, rest);
    }
}

/// The relay starts well-formed, and opening, delivering, dequeuing and
/// closing keep it so.
pub proof fn law_operations_keep_the_relay_well_formed(
    relay: RelayState,
    peer_id: Seq<char>,
    addressed: Option<(Seq<char>, Seq<char>)>,
    sink: SinkId,
)
    requires
        relay.wf(),
    ensures
        RelayState::initial().wf(),
        relay.next_sink < u64::MAX ==> relay.opened(peer_id).wf(),
        relay.delivered(addressed).0.wf(),
        relay.queues.contains_key(sink) ==> relay.dequeued(sink).wf(),
        relay.closed(sink).wf(),
{
}

/// A message whose addressee is registered is delivered: it becomes the last
/// message on the addressee's queue, behind all that waited there, and
/// nothing else in the relay changes.
pub proof fn law_message_reaches_registered_addressee(
    relay: RelayState,
    destination: Seq<char>,
    message: Seq<char>,
)
    requires
        relay.wf(),
        relay.registry.contains_key(destination),
    ensures
        ({
            let sink = relay.registry[destination];
            let (after, outcome) = relay.delivered(Some((destination, message)));
            &&& outcome == RouteOutcome::Delivered(sink)
            &&& after.registry == relay.registry
            &&& after.next_sink == relay.next_sink
            &&& after.queues.dom() == relay.queues.dom()
            &&& after.queues[sink].owner == destination
            &&& after.queues[sink].pending == relay.queues[sink].pending.push(message)
            &&& after.queues[sink].pending.last() == message
            &&& forall|other: SinkId|
                other != sink && relay.queues.contains_key(other) ==> after.queues[other]
                    == relay.queues[other]
        }),
{
    let sink = relay.registry[destination];
    let after = relay.delivered(Some((destination, message))).0;
    assert(after.queues.dom() =~= relay.queues.dom());
}

/// A well-formed message of `sender` to a registered peer puts on that
/// peer's queue the text of the received document with `sender` under
/// `peer_id`.
pub proof fn law_routed_message_names_its_sender(
    relay: RelayState,
    sender: Seq<char>,
    raw: Seq<char>,
)
    requires
        relay.wf(),
        accepted(raw) is Some,
        relay.registry.contains_key(destination_of(accepted(raw)->0)),
    ensures
        ({
            let doc = accepted(raw)->0;
            let sink = relay.registry[destination_of(doc)];
            let (after, outcome) = relay.delivered(RelayState::addressed(sender, raw));
            &&& outcome == RouteOutcome::Delivered(sink)
            &&& after.queues[sink].pending == relay.queues[sink].pending.push(
                json_text(forwarded(doc, sender)),
            )
        }),
{
}

/// Closing an active connection leaves nothing registered under its
/// identifier and removes its queue; closing it again changes nothing.
pub proof fn law_close_deregisters_once(handler: HandlerState, relay: RelayState)
    requires
        relay.wf(),
        handler.state is Active,
        handler.attached(relay),
    ensures
        ({
            let (closed_handler, closed_relay) = handler.after_close(relay);
            &&& closed_handler.state is Closed
            &&& closed_relay.lookup(handler.peer_id) is None
            &&& !closed_relay.queues.contains_key(handler.sink)
            &&& closed_relay.wf()
            &&& closed_handler.after_close(closed_relay) == (closed_handler, closed_relay)
            &&& closed_relay.closed(handler.sink) == closed_relay
        }),
{
}

/// What other connections do under other identifiers does not bring an
/// identifier back, nor take it away: opening and closing them leaves the
/// lookup of `id` as it was.
pub proof fn law_other_identifiers_do_not_interfere(
    relay: RelayState,
    id: Seq<char>,
    other_id: Seq<char>,
    other_sink: SinkId,
)
    requires
        relay.wf(),
        id != other_id,
        relay.queues.contains_key(other_sink) ==> relay.queues[other_sink].owner == other_id,
    ensures
        relay.opened(other_id).lookup(id) == relay.lookup(id),
        relay.closed(other_sink).lookup(id) == relay.lookup(id),
        relay.registry.insert(other_id, other_sink).contains_key(id) == relay.registry.contains_key(
            id,
        ),
        relay.registry.remove(other_id).contains_key(id) == relay.registry.contains_key(id),
{
}

/// Activation attaches a handler to the relay, and what other connections do
/// leaves it attached: opening one, delivering to any queue, dequeuing from
/// any queue, closing another sink.
pub proof fn law_handler_stays_attached(
    handler: HandlerState,
    relay: RelayState,
    peer_id: Seq<char>,
    addressed: Option<(Seq<char>, Seq<char>)>,
    sink: SinkId,
)
    requires
        relay.wf(),
    ensures
        handler.state is HandshakeComplete ==> handler.after_activate(relay).0.attached(
            handler.after_activate(relay).1,
        ),
        handler.state is Active && handler.attached(relay) ==> {
            &&& relay.next_sink < u64::MAX ==> handler.attached(relay.opened(peer_id))
            &&& handler.attached(relay.delivered(addressed).0)
            &&& relay.queues.contains_key(sink) ==> handler.attached(relay.dequeued(sink))
            &&& sink != handler.sink ==> handler.attached(relay.closed(sink))
        },
{
}

/// After `count` messages were taken from a queue, what waits is what waited
/// before without its first `count` messages.
pub proof fn lemma_drained(relay: RelayState, sink: SinkId, count: nat)
    requires
        relay.queues.contains_key(sink),
        count <= relay.queues[sink].pending.len(),
    ensures
        relay.drained(sink, count).queues.contains_key(sink),
        relay.drained(sink, count).queues[sink].pending == relay.queues[sink].pending.skip(
            count as int,
        ),
    decreases count,
{
    let pending = relay.queues[sink].pending;
    if count == 0 {
        assert(pending.skip(0) =~= pending);
    } else {
        lemma_drained(relay.dequeued(sink), sink, (count - 1) as nat);
        assert(pending.drop_first().skip(count - 1) =~= pending.skip(count as int));
    }
}

/// Two messages sent one after the other to the same registered peer are
/// delivered in that order: the first stands directly before the second on
/// the queue, and once what waited before is taken, the first comes out, then
/// the second.
pub proof fn law_send_order_is_delivery_order(
    relay: RelayState,
    destination: Seq<char>,
    first: Seq<char>,
    second: Seq<char>,
)
    requires
        relay.wf(),
        relay.registry.contains_key(destination),
    ensures
        ({
            let sink = relay.registry[destination];
            let waiting = relay.queues[sink].pending;
            let once = relay.delivered(Some((destination, first))).0;
            let twice = once.delivered(Some((destination, second))).0;
            &&& twice.queues[sink].pending == waiting.push(first).push(second)
            &&& twice.drained(sink, waiting.len()).queues[sink].pending[0] == first
            &&& twice.drained(sink, waiting.len() + 1).queues[sink].pending[0] == second
            &&& twice.drained(sink, waiting.len() + 2).queues[sink].pending.len() == 0
        }),
{
    let sink = relay.registry[destination];
    let waiting = relay.queues[sink].pending;
    let once = relay.delivered(Some((destination, first))).0;
    let twice = once.delivered(Some((destination, second))).0;
    assert(once.registry.contains_key(destination));
    lemma_drained(twice, sink, waiting.len());
    lemma_drained(twice, sink, waiting.len() + 1);
    lemma_drained(twice, sink, waiting.len() + 2);
}

/// A message to an identifier that is not registered is dropped: the outcome
/// says so, no queue receives anything and the relay is as it was.
pub proof fn law_unknown_addressee_changes_nothing(
    relay: RelayState,
    destination: Seq<char>,
    message: Seq<char>,
)
    requires
        !relay.registry.contains_key(destination),
    ensures
        relay.delivered(Some((destination, message))) == (
            relay,
            RouteOutcome::DestinationNotFound,
        ),
{
}

/// A message that is not accepted is dropped as malformed, whoever sent it:
/// no queue receives anything and the relay is as it was.
pub proof fn law_malformed_message_changes_nothing(
    relay: RelayState,
    sender: Seq<char>,
    raw: Seq<char>,
)
    requires
        accepted(raw) is None,
    ensures
        relay.delivered(RelayState::addressed(sender, raw)) == (relay, RouteOutcome::Malformed),
{
}

} // verus!
