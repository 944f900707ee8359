//! The connection handler: the state machine of one connection, from the
//! handshake to the moment either of its pumps ends.

use crate::peer::{extract_peer_id, peer_id_of, HandshakeError};
use crate::registry::SinkId;
use crate::relay::{Outbound, Relay, RelayState};
use crate::router::RouteOutcome;
use vstd::prelude::*;

verus! {

/// Where a connection stands.
#[derive(Clone, Copy, Debug, PartialEq, Eq, Structural)]
pub enum ConnectionState {
    /// The transport is up; the handshake has not been read.
    Connecting,
    /// The peer identifier is known; nothing is registered yet.
    HandshakeComplete,
    /// Registered, with both pumps running.
    Active,
    /// Over: refused, or deregistered after a pump ended.
    Closed,
}

/// What the transport's `receive` gave.
#[derive(Clone, Debug, PartialEq, Eq)]
pub enum Inbound {
    /// A text frame: a message to route.
    Text(String),
    /// A binary frame.
    Binary(Vec<u8>),
    /// A control frame.
    Control,
    /// The peer ended the stream.
    EndOfStream,
    /// The transport failed.
    Error,
}

/// What the inbound pump does next.
#[derive(Clone, Copy, Debug, PartialEq, Eq, Structural)]
pub enum Pump {
    /// A message was routed, with this outcome; the pump goes on.
    Routed(RouteOutcome),
    /// The frame was ignored; the pump goes on.
    Ignored,
    /// The connection is closed; the pump stops.
    Stop,
}

/// What a handler is: its state, and once known its peer identifier and sink.
pub struct HandlerState {
    pub state: ConnectionState,
    pub peer_id: Seq<char>,
    pub sink: SinkId,
}

impl HandlerState {
    /// The handler of a connection whose handshake is still to come.
    pub open spec fn initial() -> HandlerState {
        HandlerState { state: ConnectionState::Connecting, peer_id: Seq::empty(), sink: 0 }
    }

    /// The handler after the handshake asked for `path`: a connecting handler
    /// learns its peer identifier, or closes where the path names none. In
    /// any other state nothing changes.
    pub open spec fn after_handshake(self, path: Seq<char>) -> HandlerState {
        if self.state is Connecting {
            match peer_id_of(path) {
                Ok(id) => HandlerState { state: ConnectionState::HandshakeComplete, peer_id: id, ..self },
                Err(_) => HandlerState { state: ConnectionState::Closed, ..self },
            }
        } else {
            self
        }
    }

    /// Handler and relay after activation: after the handshake the handler
    /// opens its queue, registers and becomes active; where the relay has no
    /// sink left it closes. In any other state nothing changes.
    pub open spec fn after_activate(self, relay: RelayState) -> (HandlerState, RelayState) {
        if self.state is HandshakeComplete {
            if relay.next_sink < u64::MAX {
                (
                    HandlerState { state: ConnectionState::Active, sink: relay.next_sink, ..self },
                    relay.opened(self.peer_id),
                )
            } else {
                (HandlerState { state: ConnectionState::Closed, ..self }, relay)
            }
        } else {
            (self, relay)
        }
    }

    /// Handler and relay after the handler closed: an active handler removes
    /// its queue and the entry under its identifier; any handler ends closed.
    pub open spec fn after_close(self, relay: RelayState) -> (HandlerState, RelayState) {
        (
            HandlerState { state: ConnectionState::Closed, ..self },
            if self.state is Active {
                relay.closed(self.sink)
            } else {
                relay
            },
        )
    }
}

/// The handler of one connection.
pub struct ConnectionHandler {
    state: ConnectionState,
    peer_id: String,
    sink: SinkId,
}

impl View for ConnectionHandler {
    type V = HandlerState;

    closed spec fn view(&self) -> HandlerState {
        HandlerState { state: self.state, peer_id: self.peer_id@, sink: self.sink }
    }
}

impl ConnectionHandler {
    /// The handler of a connection that was just accepted.
    pub fn new() -> (handler: ConnectionHandler)
        ensures
            handler@ == HandlerState::initial(),
    {
        ConnectionHandler { state: ConnectionState::Connecting, peer_id: String::new(), sink: 0 }
    }

    /// Where the connection stands.
    pub fn state(&self) -> (state: ConnectionState)
        ensures
            state == self@.state,
    {
        self.state
    }

    /// The peer identifier; empty until the handshake gave one.
    pub fn peer_id(&self) -> (id: &str)
        ensures
            id@ == self@.peer_id,
    {
        self.peer_id.as_str()
    }

    /// The sink of the connection's queue, once it is active.
    pub fn sink(&self) -> (sink: Option<SinkId>)
        ensures
            sink == (if self@.state is Active {
                Some(self@.sink)
            } else {
                None
            }),
    {
        match self.state {
            ConnectionState::Active => Some(self.sink),
            _ => None,
        }
    }

    /// Reads the handshake: takes the peer identifier from the requested
    /// path. A path that names none refuses the connection, which closes
    /// without ever being registered. A handler that is not connecting
    /// answers `MalformedRequest` and stays as it is.
    pub fn handshake(&mut self, path: &str) -> (accepted: Result<(), HandshakeError>)
        ensures
            final(self)@ == old(self)@.after_handshake(path@),
            accepted == (if old(self)@.state is Connecting {
                match peer_id_of(path@) {
                    Ok(_) => Ok::<(), HandshakeError>(()),
                    Err(error) => Err(error),
                }
            } else {
                Err(HandshakeError::MalformedRequest)
            }),
    {
        match self.state {
            ConnectionState::Connecting => {},
            _ => {
                return Err(HandshakeError::MalformedRequest);
            },
        }
        match extract_peer_id(path) {
            Ok(id) => {
                self.peer_id = id;
                self.state = ConnectionState::HandshakeComplete;
                Ok(())
            },
            Err(error) => {
                self.state = ConnectionState::Closed;
                Err(error)
            },
        }
    }

    /// Makes the connection active: opens its outbound queue and registers it
    /// under the peer identifier. Says whether the handler is active afterwards.
    pub fn activate(&mut self, relay: &mut Relay) -> (active: bool)
        requires
            old(relay)@.wf(),
        ensures
            final(relay)@.wf(),
            (final(self)@, final(relay)@) == old(self)@.after_activate(old(relay)@),
            active == (final(self)@.state is Active),
    {
        match self.state {
            ConnectionState::HandshakeComplete => {},
            ConnectionState::Active => {
                return true;
            },
            _ => {
                return false;
            },
        }
        match relay.open(self.peer_id.as_str()) {
            Some(sink) => {
                self.sink = sink;
                self.state = ConnectionState::Active;
                true
            },
            None => {
                self.state = ConnectionState::Closed;
                false
            },
        }
    }

    /// One step of the inbound pump. On an active connection a text frame is
    /// routed, whatever the outcome the connection stays active; a binary or
    /// control frame is ignored; the end of the stream or a transport error
    /// closes the connection. A handler that is not active stops the pump and
    /// changes nothing.
    pub fn receive(&mut self, relay: &mut Relay, inbound: Inbound) -> (pump: Pump)
        requires
            old(relay)@.wf(),
        ensures
            final(relay)@.wf(),
            !(old(self)@.state is Active) ==> pump == Pump::Stop && final(self)@ == old(self)@
                && final(relay)@ == old(relay)@,
            old(self)@.state is Active ==> match inbound {
                Inbound::Text(raw) => {
                    &&& final(self)@ == old(self)@
                    &&& (final(relay)@, pump->Routed_0) == old(relay)@.delivered(
                        RelayState::addressed(old(self)@.peer_id, raw@),
                    )
                    &&& pump is Routed
                },
                Inbound::Binary(_) | Inbound::Control => {
                    &&& pump == Pump::Ignored
                    &&& final(self)@ == old(self)@
                    &&& final(relay)@ == old(relay)@
                },
                Inbound::EndOfStream | Inbound::Error => {
                    &&& pump == Pump::Stop
                    &&& (final(self)@, final(relay)@) == old(self)@.after_close(old(relay)@)
                },
            },
    {
        match self.state {
            ConnectionState::Active => {},
            _ => {
                return Pump::Stop;
            },
        }
        match inbound {
            Inbound::Text(raw) => Pump::Routed(relay.route(self.peer_id.as_str(), raw.as_str())),
            Inbound::Binary(_) => Pump::Ignored,
            Inbound::Control => Pump::Ignored,
            Inbound::EndOfStream => {
                self.close(relay);
                Pump::Stop
            },
            Inbound::Error => {
                self.close(relay);
                Pump::Stop
            },
        }
    }

    /// One step of the outbound pump: the next message to write to the
    /// transport. Where the queue is gone the connection closes. A handler
    /// that is not active finds its queue closed and changes nothing.
    pub fn next_outbound(&mut self, relay: &mut Relay) -> (next: Outbound)
        requires
            old(relay)@.wf(),
        ensures
            final(relay)@.wf(),
            final(self)@.peer_id == old(self)@.peer_id,
            final(self)@.sink == old(self)@.sink,
            !(old(self)@.state is Active) || !old(relay)@.queues.contains_key(old(self)@.sink) ==> {
                &&& next is Closed
                &&& final(relay)@ == old(relay)@
                &&& final(self)@.state == (if old(self)@.state is Active {
                    ConnectionState::Closed
                } else {
                    old(self)@.state
                })
            },
            old(self)@.state is Active && old(relay)@.queues.contains_key(old(self)@.sink) ==> {
                let pending = old(relay)@.queues[old(self)@.sink].pending;
                &&& final(self)@ == old(self)@
                &&& pending.len() == 0 ==> next is Idle && final(relay)@ == old(relay)@
                &&& pending.len() > 0 ==> (next matches Outbound::Message(m) && m@ == pending[0])
                    && final(relay)@ == old(relay)@.dequeued(old(self)@.sink)
            },
    {
        match self.state {
            ConnectionState::Active => {},
            _ => {
                return Outbound::Closed;
            },
        }
        let next = relay.next_outbound(self.sink);
        match next {
            Outbound::Closed => {
                self.state = ConnectionState::Closed;
            },
            _ => {},
        }
        next
    }

    /// Ends the connection, after either pump ended: an active handler removes
    /// its queue and the entry under its peer identifier. Closing again
    /// changes nothing.
    pub fn close(&mut self, relay: &mut Relay)
        requires
            old(relay)@.wf(),
        ensures
            final(relay)@.wf(),
            (final(self)@, final(relay)@) == old(self)@.after_close(old(relay)@),
    {
        match self.state {
            ConnectionState::Active => {
                relay.close(self.sink);
            },
            _ => {},
        }
        self.state = ConnectionState::Closed;
    }
}

} // verus!
