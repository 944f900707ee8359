use signal_relay::document::check_digit_runs;
use signal_relay::handler::{ConnectionHandler, ConnectionState, Inbound, Pump};
use signal_relay::peer::{extract_peer_id, HandshakeError};
use signal_relay::queue::OutboundQueue;
use signal_relay::registry::Registry;
use signal_relay::relay::{Outbound, Relay};
use signal_relay::router::{readdress, Envelope, RouteOutcome};

fn connect(relay: &mut Relay, path: &str) -> ConnectionHandler {
    let mut handler = ConnectionHandler::new();
    assert_eq!(handler.state(), ConnectionState::Connecting);
    assert_eq!(handler.handshake(path), Ok(()));
    assert_eq!(handler.state(), ConnectionState::HandshakeComplete);
    assert!(handler.activate(relay));
    assert_eq!(handler.state(), ConnectionState::Active);
    handler
}

fn text(raw: &str) -> Inbound {
    Inbound::Text(raw.to_string())
}

#[test]
fn scenario_alice_and_bob() {
    let mut relay = Relay::new();
    let mut alice = connect(&mut relay, "/alice");
    let mut bob = connect(&mut relay, "/bob");

    let pump = alice.receive(&mut relay, text(r#"{"peer_id":"bob","sdp":"offer-1"}"#));
    assert_eq!(pump, Pump::Routed(RouteOutcome::Delivered(bob.sink().unwrap())));
    assert_eq!(
        bob.next_outbound(&mut relay),
        Outbound::Message(r#"{"peer_id":"alice","sdp":"offer-1"}"#.to_string())
    );
    assert_eq!(bob.next_outbound(&mut relay), Outbound::Idle);

    let pump = bob.receive(&mut relay, text(r#"{"peer_id":"alice","sdp":"answer-1"}"#));
    assert_eq!(pump, Pump::Routed(RouteOutcome::Delivered(alice.sink().unwrap())));
    assert_eq!(
        alice.next_outbound(&mut relay),
        Outbound::Message(r#"{"peer_id":"bob","sdp":"answer-1"}"#.to_string())
    );

    assert_eq!(bob.receive(&mut relay, Inbound::EndOfStream), Pump::Stop);
    assert_eq!(bob.state(), ConnectionState::Closed);
    assert_eq!(relay.lookup("bob"), None);

    let pump = alice.receive(&mut relay, text(r#"{"peer_id":"bob","sdp":"candidate-1"}"#));
    assert_eq!(pump, Pump::Routed(RouteOutcome::DestinationNotFound));
    assert_eq!(alice.next_outbound(&mut relay), Outbound::Idle);
    assert_eq!(alice.state(), ConnectionState::Active);
    assert_eq!(relay.lookup("alice"), alice.sink());
}

#[test]
fn forwarded_message_keeps_every_other_field() {
    let mut relay = Relay::new();
    let _a = connect(&mut relay, "/a");
    let mut b = connect(&mut relay, "/b");
    let raw = r#"{"type":"offer","peer_id":"b","sdp":{"v":0,"lines":["x","y"]},"n":1.5,"ok":true,"none":null}"#;
    assert_eq!(relay.route("a", raw), RouteOutcome::Delivered(b.sink().unwrap()));
    let delivered = match b.next_outbound(&mut relay) {
        Outbound::Message(m) => m,
        other => panic!("nothing delivered: {:?}", other),
    };
    let sent = json::parse(raw).unwrap();
    let got = json::parse(&delivered).unwrap();
    assert_eq!(got.len(), sent.len());
    for (key, value) in sent.entries() {
        if key == "peer_id" {
            assert_eq!(got[key], "a");
        } else {
            assert_eq!(&got[key], value);
        }
    }
    assert_eq!(
        delivered,
        r#"{"type":"offer","peer_id":"a","sdp":{"v":0,"lines":["x","y"]},"n":1.5,"ok":true,"none":null}"#
    );
}

#[test]
fn send_order_is_delivery_order() {
    let mut relay = Relay::new();
    let mut a = connect(&mut relay, "/a");
    let mut b = connect(&mut relay, "/b");
    assert_eq!(a.receive(&mut relay, text(r#"{"peer_id":"b","m":1}"#)), Pump::Routed(RouteOutcome::Delivered(1)));
    assert_eq!(a.receive(&mut relay, text(r#"{"peer_id":"b","m":2}"#)), Pump::Routed(RouteOutcome::Delivered(1)));
    assert_eq!(a.receive(&mut relay, text(r#"{"peer_id":"b","m":3}"#)), Pump::Routed(RouteOutcome::Delivered(1)));
    assert_eq!(relay.pending(b.sink().unwrap()), Some(3));
    assert_eq!(b.next_outbound(&mut relay), Outbound::Message(r#"{"peer_id":"a","m":1}"#.to_string()));
    assert_eq!(b.next_outbound(&mut relay), Outbound::Message(r#"{"peer_id":"a","m":2}"#.to_string()));
    assert_eq!(b.next_outbound(&mut relay), Outbound::Message(r#"{"peer_id":"a","m":3}"#.to_string()));
    assert_eq!(b.next_outbound(&mut relay), Outbound::Idle);
    assert_eq!(a.next_outbound(&mut relay), Outbound::Idle);
}

#[test]
fn unknown_addressee_is_dropped_and_sender_stays() {
    let mut relay = Relay::new();
    let mut a = connect(&mut relay, "/a");
    assert_eq!(
        a.receive(&mut relay, text(r#"{"peer_id":"nobody","sdp":"x"}"#)),
        Pump::Routed(RouteOutcome::DestinationNotFound)
    );
    assert_eq!(a.state(), ConnectionState::Active);
    assert_eq!(relay.pending(a.sink().unwrap()), Some(0));
    assert_eq!(relay.lookup("a"), a.sink());
    assert_eq!(relay.lookup("nobody"), None);
}

#[test]
fn malformed_messages_are_dropped_and_sender_stays() {
    let mut relay = Relay::new();
    let mut a = connect(&mut relay, "/a");
    let mut b = connect(&mut relay, "/b");
    for raw in [
        "",
        "not json",
        "{",
        r#"{"peer_id":"b""#,
        r#"{"sdp":"offer"}"#,
        "{}",
        r#"["b"]"#,
        r#""b""#,
        "42",
        "null",
        r#"{"peer_id":"b"} trailing"#,
    ] {
        assert_eq!(a.receive(&mut relay, text(raw)), Pump::Routed(RouteOutcome::Malformed), "{}", raw);
        assert_eq!(a.state(), ConnectionState::Active);
    }
    assert_eq!(b.next_outbound(&mut relay), Outbound::Idle);
    assert_eq!(relay.route("a", r#"{"peer_id":"b"}"#), RouteOutcome::Delivered(b.sink().unwrap()));
    assert_eq!(b.next_outbound(&mut relay), Outbound::Message(r#"{"peer_id":"a"}"#.to_string()));
}

#[test]
fn binary_and_control_frames_are_ignored() {
    let mut relay = Relay::new();
    let mut a = connect(&mut relay, "/a");
    let mut b = connect(&mut relay, "/b");
    assert_eq!(a.receive(&mut relay, Inbound::Binary(br#"{"peer_id":"b"}"#.to_vec())), Pump::Ignored);
    assert_eq!(a.receive(&mut relay, Inbound::Control), Pump::Ignored);
    assert_eq!(a.state(), ConnectionState::Active);
    assert_eq!(b.next_outbound(&mut relay), Outbound::Idle);
}

#[test]
fn transport_error_closes_and_deregisters() {
    let mut relay = Relay::new();
    let mut a = connect(&mut relay, "/a");
    let sink = a.sink().unwrap();
    assert_eq!(relay.lookup("a"), Some(sink));
    assert_eq!(a.receive(&mut relay, Inbound::Error), Pump::Stop);
    assert_eq!(a.state(), ConnectionState::Closed);
    assert_eq!(a.sink(), None);
    assert_eq!(relay.lookup("a"), None);
    assert_eq!(relay.pending(sink), None);
    assert_eq!(a.receive(&mut relay, text(r#"{"peer_id":"a"}"#)), Pump::Stop);
    assert_eq!(a.next_outbound(&mut relay), Outbound::Closed);
}

#[test]
fn close_is_exactly_once() {
    let mut relay = Relay::new();
    let mut first = connect(&mut relay, "/a");
    first.close(&mut relay);
    assert_eq!(relay.lookup("a"), None);
    let second = connect(&mut relay, "/a");
    first.close(&mut relay);
    assert_eq!(first.receive(&mut relay, Inbound::EndOfStream), Pump::Stop);
    assert_eq!(relay.lookup("a"), second.sink());
    assert_eq!(relay.route("b", r#"{"peer_id":"a"}"#), RouteOutcome::Delivered(second.sink().unwrap()));
}

#[test]
fn unrelated_connections_do_not_bring_a_closed_peer_back() {
    let mut relay = Relay::new();
    let mut a = connect(&mut relay, "/a");
    let mut b = connect(&mut relay, "/b");
    a.close(&mut relay);
    let mut c = connect(&mut relay, "/c");
    b.close(&mut relay);
    assert_eq!(relay.lookup("a"), None);
    assert_eq!(relay.lookup("b"), None);
    assert_eq!(relay.lookup("c"), c.sink());
    c.close(&mut relay);
    assert_eq!(relay.lookup("a"), None);
    assert_eq!(relay.lookup("c"), None);
}

#[test]
fn later_registration_replaces_the_earlier_one() {
    let mut relay = Relay::new();
    let mut old = connect(&mut relay, "/a");
    let mut new = connect(&mut relay, "/a");
    assert_ne!(old.sink(), new.sink());
    assert_eq!(relay.lookup("a"), new.sink());
    assert_eq!(relay.route("b", r#"{"peer_id":"a","k":"v"}"#), RouteOutcome::Delivered(new.sink().unwrap()));
    assert_eq!(old.next_outbound(&mut relay), Outbound::Idle);
    assert_eq!(new.next_outbound(&mut relay), Outbound::Message(r#"{"peer_id":"b","k":"v"}"#.to_string()));
    old.close(&mut relay);
    assert_eq!(relay.lookup("a"), None);
    assert_eq!(relay.route("b", r#"{"peer_id":"a"}"#), RouteOutcome::DestinationNotFound);
    assert_eq!(new.state(), ConnectionState::Active);
    assert_eq!(new.next_outbound(&mut relay), Outbound::Idle);
}

#[test]
fn queue_closed_from_outside_closes_the_handler() {
    let mut relay = Relay::new();
    let mut a = connect(&mut relay, "/a");
    relay.close(a.sink().unwrap());
    assert_eq!(a.next_outbound(&mut relay), Outbound::Closed);
    assert_eq!(a.state(), ConnectionState::Closed);
}

#[test]
fn handshake_takes_the_first_segment() {
    assert_eq!(extract_peer_id("/alice"), Ok("alice".to_string()));
    assert_eq!(extract_peer_id("/alice/extra/parts"), Ok("alice".to_string()));
    assert_eq!(extract_peer_id("/alice/"), Ok("alice".to_string()));
    assert_eq!(extract_peer_id("/p\u{e9}er \u{1f600}/x"), Ok("p\u{e9}er \u{1f600}".to_string()));
    assert_eq!(extract_peer_id("ws/bob"), Ok("bob".to_string()));
    assert_eq!(extract_peer_id("/"), Err(HandshakeError::MissingIdentifier));
    assert_eq!(extract_peer_id("//alice"), Err(HandshakeError::MissingIdentifier));
    assert_eq!(extract_peer_id(""), Err(HandshakeError::MalformedRequest));
    assert_eq!(extract_peer_id("alice"), Err(HandshakeError::MalformedRequest));
}

#[test]
fn refused_handshake_never_registers() {
    let mut relay = Relay::new();
    let mut handler = ConnectionHandler::new();
    assert_eq!(handler.handshake("/"), Err(HandshakeError::MissingIdentifier));
    assert_eq!(handler.state(), ConnectionState::Closed);
    assert!(!handler.activate(&mut relay));
    assert_eq!(handler.state(), ConnectionState::Closed);
    assert_eq!(relay.lookup(""), None);
    assert_eq!(handler.receive(&mut relay, text(r#"{"peer_id":"x"}"#)), Pump::Stop);

    let mut handler = ConnectionHandler::new();
    assert!(!handler.activate(&mut relay));
    assert_eq!(handler.state(), ConnectionState::Connecting);
    assert_eq!(handler.handshake("no-slash"), Err(HandshakeError::MalformedRequest));
    assert_eq!(handler.state(), ConnectionState::Closed);
}

#[test]
fn second_handshake_is_refused_and_changes_nothing() {
    let mut relay = Relay::new();
    let mut handler = connect(&mut relay, "/a");
    assert_eq!(handler.handshake("/b"), Err(HandshakeError::MalformedRequest));
    assert_eq!(handler.state(), ConnectionState::Active);
    assert_eq!(handler.peer_id(), "a");
    assert!(handler.activate(&mut relay));
    assert_eq!(relay.lookup("a"), handler.sink());
}

#[test]
fn registry_register_lookup_remove() {
    let mut registry = Registry::new();
    assert_eq!(registry.lookup("a"), None);
    registry.register("a", 1);
    registry.register("b", 2);
    assert_eq!(registry.lookup("a"), Some(1));
    assert_eq!(registry.lookup("b"), Some(2));
    registry.register("a", 3);
    assert_eq!(registry.lookup("a"), Some(3));
    registry.remove("a");
    assert_eq!(registry.lookup("a"), None);
    assert_eq!(registry.lookup("b"), Some(2));
    registry.remove("a");
    registry.remove("never");
    assert_eq!(registry.lookup("a"), None);
    assert_eq!(registry.lookup("b"), Some(2));
}

#[test]
fn queue_is_first_in_first_out() {
    let mut queue = OutboundQueue::new("a");
    assert_eq!(queue.owner(), "a");
    assert_eq!(queue.len(), 0);
    assert_eq!(queue.dequeue(), None);
    queue.enqueue("one".to_string());
    queue.enqueue("two".to_string());
    assert_eq!(queue.len(), 2);
    assert_eq!(queue.dequeue(), Some("one".to_string()));
    queue.enqueue("three".to_string());
    assert_eq!(queue.dequeue(), Some("two".to_string()));
    assert_eq!(queue.dequeue(), Some("three".to_string()));
    assert_eq!(queue.dequeue(), None);
}

#[test]
fn readdress_reads_addressee_and_names_sender() {
    assert_eq!(
        readdress("alice", r#" { "peer_id" : "bob" , "sdp" : "o\n\"1\"" } "#),
        Some(Envelope {
            destination: "bob".to_string(),
            message: r#"{"peer_id":"alice","sdp":"o\n\"1\""}"#.to_string(),
        })
    );
    assert_eq!(
        readdress("a\"b", r#"{"x":1,"peer_id":"bob"}"#),
        Some(Envelope {
            destination: "bob".to_string(),
            message: r#"{"x":1,"peer_id":"a\"b"}"#.to_string(),
        })
    );
    assert_eq!(readdress("alice", r#"{"x":1}"#), None);
    assert_eq!(readdress("alice", r#"[{"peer_id":"bob"}]"#), None);
    assert_eq!(readdress("alice", "{\"peer_id\":"), None);
}

#[test]
fn addressee_that_is_no_string_is_read_as_it_prints() {
    assert_eq!(
        readdress("a", r#"{"peer_id":7}"#),
        Some(Envelope { destination: "7".to_string(), message: r#"{"peer_id":"a"}"#.to_string() })
    );
    assert_eq!(
        readdress("a", r#"{"peer_id":null}"#),
        Some(Envelope { destination: "null".to_string(), message: r#"{"peer_id":"a"}"#.to_string() })
    );
    assert_eq!(
        readdress("a", r#"{"peer_id":["x"]}"#),
        Some(Envelope {
            destination: r#"["x"]"#.to_string(),
            message: r#"{"peer_id":"a"}"#.to_string()
        })
    );
}

#[test]
fn deliver_takes_what_was_read() {
    let mut relay = Relay::new();
    let mut b = connect(&mut relay, "/b");
    assert_eq!(relay.deliver(None), RouteOutcome::Malformed);
    assert_eq!(
        relay.deliver(Some(Envelope { destination: "c".to_string(), message: "m".to_string() })),
        RouteOutcome::DestinationNotFound
    );
    assert_eq!(relay.pending(b.sink().unwrap()), Some(0));
    assert_eq!(
        relay.deliver(Some(Envelope { destination: "b".to_string(), message: "m".to_string() })),
        RouteOutcome::Delivered(b.sink().unwrap())
    );
    assert_eq!(relay.pending(b.sink().unwrap()), Some(1));
    assert_eq!(b.next_outbound(&mut relay), Outbound::Message("m".to_string()));
}

#[test]
fn long_messages_pass_and_overlong_digit_runs_do_not() {
    let mut relay = Relay::new();
    let mut b = connect(&mut relay, "/b");
    let long = format!(r#"{{"peer_id":"b","pad":"{}"}}"#, "x1".repeat(100_000));
    assert_eq!(relay.route("a", &long), RouteOutcome::Delivered(0));
    match b.next_outbound(&mut relay) {
        Outbound::Message(m) => assert_eq!(m, format!(r#"{{"peer_id":"a","pad":"{}"}}"#, "x1".repeat(100_000))),
        other => panic!("nothing delivered: {:?}", other),
    }
    let fits = format!(r#"{{"peer_id":"b","n":0.{}1}}"#, "0".repeat(32766));
    assert_eq!(relay.route("a", &fits), RouteOutcome::Delivered(0));
    assert_eq!(relay.pending(0), Some(1));
    let overlong = format!(r#"{{"peer_id":"b","n":0.{}1}}"#, "0".repeat(32767));
    assert_eq!(relay.route("a", &overlong), RouteOutcome::Malformed);
    let overlong_text = format!(r#"{{"peer_id":"b","pad":"{}"}}"#, "7".repeat(32768));
    assert_eq!(relay.route("a", &overlong_text), RouteOutcome::Malformed);
    assert_eq!(relay.pending(0), Some(1));
}

#[test]
fn digit_runs_are_measured() {
    assert!(check_digit_runs(""));
    assert!(check_digit_runs("no digits"));
    assert!(check_digit_runs(&"9".repeat(32767)));
    assert!(!check_digit_runs(&"9".repeat(32768)));
    assert!(check_digit_runs(&format!("{}x{}", "1".repeat(32767), "2".repeat(32767))));
    assert!(!check_digit_runs(&format!("x{}y", "0".repeat(40000))));
}

#[test]
fn sinks_are_handed_out_in_order() {
    let mut relay = Relay::new();
    assert_eq!(relay.open("a"), Some(0));
    assert_eq!(relay.open("b"), Some(1));
    assert_eq!(relay.open("a"), Some(2));
    assert_eq!(relay.lookup("a"), Some(2));
    assert_eq!(relay.pending(0), Some(0));
    relay.close(0);
    assert_eq!(relay.pending(0), None);
    assert_eq!(relay.lookup("a"), None);
    assert_eq!(relay.pending(2), Some(0));
    assert_eq!(relay.next_outbound(0), Outbound::Closed);
    assert_eq!(relay.next_outbound(2), Outbound::Idle);
}
