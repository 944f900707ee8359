//! The message router: reads the addressee from a message and rewrites the
//! message so that it names its sender.

use crate::document::{
    check_digit_runs, digit_runs_fit, display, has_member, json_display, json_members, json_parse,
    json_string, json_text, json_with_member, member, parse, print, set_member, string_value,
};
use crate::registry::SinkId;
use json::JsonValue;
use vstd::prelude::*;

verus! {

/// The field that names the addressee on the way in and the sender on the way out.
pub open spec fn peer_id_key() -> Seq<char> {
    "peer_id"@
}

/// What became of one inbound message.
#[derive(Clone, Copy, Debug, PartialEq, Eq, Structural)]
pub enum RouteOutcome {
    /// The message could not be read, or names no addressee; it was dropped.
    Malformed,
    /// Nobody is registered under the addressee; the message was dropped.
    DestinationNotFound,
    /// The rewritten message was put on the addressee's queue, the one of this sink.
    Delivered(SinkId),
}

/// A message on its way: the addressee and the text to hand over.
#[derive(Clone, Debug, PartialEq, Eq)]
pub struct Envelope {
    pub destination: String,
    pub message: String,
}

/// The document of a message that the router accepts: without an overlong
/// run of digits, readable, and an object with a member under `peer_id`.
pub open spec fn accepted(raw: Seq<char>) -> Option<JsonValue> {
    if !digit_runs_fit(raw) {
        None
    } else {
        match json_parse(raw) {
            Some(doc) => if json_members(doc).contains_key(peer_id_key()) {
                Some(doc)
            } else {
                None
            },
            None => None,
        }
    }
}

/// The addressee of an accepted document: its `peer_id` member as it prints.
pub open spec fn destination_of(doc: JsonValue) -> Seq<char> {
    json_display(json_members(doc)[peer_id_key()])
}

/// The document that is forwarded: the one received, with the string
/// `sender` under `peer_id`.
pub open spec fn forwarded(doc: JsonValue, sender: Seq<char>) -> JsonValue {
    json_with_member(doc, peer_id_key(), json_string(sender))
}

/// Reads one message and re-addresses it. A message with an overlong run of
/// digits, one that does not parse, or one without a `peer_id` member gives
/// `None`. Any other gives the addressee and the text of the document in
/// which `peer_id` names the sender; every other member of that document is
/// the member received, and read as an addressee its `peer_id` is the sender.
pub fn readdress(sender_id: &str, raw_message: &str) -> (envelope: Option<Envelope>)
    ensures
        match accepted(raw_message@) {
            None => envelope is None,
            Some(doc) => {
                &&& envelope matches Some(e)
                &&& e.destination@ == destination_of(doc)
                &&& e.message@ == json_text(forwarded(doc, sender_id@))
                &&& json_members(forwarded(doc, sender_id@)) == json_members(doc).insert(
                    peer_id_key(),
                    json_string(sender_id@),
                )
                &&& destination_of(forwarded(doc, sender_id@)) == sender_id@
            },
        },
{
    if !check_digit_runs(raw_message) {
        return None;
    }
    let mut doc = match parse(raw_message) {
        Some(doc) => doc,
        None => {
            return None;
        },
    };
    if !has_member(&doc, "peer_id") {
        return None;
    }
    let destination = display(member(&doc, "peer_id"));
    let done = set_member(&mut doc, "peer_id", string_value(sender_id));
    if !done {
        return None;
    }
    let message = print(doc);
    Some(Envelope { destination, message })
}

} // verus!
