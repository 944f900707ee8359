//! Structured messages. Parsing, editing and printing are done by the `json`
//! crate; this module states what the relay relies on. Nothing here is
//! proved: each contract says what the crate's source shows.

use crate::text::chars_of;
use json::JsonValue;
use vstd::prelude::*;

verus! {

/// `json::JsonValue`, a JSON value of any kind. Its inside is not visible
/// here; the names below say what the relay needs to know of one.
#[verifier::external_type_specification]
#[verifier::external_body]
pub struct ExJsonValue(json::JsonValue);

/// The document that `json::parse` reads from a text, `None` where it reports an error.
pub uninterp spec fn json_parse(text: Seq<char>) -> Option<JsonValue>;

/// The members of an object, by key; a value that is no object has none.
pub uninterp spec fn json_members(doc: JsonValue) -> Map<Seq<char>, JsonValue>;

/// The text that a value prints as through `Display`; for a string that is
/// its bare content.
pub uninterp spec fn json_display(value: JsonValue) -> Seq<char>;

/// The string value that `JsonValue::from` makes of a text.
pub uninterp spec fn json_string(content: Seq<char>) -> JsonValue;

/// The document that `JsonValue::insert` leaves when it puts `value` under
/// `key` into the object `doc`.
pub uninterp spec fn json_with_member(
    doc: JsonValue,
    key: Seq<char>,
    value: JsonValue,
) -> JsonValue;

/// The compact text that `json::stringify` prints for a document.
pub uninterp spec fn json_text(doc: JsonValue) -> Seq<char>;

/// Longest run of decimal digits in a text that is handed to the parser. The
/// parser counts the digits of a fraction in sixteen bits; up to this length
/// the count fits.
pub const MAX_DIGIT_RUN: usize = 32767;

/// Whether a character is a decimal digit.
pub open spec fn is_digit(c: char) -> bool {
    '0' <= c <= '9'
}

/// How many digits stand directly before position `end` of a text, without a gap.
pub open spec fn digits_before(text: Seq<char>, end: int) -> nat
    decreases end,
{
    if end <= 0 || end > text.len() || !is_digit(text[end - 1]) {
        0
    } else {
        1 + digits_before(text, end - 1)
    }
}

/// No run of digits in the text is longer than `MAX_DIGIT_RUN`.
pub open spec fn digit_runs_fit(text: Seq<char>) -> bool {
    forall|end: int| 0 <= end <= text.len() ==> #[trigger] digits_before(text, end) <= MAX_DIGIT_RUN
}

/// Tells whether every run of digits in the text is within `MAX_DIGIT_RUN`.
pub fn check_digit_runs(text: &str) -> (fit: bool)
    ensures
        fit == digit_runs_fit(text@),
{
    let chars = chars_of(text);
    let mut run: usize = 0;
    let mut at: usize = 0;
    while at < chars.len()
        invariant
            at <= chars.len(),
            chars@ == text@,
            run == digits_before(chars@, at as int),
            run <= MAX_DIGIT_RUN,
            forall|end: int|
                0 <= end <= at ==> #[trigger] digits_before(chars@, end) <= MAX_DIGIT_RUN,
        decreases chars.len() - at,
    {
        let c = chars[at];
        if '0' <= c && c <= '9' {
            if run == MAX_DIGIT_RUN {
                assert(digits_before(chars@, at + 1) == MAX_DIGIT_RUN + 1);
                return false;
            }
            run = run + 1;
        } else {
            run = 0;
        }
        at = at + 1;
    }
    true
}

/// `json::parse`, with its error dropped: the document read from the text,
/// which depends on the text alone.
#[verifier::external_body]
pub(crate) fn parse(text: &str) -> (doc: Option<JsonValue>)
    requires
        digit_runs_fit(text@),
    ensures
        doc == json_parse(text@),
{
    json::parse(text).ok()
}

/// `JsonValue::has_key`: whether the value is an object with a member under `key`.
#[verifier::external_body]
pub(crate) fn has_member(doc: &JsonValue, key: &str) -> (found: bool)
    ensures
        found == json_members(*doc).contains_key(key@),
{
    doc.has_key(key)
}

/// Indexing a `JsonValue` by a key: the member under `key` where the object holds one.
#[verifier::external_body]
pub(crate) fn member<'a>(doc: &'a JsonValue, key: &str) -> (value: &'a JsonValue)
    ensures
        json_members(*doc).contains_key(key@) ==> *value == json_members(*doc)[key@],
{
    &doc[key]
}

/// `to_string` on a `JsonValue`: the text that its `Display` prints.
#[verifier::external_body]
pub(crate) fn display(value: &JsonValue) -> (text: String)
    ensures
        text@ == json_display(*value),
{
    value.to_string()
}

/// `JsonValue::from` on a text: the string value that holds it, which prints
/// through `Display` as that text.
#[verifier::external_body]
pub(crate) fn string_value(content: &str) -> (value: JsonValue)
    ensures
        value == json_string(content@),
        json_display(value) == content@,
{
    JsonValue::from(content)
}

/// `JsonValue::insert`. It succeeds on every object, so on every value that
/// holds a member; then the member under `key` is `value`, new or replaced,
/// and the other members are as before. Any other value is refused and left
/// as it was.
#[verifier::external_body]
pub(crate) fn set_member(doc: &mut JsonValue, key: &str, value: JsonValue) -> (done: bool)
    ensures
        json_members(*old(doc)).contains_key(key@) ==> done,
        done ==> *final(doc) == json_with_member(*old(doc), key@, value),
        done ==> json_members(*final(doc)) == json_members(*old(doc)).insert(key@, value),
        !done ==> *final(doc) == *old(doc),
{
    doc.insert(key, value).is_ok()
}

/// `json::stringify`: the compact text of a document.
#[verifier::external_body]
pub(crate) fn print(doc: JsonValue) -> (text: String)
    ensures
        text@ == json_text(doc),
{
    json::stringify(doc)
}

} // verus!
