//! History persistence: the history log as a JSON array of message objects.
//!
//! The backing file is rewritten in full on every save cycle; on process
//! start its text is parsed back, and a text that does not parse yields an
//! empty history rather than a startup failure. Serialization is done by
//! `serde_json` behind trusted wrappers; the round trip is stated on their
//! contracts and proved for the functions here.

use vstd::prelude::*;

use crate::message::ChatMessage;
use crate::msgs_view;

verus! {

/// The persisted text of a history: a JSON array holding one `nick`/`message`
/// object per entry, in order. The result depends on the entries alone.
pub uninterp spec fn history_text_of(h: Seq<(Seq<char>, Seq<char>)>) -> Seq<char>;

/// What parsing a persisted text yields: the entries, in order, when the text
/// is such an array; `None` otherwise. The result depends on the text alone.
pub uninterp spec fn history_model_of(s: Seq<char>) -> Option<Seq<(Seq<char>, Seq<char>)>>;

/// Relies on `serde_json::to_string_pretty` over an array of two-string-field
/// objects, which cannot fail, and on `serde_json::from_str` reading that
/// array back unchanged (the serializer and deserializer of `serde_json` are
/// inverse on string data).
#[verifier::external_body]
pub fn encode_history(log: &Vec<ChatMessage>) -> (r: String)
    ensures
        r@ == history_text_of(msgs_view(log@)),
        history_model_of(r@) == Some(msgs_view(log@)),
{
    let mut items: Vec<serde_json::Value> = Vec::new();
    for m in log.iter() {
        let mut o = serde_json::Map::new();
        o.insert("nick".to_string(), serde_json::Value::String(m.nick.clone()));
        o.insert("message".to_string(), serde_json::Value::String(m.message.clone()));
        items.push(serde_json::Value::Object(o));
    }
    serde_json::to_string_pretty(&serde_json::Value::Array(items)).unwrap_or(String::new())
}

/// Relies on `serde_json::from_str` read into a list of maps of `String` to
/// `String`, which succeeds exactly on a JSON array of objects whose members
/// are all strings, and on `BTreeMap::remove` handing out the named members.
#[verifier::external_body]
pub fn decode_history(s: &str) -> (r: Option<Vec<ChatMessage>>)
    ensures
        match r {
            Some(v) => history_model_of(s@) == Some(msgs_view(v@)),
            None => history_model_of(s@) is None,
        },
{
    let entries: Vec<std::collections::BTreeMap<String, String>> = match serde_json::from_str(s) {
        Ok(v) => v,
        Err(_) => return None,
    };
    let mut out: Vec<ChatMessage> = Vec::new();
    for mut m in entries {
        let nick = m.remove("nick")?;
        let message = m.remove("message")?;
        out.push(ChatMessage { nick, message });
    }
    Some(out)
}

/// The history a process starts from, given the text found in the backing
/// store: the entries it holds, or an empty history when the text does not
/// parse (a corrupt or empty store is never a startup failure).
pub fn load_history(text: &str) -> (r: Vec<ChatMessage>)
    ensures
        match history_model_of(text@) {
            Some(h) => msgs_view(r@) == h,
            None => msgs_view(r@) == Seq::<(Seq<char>, Seq<char>)>::empty(),
        },
{
    match decode_history(text) {
        Some(v) => v,
        None => Vec::new(),
    }
}

/// Persistence round-trip: writing a history to its persisted text and
/// loading that text back yields the same sequence of messages.
pub fn persist_round_trip(log: &Vec<ChatMessage>) -> (r: Vec<ChatMessage>)
    ensures
        msgs_view(r@) == msgs_view(log@),
{
    let text = encode_history(log);
    load_history(text.as_str())
}

} // verus!
