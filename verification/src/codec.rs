//! Wire codec: the JSON envelope and its payload shapes.
//!
//! An inbound frame is permissive at the envelope layer (any JSON object with
//! a string `path` and a `content` member) and strict at the payload layer: a
//! chat message is exactly the string fields `nick` and `message`, a join
//! request is exactly the string field `join_nick`, anything else is invalid.
//! Parsing and serializing are done by `serde_json` behind trusted wrappers;
//! the shape dispatch itself is verified.

use vstd::prelude::*;

use crate::message::ChatMessage;

verus! {

/// The decoded payload of an inbound envelope: the `content` member as a list
/// of string fields when it is a JSON object whose members are all strings,
/// and `Other` for every other JSON value.
pub enum Payload {
    Fields(Vec<(String, String)>),
    Other,
}

/// A decoded inbound envelope: the `path` tag and the payload.
pub struct Envelope {
    pub path: String,
    pub payload: Payload,
}

/// The view of a field list: each (key, value) pair as character sequences.
pub open spec fn fields_view(fs: Seq<(String, String)>) -> Seq<(Seq<char>, Seq<char>)> {
    fs.map_values(|p: (String, String)| (p.0@, p.1@))
}

impl View for Payload {
    type V = Option<Seq<(Seq<char>, Seq<char>)>>;

    open spec fn view(&self) -> Option<Seq<(Seq<char>, Seq<char>)>> {
        match self {
            Payload::Fields(fs) => Some(fields_view(fs@)),
            Payload::Other => None,
        }
    }
}

impl View for Envelope {
    type V = (Seq<char>, Option<Seq<(Seq<char>, Seq<char>)>>);

    open spec fn view(&self) -> (Seq<char>, Option<Seq<(Seq<char>, Seq<char>)>>) {
        (self.path@, self.payload@)
    }
}

/// What parsing a wire text yields: `None` when the text is not an envelope,
/// otherwise the path and, for an all-string-object `content`, its fields.
/// The result depends on the text alone.
pub uninterp spec fn envelope_model_of(s: Seq<char>) -> Option<
    (Seq<char>, Option<Seq<(Seq<char>, Seq<char>)>>),
>;

/// The wire text of an envelope whose content is a chat message object with
/// the string fields `nick` and `message`. The result depends on the three
/// texts alone.
pub uninterp spec fn chat_envelope_text(
    path: Seq<char>,
    nick: Seq<char>,
    message: Seq<char>,
) -> Seq<char>;

/// The wire text of an envelope whose content is a single string. The result
/// depends on the two texts alone.
pub uninterp spec fn text_envelope_text(path: Seq<char>, content: Seq<char>) -> Seq<char>;

/// Relies on `serde_json::from_str` (text to a JSON value), `Value::get` and
/// `Value::as_str` (member access), and `serde_json::from_value` read into a
/// map of `String` to `String`, which succeeds exactly on a JSON object whose
/// members are all strings. The result is a function of the text alone.
#[verifier::external_body]
pub fn parse_envelope(s: &str) -> (r: Option<Envelope>)
    ensures
        match r {
            Some(e) => envelope_model_of(s@) == Some(e@),
            None => envelope_model_of(s@) is None,
        },
{
    let v: serde_json::Value = serde_json::from_str(s).ok()?;
    let path = v.get("path")?.as_str()?.to_string();
    let content = v.get("content")?.clone();
    let payload = match serde_json::from_value::<std::collections::BTreeMap<String, String>>(
        content,
    ) {
        Ok(m) => Payload::Fields(m.into_iter().collect()),
        Err(_) => Payload::Other,
    };
    Some(Envelope { path, payload })
}

/// Relies on `serde_json::to_string` over a `serde_json::Map` built from the
/// given path and message fields; serializing string members cannot fail.
#[verifier::external_body]
pub fn encode_chat_envelope(path: &str, m: &ChatMessage) -> (r: String)
    ensures
        r@ == chat_envelope_text(path@, m.nick@, m.message@),
{
    let mut content = serde_json::Map::new();
    content.insert("nick".to_string(), serde_json::Value::String(m.nick.clone()));
    content.insert("message".to_string(), serde_json::Value::String(m.message.clone()));
    let mut env = serde_json::Map::new();
    env.insert("path".to_string(), serde_json::Value::String(path.to_string()));
    env.insert("content".to_string(), serde_json::Value::Object(content));
    serde_json::to_string(&serde_json::Value::Object(env)).unwrap_or(String::new())
}

/// Relies on `serde_json::to_string` over a `serde_json::Map` whose `content`
/// member is one string; serializing string members cannot fail.
#[verifier::external_body]
pub fn encode_text_envelope(path: &str, content: &str) -> (r: String)
    ensures
        r@ == text_envelope_text(path@, content@),
{
    let mut env = serde_json::Map::new();
    env.insert("path".to_string(), serde_json::Value::String(path.to_string()));
    env.insert("content".to_string(), serde_json::Value::String(content.to_string()));
    serde_json::to_string(&serde_json::Value::Object(env)).unwrap_or(String::new())
}

/// Relies on `str`'s `PartialEq`: equality of the character contents.
#[verifier::external_body]
pub(crate) fn str_eq(a: &str, b: &str) -> (r: bool)
    ensures
        r == (a@ == b@),
{
    a == b
}

/// A field list has the chat-message shape: exactly the keys `nick` and
/// `message`, in either order.
pub open spec fn chat_shape(f: Seq<(Seq<char>, Seq<char>)>) -> bool {
    &&& f.len() == 2
    &&& {
        ||| (f[0].0 == "nick"@ && f[1].0 == "message"@)
        ||| (f[0].0 == "message"@ && f[1].0 == "nick"@)
    }
}

/// The `nick` value of a chat-shaped field list.
pub open spec fn chat_nick(f: Seq<(Seq<char>, Seq<char>)>) -> Seq<char> {
    if f[0].0 == "nick"@ {
        f[0].1
    } else {
        f[1].1
    }
}

/// The `message` value of a chat-shaped field list.
pub open spec fn chat_text(f: Seq<(Seq<char>, Seq<char>)>) -> Seq<char> {
    if f[0].0 == "nick"@ {
        f[1].1
    } else {
        f[0].1
    }
}

/// A field list has the join-request shape: exactly the key `join_nick`.
pub open spec fn join_shape(f: Seq<(Seq<char>, Seq<char>)>) -> bool {
    f.len() == 1 && f[0].0 == "join_nick"@
}

/// The classification of one inbound frame, at the specification level.
pub enum InboundModel {
    Chat(Seq<char>, Seq<char>),
    Join(Seq<char>),
    Invalid,
}

/// How one inbound wire text is dispatched: a chat message, a join request,
/// or invalid. The payload shape alone decides; the envelope's `path` is not
/// consulted.
pub open spec fn inbound_of(s: Seq<char>) -> InboundModel {
    match envelope_model_of(s) {
        Some(env) => match env.1 {
            Some(f) => if chat_shape(f) {
                InboundModel::Chat(chat_nick(f), chat_text(f))
            } else if join_shape(f) {
                InboundModel::Join(f[0].1)
            } else {
                InboundModel::Invalid
            },
            None => InboundModel::Invalid,
        },
        None => InboundModel::Invalid,
    }
}

/// The classification of one inbound frame, as executable data.
pub enum Inbound {
    Chat(ChatMessage),
    Join(String),
    Invalid,
}

impl View for Inbound {
    type V = InboundModel;

    open spec fn view(&self) -> InboundModel {
        match self {
            Inbound::Chat(m) => InboundModel::Chat(m.nick@, m.message@),
            Inbound::Join(n) => InboundModel::Join(n@),
            Inbound::Invalid => InboundModel::Invalid,
        }
    }
}

/// Dispatch a decoded field list by its shape.
fn classify_fields(fields: Vec<(String, String)>) -> (r: Inbound)
    ensures
        r@ == (if chat_shape(fields_view(fields@)) {
            InboundModel::Chat(chat_nick(fields_view(fields@)), chat_text(fields_view(fields@)))
        } else if join_shape(fields_view(fields@)) {
            InboundModel::Join(fields_view(fields@)[0].1)
        } else {
            InboundModel::Invalid
        }),
{
    if fields.len() == 2 {
        if str_eq(fields[0].0.as_str(), "nick") && str_eq(fields[1].0.as_str(), "message") {
            let nick = fields[0].1.clone();
            let message = fields[1].1.clone();
            Inbound::Chat(ChatMessage::new(nick, message))
        } else if str_eq(fields[0].0.as_str(), "message") && str_eq(fields[1].0.as_str(), "nick") {
            let nick = fields[1].1.clone();
            let message = fields[0].1.clone();
            Inbound::Chat(ChatMessage::new(nick, message))
        } else {
            Inbound::Invalid
        }
    } else if fields.len() == 1 {
        if str_eq(fields[0].0.as_str(), "join_nick") {
            Inbound::Join(fields[0].1.clone())
        } else {
            Inbound::Invalid
        }
    } else {
        Inbound::Invalid
    }
}

/// Decode and dispatch one inbound wire text.
pub fn classify(raw: &str) -> (r: Inbound)
    ensures
        r@ == inbound_of(raw@),
{
    match parse_envelope(raw) {
        None => Inbound::Invalid,
        Some(env) => match env.payload {
            Payload::Other => Inbound::Invalid,
            Payload::Fields(fields) => classify_fields(fields),
        },
    }
}

} // verus!
