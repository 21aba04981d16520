//! The per-connection protocol state machine.
//!
//! A session starts unnamed, may claim exactly one nickname for its whole
//! lifetime by a successful join, and ends when its transport closes. Each
//! inbound frame is answered by exactly one reply: a broadcast to every
//! connected client or a frame to the sender alone. The surrounding program
//! performs the sends; everything decided here is verified.

use vstd::prelude::*;
use vstd::string::StringExecFns;

use crate::codec::chat_envelope_text;
use crate::codec::text_envelope_text;
use crate::codec::inbound_of;
use crate::codec::Inbound;
use crate::codec::InboundModel;
use crate::message::ChatMessage;
use crate::room::spec_claim;
use crate::room::spec_release;
use crate::room::RoomState;

verus! {

/// The system announcement appended when `n` joins.
pub open spec fn joined_text(n: Seq<char>) -> Seq<char> {
    n + " has joined the chat."@
}

/// The system announcement appended when `n` leaves.
pub open spec fn left_text(n: Seq<char>) -> Seq<char> {
    n + " has left the chat."@
}

/// The diagnostic sent back for a frame that matches no payload shape; it
/// carries the raw received text.
pub open spec fn parse_error_text(raw: Seq<char>) -> Seq<char> {
    "Unable to parse message "@ + raw
}

/// The error sent back when the requested nickname is already active.
pub open spec fn name_taken_text() -> Seq<char> {
    "A user by that name already exists."@
}

/// The error sent back when a joined session sends a further join request: a
/// session claims at most one name for its whole lifetime.
pub open spec fn already_joined_text() -> Seq<char> {
    "This session has already joined."@
}

/// What one handled event asks the transport to do: send a frame to every
/// connected client, or to the sender alone.
pub enum Reply {
    Broadcast(String),
    ToSender(String),
}

/// The specification-level image of a [`Reply`].
pub enum ReplyModel {
    Broadcast(Seq<char>),
    ToSender(Seq<char>),
}

impl View for Reply {
    type V = ReplyModel;

    open spec fn view(&self) -> ReplyModel {
        match self {
            Reply::Broadcast(t) => ReplyModel::Broadcast(t@),
            Reply::ToSender(t) => ReplyModel::ToSender(t@),
        }
    }
}

/// One connection's protocol state: its claimed nickname, if any. The slot is
/// filled at most once, on the session's one successful join.
pub struct Session {
    nick: Option<String>,
}

impl Session {
    /// The claimed nickname.
    pub closed spec fn nick_view(&self) -> Option<Seq<char>> {
        match self.nick {
            Some(n) => Some(n@),
            None => None,
        }
    }

    /// Whether the session has joined.
    pub open spec fn is_joined(&self) -> bool {
        self.nick_view() is Some
    }

    /// A fresh, unnamed session, right after its transport opened.
    pub fn new() -> (s: Session)
        ensures
            !s.is_joined(),
    {
        Session { nick: None }
    }

    /// The claimed nickname, as executable data.
    pub fn nickname(&self) -> (r: Option<&String>)
        ensures
            match r {
                Some(n) => self.nick_view() == Some(n@),
                None => self.nick_view() is None,
            },
    {
        self.nick.as_ref()
    }
}

/// Handle one inbound frame: driven by the payload's shape alone.
///
/// A chat-shaped payload is appended to the history exactly as sent (no prior
/// join is required, and the `nick` field is taken from the payload) and the
/// received frame itself is broadcast verbatim. A join-shaped payload claims
/// the nickname atomically: on success the join announcement is appended and
/// broadcast as a `/joined` envelope; when the name is active, or this
/// session has already joined, the sender alone gets an `/error` envelope and
/// nothing changes. Any other payload gets an `/error` envelope carrying the
/// raw text, and nothing changes.
pub fn handle_message(session: &mut Session, room: &mut RoomState, raw: &str) -> (r: Reply)
    requires
        old(room).wf(),
    ensures
        final(room).wf(),
        old(room).history_view().is_prefix_of(final(room).history_view()),
        match inbound_of(raw@) {
            InboundModel::Chat(nick, text) => {
                &&& *final(session) == *old(session)
                &&& final(room).history_view() == old(room).history_view().push((nick, text))
                &&& final(room).users_set() == old(room).users_set()
                &&& r@ == ReplyModel::Broadcast(raw@)
            },
            InboundModel::Join(n) => if old(session).is_joined() {
                &&& *final(session) == *old(session)
                &&& *final(room) == *old(room)
                &&& r@ == ReplyModel::ToSender(
                    text_envelope_text("/error"@, already_joined_text()),
                )
            } else if !spec_claim(old(room).users_set(), n).0 {
                &&& *final(session) == *old(session)
                &&& final(room).history_view() == old(room).history_view()
                &&& final(room).users_set() == old(room).users_set()
                &&& r@ == ReplyModel::ToSender(text_envelope_text("/error"@, name_taken_text()))
            } else {
                &&& final(session).nick_view() == Some(n)
                &&& final(room).users_set() == spec_claim(old(room).users_set(), n).1
                &&& final(room).history_view() == old(room).history_view().push(
                    ("system"@, joined_text(n)),
                )
                &&& r@ == ReplyModel::Broadcast(
                    chat_envelope_text("/joined"@, "system"@, joined_text(n)),
                )
            },
            InboundModel::Invalid => {
                &&& *final(session) == *old(session)
                &&& *final(room) == *old(room)
                &&& r@ == ReplyModel::ToSender(
                    text_envelope_text("/error"@, parse_error_text(raw@)),
                )
            },
        },
{
    let ghost h0 = room.history_view();
    match crate::codec::classify(raw) {
        Inbound::Chat(m) => {
            let ghost mv = m@;
            let _pos = room.append_message(m);
            proof {
                crate::room::lemma_push_keeps_prefix(h0, mv);
            }
            Reply::Broadcast(raw.to_owned())
        },
        Inbound::Join(n) => {
            if session.nick.is_some() {
                Reply::ToSender(
                    crate::codec::encode_text_envelope("/error", "This session has already joined."),
                )
            } else if room.try_claim_nickname(n.as_str()) {
                let announce = String::from_str(n.as_str()).concat(" has joined the chat.");
                session.nick = Some(n);
                let msg = ChatMessage::new(String::from_str("system"), announce);
                let frame = crate::codec::encode_chat_envelope("/joined", &msg);
                let ghost mv = msg@;
                let _pos = room.append_message(msg);
                proof {
                    crate::room::lemma_push_keeps_prefix(h0, mv);
                }
                Reply::Broadcast(frame)
            } else {
                Reply::ToSender(
                    crate::codec::encode_text_envelope(
                        "/error",
                        "A user by that name already exists.",
                    ),
                )
            }
        },
        Inbound::Invalid => {
            let diag = String::from_str("Unable to parse message ").concat(raw);
            Reply::ToSender(crate::codec::encode_text_envelope("/error", diag.as_str()))
        },
    }
}

/// Handle the close of a session's transport. A session that had joined
/// releases its nickname (making it available again at once), appends the
/// leave announcement, and hands back the `/left` envelope to broadcast to
/// the remaining clients; a session that never joined leaves no trace.
pub fn handle_close(session: Session, room: &mut RoomState) -> (r: Option<String>)
    requires
        old(room).wf(),
    ensures
        final(room).wf(),
        old(room).history_view().is_prefix_of(final(room).history_view()),
        match session.nick_view() {
            Some(n) => {
                &&& final(room).users_set() == spec_release(old(room).users_set(), n)
                &&& final(room).history_view() == old(room).history_view().push(
                    ("system"@, left_text(n)),
                )
                &&& r matches Some(t) && t@ == chat_envelope_text("/left"@, "system"@, left_text(n))
            },
            None => {
                &&& *final(room) == *old(room)
                &&& r is None
            },
        },
{
    let ghost h0 = room.history_view();
    match session.nick {
        None => None,
        Some(nick) => {
            room.release_nickname(nick.as_str());
            let announce = String::from_str(nick.as_str()).concat(" has left the chat.");
            let msg = ChatMessage::new(String::from_str("system"), announce);
            let frame = crate::codec::encode_chat_envelope("/left", &msg);
            let ghost mv = msg@;
            let _pos = room.append_message(msg);
            proof {
                crate::room::lemma_push_keeps_prefix(h0, mv);
            }
            Some(frame)
        },
    }
}

} // verus!
