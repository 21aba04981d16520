//! Protocol engine for a single-room broadcast chat service.
//!
//! The engine is pure state-machine logic: it decodes inbound wire frames,
//! keeps the shared room state (the message history and the set of active
//! nicknames), and answers every event with the frames to send. All transport
//! and disk work is left to the surrounding program.

pub mod codec;
pub mod message;
pub mod persist;
pub mod room;
pub mod session;
pub mod timers;

use vstd::prelude::*;

verus! {

/// The view of a sequence of chat messages: each message as its
/// (nick, message) pair of character sequences.
pub open spec fn msgs_view(s: Seq<crate::message::ChatMessage>) -> Seq<(Seq<char>, Seq<char>)> {
    s.map_values(|m: crate::message::ChatMessage| m@)
}

} // verus!
