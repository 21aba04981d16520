//! One line of room history: a nick and the text it posted.

use vstd::prelude::*;

verus! {

/// One authored line of chat history. `nick` is the author's display name
/// (`"system"` for join/leave announcements); `message` is the text.
/// Immutable once created: history entries are appended, never edited.
pub struct ChatMessage {
    pub nick: String,
    pub message: String,
}

impl View for ChatMessage {
    type V = (Seq<char>, Seq<char>);

    open spec fn view(&self) -> (Seq<char>, Seq<char>) {
        (self.nick@, self.message@)
    }
}

impl ChatMessage {
    pub fn new(nick: String, message: String) -> (m: ChatMessage)
        ensures
            m@ == (nick@, message@),
    {
        ChatMessage { nick, message }
    }

    /// A copy with the same contents.
    pub fn duplicate(&self) -> (m: ChatMessage)
        ensures
            m@ == self@,
    {
        ChatMessage { nick: self.nick.clone(), message: self.message.clone() }
    }
}

} // verus!
