//! The role-tagged turns that a conversation is made of.

use vstd::prelude::*;
use vstd::string::*;

verus! {

/// One turn of a conversation: who spoke, and what was said.
#[derive(Debug)]
pub struct Message {
    pub role: String,
    pub content: String,
}

/// What a [`Message`] holds, as text.
pub struct MessageView {
    pub role: Seq<char>,
    pub content: Seq<char>,
}

impl MessageView {
    /// The turn as one line of a transcript: the role, a colon, a space, the
    /// content.
    pub open spec fn line(self) -> Seq<char> {
        self.role + ": "@ + self.content
    }
}

impl View for Message {
    type V = MessageView;

    open spec fn view(&self) -> MessageView {
        MessageView { role: self.role@, content: self.content@ }
    }
}

impl DeepView for Message {
    type V = MessageView;

    open spec fn deep_view(&self) -> MessageView {
        self@
    }
}

impl Clone for Message {
    fn clone(&self) -> (copy: Self)
        ensures
            copy@ == self@,
    {
        Message { role: self.role.clone(), content: self.content.clone() }
    }
}

impl Message {
    /// A turn spoken by `role`.
    pub fn new(role: &str, content: String) -> (message: Message)
        ensures
            message@ == (MessageView { role: role@, content: content@ }),
    {
        Message { role: String::from_str(role), content }
    }

    /// The turn as one line of a transcript.
    pub fn to_string(&self) -> (line: String)
        ensures
            line@ == self@.line(),
    {
        let mut line = self.role.clone();
        line.append(": ");
        line.append(self.content.as_str());
        line
    }
}

/// The transcript lines of `turns`, one for each turn, in order.
pub open spec fn lines_of(turns: Seq<MessageView>) -> Seq<Seq<char>> {
    Seq::new(turns.len(), |i: int| turns[i].line())
}

} // verus!
