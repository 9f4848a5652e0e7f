//! Role-tagged conversation messages.

use vstd::prelude::*;

verus! {

/// Who produced a message: the person typing, or the completion endpoint.
#[derive(Clone, Copy, PartialEq, Eq, Structural, Debug)]
pub enum Role {
    User,
    Assistant,
}

/// One entry of the conversation log.  Immutable once created; the log only
/// ever appends messages and never edits them.
#[derive(Debug)]
pub struct Message {
    pub role: Role,
    pub content: String,
}

/// Mathematical model of a [`Message`]: the role together with the content
/// as a sequence of characters.
pub struct MessageView {
    pub role: Role,
    pub content: Seq<char>,
}

impl View for Message {
    type V = MessageView;

    open spec fn view(&self) -> MessageView {
        MessageView { role: self.role, content: self.content@ }
    }
}

/// The models of a sequence of messages, in order.
pub open spec fn views_of(ms: Seq<Message>) -> Seq<MessageView> {
    Seq::new(ms.len(), |i: int| ms[i]@)
}

impl Message {
    /// A user-authored message with the given text.
    pub fn user(content: String) -> (m: Message)
        ensures
            m@ == (MessageView { role: Role::User, content: content@ }),
    {
        Message { role: Role::User, content }
    }

    /// An assistant reply with the given text.
    pub fn assistant(content: String) -> (m: Message)
        ensures
            m@ == (MessageView { role: Role::Assistant, content: content@ }),
    {
        Message { role: Role::Assistant, content }
    }
}

impl Clone for Message {
    fn clone(&self) -> (m: Self)
        ensures
            m@ == self@,
    {
        Message { role: self.role, content: self.content.clone() }
    }
}

} // verus!
