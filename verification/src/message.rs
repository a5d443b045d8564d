//! Role-tagged messages.

use vstd::prelude::*;

verus! {

/// One message of a conversation. The roles that a prompt can render are
/// `system`, `user`, `assistant`, `tool` and `tool_response`.
#[derive(Clone, Debug)]
pub struct Message {
    pub role: String,
    pub content: String,
}

/// The mathematical value of a [`Message`].
pub struct MessageView {
    pub role: Seq<char>,
    pub content: Seq<char>,
}

impl View for Message {
    type V = MessageView;

    open spec fn view(&self) -> MessageView {
        MessageView { role: self.role@, content: self.content@ }
    }
}

/// The values of a list of messages.
pub open spec fn messages_of(v: Seq<Message>) -> Seq<MessageView> {
    Seq::new(v.len(), |i: int| v[i]@)
}

impl Message {
    /// A message with the given role and content.
    pub fn new(role: &str, content: &str) -> (r: Message)
        ensures
            r@.role == role@,
            r@.content == content@,
    {
        Message { role: role.to_string(), content: content.to_string() }
    }

    /// A copy of the message.
    pub fn duplicate(&self) -> (r: Message)
        ensures
            r@ == self@,
    {
        Message { role: self.role.clone(), content: self.content.clone() }
    }
}

} // verus!
