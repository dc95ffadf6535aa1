//! The wire/data unit of the chat: a sender name and a body of text.

use vstd::prelude::*;

verus! {

/// One chat message. Both fields are free-form UTF-8 text; either may be
/// empty at the data-model level (the UI refuses to submit empty fields, but
/// a `Message` itself never enforces that).
#[derive(Clone, Debug, PartialEq)]
pub struct Message {
    pub username: String,
    pub message: String,
}

/// The mathematical content of a `Message`: both fields as character
/// sequences. Contracts and laws are stated over this view.
pub ghost struct MessageView {
    pub username: Seq<char>,
    pub message: Seq<char>,
}

impl View for Message {
    type V = MessageView;

    open spec fn view(&self) -> MessageView {
        MessageView { username: self.username@, message: self.message@ }
    }
}

impl DeepView for Message {
    type V = MessageView;

    open spec fn deep_view(&self) -> MessageView {
        self@
    }
}

/// The history line the operator sees for a message: sender, colon, body.
pub open spec fn display_line_view(m: MessageView) -> Seq<char> {
    m.username + ": "@ + m.message
}

impl Message {
    /// The history line the operator sees for this message.
    pub fn display_line(&self) -> (t: String)
        ensures
            t@ == display_line_view(self@),
    {
        let mut t = self.username.clone();
        t.append(": ");
        t.append(self.message.as_str());
        t
    }

    /// Constructs a message from its two fields.
    pub fn new(username: String, message: String) -> (m: Message)
        ensures
            m@ == (MessageView { username: username@, message: message@ }),
    {
        Message { username, message }
    }

    /// A copy with exactly the same content.
    pub fn clone_message(&self) -> (m: Message)
        ensures
            m@ == self@,
    {
        Message { username: self.username.clone(), message: self.message.clone() }
    }
}

} // verus!
