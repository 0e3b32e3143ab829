use vstd::prelude::*;

verus! {

/// Who authored a message: the human user or the automated respondent.
#[derive(Clone, Copy, Debug, PartialEq, Eq, Structural)]
pub enum Sender {
    User,
    Bot,
}

/// One chat message.  A message is immutable once created; its identity is its
/// text together with its sender.
#[derive(Debug)]
pub struct Message {
    pub text: String,
    pub sender: Sender,
}

/// The mathematical value of a message: its text as a sequence of characters
/// together with its sender.
pub struct MessageView {
    pub text: Seq<char>,
    pub sender: Sender,
}

impl View for Message {
    type V = MessageView;

    open spec fn view(&self) -> MessageView {
        MessageView { text: self.text@, sender: self.sender }
    }
}

/// The value of a user-authored message with the given text.
pub open spec fn user_message(text: Seq<char>) -> MessageView {
    MessageView { text: text, sender: Sender::User }
}

/// The value of a bot-authored message with the given text.
pub open spec fn bot_message(text: Seq<char>) -> MessageView {
    MessageView { text: text, sender: Sender::Bot }
}

impl Message {
    /// Builds a user-authored message with the given text.
    pub fn user(text: String) -> (m: Message)
        ensures
            m@ == user_message(text@),
    {
        Message { text, sender: Sender::User }
    }

    /// Builds a bot-authored message with the given text.
    pub fn bot(text: String) -> (m: Message)
        ensures
            m@ == bot_message(text@),
    {
        Message { text, sender: Sender::Bot }
    }
}

} // verus!
