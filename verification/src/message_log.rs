use vstd::prelude::*;

use crate::message::{Message, MessageView};

verus! {

/// The ordered, append-only record of all exchanged messages.  Insertion order
/// is the display order; no message is ever removed, edited or reordered, so a
/// message's position is a stable identity that a renderer may key on.
pub struct MessageLog {
    messages: Vec<Message>,
}

impl View for MessageLog {
    type V = Seq<MessageView>;

    closed spec fn view(&self) -> Seq<MessageView> {
        self.messages@.map(|i: int, m: Message| m@)
    }
}

impl MessageLog {
    /// An empty log.
    pub fn new() -> (r: MessageLog)
        ensures
            r@ == Seq::<MessageView>::empty(),
    {
        let r = MessageLog { messages: Vec::new() };
        proof {
            assert(r@ =~= Seq::<MessageView>::empty());
        }
        r
    }

    /// How many messages have been exchanged so far.
    pub fn len(&self) -> (n: usize)
        ensures
            n == self@.len(),
    {
        self.messages.len()
    }

    /// Adds a message at the end.  Appending always succeeds; it is the only
    /// way the log ever changes.
    pub fn append(&mut self, m: Message)
        ensures
            final(self)@ == old(self)@.push(m@),
    {
        self.messages.push(m);
        proof {
            assert(self@ =~= old(self)@.push(m@));
        }
    }

    /// Read access to the current contents, in insertion order.
    pub fn snapshot(&self) -> (r: &Vec<Message>)
        ensures
            r@.map(|i: int, m: Message| m@) == self@,
    {
        &self.messages
    }

    /// The message at position `i`.
    pub fn get(&self, i: usize) -> (m: &Message)
        requires
            i < self@.len(),
        ensures
            m@ == self@[i as int],
    {
        &self.messages[i]
    }
}

} // verus!
