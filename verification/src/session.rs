use vstd::prelude::*;

use crate::message::{bot_message, user_message, Message, MessageView};
use crate::message_log::MessageLog;
use vstd::string::StringExecFns;

verus! {

/// The text of the bot-authored message that stands in for a reply when the
/// responder fails, so that the session stays usable.
pub open spec fn error_text() -> Seq<char> {
    "<error>"@
}

/// A ticket for one `send`: the text to hand to the responder and the position
/// at which the user message of that send was appended.  It is consumed when
/// the exchange settles, so each send yields exactly one reply or one failure
/// notice.
pub struct SendRequest {
    pub text: String,
    pub user_index: usize,
}

/// Drives one chat session: it owns the draft (the not-yet-sent input text)
/// and the message log, and splits each `send` into its synchronous part and
/// the delivery of the asynchronous reply.  The caller performs the responder
/// call itself, between `send` and `deliver_reply` / `deliver_failure`, so
/// any function from request text to reply text can serve as the responder.
pub struct SessionController {
    draft: String,
    log: MessageLog,
}

impl SessionController {
    /// The draft text as a sequence of characters.
    pub closed spec fn draft_view(&self) -> Seq<char> {
        self.draft@
    }

    /// The log contents as a sequence of message values.
    pub closed spec fn log_view(&self) -> Seq<MessageView> {
        self.log@
    }

    /// A fresh session: empty draft, empty log.
    pub fn new() -> (r: SessionController)
        ensures
            r.draft_view() == Seq::<char>::empty(),
            r.log_view() == Seq::<MessageView>::empty(),
    {
        SessionController { draft: String::new(), log: MessageLog::new() }
    }

    /// Replaces the draft verbatim: no validation, trimming or length limit.
    /// The log is untouched.
    pub fn update_draft(&mut self, text: String)
        ensures
            final(self).draft_view() == text@,
            final(self).log_view() == old(self).log_view(),
    {
        self.draft = text;
    }

    /// The current draft text.
    pub fn draft(&self) -> (d: &String)
        ensures
            d@ == self.draft_view(),
    {
        &self.draft
    }

    /// Read access to the message log.
    pub fn log(&self) -> (l: &MessageLog)
        ensures
            l@ == self.log_view(),
    {
        &self.log
    }

    /// The synchronous part of a send: appends a user message holding the
    /// draft, clears the draft at once (independent of responder latency),
    /// and returns the ticket for the asynchronous half.  An empty draft is
    /// sent like any other.
    pub fn send(&mut self) -> (req: SendRequest)
        ensures
            final(self).log_view() == old(self).log_view().push(
                user_message(old(self).draft_view()),
            ),
            final(self).draft_view() == Seq::<char>::empty(),
            req.text@ == old(self).draft_view(),
            req.user_index == old(self).log_view().len(),
    {
        let text = self.draft.clone();
        self.draft = String::new();
        let user_index = self.log.len();
        self.log.append(Message::user(text.clone()));
        SendRequest { text, user_index }
    }

    /// The asynchronous half of a successful send: appends the reply as a bot
    /// message at the end of the log.  Other sends may have appended in the
    /// meantime; the reply still lands strictly after its own user message.
    pub fn deliver_reply(&mut self, req: SendRequest, reply: String)
        requires
            req.user_index < old(self).log_view().len(),
        ensures
            final(self).log_view() == old(self).log_view().push(bot_message(reply@)),
            final(self).draft_view() == old(self).draft_view(),
            req.user_index < final(self).log_view().len() - 1,
    {
        let _ = req;
        self.log.append(Message::bot(reply));
    }

    /// The asynchronous half of a failed send: the responder's failure is
    /// contained as exactly one bot message carrying the error marker, and
    /// the session keeps accepting further sends.
    pub fn deliver_failure(&mut self, req: SendRequest)
        requires
            req.user_index < old(self).log_view().len(),
        ensures
            final(self).log_view() == old(self).log_view().push(bot_message(error_text())),
            final(self).draft_view() == old(self).draft_view(),
            req.user_index < final(self).log_view().len() - 1,
    {
        let _ = req;
        self.log.append(Message::bot(String::from_str("<error>")));
    }
}

/// Append-only, one step: every operation of the session either leaves the log
/// unchanged (`update_draft`) or pushes one message at its end (`send`,
/// `deliver_reply`, `deliver_failure`).  Either way the old log is a prefix of
/// the new one, so the log's length never decreases.
pub proof fn lemma_append_only_step(pre: Seq<MessageView>, post: Seq<MessageView>, m: MessageView)
    requires
        post == pre || post == pre.push(m),
    ensures
        pre.is_prefix_of(post),
        pre.len() <= post.len(),
{
    assert(pre =~= post.subrange(0, pre.len() as int));
}

/// Append-only, chained: being a prefix is transitive, so over any sequence of
/// operations the log at an earlier point is a prefix of the log at any later
/// point, and its length is non-decreasing throughout.
pub proof fn lemma_append_only_chain(
    a: Seq<MessageView>,
    b: Seq<MessageView>,
    c: Seq<MessageView>,
)
    requires
        a.is_prefix_of(b),
        b.is_prefix_of(c),
    ensures
        a.is_prefix_of(c),
        a.len() <= c.len(),
{
    assert(a =~= c.subrange(0, a.len() as int));
}

/// Order preservation: a send performed on log `at_send` appends its user
/// message at position `at_send.len()`.  Whatever other operations append in
/// the meantime — so that the log has grown to `at_reply` when the reply
/// arrives — the user message still stands at that position, and the reply is
/// appended strictly after it.
pub proof fn lemma_order_preservation(
    at_send: Seq<MessageView>,
    at_reply: Seq<MessageView>,
    text: Seq<char>,
    reply: Seq<char>,
)
    requires
        at_send.push(user_message(text)).is_prefix_of(at_reply),
    ensures
        at_reply.push(bot_message(reply))[at_send.len() as int] == user_message(text),
        at_reply.push(bot_message(reply))[at_reply.len() as int] == bot_message(reply),
        at_send.len() < at_reply.len(),
{
    let grown = at_send.push(user_message(text));
    assert(grown == at_reply.subrange(0, grown.len() as int));
    assert(at_reply[at_send.len() as int] == grown[at_send.len() as int]);
    assert(at_reply.push(bot_message(reply))[at_send.len() as int] == at_reply[at_send.len() as int]);
}

/// Concurrent sends do not corrupt the log: two sends issued before either
/// reply arrives, with the replies delivered in the reverse of request order,
/// leave all four messages in the log, each reply strictly after its own
/// request.  `log0` is the log before the first send; `a` and `b` the two
/// drafts; `rb` and `ra` the replies, delivered in that order.
pub proof fn lemma_concurrent_sends_reversed(
    log0: Seq<MessageView>,
    a: Seq<char>,
    b: Seq<char>,
    ra: Seq<char>,
    rb: Seq<char>,
)
    ensures
        ({
            let end = log0.push(user_message(a)).push(user_message(b)).push(bot_message(rb)).push(
                bot_message(ra),
            );
            &&& end.len() == log0.len() + 4
            &&& end[log0.len() as int] == user_message(a)
            &&& end[log0.len() as int + 1] == user_message(b)
            &&& end[log0.len() as int + 2] == bot_message(rb)
            &&& end[log0.len() as int + 3] == bot_message(ra)
        }),
{
}

} // verus!
