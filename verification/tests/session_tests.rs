use chat_session::message::{Message, Sender};
use chat_session::message_log::MessageLog;
use chat_session::session::SessionController;

fn texts_and_senders(log: &MessageLog) -> Vec<(String, Sender)> {
    log.snapshot().iter().map(|m| (m.text.clone(), m.sender)).collect()
}

#[test]
fn ping_pong_round_trip() {
    let mut session = SessionController::new();
    session.update_draft("ping".to_string());
    let req = session.send();
    assert_eq!(req.text, "ping");
    let reply = if req.text == "ping" { "pong".to_string() } else { String::new() };
    session.deliver_reply(req, reply);
    let log = texts_and_senders(session.log());
    assert_eq!(log.len(), 2);
    assert_eq!(log[0], ("ping".to_string(), Sender::User));
    assert_eq!(log[1], ("pong".to_string(), Sender::Bot));
}

#[test]
fn draft_resets_synchronously() {
    let mut session = SessionController::new();
    session.update_draft("hello there".to_string());
    assert_eq!(session.draft(), "hello there");
    let req = session.send();
    // the draft is empty before any reply has been delivered
    assert_eq!(session.draft(), "");
    session.deliver_reply(req, "later".to_string());
    assert_eq!(session.draft(), "");
}

#[test]
fn update_draft_is_verbatim() {
    let mut session = SessionController::new();
    session.update_draft("  spaced   out  ".to_string());
    assert_eq!(session.draft(), "  spaced   out  ");
    let req = session.send();
    assert_eq!(req.text, "  spaced   out  ");
    session.deliver_reply(req, "ok".to_string());
}

#[test]
fn log_length_never_decreases() {
    let mut session = SessionController::new();
    let mut last_len = session.log().len();
    session.update_draft("one".to_string());
    assert!(session.log().len() >= last_len);
    last_len = session.log().len();
    let req_one = session.send();
    assert!(session.log().len() >= last_len);
    last_len = session.log().len();
    session.update_draft("two".to_string());
    let req_two = session.send();
    assert!(session.log().len() >= last_len);
    last_len = session.log().len();
    session.deliver_reply(req_one, "first reply".to_string());
    assert!(session.log().len() >= last_len);
    last_len = session.log().len();
    session.deliver_failure(req_two);
    assert!(session.log().len() >= last_len);
}

#[test]
fn concurrent_sends_reversed_replies() {
    let mut session = SessionController::new();
    session.update_draft("a".to_string());
    let req_a = session.send();
    session.update_draft("b".to_string());
    let req_b = session.send();
    // the reply for "b" resolves before the reply for "a"
    let index_b_reply = session.log().len();
    session.deliver_reply(req_b, "reply to b".to_string());
    let index_a_reply = session.log().len();
    session.deliver_reply(req_a, "reply to a".to_string());
    let log = texts_and_senders(session.log());
    assert_eq!(log.len(), 4);
    assert_eq!(log[0], ("a".to_string(), Sender::User));
    assert_eq!(log[1], ("b".to_string(), Sender::User));
    assert_eq!(log[2], ("reply to b".to_string(), Sender::Bot));
    assert_eq!(log[3], ("reply to a".to_string(), Sender::Bot));
    // each reply lands strictly after its own request
    assert!(index_a_reply > 0);
    assert!(index_b_reply > 1);
}

#[test]
fn responder_failure_contained() {
    let mut session = SessionController::new();
    session.update_draft("does anyone hear me?".to_string());
    let req = session.send();
    session.deliver_failure(req);
    let log = texts_and_senders(session.log());
    assert_eq!(log.len(), 2);
    assert_eq!(log[1], ("<error>".to_string(), Sender::Bot));
    // the session keeps accepting sends afterwards
    session.update_draft("still there?".to_string());
    let req = session.send();
    session.deliver_reply(req, "yes".to_string());
    let log = texts_and_senders(session.log());
    assert_eq!(log.len(), 4);
    assert_eq!(log[2], ("still there?".to_string(), Sender::User));
    assert_eq!(log[3], ("yes".to_string(), Sender::Bot));
}

#[test]
fn empty_draft_sends_like_any_other() {
    let mut session = SessionController::new();
    let req = session.send();
    assert_eq!(req.text, "");
    session.deliver_reply(req, "you said nothing".to_string());
    let log = texts_and_senders(session.log());
    assert_eq!(log.len(), 2);
    assert_eq!(log[0], ("".to_string(), Sender::User));
    assert_eq!(log[1], ("you said nothing".to_string(), Sender::Bot));
}

#[test]
fn message_log_appends_in_order() {
    let mut log = MessageLog::new();
    assert_eq!(log.len(), 0);
    log.append(Message::bot("Welcome! How can I help you?".to_string()));
    log.append(Message::user("help".to_string()));
    assert_eq!(log.len(), 2);
    assert_eq!(log.get(0).text, "Welcome! How can I help you?");
    assert_eq!(log.get(0).sender, Sender::Bot);
    assert_eq!(log.get(1).text, "help");
    assert_eq!(log.get(1).sender, Sender::User);
}

#[test]
fn message_position_is_stable() {
    let mut log = MessageLog::new();
    log.append(Message::user("first".to_string()));
    for i in 0..10 {
        log.append(Message::bot(format!("reply {}", i)));
        // the message at position 0 never moves
        assert_eq!(log.get(0).text, "first");
        assert_eq!(log.get(0).sender, Sender::User);
    }
    assert_eq!(log.len(), 11);
}
