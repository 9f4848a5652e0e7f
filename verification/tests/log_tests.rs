use cerebras_chat::ConversationLog;
use cerebras_chat::Message;
use cerebras_chat::Role;

#[test]
fn empty_log_has_no_messages() {
    let log = ConversationLog::new();
    assert_eq!(log.len(), 0);
    assert_eq!(log.snapshot().len(), 0);
}

#[test]
fn append_keeps_order() {
    let mut log = ConversationLog::new();
    log.append(Message::user(String::from("first")));
    log.append(Message::assistant(String::from("second")));
    log.append(Message::user(String::from("third")));
    let snap = log.snapshot();
    assert_eq!(snap.len(), 3);
    assert_eq!(snap[0].role, Role::User);
    assert_eq!(snap[0].content, "first");
    assert_eq!(snap[1].role, Role::Assistant);
    assert_eq!(snap[1].content, "second");
    assert_eq!(snap[2].role, Role::User);
    assert_eq!(snap[2].content, "third");
}

#[test]
fn snapshot_does_not_observe_later_append() {
    let mut log = ConversationLog::new();
    log.append(Message::user(String::from("before")));
    let snap = log.snapshot();
    log.append(Message::assistant(String::from("after")));
    assert_eq!(snap.len(), 1);
    assert_eq!(snap[0].content, "before");
    assert!(snap.iter().all(|m| m.content != "after"));
    assert_eq!(log.len(), 2);
}

#[test]
fn snapshot_is_an_independent_copy() {
    let mut log = ConversationLog::new();
    log.append(Message::user(String::from("kept")));
    let first = log.snapshot();
    let second = log.snapshot();
    assert_eq!(first.len(), second.len());
    assert_eq!(first[0].content, second[0].content);
    drop(first);
    assert_eq!(log.snapshot()[0].content, "kept");
}
