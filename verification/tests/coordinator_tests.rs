use cerebras_chat::build_request_body;
use cerebras_chat::decode::decode_response;
use cerebras_chat::ChatError;
use cerebras_chat::Coordinator;
use cerebras_chat::RequestParams;
use cerebras_chat::Role;
use cerebras_chat::Schema;
use cerebras_chat::WorkerOutcome;

#[test]
fn empty_submission_is_a_no_op() {
    let mut c = Coordinator::new(RequestParams::default());
    let dispatched = c.on_submit(String::new());
    assert!(dispatched.is_none());
    assert_eq!(c.log_len(), 0);
    assert_eq!(c.transcript().as_str(), "");
}

#[test]
fn submission_appends_and_snapshots() {
    let mut c = Coordinator::new(RequestParams::default());
    let snapshot = c.on_submit(String::from("Hello!")).expect("a worker must be dispatched");
    assert_eq!(c.log_len(), 1);
    assert_eq!(snapshot.len(), 1);
    assert_eq!(snapshot[0].role, Role::User);
    assert_eq!(snapshot[0].content, "Hello!");
    assert_eq!(c.transcript().as_str(), "\nYou: Hello!");
}

#[test]
fn end_to_end_round_trip() {
    let mut c = Coordinator::new(RequestParams::default());
    let snapshot = c.on_submit(String::from("Hello!")).expect("a worker must be dispatched");

    let body = build_request_body(c.params(), &snapshot);
    assert!(body.contains("\"messages\":[{\"role\":\"user\",\"content\":\"Hello!\"}]"));

    let mocked = String::from("{\"choices\":[{\"message\":{\"content\":\"Hi there!\"}}]}");
    let outcome = decode_response(Schema::ChoicesMessageContent, 200, mocked);
    let failure = c.on_worker_result(outcome);
    assert!(failure.is_none());

    let log = c.log_snapshot();
    assert_eq!(log.len(), 2);
    assert_eq!(log[0].role, Role::User);
    assert_eq!(log[0].content, "Hello!");
    assert_eq!(log[1].role, Role::Assistant);
    assert_eq!(log[1].content, "Hi there!");
    assert_eq!(c.transcript().as_str(), "\nYou: Hello!\nAssistant: Hi there!");
}

#[test]
fn failure_leaves_the_log_unchanged() {
    let mut c = Coordinator::new(RequestParams::default());
    c.on_submit(String::from("Hello!")).expect("a worker must be dispatched");
    let outcome = decode_response(
        Schema::ChoicesMessageContent,
        500,
        String::from("overloaded"),
    );
    let failure = c.on_worker_result(outcome);
    match failure {
        Some(ChatError::Protocol { status, body }) => {
            assert_eq!(status, 500);
            assert_eq!(body, "overloaded");
        },
        other => panic!("expected a protocol failure, got {:?}", other),
    }
    assert_eq!(c.log_len(), 1);
    assert_eq!(c.transcript().as_str(), "\nYou: Hello!");
}

#[test]
fn concurrent_dispatch_snapshots_differ() {
    let mut c = Coordinator::new(RequestParams::default());
    let snap1 = c.on_submit(String::from("one")).expect("first dispatch");
    let snap2 = c.on_submit(String::from("two")).expect("second dispatch");

    assert_eq!(snap1.len(), 1);
    assert_eq!(snap1[0].content, "one");
    assert_eq!(snap2.len(), 2);
    assert_eq!(snap2[0].content, "one");
    assert_eq!(snap2[1].content, "two");

    // Replies may be delivered in either order; the later-dispatched one
    // arrives first here, and both are applied without anything blocking.
    let f2 = c.on_worker_result(WorkerOutcome::Reply(String::from("reply two")));
    let f1 = c.on_worker_result(WorkerOutcome::Reply(String::from("reply one")));
    assert!(f1.is_none() && f2.is_none());
    assert_eq!(c.log_len(), 4);
    let log = c.log_snapshot();
    assert_eq!(log[2].content, "reply two");
    assert_eq!(log[3].content, "reply one");
}

#[test]
fn round_trips_alternate_roles() {
    let mut c = Coordinator::new(RequestParams::default());
    let submissions = ["first", "second", "third"];
    for (i, text) in submissions.iter().enumerate() {
        c.on_submit(String::from(*text)).expect("dispatch");
        let reply = format!("reply {}", i);
        c.on_worker_result(WorkerOutcome::Reply(reply));
    }
    let log = c.log_snapshot();
    assert_eq!(log.len(), 2 * submissions.len());
    for i in 0..submissions.len() {
        assert_eq!(log[2 * i].role, Role::User);
        assert_eq!(log[2 * i].content, submissions[i]);
        assert_eq!(log[2 * i + 1].role, Role::Assistant);
        assert_eq!(log[2 * i + 1].content, format!("reply {}", i));
    }
}
