use cerebras_chat::build_request_body;
use cerebras_chat::Message;
use cerebras_chat::RequestParams;

#[test]
fn empty_snapshot_body() {
    let params = RequestParams::default();
    let body = build_request_body(&params, &Vec::new());
    assert_eq!(
        body,
        "{\"model\":\"llama3.1-8b\",\"stream\":false,\"messages\":[],\
         \"temperature\":0,\"max_tokens\":-1,\"seed\":0,\"top_p\":1}"
    );
}

#[test]
fn single_user_message_body() {
    let params = RequestParams::default();
    let snapshot = vec![Message::user(String::from("Hello!"))];
    let body = build_request_body(&params, &snapshot);
    assert_eq!(
        body,
        "{\"model\":\"llama3.1-8b\",\"stream\":false,\
         \"messages\":[{\"role\":\"user\",\"content\":\"Hello!\"}],\
         \"temperature\":0,\"max_tokens\":-1,\"seed\":0,\"top_p\":1}"
    );
}

#[test]
fn full_history_is_resent_in_order() {
    let params = RequestParams::default();
    let snapshot = vec![
        Message::user(String::from("a")),
        Message::assistant(String::from("b")),
        Message::user(String::from("c")),
    ];
    let body = build_request_body(&params, &snapshot);
    assert_eq!(
        body,
        "{\"model\":\"llama3.1-8b\",\"stream\":false,\
         \"messages\":[{\"role\":\"user\",\"content\":\"a\"},\
         {\"role\":\"assistant\",\"content\":\"b\"},\
         {\"role\":\"user\",\"content\":\"c\"}],\
         \"temperature\":0,\"max_tokens\":-1,\"seed\":0,\"top_p\":1}"
    );
}

#[test]
fn content_is_json_escaped() {
    let params = RequestParams::default();
    let snapshot = vec![Message::user(String::from("a\"b\\c\nd\re\tf\u{1}g"))];
    let body = build_request_body(&params, &snapshot);
    assert!(body.contains("\"content\":\"a\\\"b\\\\c\\nd\\re\\tf\\u0001g\""));
}

#[test]
fn custom_parameters_are_encoded() {
    let params = RequestParams {
        model: String::from("other-model"),
        temperature: 2,
        max_tokens: 1024,
        seed: -7,
        top_p: 1,
    };
    let body = build_request_body(&params, &Vec::new());
    assert_eq!(
        body,
        "{\"model\":\"other-model\",\"stream\":false,\"messages\":[],\
         \"temperature\":2,\"max_tokens\":1024,\"seed\":-7,\"top_p\":1}"
    );
}

#[test]
fn request_body_is_valid_json() {
    let params = RequestParams::default();
    let snapshot = vec![
        Message::user(String::from("quote \" backslash \\ newline \n done")),
        Message::assistant(String::from("fine")),
    ];
    let body = build_request_body(&params, &snapshot);
    let value: serde_json::Value = serde_json::from_str(&body).expect("body must parse");
    assert_eq!(value["model"], "llama3.1-8b");
    assert_eq!(value["stream"], false);
    assert_eq!(value["max_tokens"], -1);
    assert_eq!(
        value["messages"][0]["content"],
        "quote \" backslash \\ newline \n done"
    );
    assert_eq!(value["messages"][1]["role"], "assistant");
}
