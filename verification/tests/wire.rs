use chat_client::wire::{frame_message, frame_request};
use chat_client::{build_request, encode_message, encode_request, ChatRequest, Message, Role};

#[test]
fn body_of_fixed_prompt_is_exact() {
    let body = encode_request(&build_request("Explique em uma frase o que é Rust."));
    assert_eq!(
        body.as_deref(),
        Some(
            "{\"model\":\"gpt-4.1\",\"messages\":[\
             {\"role\":\"system\",\"content\":\"Você é um assistente útil.\"},\
             {\"role\":\"user\",\"content\":\"Explique em uma frase o que é Rust.\"}]}"
        )
    );
}

#[test]
fn encoding_twice_gives_identical_bytes() {
    let request = build_request("same \"text\"\n twice");
    let first = encode_request(&request).unwrap();
    let second = encode_request(&request).unwrap();
    assert_eq!(first.as_bytes(), second.as_bytes());
    let again = encode_request(&build_request("same \"text\"\n twice")).unwrap();
    assert_eq!(first.as_bytes(), again.as_bytes());
}

#[test]
fn body_escapes_what_json_reserves() {
    let body = encode_request(&ChatRequest::new("m", "s", "a\"b\\c\nd\te\u{1}")).unwrap();
    assert_eq!(
        body,
        "{\"model\":\"m\",\"messages\":[{\"role\":\"system\",\"content\":\"s\"},\
         {\"role\":\"user\",\"content\":\"a\\\"b\\\\c\\nd\\te\\u0001\"}]}"
    );
}

#[test]
fn body_is_json_that_reads_back() {
    let prompt = "quote \" backslash \\ newline \n unicode é 日本 \u{1F600} control \u{7}";
    let body = encode_request(&build_request(prompt)).unwrap();
    let value: serde_json::Value = serde_json::from_str(&body).unwrap();
    assert_eq!(value["model"].as_str(), Some("gpt-4.1"));
    let messages = value["messages"].as_array().unwrap();
    assert_eq!(messages.len(), 2);
    assert_eq!(messages[0]["role"].as_str(), Some("system"));
    assert_eq!(messages[0]["content"].as_str(), Some("Você é um assistente útil."));
    assert_eq!(messages[1]["role"].as_str(), Some("user"));
    assert_eq!(messages[1]["content"].as_str(), Some(prompt));
    assert_eq!(value.as_object().unwrap().len(), 2);
    assert_eq!(messages[0].as_object().unwrap().len(), 2);
    assert_eq!(messages[1].as_object().unwrap().len(), 2);
}

#[test]
fn body_puts_model_before_messages() {
    let body = encode_request(&build_request("x")).unwrap();
    assert!(body.starts_with("{\"model\":\"gpt-4.1\",\"messages\":[{\"role\":\"system\","));
    assert!(body.ends_with("{\"role\":\"user\",\"content\":\"x\"}]}"));
}

#[test]
fn message_text_is_exact() {
    assert_eq!(
        encode_message(&Message::new(Role::User, "hi")).as_deref(),
        Some("{\"role\":\"user\",\"content\":\"hi\"}")
    );
    assert_eq!(
        encode_message(&Message::new(Role::Assistant, "")).as_deref(),
        Some("{\"role\":\"assistant\",\"content\":\"\"}")
    );
    assert_eq!(
        encode_message(&Message::new(Role::System, "a\"b")).as_deref(),
        Some("{\"role\":\"system\",\"content\":\"a\\\"b\"}")
    );
}

#[test]
fn frames_take_literals_as_they_are() {
    assert_eq!(frame_message(Role::User, "\"hi\""), "{\"role\":\"user\",\"content\":\"hi\"}");
    assert_eq!(frame_message(Role::System, "X"), "{\"role\":\"system\",\"content\":X}");
    assert_eq!(frame_request("M", "S", "U"), "{\"model\":M,\"messages\":[S,U]}");
}
