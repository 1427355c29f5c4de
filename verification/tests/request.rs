use chat_client::request::{MODEL, SYSTEM_PROMPT};
use chat_client::{build_request, ChatRequest, Message, Role};

#[test]
fn request_has_system_then_user() {
    let request = build_request("Explique em uma frase o que é Rust.");
    let messages = request.messages();
    assert_eq!(messages.len(), 2);
    assert_eq!(messages[0].role, Role::System);
    assert_eq!(messages[1].role, Role::User);
}

#[test]
fn request_carries_prompt_verbatim() {
    let prompt = "  line one\nline \"two\" \\ tab\t end  ";
    let request = build_request(prompt);
    assert_eq!(request.user(), prompt);
    assert_eq!(request.messages()[1].content, prompt);
}

#[test]
fn request_names_fixed_model_and_instruction() {
    let request = build_request("anything");
    assert_eq!(request.model(), "gpt-4.1");
    assert_eq!(request.system(), "Você é um assistente útil.");
    assert_eq!(MODEL, "gpt-4.1");
    assert_eq!(SYSTEM_PROMPT, "Você é um assistente útil.");
    assert_eq!(
        request.messages()[0],
        Message { role: Role::System, content: String::from("Você é um assistente útil.") }
    );
}

#[test]
fn request_for_empty_prompt_still_has_two_messages() {
    let request = build_request("");
    let messages = request.messages();
    assert_eq!(messages.len(), 2);
    assert_eq!(messages[1], Message { role: Role::User, content: String::new() });
}

#[test]
fn requests_keep_no_history() {
    let first = build_request("first");
    let second = build_request("second");
    assert_eq!(first.messages().len(), 2);
    assert_eq!(second.messages().len(), 2);
    assert_eq!(second.user(), "second");
    assert_eq!(first.user(), "first");
}

#[test]
fn same_prompt_gives_same_request() {
    assert_eq!(build_request("hello"), build_request("hello"));
    assert_ne!(build_request("hello"), build_request("hello "));
}

#[test]
fn request_new_keeps_its_parts() {
    let request = ChatRequest::new("m", "s", "u");
    assert_eq!(request.model(), "m");
    assert_eq!(request.system(), "s");
    assert_eq!(request.user(), "u");
    assert_eq!(request.messages(), vec![Message::new(Role::System, "s"), Message::new(Role::User, "u")]);
}

#[test]
fn message_new_keeps_role_and_content() {
    let message = Message::new(Role::Assistant, "ok");
    assert_eq!(message.role, Role::Assistant);
    assert_eq!(message.content, "ok");
}

#[test]
fn role_wire_names() {
    assert_eq!(Role::System.as_str(), "system");
    assert_eq!(Role::User.as_str(), "user");
    assert_eq!(Role::Assistant.as_str(), "assistant");
}
