use chat_client::outbound::{
    AUTHORIZATION, BEARER, CONTENT_TYPE, CREDENTIAL_VARIABLE, ENDPOINT, JSON_CONTENT, METHOD,
};
use chat_client::{authorization_value, build_request, prepare, Header};

#[test]
fn authorization_is_bearer_and_credential() {
    assert_eq!(authorization_value("sk-test-123"), "Bearer sk-test-123");
    assert_eq!(authorization_value(""), "Bearer ");
    assert_eq!(authorization_value(" spaced "), "Bearer  spaced ");
}

#[test]
fn post_goes_to_fixed_endpoint() {
    let post = prepare("k", "hello");
    assert_eq!(post.method, "POST");
    assert_eq!(post.url, "https://api.openai.com/v1/chat/completions");
}

#[test]
fn post_has_content_type_then_authorization() {
    let post = prepare("sk-abc", "hello");
    assert_eq!(
        post.headers,
        vec![
            Header { name: String::from("Content-Type"), value: String::from("application/json") },
            Header { name: String::from("Authorization"), value: String::from("Bearer sk-abc") },
        ]
    );
}

#[test]
fn post_carries_request_of_prompt() {
    let post = prepare("k", "Explique em uma frase o que é Rust.");
    assert_eq!(post.payload, build_request("Explique em uma frase o que é Rust."));
    assert_eq!(post.payload.messages().len(), 2);
    assert_eq!(post.payload.user(), "Explique em uma frase o que é Rust.");
}

#[test]
fn fixed_names() {
    assert_eq!(METHOD, "POST");
    assert_eq!(ENDPOINT, "https://api.openai.com/v1/chat/completions");
    assert_eq!(CREDENTIAL_VARIABLE, "OPENAI_API_KEY");
    assert_eq!(CONTENT_TYPE, "Content-Type");
    assert_eq!(JSON_CONTENT, "application/json");
    assert_eq!(AUTHORIZATION, "Authorization");
    assert_eq!(BEARER, "Bearer ");
}

#[test]
fn reply_line_prefixes_the_reply() {
    assert_eq!(chat_client::reply_line("Rust é uma linguagem."), "Resposta: Rust é uma linguagem.");
    assert_eq!(chat_client::reply_line(""), "Resposta: ");
    assert_eq!(chat_client::reply_line(" x \n"), "Resposta:  x \n");
    assert_eq!(chat_client::report::PROMPT, "Explique em uma frase o que é Rust.");
    assert_eq!(chat_client::report::REPLY_LABEL, "Resposta: ");
}
