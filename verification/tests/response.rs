use chat_client::error::status_is_error;
use chat_client::{first_reply, ChatError, ChatResponse, Choice, ChoiceMessage};

#[test]
fn first_reply_takes_first_choice() {
    let response = ChatResponse {
        choices: vec![Choice::new("first"), Choice::new("second"), Choice::new("third")],
    };
    assert_eq!(first_reply(response), Ok(String::from("first")));
}

#[test]
fn first_reply_of_single_choice() {
    let response = ChatResponse { choices: vec![Choice::new("Rust is a systems language.")] };
    assert_eq!(first_reply(response), Ok(String::from("Rust is a systems language.")));
}

#[test]
fn first_reply_without_choices_fails() {
    assert_eq!(first_reply(ChatResponse { choices: vec![] }), Err(ChatError::NoChoices));
}

#[test]
fn first_reply_leaves_text_untouched() {
    let text = "  \n leading and trailing \t \"quoted\" \\ é 日本 \u{1F600}\r\n";
    let response = ChatResponse { choices: vec![Choice::new(text)] };
    assert_eq!(first_reply(response).unwrap(), text);
}

#[test]
fn first_reply_may_be_empty() {
    let response = ChatResponse { choices: vec![Choice::new(""), Choice::new("later")] };
    assert_eq!(first_reply(response), Ok(String::new()));
}

#[test]
fn choice_new_keeps_text() {
    assert_eq!(
        Choice::new("abc"),
        Choice { message: ChoiceMessage { content: String::from("abc") } }
    );
}

#[test]
fn error_statuses_are_400_to_599() {
    assert!(!status_is_error(0));
    assert!(!status_is_error(100));
    assert!(!status_is_error(200));
    assert!(!status_is_error(204));
    assert!(!status_is_error(302));
    assert!(!status_is_error(399));
    assert!(status_is_error(400));
    assert!(status_is_error(401));
    assert!(status_is_error(404));
    assert!(status_is_error(499));
    assert!(status_is_error(500));
    assert!(status_is_error(503));
    assert!(status_is_error(599));
    assert!(!status_is_error(600));
    assert!(!status_is_error(999));
    assert!(!status_is_error(u16::MAX));
}
