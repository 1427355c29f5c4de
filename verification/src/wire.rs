//! The JSON text of a request, as it goes on the wire.
//!
//! The frame of the text is fixed: an object with the model and the list of
//! messages, each message an object with its role and its content. The texts
//! inside it are written as JSON string literals, and those come from
//! `serde_json`.

use vstd::prelude::*;
use vstd::string::*;
use crate::message::{message_views, Message, MessageView, Role};
use crate::request::{ChatRequest, ChatRequestView};
use crate::response::reply_of;

verus! {

/// What `serde_json::to_string` gives for `text`: its JSON string literal, or
/// `None` where the call fails.
pub uninterp spec fn json_string_literal(text: Seq<char>) -> Option<Seq<char>>;

/// Calls `serde_json::to_string` on a string slice and drops the error's detail.
///
/// Trusted: the result is the same for the same text, whenever and wherever the
/// call is made. Nothing else is claimed, neither what the literal looks like
/// nor that there is one.
#[verifier::external_body]
fn json_string(text: &str) -> (literal: Option<String>)
    ensures
        text_of(literal) == json_string_literal(text@),
{
    serde_json::to_string(text).ok()
}

/// The characters of an optional string.
pub open spec fn text_of(s: Option<String>) -> Option<Seq<char>> {
    match s {
        Some(s) => Some(s@),
        None => None,
    }
}

/// A message object: the role by its wire name, then the content, for which
/// `content_literal` stands.
pub open spec fn message_frame(role: Role, content_literal: Seq<char>) -> Seq<char> {
    "{\"role\":\""@ + role.name() + "\",\"content\":"@ + content_literal + "}"@
}

/// A request object: the model, for which `model_literal` stands, then the two
/// message objects in order.
pub open spec fn request_frame(
    model_literal: Seq<char>,
    system_message: Seq<char>,
    user_message: Seq<char>,
) -> Seq<char> {
    "{\"model\":"@ + model_literal + ",\"messages\":["@ + system_message + ","@ + user_message
        + "]}"@
}

/// The JSON text of a message, where its content has a string literal.
pub open spec fn message_json(message: MessageView) -> Option<Seq<char>> {
    match json_string_literal(message.content) {
        Some(content) => Some(message_frame(message.role, content)),
        None => None,
    }
}

/// The JSON text of a request, where the model and both messages have one.
pub open spec fn request_json(request: ChatRequestView) -> Option<Seq<char>> {
    match (
        json_string_literal(request.model),
        message_json(request.messages()[0]),
        message_json(request.messages()[1]),
    ) {
        (Some(model), Some(system), Some(user)) => Some(request_frame(model, system, user)),
        _ => None,
    }
}

/// Puts a message object together from the role and the literal of the content.
pub fn frame_message(role: Role, content_literal: &str) -> (json: String)
    ensures
        json@ == message_frame(role, content_literal@),
{
    let mut json = String::from_str("{\"role\":\"");
    json.append(role.as_str());
    json.append("\",\"content\":");
    json.append(content_literal);
    json.append("}");
    json
}

/// Puts a request object together from the literal of the model and the two
/// message objects.
pub fn frame_request(model_literal: &str, system_message: &str, user_message: &str) -> (json:
    String)
    ensures
        json@ == request_frame(model_literal@, system_message@, user_message@),
{
    let mut json = String::from_str("{\"model\":");
    json.append(model_literal);
    json.append(",\"messages\":[");
    json.append(system_message);
    json.append(",");
    json.append(user_message);
    json.append("]}");
    json
}

/// Writes a message as JSON text. There is a text exactly where the content
/// has a string literal.
pub fn encode_message(message: &Message) -> (json: Option<String>)
    ensures
        text_of(json) == message_json(message@),
{
    match json_string(message.content.as_str()) {
        Some(content) => Some(frame_message(message.role, content.as_str())),
        None => None,
    }
}

/// Writes a request as JSON text, the body of the call. There is a text exactly
/// where the model and both messages have one, and it depends on nothing but
/// the request.
pub fn encode_request(request: &ChatRequest) -> (body: Option<String>)
    ensures
        text_of(body) == request_json(request@),
{
    let messages = request.messages();
    assert(messages@.len() == 2 && messages[0]@ == request@.messages()[0] && messages[1]@
        == request@.messages()[1]) by {
        assert(message_views(messages@).len() == 2);
        assert(message_views(messages@)[0] == messages[0]@);
        assert(message_views(messages@)[1] == messages[1]@);
    }
    let model = json_string(request.model());
    let system = encode_message(&messages[0]);
    let user = encode_message(&messages[1]);
    match (model, system, user) {
        (Some(model), Some(system), Some(user)) => Some(
            frame_request(model.as_str(), system.as_str(), user.as_str()),
        ),
        _ => None,
    }
}

/// The text of a request depends on the request alone. Two requests with the
/// same model and the same messages have the same text, so encoding a
/// request a second time gives the same bytes as the first.
pub proof fn lemma_encoding_repeats(first: ChatRequest, second: ChatRequest)
    requires
        first@ == second@,
    ensures
        request_json(first@) == request_json(second@),
{
}

/// Writing a reply down again as a JSON string gives the literal of the text
/// that the response held in its first choice: the text went through
/// unchanged.
pub proof fn lemma_reply_encodes_as_held(choices: Seq<Seq<char>>)
    requires
        choices.len() > 0,
    ensures
        json_string_literal(reply_of(choices)->Ok_0) == json_string_literal(choices[0]),
{
}

} // verus!
