//! The request of one exchange: a model and a fixed pair of messages.

use vstd::prelude::*;
use vstd::string::*;
use crate::message::{message_views, Message, MessageView, Role};

verus! {

/// The model that every request names.
pub const MODEL: &'static str = "gpt-4.1";

/// The instruction that every request opens with.
pub const SYSTEM_PROMPT: &'static str = "Você é um assistente útil.";

/// What a [`ChatRequest`] is in contracts: the model, the instruction and the
/// user's text.
pub struct ChatRequestView {
    pub model: Seq<char>,
    pub system: Seq<char>,
    pub user: Seq<char>,
}

impl ChatRequestView {
    /// The messages of the request in the order in which they are sent: the
    /// system message, then the user message.
    pub open spec fn messages(self) -> Seq<MessageView> {
        seq![
            MessageView { role: Role::System, content: self.system },
            MessageView { role: Role::User, content: self.user },
        ]
    }
}

/// The request that a prompt gives rise to.
pub open spec fn request_for(prompt: Seq<char>) -> ChatRequestView {
    ChatRequestView { model: MODEL@, system: SYSTEM_PROMPT@, user: prompt }
}

/// The payload of one exchange. It holds one system message and one user
/// message and nothing else: no history is kept from call to call.
#[derive(Clone, Debug, PartialEq, Eq)]
pub struct ChatRequest {
    model: String,
    system: String,
    user: String,
}

impl View for ChatRequest {
    type V = ChatRequestView;

    closed spec fn view(&self) -> ChatRequestView {
        ChatRequestView { model: self.model@, system: self.system@, user: self.user@ }
    }
}

impl ChatRequest {
    /// A request to `model` with the instruction `system` and the user's text `user`.
    pub fn new(model: &str, system: &str, user: &str) -> (request: ChatRequest)
        ensures
            request@ == (ChatRequestView { model: model@, system: system@, user: user@ }),
    {
        ChatRequest { model: model.to_owned(), system: system.to_owned(), user: user.to_owned() }
    }

    /// The model the request names.
    pub fn model(&self) -> (model: &str)
        ensures
            model@ == self@.model,
    {
        self.model.as_str()
    }

    /// The text of the system message.
    pub fn system(&self) -> (system: &str)
        ensures
            system@ == self@.system,
    {
        self.system.as_str()
    }

    /// The text of the user message.
    pub fn user(&self) -> (user: &str)
        ensures
            user@ == self@.user,
    {
        self.user.as_str()
    }

    /// The messages of the request, in the order in which they are sent.
    pub fn messages(&self) -> (messages: Vec<Message>)
        ensures
            message_views(messages@) == self@.messages(),
    {
        let mut messages: Vec<Message> = Vec::new();
        messages.push(Message::new(Role::System, self.system.as_str()));
        messages.push(Message::new(Role::User, self.user.as_str()));
        assert(message_views(messages@) =~= self@.messages());
        messages
    }
}

/// Builds the request for `prompt`: the fixed model, the fixed instruction as
/// the system message, and `prompt`, unchanged, as the user message.
pub fn build_request(prompt: &str) -> (request: ChatRequest)
    ensures
        request@ == request_for(prompt@),
{
    ChatRequest::new(MODEL, SYSTEM_PROMPT, prompt)
}

/// Whatever the prompt, its request holds exactly two messages, the first from
/// the system and the second from the user, and the user message is the
/// prompt itself.
pub proof fn lemma_request_shape(prompt: Seq<char>)
    ensures
        request_for(prompt).messages().len() == 2,
        request_for(prompt).messages()[0].role == Role::System,
        request_for(prompt).messages()[0].content == SYSTEM_PROMPT@,
        request_for(prompt).messages()[1].role == Role::User,
        request_for(prompt).messages()[1].content == prompt,
        request_for(prompt).model == MODEL@,
{
}

} // verus!
