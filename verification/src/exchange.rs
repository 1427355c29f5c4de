//! One exchange, step by step.
//!
//! The exchange itself does no I/O. Whoever drives it looks up the credential,
//! sends the request and reads the response, and tells the exchange what it
//! saw, one [`Event`] at a time. Each event is answered with the [`Action`] to
//! carry out next. An event that the exchange is not waiting for changes
//! nothing and asks for nothing.

use vstd::prelude::*;
use vstd::string::*;
use crate::error::{is_error_status, status_is_error, ChatError};
use crate::outbound::{post_for, prepare, PostRequest, PostRequestView};
use crate::response::{first_reply, reply_of, reply_text, ChatResponse};

verus! {

/// How far an exchange has come.
#[derive(Clone, Copy, Debug, PartialEq, Eq, Structural)]
pub enum Stage {
    /// Nothing was sent yet; the credential is still to be looked up.
    NotStarted,
    /// The request is on its way; no status was seen yet.
    AwaitingResponse,
    /// The status was accepted; the body is still to be read.
    AwaitingBody,
    /// The reply was handed out.
    Completed,
    /// An error was handed out.
    Failed,
}

impl Stage {
    /// Whether the exchange is over.
    pub open spec fn is_terminal(self) -> bool {
        self is Completed || self is Failed
    }
}

/// What the driver saw.
#[derive(Clone, Debug, PartialEq, Eq)]
pub enum Event {
    /// The credential is set, to this value.
    CredentialFound(String),
    /// The credential is not set.
    CredentialMissing,
    /// The request could not be sent, or the response could not be read.
    TransportFailed,
    /// The response arrived with this status code.
    StatusReceived(u16),
    /// The body was read and decoded.
    BodyDecoded(ChatResponse),
    /// The body was read but is not of the expected shape.
    BodyMalformed,
}

/// What an [`Event`] is in contracts.
pub enum EventView {
    CredentialFound(Seq<char>),
    CredentialMissing,
    TransportFailed,
    StatusReceived(u16),
    BodyDecoded(Seq<Seq<char>>),
    BodyMalformed,
}

impl View for Event {
    type V = EventView;

    open spec fn view(&self) -> EventView {
        match self {
            Event::CredentialFound(credential) => EventView::CredentialFound(credential@),
            Event::CredentialMissing => EventView::CredentialMissing,
            Event::TransportFailed => EventView::TransportFailed,
            Event::StatusReceived(code) => EventView::StatusReceived(*code),
            Event::BodyDecoded(response) => EventView::BodyDecoded(response@),
            Event::BodyMalformed => EventView::BodyMalformed,
        }
    }
}

/// What the driver is to do next.
#[derive(Debug, PartialEq, Eq)]
pub enum Action {
    /// Send this request, once, and report the status or the failure.
    Send(PostRequest),
    /// Read the body and decode it, and report the outcome.
    ReadBody,
    /// Hand this result to the caller. The exchange is over.
    Finish(Result<String, ChatError>),
    /// Do nothing: the event was not awaited.
    Nothing,
}

/// What an [`Action`] is in contracts.
pub enum ActionView {
    Send(PostRequestView),
    ReadBody,
    Finish(Result<Seq<char>, ChatError>),
    Nothing,
}

impl View for Action {
    type V = ActionView;

    open spec fn view(&self) -> ActionView {
        match self {
            Action::Send(post) => ActionView::Send(post@),
            Action::ReadBody => ActionView::ReadBody,
            Action::Finish(result) => ActionView::Finish(reply_text(*result)),
            Action::Nothing => ActionView::Nothing,
        }
    }
}

/// What an [`Exchange`] is in contracts: its stage and the prompt it is for.
pub struct ExchangeView {
    pub stage: Stage,
    pub prompt: Seq<char>,
}

/// An exchange for `prompt` that has not started.
pub open spec fn fresh(prompt: Seq<char>) -> ExchangeView {
    ExchangeView { stage: Stage::NotStarted, prompt }
}

/// The stage that follows `stage` on `event`.
pub open spec fn next_stage(stage: Stage, event: EventView) -> Stage {
    match (stage, event) {
        (Stage::NotStarted, EventView::CredentialMissing) => Stage::Failed,
        (Stage::NotStarted, EventView::CredentialFound(_)) => Stage::AwaitingResponse,
        (Stage::AwaitingResponse, EventView::TransportFailed) => Stage::Failed,
        (Stage::AwaitingResponse, EventView::StatusReceived(code)) => if is_error_status(code) {
            Stage::Failed
        } else {
            Stage::AwaitingBody
        },
        (Stage::AwaitingBody, EventView::TransportFailed) => Stage::Failed,
        (Stage::AwaitingBody, EventView::BodyMalformed) => Stage::Failed,
        (Stage::AwaitingBody, EventView::BodyDecoded(choices)) => if choices.len() == 0 {
            Stage::Failed
        } else {
            Stage::Completed
        },
        _ => stage,
    }
}

/// The action with which an exchange for `prompt` at `stage` answers `event`.
pub open spec fn action_on(stage: Stage, prompt: Seq<char>, event: EventView) -> ActionView {
    match (stage, event) {
        (Stage::NotStarted, EventView::CredentialMissing) => ActionView::Finish(
            Err(ChatError::MissingCredential),
        ),
        (Stage::NotStarted, EventView::CredentialFound(credential)) => ActionView::Send(
            post_for(credential, prompt),
        ),
        (Stage::AwaitingResponse, EventView::TransportFailed) => ActionView::Finish(
            Err(ChatError::TransportError),
        ),
        (Stage::AwaitingResponse, EventView::StatusReceived(code)) => if is_error_status(code) {
            ActionView::Finish(Err(ChatError::HttpStatus(code)))
        } else {
            ActionView::ReadBody
        },
        (Stage::AwaitingBody, EventView::TransportFailed) => ActionView::Finish(
            Err(ChatError::TransportError),
        ),
        (Stage::AwaitingBody, EventView::BodyMalformed) => ActionView::Finish(
            Err(ChatError::MalformedResponse),
        ),
        (Stage::AwaitingBody, EventView::BodyDecoded(choices)) => ActionView::Finish(
            reply_of(choices),
        ),
        _ => ActionView::Nothing,
    }
}

/// One step of an exchange: the state that follows, and the action.
pub open spec fn step(state: ExchangeView, event: EventView) -> (ExchangeView, ActionView) {
    (
        ExchangeView { stage: next_stage(state.stage, event), prompt: state.prompt },
        action_on(state.stage, state.prompt, event),
    )
}

/// The exchange for one prompt.
#[derive(Clone, Debug, PartialEq, Eq)]
pub struct Exchange {
    stage: Stage,
    prompt: String,
}

impl View for Exchange {
    type V = ExchangeView;

    closed spec fn view(&self) -> ExchangeView {
        ExchangeView { stage: self.stage, prompt: self.prompt@ }
    }
}

impl Exchange {
    /// An exchange for `prompt` that has not started.
    pub fn new(prompt: &str) -> (exchange: Exchange)
        ensures
            exchange@ == fresh(prompt@),
    {
        Exchange { stage: Stage::NotStarted, prompt: prompt.to_owned() }
    }

    /// How far the exchange has come.
    pub fn stage(&self) -> (stage: Stage)
        ensures
            stage == self@.stage,
    {
        self.stage
    }

    /// The prompt the exchange is for.
    pub fn prompt(&self) -> (prompt: &str)
        ensures
            prompt@ == self@.prompt,
    {
        self.prompt.as_str()
    }

    /// Whether the exchange is over.
    pub fn is_over(&self) -> (over: bool)
        ensures
            over == self@.stage.is_terminal(),
    {
        match self.stage {
            Stage::Completed => true,
            Stage::Failed => true,
            _ => false,
        }
    }

    /// Takes one event and answers with the next action.
    ///
    /// Before anything is sent, a missing credential ends the exchange with
    /// `MissingCredential`, and a credential that was found asks for the
    /// request to be sent. While the response is awaited, an error status
    /// ends the exchange with `HttpStatus` and any other status asks for the
    /// body. While the body is awaited, a malformed body ends the exchange
    /// with `MalformedResponse`, and a decoded one ends it with the first
    /// choice's text or with `NoChoices`. A transport failure ends the
    /// exchange with `TransportError` from either wait. Every other event
    /// leaves the exchange as it is.
    pub fn advance(&mut self, event: Event) -> (action: Action)
        ensures
            (final(self)@, action@) == step(old(self)@, event@),
    {
        match self.stage {
            Stage::NotStarted => match event {
                Event::CredentialMissing => {
                    self.stage = Stage::Failed;
                    Action::Finish(Err(ChatError::MissingCredential))
                },
                Event::CredentialFound(credential) => {
                    self.stage = Stage::AwaitingResponse;
                    Action::Send(prepare(credential.as_str(), self.prompt.as_str()))
                },
                _ => Action::Nothing,
            },
            Stage::AwaitingResponse => match event {
                Event::TransportFailed => {
                    self.stage = Stage::Failed;
                    Action::Finish(Err(ChatError::TransportError))
                },
                Event::StatusReceived(code) => {
                    if status_is_error(code) {
                        self.stage = Stage::Failed;
                        Action::Finish(Err(ChatError::HttpStatus(code)))
                    } else {
                        self.stage = Stage::AwaitingBody;
                        Action::ReadBody
                    }
                },
                _ => Action::Nothing,
            },
            Stage::AwaitingBody => match event {
                Event::TransportFailed => {
                    self.stage = Stage::Failed;
                    Action::Finish(Err(ChatError::TransportError))
                },
                Event::BodyMalformed => {
                    self.stage = Stage::Failed;
                    Action::Finish(Err(ChatError::MalformedResponse))
                },
                Event::BodyDecoded(response) => {
                    let reply = first_reply(response);
                    self.stage = match reply {
                        Ok(_) => Stage::Completed,
                        Err(_) => Stage::Failed,
                    };
                    Action::Finish(reply)
                },
                _ => Action::Nothing,
            },
            _ => Action::Nothing,
        }
    }
}

} // verus!
