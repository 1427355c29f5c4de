//! A client for one chat-completion exchange with a hosted language model.
//!
//! The library holds everything the exchange decides: the request that is
//! built from a prompt, the JSON text that goes on the wire, and the rules
//! that turn a credential lookup, a status code and a decoded body into the
//! reply or into one of five errors. It performs no I/O itself. A driver
//! feeds an [`Exchange`] the events it observes and carries out the actions
//! it gets back.

pub mod error;
pub mod exchange;
pub mod message;
pub mod outbound;
pub mod report;
pub mod request;
pub mod response;
pub mod run;
pub mod wire;

pub use error::ChatError;
pub use exchange::{Action, Event, Exchange, Stage};
pub use message::{Message, Role};
pub use outbound::{authorization_value, prepare, Header, PostRequest};
pub use report::reply_line;
pub use request::{build_request, ChatRequest};
pub use response::{first_reply, ChatResponse, Choice, ChoiceMessage};
pub use wire::{encode_message, encode_request};
