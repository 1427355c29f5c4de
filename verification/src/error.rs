//! The ways in which an exchange can fail.

use vstd::prelude::*;

verus! {

/// Why an exchange ended without a reply.
#[derive(Clone, Copy, Debug, PartialEq, Eq, Structural)]
pub enum ChatError {
    /// The credential was not set; nothing was sent.
    MissingCredential,
    /// The server answered with a client or server error status.
    HttpStatus(u16),
    /// The body could not be decoded into the expected shape.
    MalformedResponse,
    /// The body was decoded but held no choice.
    NoChoices,
    /// The request or the response was lost on the way.
    TransportError,
}

/// Whether `code` is a client error (400 to 499) or a server error (500 to 599).
pub open spec fn is_error_status(code: u16) -> bool {
    400 <= code < 600
}

/// Tells whether a response with status `code` is refused.
pub fn status_is_error(code: u16) -> (refused: bool)
    ensures
        refused == is_error_status(code),
{
    400 <= code && code < 600
}

} // verus!
