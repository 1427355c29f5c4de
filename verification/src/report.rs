//! What the command-line program says.

use vstd::prelude::*;
use vstd::string::*;

verus! {

/// The one prompt that the program sends.
pub const PROMPT: &'static str = "Explique em uma frase o que é Rust.";

/// What stands before the reply on its line.
pub const REPLY_LABEL: &'static str = "Resposta: ";

/// The line that is printed for a reply: the label, then the reply as it came.
pub fn reply_line(reply: &str) -> (line: String)
    ensures
        line@ == REPLY_LABEL@ + reply@,
{
    let mut line = String::from_str(REPLY_LABEL);
    line.append(reply);
    line
}

} // verus!
