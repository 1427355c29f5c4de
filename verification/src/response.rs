//! The reply envelope of one exchange, and the text that is taken from it.

use vstd::prelude::*;
use vstd::string::*;
use crate::error::ChatError;

verus! {

/// The message of a choice. Only its text is kept.
#[derive(Clone, Debug, PartialEq, Eq)]
pub struct ChoiceMessage {
    pub content: String,
}

/// One candidate completion.
#[derive(Clone, Debug, PartialEq, Eq)]
pub struct Choice {
    pub message: ChoiceMessage,
}

/// The decoded body of a response: the choices in the order in which the
/// server gave them.
#[derive(Clone, Debug, PartialEq, Eq)]
pub struct ChatResponse {
    pub choices: Vec<Choice>,
}

impl View for Choice {
    type V = Seq<char>;

    /// A choice is the text of its message.
    open spec fn view(&self) -> Seq<char> {
        self.message.content@
    }
}

impl View for ChatResponse {
    type V = Seq<Seq<char>>;

    /// A response is the run of its choices' texts.
    open spec fn view(&self) -> Seq<Seq<char>> {
        self.choices@.map_values(|c: Choice| c@)
    }
}

impl Choice {
    /// A choice whose message has the text `content`, unchanged.
    pub fn new(content: &str) -> (choice: Choice)
        ensures
            choice@ == content@,
    {
        Choice { message: ChoiceMessage { content: content.to_owned() } }
    }
}

/// What a response with the given choices yields: the text of the first
/// choice as it stands, or `NoChoices` where there is none.
pub open spec fn reply_of(choices: Seq<Seq<char>>) -> Result<Seq<char>, ChatError> {
    if choices.len() == 0 {
        Err(ChatError::NoChoices)
    } else {
        Ok(choices[0])
    }
}

/// The characters of a reply, or the error in its place.
pub open spec fn reply_text(reply: Result<String, ChatError>) -> Result<Seq<char>, ChatError> {
    match reply {
        Ok(text) => Ok(text@),
        Err(error) => Err(error),
    }
}

/// Takes the reply out of a response: the first choice's text, character for
/// character. The other choices are dropped. An empty list of choices is the
/// error `NoChoices`.
pub fn first_reply(response: ChatResponse) -> (reply: Result<String, ChatError>)
    ensures
        reply_text(reply) == reply_of(response@),
{
    let mut choices = response.choices;
    if choices.len() == 0 {
        Err(ChatError::NoChoices)
    } else {
        let first = choices.swap_remove(0);
        Ok(first.message.content)
    }
}

/// Nothing is done to the text on its way out: where a response holds a
/// choice, the reply is the first choice's text itself, of the same length and
/// with the same character at every place.
pub proof fn lemma_reply_is_verbatim(choices: Seq<Seq<char>>)
    requires
        choices.len() > 0,
    ensures
        reply_of(choices) == Ok::<Seq<char>, ChatError>(choices[0]),
        reply_of(choices)->Ok_0.len() == choices[0].len(),
        forall|i: int| 0 <= i < choices[0].len() ==> reply_of(choices)->Ok_0[i] == choices[0][i],
{
}

/// A reply is owed exactly where there is a choice, and `NoChoices` is the
/// only error that a decoded response can give.
pub proof fn lemma_reply_or_no_choices(choices: Seq<Seq<char>>)
    ensures
        reply_of(choices) is Ok <==> choices.len() > 0,
        reply_of(choices) is Err ==> reply_of(choices) == Err::<Seq<char>, ChatError>(
            ChatError::NoChoices,
        ),
{
}

} // verus!
