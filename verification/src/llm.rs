//! Chat completion requests as plain values, and the reading of their replies.

use vstd::prelude::*;

verus! {

/// A chat completion request with a JSON-schema constrained answer: the model, the system
/// and user messages, and the schema's name and JSON text (strict).
pub struct ChatRequest {
    pub model: String,
    pub system: String,
    pub user: String,
    pub schema_name: String,
    pub schema: String,
}

/// Why a reply from the LLM could not be used.
#[derive(PartialEq, Eq, Structural, Clone, Copy, Debug)]
pub enum ReplyError {
    /// The reply had no choice, or its first choice carried no content.
    NoContent,
}

/// The content of the first choice of a reply, if there is a first choice and it has content.
pub open spec fn first_content(choices: Seq<Option<String>>) -> Option<String> {
    if choices.len() > 0 {
        choices[0]
    } else {
        None
    }
}

/// The content of the first choice of a reply, given the contents of its choices in order.
pub fn first_choice_content(choices: Vec<Option<String>>) -> (r: Result<String, ReplyError>)
    ensures
        match first_content(choices@) {
            Some(c) => r == Ok::<String, ReplyError>(c),
            None => r == Err::<String, ReplyError>(ReplyError::NoContent),
        },
{
    let mut choices = choices;
    if choices.len() == 0 {
        return Err(ReplyError::NoContent);
    }
    match choices.swap_remove(0) {
        Some(c) => Ok(c),
        None => Err(ReplyError::NoContent),
    }
}

} // verus!
