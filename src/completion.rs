use crate::message::{copy_messages, messages_model, ChatMessage};
use vstd::prelude::*;

verus! {

/// The model every completion asks for.
pub const MODEL: &'static str = "gpt-3.5-turbo";

/// The bound on the length of every reply.
pub const MAX_TOKENS: u16 = 512;

/// A request to the completion provider.
#[derive(Debug)]
pub struct CompletionRequest {
    pub model: String,
    pub max_tokens: u16,
    pub messages: Vec<ChatMessage>,
}

/// The request that sends `messages`, in order, with the fixed model and length bound.
pub fn completion_request(messages: &Vec<ChatMessage>) -> (r: CompletionRequest)
    ensures
        r.model@ == MODEL@,
        r.max_tokens == MAX_TOKENS,
        messages_model(r.messages@) == messages_model(messages@),
{
    CompletionRequest { model: MODEL.to_string(), max_tokens: MAX_TOKENS, messages: copy_messages(messages) }
}

} // verus!
