use crate::chat::{conclude, none_response, opening_messages, resume_messages, Chat, ChatModel, ChatResponse};
use crate::message::{messages_model, ChatMessage};
use crate::store::{continue_turn, lookup, start_turn, turn_effect};
use vstd::prelude::*;

verus! {

/// The first thing a turn asks for.
pub enum Request {
    /// Send these messages to the completion provider.
    Send(Vec<ChatMessage>),
    /// Answer at once; nothing is sent and nothing is written.
    Answer(ChatResponse),
}

/// What a turn does once the provider has answered.
pub enum Outcome {
    /// Save this record under its key, then answer with the key the store
    /// reports and this reply text.
    Save(Chat, String),
    /// Answer at once; nothing is written.
    Answer(ChatResponse),
}

/// The model of what a stored record is, if anything.
pub open spec fn stored_model(stored: Option<&Chat>) -> Option<ChatModel> {
    match stored {
        Some(c) => Some(c@),
        None => None,
    }
}

/// What starting a conversation sends: the persona, then the user's text.
pub fn start_request(message: &str) -> (r: Request)
    ensures
        r matches Request::Send(ms) && messages_model(ms@) == crate::chat::opening(message@),
{
    Request::Send(opening_messages(message))
}

/// Starting a conversation under `chat_id` once the provider has given its
/// candidates: on every store, the outcome has exactly the effect of the turn.
pub fn start_step(chat_id: String, message: &str, choices: &Vec<ChatMessage>) -> (r: Outcome)
    ensures
        forall|store: Map<Seq<char>, ChatModel>|
            #[trigger] start_turn(store, chat_id@, message@, messages_model(choices@))
                == turn_effect(store, chat_id@, r),
{
    match conclude(chat_id, opening_messages(message), choices) {
        Some((chat, reply)) => Outcome::Save(chat, reply),
        None => Outcome::Answer(ChatResponse::no_response()),
    }
}

/// What continuing a conversation sends: the stored messages and then the
/// user's text; where nothing is stored, the placeholder answer instead.
pub fn continue_request(stored: Option<&Chat>, message: &str) -> (r: Request)
    ensures
        match stored {
            Some(c) => r matches Request::Send(ms) && messages_model(ms@) == crate::chat::resumed(c@, message@),
            None => r matches Request::Answer(a) && a@ == none_response(),
        },
{
    match resume_messages(stored, message) {
        Some(messages) => Request::Send(messages),
        None => Request::Answer(ChatResponse::no_response()),
    }
}

/// Continuing the conversation under `chat_id`, given what the store holds
/// under it and the provider's candidates: on every store that holds that,
/// the outcome has exactly the effect of the turn.
pub fn continue_step(chat_id: &str, stored: Option<&Chat>, message: &str, choices: &Vec<ChatMessage>) -> (r: Outcome)
    ensures
        forall|store: Map<Seq<char>, ChatModel>|
            lookup(store, chat_id@) == stored_model(stored) ==> #[trigger] continue_turn(
                store,
                chat_id@,
                message@,
                messages_model(choices@),
            ) == turn_effect(store, chat_id@, r),
{
    match resume_messages(stored, message) {
        Some(messages) => match conclude(chat_id.to_string(), messages, choices) {
            Some((chat, reply)) => Outcome::Save(chat, reply),
            None => Outcome::Answer(ChatResponse::no_response()),
        },
        None => Outcome::Answer(ChatResponse::no_response()),
    }
}

} // verus!
