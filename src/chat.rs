use crate::message::{copy_messages, message_model, messages_model, text_of, ChatMessage, MessageModel, Role};
use vstd::prelude::*;
use vstd::string::StrSliceExecFns;

verus! {

/// The persona every conversation opens with.
pub const SYSTEM_PROMPT: &'static str = "You are a helpful software engineer expert in Rust language and AWS Cloud Platform.";

/// Text that stands for a reply the provider sent without content.
pub const NO_CONTENT: &'static str = "No content in response!";

/// Text answered when no reply could be had.
pub const NO_RESPONSE: &'static str = "No response!";

/// Identifier answered when there is no conversation to speak of.
pub const NONE_ID: &'static str = "none";

/// The table conversations are stored in.
pub const CHAT_TABLE: &'static str = "chat";

/// A persisted conversation: its key and its messages in order.
#[derive(Debug)]
pub struct Chat {
    chat_id: String,
    messages: Vec<ChatMessage>,
}

/// The mathematical value of a conversation record.
pub struct ChatModel {
    pub chat_id: Seq<char>,
    pub messages: Seq<MessageModel>,
}

impl View for Chat {
    type V = ChatModel;

    closed spec fn view(&self) -> ChatModel {
        ChatModel { chat_id: self.chat_id@, messages: messages_model(self.messages@) }
    }
}

impl Chat {
    /// A record of the given key and messages.
    pub fn new(chat_id: String, messages: Vec<ChatMessage>) -> (r: Chat)
        ensures
            r@ == (ChatModel { chat_id: chat_id@, messages: messages_model(messages@) }),
    {
        Chat { chat_id, messages }
    }

    /// The key of this record.
    pub fn chat_id(&self) -> (r: &String)
        ensures
            r@ == self@.chat_id,
    {
        &self.chat_id
    }

    /// The messages of this record, in order.
    pub fn messages(&self) -> (r: &Vec<ChatMessage>)
        ensures
            messages_model(r@) == self@.messages,
    {
        &self.messages
    }

    /// Takes the record apart into its key and its messages.
    pub fn into_parts(self) -> (r: (String, Vec<ChatMessage>))
        ensures
            r.0@ == self@.chat_id,
            messages_model(r.1@) == self@.messages,
    {
        (self.chat_id, self.messages)
    }
}

/// A request that carries the user's text.
#[derive(Debug)]
pub struct ChatRequest {
    pub message: String,
}

/// The answer to starting or continuing a conversation.
#[derive(Debug)]
pub struct ChatResponse {
    chat_id: String,
    message: String,
}

impl View for ChatResponse {
    type V = (Seq<char>, Seq<char>);

    closed spec fn view(&self) -> (Seq<char>, Seq<char>) {
        (self.chat_id@, self.message@)
    }
}

/// The texts of a list of strings.
pub open spec fn strings_model(v: Seq<String>) -> Seq<Seq<char>> {
    v.map_values(|s: String| s@)
}

/// The texts of a conversation, in order.
#[derive(Debug)]
pub struct ChatHistory {
    chat_id: String,
    messages: Vec<String>,
}

impl View for ChatHistory {
    type V = (Seq<char>, Seq<Seq<char>>);

    closed spec fn view(&self) -> (Seq<char>, Seq<Seq<char>>) {
        (self.chat_id@, strings_model(self.messages@))
    }
}

/// The keys of the stored conversations.
#[derive(Debug)]
pub struct ChatList {
    chats: Vec<String>,
}

impl View for ChatList {
    type V = Seq<Seq<char>>;

    closed spec fn view(&self) -> Seq<Seq<char>> {
        strings_model(self.chats@)
    }
}

impl ChatResponse {
    /// A response naming a conversation and the reply's text.
    pub fn new(chat_id: String, message: String) -> (r: ChatResponse)
        ensures
            r@ == (chat_id@, message@),
    {
        ChatResponse { chat_id, message }
    }

    /// The placeholder answer: no conversation and no reply.
    pub fn no_response() -> (r: ChatResponse)
        ensures
            r@ == none_response(),
    {
        ChatResponse { chat_id: NONE_ID.to_string(), message: NO_RESPONSE.to_string() }
    }

    pub fn chat_id(&self) -> (r: &String)
        ensures
            r@ == self@.0,
    {
        &self.chat_id
    }

    pub fn message(&self) -> (r: &String)
        ensures
            r@ == self@.1,
    {
        &self.message
    }
}

impl ChatHistory {
    pub fn chat_id(&self) -> (r: &String)
        ensures
            r@ == self@.0,
    {
        &self.chat_id
    }

    pub fn messages(&self) -> (r: &Vec<String>)
        ensures
            strings_model(r@) == self@.1,
    {
        &self.messages
    }
}

impl ChatList {
    pub fn chats(&self) -> (r: &Vec<String>)
        ensures
            strings_model(r@) == self@,
    {
        &self.chats
    }
}

/// The placeholder answer.
pub open spec fn none_response() -> (Seq<char>, Seq<char>) {
    (NONE_ID@, NO_RESPONSE@)
}

/// The messages a new conversation sends first: the persona, then the user's text.
pub open spec fn opening(text: Seq<char>) -> Seq<MessageModel> {
    seq![message_model(Role::System, SYSTEM_PROMPT@), message_model(Role::User, text)]
}

/// The reply taken from the provider's candidates: the first one, with its
/// role, and with placeholder text where it has no content.
pub open spec fn reply_of(choices: Seq<MessageModel>) -> Option<MessageModel> {
    if choices.len() == 0 {
        None
    } else {
        Some(
            MessageModel {
                role: choices[0].role,
                content: Some(
                    match choices[0].content {
                        Some(t) => t,
                        None => NO_CONTENT@,
                    },
                ),
            },
        )
    }
}

/// The end of a turn: the record to save with the reply appended, and the
/// reply's text; none where the provider gave no candidate.
pub open spec fn concluded(
    chat_id: Seq<char>,
    messages: Seq<MessageModel>,
    choices: Seq<MessageModel>,
) -> Option<(ChatModel, Seq<char>)> {
    match reply_of(choices) {
        Some(reply) => Some(
            (ChatModel { chat_id, messages: messages.push(reply) }, text_of(reply)),
        ),
        None => None,
    }
}

/// The messages a continued conversation sends: the stored ones, then the user's text.
pub open spec fn resumed(stored: ChatModel, text: Seq<char>) -> Seq<MessageModel> {
    stored.messages.push(message_model(Role::User, text))
}

/// The history answered for a key: the stored texts in order, or the
/// placeholder key with no texts where nothing is stored.
pub open spec fn history(chat_id: Seq<char>, stored: Option<ChatModel>) -> (Seq<char>, Seq<Seq<char>>) {
    match stored {
        Some(c) => (chat_id, c.messages.map_values(|m: MessageModel| text_of(m))),
        None => (NONE_ID@, Seq::empty()),
    }
}

/// The keys of a sequence of records, in the same order.
pub open spec fn listing(chats: Seq<ChatModel>) -> Seq<Seq<char>> {
    chats.map_values(|c: ChatModel| c.chat_id)
}

/// What is left of a record key after its last `:` (all of it where there is none).
pub open spec fn last_segment(s: Seq<char>) -> Seq<char>
    decreases s.len(),
{
    if s.len() == 0 {
        s
    } else if s.last() == ':' {
        Seq::empty()
    } else {
        last_segment(s.drop_last()).push(s.last())
    }
}

/// The messages that open a new conversation.
pub fn opening_messages(message: &str) -> (r: Vec<ChatMessage>)
    ensures
        messages_model(r@) == opening(message@),
{
    let r = vec![ChatMessage::new(Role::System, SYSTEM_PROMPT), ChatMessage::new(Role::User, message)];
    assert(messages_model(r@) =~= opening(message@));
    r
}

/// The reply chosen among the provider's candidates.
pub fn first_reply(choices: &Vec<ChatMessage>) -> (r: Option<ChatMessage>)
    ensures
        match r {
            Some(m) => reply_of(messages_model(choices@)) == Some(m@),
            None => reply_of(messages_model(choices@)) is None,
        },
{
    if choices.len() == 0 {
        None
    } else {
        let first = &choices[0];
        let content = match &first.content {
            Some(t) => t.clone(),
            None => NO_CONTENT.to_string(),
        };
        Some(ChatMessage { role: first.role, content: Some(content) })
    }
}

/// Appends the chosen reply to the turn's messages, giving the record to
/// save and the reply's text; `None` where the provider gave no candidate.
pub fn conclude(chat_id: String, messages: Vec<ChatMessage>, choices: &Vec<ChatMessage>) -> (r: Option<(Chat, String)>)
    ensures
        match r {
            Some((c, t)) => concluded(chat_id@, messages_model(messages@), messages_model(choices@)) == Some((c@, t@)),
            None => concluded(chat_id@, messages_model(messages@), messages_model(choices@)) is None,
        },
{
    match first_reply(choices) {
        Some(reply) => {
            let text = reply.text();
            let mut messages = messages;
            let ghost before = messages@;
            messages.push(reply);
            assert(messages_model(messages@) =~= messages_model(before).push(reply@));
            Some((Chat::new(chat_id, messages), text))
        },
        None => None,
    }
}

/// The messages to send when continuing a stored conversation; `None`
/// where nothing is stored under the key.
pub fn resume_messages(stored: Option<&Chat>, message: &str) -> (r: Option<Vec<ChatMessage>>)
    ensures
        match stored {
            Some(c) => r is Some && messages_model(r->Some_0@) == resumed(c@, message@),
            None => r is None,
        },
{
    match stored {
        Some(chat) => {
            let mut messages = copy_messages(chat.messages());
            let ghost before = messages@;
            messages.push(ChatMessage::new(Role::User, message));
            assert(messages_model(messages@) =~= messages_model(before).push(message_model(Role::User, message@)));
            Some(messages)
        },
        None => None,
    }
}

/// The history answered for a key, given what the store holds under it.
pub fn chat_history(chat_id: &str, stored: Option<Chat>) -> (r: ChatHistory)
    ensures
        r@ == history(chat_id@, match stored { Some(c) => Some(c@), None => None }),
{
    match stored {
        Some(chat) => {
            let (_, messages) = chat.into_parts();
            let mut texts: Vec<String> = Vec::new();
            let mut i: usize = 0;
            while i < messages.len()
                invariant
                    i <= messages@.len(),
                    texts@.len() == i,
                    forall|j: int| 0 <= j < i ==> #[trigger] texts@[j]@ == text_of(messages@[j]@),
                decreases messages@.len() - i,
            {
                texts.push(messages[i].text());
                i = i + 1;
            }
            let r = ChatHistory { chat_id: chat_id.to_string(), messages: texts };
            assert(r@.1 =~= messages_model(messages@).map_values(|m: MessageModel| text_of(m)));
            r
        },
        None => ChatHistory { chat_id: NONE_ID.to_string(), messages: Vec::new() },
    }
}

/// The models of a sequence of records.
pub open spec fn chats_model(chats: Seq<Chat>) -> Seq<ChatModel> {
    chats.map_values(|c: Chat| c@)
}

/// The keys of the given records, in the same order.
pub fn chat_list(chats: Vec<Chat>) -> (r: ChatList)
    ensures
        r@ == listing(chats_model(chats@)),
{
    let mut ids: Vec<String> = Vec::new();
    let mut i: usize = 0;
    while i < chats.len()
        invariant
            i <= chats@.len(),
            ids@.len() == i,
            forall|j: int| 0 <= j < i ==> #[trigger] ids@[j]@ == chats@[j]@.chat_id,
        decreases chats@.len() - i,
    {
        ids.push(chats[i].chat_id().clone());
        i = i + 1;
    }
    let r = ChatList { chats: ids };
    assert(r@ =~= listing(chats_model(chats@)));
    r
}

/// The key of a record, read from the identifier the store gave it
/// (`table:key`): what follows the last `:`.
pub fn record_key(record_id: &str) -> (r: String)
    ensures
        r@ == last_segment(record_id@),
{
    let n = record_id.unicode_len();
    let mut start: usize = n;
    assert(record_id@.subrange(0, n as int) =~= record_id@);
    assert(last_segment(record_id@) =~= last_segment(record_id@) + record_id@.subrange(n as int, n as int));
    while start > 0 && record_id.get_char(start - 1) != ':'
        invariant
            start <= n,
            n == record_id@.len(),
            last_segment(record_id@) == last_segment(record_id@.subrange(0, start as int))
                + record_id@.subrange(start as int, n as int),
        decreases start,
    {
        let ghost s = record_id@;
        let ghost head = s.subrange(0, start as int);
        assert(head.drop_last() =~= s.subrange(0, start - 1));
        assert(head.last() == s[start - 1]);
        assert(last_segment(head) == last_segment(s.subrange(0, start - 1)).push(s[start - 1]));
        assert(last_segment(s.subrange(0, start - 1)).push(s[start - 1]) + s.subrange(start as int, n as int)
            =~= last_segment(s.subrange(0, start - 1)) + s.subrange(start - 1, n as int));
        start = start - 1;
    }
    proof {
        let s = record_id@;
        if start > 0 {
            assert(s.subrange(0, start as int).last() == s[start - 1]);
        }
        assert(last_segment(s.subrange(0, start as int)) =~= Seq::empty());
        assert(last_segment(s) =~= s.subrange(start as int, n as int));
    }
    record_id.substring_char(start, n).to_string()
}

impl ChatResponse {
    /// The answer after a record was saved: the key read from the
    /// identifier the store gave it, and the reply's text.
    pub fn saved(record_id: &str, message: String) -> (r: ChatResponse)
        ensures
            r@ == (last_segment(record_id@), message@),
    {
        ChatResponse { chat_id: record_key(record_id), message }
    }
}

} // verus!
