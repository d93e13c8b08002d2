use vstd::prelude::*;

verus! {

/// The speaker of a message.
#[derive(Clone, Copy, Debug, PartialEq, Eq, Structural)]
pub enum Role {
    System,
    User,
    Assistant,
    Function,
}

/// One turn of a conversation: a role and its text.
#[derive(Debug)]
pub struct ChatMessage {
    pub role: Role,
    pub content: Option<String>,
}

/// The mathematical value of a message.
pub struct MessageModel {
    pub role: Role,
    pub content: Option<Seq<char>>,
}

impl View for ChatMessage {
    type V = MessageModel;

    open spec fn view(&self) -> MessageModel {
        MessageModel {
            role: self.role,
            content: match self.content {
                Some(s) => Some(s@),
                None => None,
            },
        }
    }
}

/// The model of a message with the given role and text.
pub open spec fn message_model(role: Role, text: Seq<char>) -> MessageModel {
    MessageModel { role, content: Some(text) }
}

/// The text of a message; a message without content reads as empty.
pub open spec fn text_of(m: MessageModel) -> Seq<char> {
    match m.content {
        Some(t) => t,
        None => Seq::empty(),
    }
}

/// The models of a sequence of messages.
pub open spec fn messages_model(ms: Seq<ChatMessage>) -> Seq<MessageModel> {
    ms.map_values(|m: ChatMessage| m@)
}

impl Clone for ChatMessage {
    fn clone(&self) -> (r: Self)
        ensures
            r@ == self@,
    {
        let content = match &self.content {
            Some(s) => Some(s.clone()),
            None => None,
        };
        ChatMessage { role: self.role, content }
    }
}

impl ChatMessage {
    /// A message with the given role and text.
    pub fn new(role: Role, content: &str) -> (r: ChatMessage)
        ensures
            r@ == message_model(role, content@),
    {
        ChatMessage { role, content: Some(content.to_string()) }
    }

    /// The text of this message, empty where it has none.
    pub fn text(&self) -> (r: String)
        ensures
            r@ == text_of(self@),
    {
        match &self.content {
            Some(s) => s.clone(),
            None => String::new(),
        }
    }
}

/// Copies a list of messages, one for one.
pub fn copy_messages(ms: &Vec<ChatMessage>) -> (r: Vec<ChatMessage>)
    ensures
        messages_model(r@) == messages_model(ms@),
{
    let mut r: Vec<ChatMessage> = Vec::new();
    let mut i: usize = 0;
    while i < ms.len()
        invariant
            i <= ms@.len(),
            r@.len() == i,
            forall|j: int| 0 <= j < i ==> #[trigger] r@[j]@ == ms@[j]@,
        decreases ms@.len() - i,
    {
        r.push(ms[i].clone());
        i = i + 1;
    }
    assert(messages_model(r@) =~= messages_model(ms@));
    r
}

} // verus!
