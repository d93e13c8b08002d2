use cgpt::chat::{
    chat_history, chat_list, conclude, first_reply, opening_messages, record_key, resume_messages, Chat,
    ChatResponse, CHAT_TABLE, NONE_ID, NO_CONTENT, NO_RESPONSE, SYSTEM_PROMPT,
};
use cgpt::completion::{completion_request, MAX_TOKENS, MODEL};
use cgpt::config::Config;
use cgpt::id::{chat_id_from_indices, generate_chat_id, ID_ALPHABET, ID_LENGTH};
use cgpt::service::{continue_request, continue_step, start_request, start_step, Outcome, Request};
use cgpt::message::{copy_messages, ChatMessage, Role};

fn assistant(text: &str) -> ChatMessage {
    ChatMessage::new(Role::Assistant, text)
}

fn texts(chat: &Chat) -> Vec<String> {
    chat.messages().iter().map(|m| m.text()).collect()
}

/// Starts a conversation the way the service does, with the given candidates.
fn start(id: &str, text: &str, choices: &Vec<ChatMessage>) -> Option<(Chat, ChatResponse)> {
    let messages = opening_messages(text);
    conclude(id.to_string(), messages, choices).map(|(chat, reply)| {
        let record_id = format!("{}:{}", CHAT_TABLE, chat.chat_id());
        (chat, ChatResponse::saved(&record_id, reply))
    })
}

#[test]
fn chat_id_is_sixteen_alphanumerics() {
    for _ in 0..50 {
        let id = generate_chat_id();
        assert_eq!(id.chars().count(), ID_LENGTH);
        assert_eq!(id.len(), 16);
        assert!(id.chars().all(|c| c.is_ascii_alphanumeric()));
    }
}

#[test]
fn chat_ids_vary() {
    let a = generate_chat_id();
    let b = generate_chat_id();
    let c = generate_chat_id();
    assert!(a != b || b != c);
}

#[test]
fn opening_is_persona_then_user_text() {
    let ms = opening_messages("Hello");
    assert_eq!(ms.len(), 2);
    assert_eq!(ms[0].role, Role::System);
    assert_eq!(ms[0].content.as_deref(), Some(SYSTEM_PROMPT));
    assert_eq!(ms[1].role, Role::User);
    assert_eq!(ms[1].content.as_deref(), Some("Hello"));
}

#[test]
fn first_reply_of_no_candidates_is_none() {
    assert!(first_reply(&vec![]).is_none());
}

#[test]
fn first_reply_takes_first_candidate() {
    let choices = vec![assistant("one"), assistant("two")];
    let r = first_reply(&choices).unwrap();
    assert_eq!(r.role, Role::Assistant);
    assert_eq!(r.content.as_deref(), Some("one"));
}

#[test]
fn first_reply_without_content_reads_placeholder() {
    let choices = vec![ChatMessage { role: Role::Function, content: None }];
    let r = first_reply(&choices).unwrap();
    assert_eq!(r.role, Role::Function);
    assert_eq!(r.content.as_deref(), Some(NO_CONTENT));
    assert_eq!(NO_CONTENT, "No content in response!");
}

#[test]
fn start_hello_scenario() {
    let id = generate_chat_id();
    let choices = vec![assistant("Hi! How can I help?")];
    let (chat, response) = start(&id, "Hello", &choices).unwrap();
    assert_eq!(response.chat_id(), &id);
    assert_eq!(response.chat_id().len(), 16);
    assert_eq!(response.message(), "Hi! How can I help?");
    let history = chat_history(&id, Some(chat));
    assert_eq!(history.chat_id(), &id);
    assert_eq!(
        history.messages(),
        &vec![SYSTEM_PROMPT.to_string(), "Hello".to_string(), "Hi! How can I help?".to_string()]
    );
}

#[test]
fn start_without_candidates_writes_nothing() {
    assert!(start("aB3xQ9aB3xQ9aB3x", "Hello", &vec![]).is_none());
    let r = ChatResponse::no_response();
    assert_eq!(r.chat_id(), "none");
    assert_eq!(r.message(), "No response!");
    assert_eq!(NONE_ID, "none");
    assert_eq!(NO_RESPONSE, "No response!");
}

#[test]
fn continue_appends_user_then_reply() {
    let (chat, _) = start("abcdefghijklmnop", "first", &vec![assistant("r1")]).unwrap();
    let before = texts(&chat);
    let messages = resume_messages(Some(&chat), "second").unwrap();
    let (chat, reply) = conclude("abcdefghijklmnop".to_string(), messages, &vec![assistant("r2")]).unwrap();
    assert_eq!(reply, "r2");
    assert_eq!(chat.chat_id(), "abcdefghijklmnop");
    let after = texts(&chat);
    assert_eq!(after.len(), before.len() + 2);
    assert_eq!(&after[..before.len()], &before[..]);
    assert_eq!(after[3], "second");
    assert_eq!(after[4], "r2");
    assert_eq!(chat.messages()[3].role, Role::User);
    assert_eq!(chat.messages()[4].role, Role::Assistant);
}

#[test]
fn continue_missing_conversation_has_nothing_to_send() {
    assert!(resume_messages(None, "hi").is_none());
}

#[test]
fn continue_without_candidates_writes_nothing() {
    let (chat, _) = start("abcdefghijklmnop", "first", &vec![assistant("r1")]).unwrap();
    let messages = resume_messages(Some(&chat), "second").unwrap();
    assert_eq!(messages.len(), 4);
    assert!(conclude("abcdefghijklmnop".to_string(), messages, &vec![]).is_none());
}

#[test]
fn history_of_missing_conversation_is_placeholder() {
    let h = chat_history("gone", None);
    assert_eq!(h.chat_id(), "none");
    assert!(h.messages().is_empty());
}

#[test]
fn history_reads_missing_content_as_empty() {
    let chat = Chat::new(
        "k".to_string(),
        vec![ChatMessage::new(Role::System, "p"), ChatMessage { role: Role::Assistant, content: None }],
    );
    let h = chat_history("k", Some(chat));
    assert_eq!(h.messages(), &vec!["p".to_string(), String::new()]);
}

#[test]
fn list_after_creates_and_deletes() {
    let mut store: Vec<Chat> = Vec::new();
    for i in 0..5 {
        let id = generate_chat_id();
        let (chat, _) = start(&id, &format!("msg {}", i), &vec![assistant("ok")]).unwrap();
        store.push(chat);
    }
    let deleted: Vec<String> = vec![store[1].chat_id().clone(), store[3].chat_id().clone()];
    store.retain(|c| !deleted.contains(c.chat_id()));
    let expected: Vec<String> = store.iter().map(|c| c.chat_id().clone()).collect();
    let list = chat_list(store);
    assert_eq!(list.chats().len(), 3);
    assert_eq!(list.chats(), &expected);
}

#[test]
fn list_of_empty_store_is_empty() {
    assert!(chat_list(Vec::new()).chats().is_empty());
}

#[test]
fn record_key_takes_text_after_last_colon() {
    assert_eq!(record_key("chat:aB3xQ9aB3xQ9aB3x"), "aB3xQ9aB3xQ9aB3x");
    assert_eq!(record_key("a:b:c"), "c");
    assert_eq!(record_key("plain"), "plain");
    assert_eq!(record_key("chat:"), "");
    assert_eq!(record_key(""), "");
}

#[test]
fn saved_response_reads_record_key() {
    let r = ChatResponse::saved("chat:xyz", "text".to_string());
    assert_eq!(r.chat_id(), "xyz");
    assert_eq!(r.message(), "text");
}

#[test]
fn record_round_trip_keeps_messages() {
    let ms = vec![ChatMessage::new(Role::System, "s"), ChatMessage::new(Role::User, "u"), assistant("a")];
    let chat = Chat::new("id".to_string(), copy_messages(&ms));
    let (id, back) = chat.into_parts();
    assert_eq!(id, "id");
    assert_eq!(back.len(), 3);
    for (a, b) in ms.iter().zip(back.iter()) {
        assert_eq!(a.role, b.role);
        assert_eq!(a.content, b.content);
    }
}

#[test]
fn completion_request_is_fixed_model_and_bound() {
    let ms = opening_messages("Hello");
    let req = completion_request(&ms);
    assert_eq!(req.model, "gpt-3.5-turbo");
    assert_eq!(req.model, MODEL);
    assert_eq!(req.max_tokens, 512);
    assert_eq!(req.max_tokens, MAX_TOKENS);
    assert_eq!(req.messages.len(), 2);
    assert_eq!(req.messages[1].content.as_deref(), Some("Hello"));
}

#[test]
fn config_keeps_its_values() {
    let c = Config::new("SECRET-REDACTED".to_string(), "/tmp/cgpt.cli.rocks.db".to_string());
    assert_eq!(c.openai_api_key, "SECRET-REDACTED");
    assert_eq!(c.surreal_db_path, "/tmp/cgpt.cli.rocks.db");
}

#[test]
fn indices_spell_alphabet_positions() {
    assert_eq!(chat_id_from_indices(&vec![0, 25, 26, 51, 52, 61]), "AZaz09");
    assert_eq!(chat_id_from_indices(&vec![]), "");
    let all: Vec<usize> = (0..62).collect();
    assert_eq!(chat_id_from_indices(&all), ID_ALPHABET);
    let id = chat_id_from_indices(&vec![1; 16]);
    assert_eq!(id, "BBBBBBBBBBBBBBBB");
}

#[test]
fn start_request_sends_opening() {
    match start_request("Hello") {
        Request::Send(ms) => {
            assert_eq!(ms.len(), 2);
            assert_eq!(ms[0].content.as_deref(), Some(SYSTEM_PROMPT));
            assert_eq!(ms[1].content.as_deref(), Some("Hello"));
        }
        Request::Answer(_) => panic!("a new conversation always asks the provider"),
    }
}

#[test]
fn start_step_saves_three_messages() {
    match start_step("abcdefghijklmnop".to_string(), "Hello", &vec![assistant("Hi")]) {
        Outcome::Save(chat, reply) => {
            assert_eq!(reply, "Hi");
            assert_eq!(chat.chat_id(), "abcdefghijklmnop");
            assert_eq!(texts(&chat), vec![SYSTEM_PROMPT.to_string(), "Hello".to_string(), "Hi".to_string()]);
        }
        Outcome::Answer(_) => panic!("a candidate was given"),
    }
}

#[test]
fn start_step_without_candidates_answers_placeholder() {
    match start_step("abcdefghijklmnop".to_string(), "Hello", &vec![]) {
        Outcome::Answer(a) => {
            assert_eq!(a.chat_id(), "none");
            assert_eq!(a.message(), "No response!");
        }
        Outcome::Save(..) => panic!("nothing to save"),
    }
}

#[test]
fn continue_request_on_missing_answers_placeholder() {
    match continue_request(None, "hi") {
        Request::Answer(a) => {
            assert_eq!(a.chat_id(), "none");
            assert_eq!(a.message(), "No response!");
        }
        Request::Send(_) => panic!("nothing is stored"),
    }
}

#[test]
fn continue_step_appends_two() {
    let stored = Chat::new("k".to_string(), opening_messages("first"));
    match continue_request(Some(&stored), "second") {
        Request::Send(ms) => assert_eq!(ms.len(), 3),
        Request::Answer(_) => panic!("the conversation is stored"),
    }
    match continue_step("k", Some(&stored), "second", &vec![assistant("r")]) {
        Outcome::Save(chat, reply) => {
            assert_eq!(reply, "r");
            assert_eq!(chat.chat_id(), "k");
            assert_eq!(
                texts(&chat),
                vec![SYSTEM_PROMPT.to_string(), "first".to_string(), "second".to_string(), "r".to_string()]
            );
        }
        Outcome::Answer(_) => panic!("a candidate was given"),
    }
}

#[test]
fn continue_step_on_missing_writes_nothing() {
    match continue_step("k", None, "second", &vec![assistant("r")]) {
        Outcome::Answer(a) => assert_eq!(a.chat_id(), "none"),
        Outcome::Save(..) => panic!("nothing is stored"),
    }
}
