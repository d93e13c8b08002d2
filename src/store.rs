use crate::chat::{
    concluded, history, last_segment, listing, none_response, opening, reply_of, resumed, ChatModel,
    CHAT_TABLE, NONE_ID, SYSTEM_PROMPT,
};
use crate::id::{is_chat_id, is_id_char};
use crate::message::{message_model, text_of, MessageModel, Role};
use crate::service::Outcome;
use vstd::prelude::*;

verus! {

/// What the store holds under a key, if anything.
pub open spec fn lookup(store: Map<Seq<char>, ChatModel>, key: Seq<char>) -> Option<ChatModel> {
    if store.dom().contains(key) {
        Some(store[key])
    } else {
        None
    }
}

/// The identifier the store gives the record saved under `key`.
pub open spec fn record_id_of(key: Seq<char>) -> Seq<char> {
    CHAT_TABLE@ + seq![':'] + key
}

/// What an outcome does to the store and what it answers, for a turn on `key`.
pub open spec fn turn_effect(
    store: Map<Seq<char>, ChatModel>,
    key: Seq<char>,
    outcome: Outcome,
) -> (Map<Seq<char>, ChatModel>, (Seq<char>, Seq<char>)) {
    match outcome {
        Outcome::Save(chat, reply) => (store.insert(key, chat@), (last_segment(record_id_of(key)), reply@)),
        Outcome::Answer(answer) => (store, answer@),
    }
}

/// Starting a conversation under `chat_id` with the user's `text`, given the
/// provider's candidates: the store after the turn, and the answer.
pub open spec fn start_turn(
    store: Map<Seq<char>, ChatModel>,
    chat_id: Seq<char>,
    text: Seq<char>,
    choices: Seq<MessageModel>,
) -> (Map<Seq<char>, ChatModel>, (Seq<char>, Seq<char>)) {
    match concluded(chat_id, opening(text), choices) {
        Some((chat, reply)) => (store.insert(chat_id, chat), (last_segment(record_id_of(chat_id)), reply)),
        None => (store, none_response()),
    }
}

/// Continuing the conversation under `chat_id` with the user's `text`, given
/// the provider's candidates: the store after the turn, and the answer.
pub open spec fn continue_turn(
    store: Map<Seq<char>, ChatModel>,
    chat_id: Seq<char>,
    text: Seq<char>,
    choices: Seq<MessageModel>,
) -> (Map<Seq<char>, ChatModel>, (Seq<char>, Seq<char>)) {
    match lookup(store, chat_id) {
        Some(stored) => match concluded(chat_id, resumed(stored, text), choices) {
            Some((chat, reply)) => (store.insert(chat_id, chat), (last_segment(record_id_of(chat_id)), reply)),
            None => (store, none_response()),
        },
        None => (store, none_response()),
    }
}

/// The store after saving each of `chats` in turn under its own key.
pub open spec fn apply_creates(store: Map<Seq<char>, ChatModel>, chats: Seq<ChatModel>) -> Map<Seq<char>, ChatModel>
    decreases chats.len(),
{
    if chats.len() == 0 {
        store
    } else {
        apply_creates(store, chats.drop_last()).insert(chats.last().chat_id, chats.last())
    }
}

/// The store after deleting each of `keys` in turn.
pub open spec fn apply_deletes(store: Map<Seq<char>, ChatModel>, keys: Seq<Seq<char>>) -> Map<Seq<char>, ChatModel>
    decreases keys.len(),
{
    if keys.len() == 0 {
        store
    } else {
        apply_deletes(store, keys.drop_last()).remove(keys.last())
    }
}

/// A key without `:` is read back whole from the identifier of its record.
pub proof fn lemma_record_key(key: Seq<char>)
    requires
        forall|i: int| 0 <= i < key.len() ==> #[trigger] key[i] != ':',
    ensures
        last_segment(record_id_of(key)) == key,
    decreases key.len(),
{
    let full = record_id_of(key);
    if key.len() == 0 {
        assert(full.last() == ':');
        assert(last_segment(full) =~= key);
    } else {
        assert(full.drop_last() =~= record_id_of(key.drop_last()));
        assert(full.last() == key.last());
        lemma_record_key(key.drop_last());
        assert(key.drop_last().push(key.last()) =~= key);
    }
}

/// Starting a conversation under a fresh identifier answers with that
/// identifier, and its history is then the persona, the user's text and the
/// reply, in that order.
pub proof fn lemma_start_then_history(
    store: Map<Seq<char>, ChatModel>,
    chat_id: Seq<char>,
    text: Seq<char>,
    choices: Seq<MessageModel>,
)
    requires
        is_chat_id(chat_id),
        choices.len() > 0,
    ensures
        ({
            let (after, answer) = start_turn(store, chat_id, text, choices);
            &&& answer.0 == chat_id
            &&& is_chat_id(answer.0)
            &&& answer.1 == text_of(reply_of(choices)->Some_0)
            &&& history(chat_id, lookup(after, chat_id)) == (chat_id, seq![SYSTEM_PROMPT@, text, answer.1])
        }),
{
    assert forall|i: int| 0 <= i < chat_id.len() implies #[trigger] chat_id[i] != ':' by {
        assert(is_id_char(chat_id[i]));
    }
    lemma_record_key(chat_id);
    let (after, answer) = start_turn(store, chat_id, text, choices);
    let reply = reply_of(choices)->Some_0;
    let chat = ChatModel { chat_id, messages: opening(text).push(reply) };
    assert(after[chat_id] == chat);
    assert(chat.messages.map_values(|m: MessageModel| text_of(m)) =~= seq![SYSTEM_PROMPT@, text, answer.1]);
}

/// Continuing a stored conversation appends exactly two messages, the
/// user's text and then the reply, keeps every earlier message in place,
/// and leaves the other conversations alone.
pub proof fn lemma_continue_appends_two(
    store: Map<Seq<char>, ChatModel>,
    chat_id: Seq<char>,
    text: Seq<char>,
    choices: Seq<MessageModel>,
)
    requires
        store.dom().contains(chat_id),
        choices.len() > 0,
    ensures
        ({
            let (after, answer) = continue_turn(store, chat_id, text, choices);
            let before = store[chat_id].messages;
            let now = after[chat_id].messages;
            &&& after.dom() == store.dom()
            &&& forall|k: Seq<char>| k != chat_id && #[trigger] store.dom().contains(k) ==> after[k] == store[k]
            &&& now.len() == before.len() + 2
            &&& now.subrange(0, before.len() as int) == before
            &&& now[before.len() as int] == message_model(Role::User, text)
            &&& now[before.len() as int + 1] == reply_of(choices)->Some_0
            &&& answer.1 == text_of(now[before.len() as int + 1])
        }),
{
    let (after, answer) = continue_turn(store, chat_id, text, choices);
    let before = store[chat_id].messages;
    let now = after[chat_id].messages;
    assert(now =~= before.push(message_model(Role::User, text)).push(reply_of(choices)->Some_0));
    assert(now.subrange(0, before.len() as int) =~= before);
    assert(after.dom() =~= store.dom());
}

/// Continuing a conversation that is not stored writes nothing and
/// answers with the placeholder.
pub proof fn lemma_continue_missing(
    store: Map<Seq<char>, ChatModel>,
    chat_id: Seq<char>,
    text: Seq<char>,
    choices: Seq<MessageModel>,
)
    requires
        !store.dom().contains(chat_id),
    ensures
        continue_turn(store, chat_id, text, choices) == (store, none_response()),
{
}

/// After a conversation is deleted, its history is the placeholder key with
/// no texts.
pub proof fn lemma_delete_then_history(store: Map<Seq<char>, ChatModel>, chat_id: Seq<char>)
    ensures
        history(chat_id, lookup(store.remove(chat_id), chat_id)) == (NONE_ID@, Seq::<Seq<char>>::empty()),
{
}

proof fn lemma_creates_dom(chats: Seq<ChatModel>)
    ensures
        apply_creates(Map::empty(), chats).dom() == listing(chats).to_set(),
    decreases chats.len(),
{
    if chats.len() > 0 {
        lemma_creates_dom(chats.drop_last());
        assert(listing(chats) =~= listing(chats.drop_last()).push(chats.last().chat_id));
        listing(chats.drop_last()).lemma_push_to_set_commute(chats.last().chat_id);
        assert(apply_creates(Map::empty(), chats).dom() =~= listing(chats).to_set());
    } else {
        assert(listing(chats).to_set() =~= Set::empty());
        assert(apply_creates(Map::empty(), chats).dom() =~= Set::empty());
    }
}

proof fn lemma_deletes_dom(store: Map<Seq<char>, ChatModel>, keys: Seq<Seq<char>>)
    requires
        store.dom().finite(),
        keys.no_duplicates(),
        forall|i: int| 0 <= i < keys.len() ==> store.dom().contains(#[trigger] keys[i]),
    ensures
        apply_deletes(store, keys).dom().finite(),
        apply_deletes(store, keys).dom().len() == store.dom().len() - keys.len(),
        forall|k: Seq<char>| #[trigger] apply_deletes(store, keys).dom().contains(k)
            <==> store.dom().contains(k) && !keys.contains(k),
    decreases keys.len(),
{
    if keys.len() > 0 {
        let rest = keys.drop_last();
        assert forall|i: int| 0 <= i < rest.len() implies store.dom().contains(#[trigger] rest[i]) by {
            assert(rest[i] == keys[i]);
        }
        lemma_deletes_dom(store, rest);
        assert(!rest.contains(keys.last())) by {
            if rest.contains(keys.last()) {
                let j = choose|j: int| 0 <= j < rest.len() && rest[j] == keys.last();
                assert(keys[j] == keys[keys.len() - 1]);
            }
        }
        assert(store.dom().contains(keys[keys.len() - 1]));
        let mid = apply_deletes(store, rest);
        assert(mid.dom().contains(keys.last()));
        assert(apply_deletes(store, keys).dom() =~= mid.dom().remove(keys.last()));
        assert forall|k: Seq<char>| #[trigger] apply_deletes(store, keys).dom().contains(k)
            <==> store.dom().contains(k) && !keys.contains(k) by {
            if keys.contains(k) && k != keys.last() {
                let j = choose|j: int| 0 <= j < keys.len() && keys[j] == k;
                assert(rest[j] == k);
            }
            if rest.contains(k) {
                let j = choose|j: int| 0 <= j < rest.len() && rest[j] == k;
                assert(keys[j] == k);
            }
            if k == keys.last() {
                assert(keys[keys.len() - 1] == k);
            }
        }
    }
}

/// Listing the store after creating conversations under `chats`' distinct
/// keys and then deleting `keys`, distinct and each among them, gives each
/// key created and not deleted exactly once, and no other: as many keys as
/// were created less those deleted. `records` is any enumeration of the
/// store, one record per key.
pub proof fn lemma_list_after_creates_and_deletes(
    chats: Seq<ChatModel>,
    keys: Seq<Seq<char>>,
    records: Seq<ChatModel>,
)
    requires
        listing(chats).no_duplicates(),
        keys.no_duplicates(),
        forall|i: int| 0 <= i < keys.len() ==> listing(chats).contains(#[trigger] keys[i]),
        listing(records).no_duplicates(),
        listing(records).to_set() == apply_deletes(apply_creates(Map::empty(), chats), keys).dom(),
    ensures
        listing(records).to_set() == listing(chats).to_set().difference(keys.to_set()),
        listing(records).len() == chats.len() - keys.len(),
{
    let created = apply_creates(Map::empty(), chats);
    lemma_creates_dom(chats);
    listing(chats).unique_seq_to_set();
    assert forall|i: int| 0 <= i < keys.len() implies created.dom().contains(#[trigger] keys[i]) by {
        assert(listing(chats).contains(keys[i]));
    }
    lemma_deletes_dom(created, keys);
    listing(records).unique_seq_to_set();
    assert(listing(records).to_set() =~= listing(chats).to_set().difference(keys.to_set()));
}

} // verus!
