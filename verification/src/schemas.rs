//! The shapes in which conversations and messages are shown to callers.

use crate::entities;
use crate::entities::Timestamp;
use uuid::Uuid;
use vstd::prelude::*;

verus! {

/// The body of a request that opens a conversation with a first message.
#[derive(Debug)]
pub struct CreateConversation {
    pub message: String,
}

#[derive(Debug)]
pub struct Conversation {
    pub id: Uuid,
    pub created_at: Timestamp,
    pub title: Option<String>,
}

impl From<entities::Conversation> for Conversation {
    fn from(conversation: entities::Conversation) -> (shown: Conversation) {
        Conversation { id: conversation.id, created_at: conversation.created_at, title: None }
    }
}

impl vstd::std_specs::convert::FromSpecImpl<entities::Conversation> for Conversation {
    open spec fn obeys_from_spec() -> bool {
        true
    }

    open spec fn from_spec(conversation: entities::Conversation) -> Conversation {
        Conversation { id: conversation.id, created_at: conversation.created_at, title: None }
    }
}

#[derive(Debug)]
pub struct ConversationList {
    pub conversations: Vec<Conversation>,
}

#[derive(Debug)]
pub struct MessagesList {
    pub messages: Vec<Message>,
}

impl Default for MessagesList {
    fn default() -> (list: MessagesList)
        ensures
            list.messages@ == Seq::<Message>::empty(),
    {
        MessagesList { messages: Vec::new() }
    }
}

#[derive(Debug, Clone, Copy, PartialEq, Eq, Structural)]
pub enum MessageKind {
    System,
    Bot,
    User,
}

impl From<entities::MessageKind> for MessageKind {
    fn from(kind: entities::MessageKind) -> (shown: MessageKind) {
        match kind {
            entities::MessageKind::System => MessageKind::System,
            entities::MessageKind::Bot => MessageKind::Bot,
            entities::MessageKind::User => MessageKind::User,
        }
    }
}

impl vstd::std_specs::convert::FromSpecImpl<entities::MessageKind> for MessageKind {
    open spec fn obeys_from_spec() -> bool {
        true
    }

    open spec fn from_spec(kind: entities::MessageKind) -> MessageKind {
        match kind {
            entities::MessageKind::System => MessageKind::System,
            entities::MessageKind::Bot => MessageKind::Bot,
            entities::MessageKind::User => MessageKind::User,
        }
    }
}

#[derive(Debug)]
pub struct Message {
    pub conversation_id: Uuid,
    pub id: Uuid,
    pub kind: MessageKind,
    pub text: String,
    pub created_at: Timestamp,
}

impl From<entities::Message> for Message {
    fn from(message: entities::Message) -> (shown: Message) {
        Message {
            conversation_id: message.conversation_id,
            id: message.id,
            kind: MessageKind::from(message.kind),
            text: message.text,
            created_at: message.created_at,
        }
    }
}

impl vstd::std_specs::convert::FromSpecImpl<entities::Message> for Message {
    open spec fn obeys_from_spec() -> bool {
        true
    }

    open spec fn from_spec(message: entities::Message) -> Message {
        Message {
            conversation_id: message.conversation_id,
            id: message.id,
            kind: <MessageKind as vstd::std_specs::convert::FromSpec<
                entities::MessageKind,
            >>::from_spec(message.kind),
            text: message.text,
            created_at: message.created_at,
        }
    }
}

/// The body of a request that adds a message to a conversation.
#[derive(Debug)]
pub struct CreateMessage {
    pub text: String,
}

/// One fragment of a reply, as it is pushed to the caller.
#[derive(Debug)]
pub struct MessagePart {
    pub conversation_id: Uuid,
    pub message_id: Uuid,
    pub message_part: String,
}

/// The status of an answer that carries what was asked for.
pub const STATUS_OK: u16 = 200;

/// The status of an answer to a request that cannot be served.
pub const STATUS_BAD_REQUEST: u16 = 400;

/// The stored conversations as they are shown, in the same order.
pub open spec fn shown_conversations(stored: Seq<entities::Conversation>) -> Seq<Conversation> {
    Seq::new(
        stored.len(),
        |i: int|
            <Conversation as vstd::std_specs::convert::FromSpec<
                entities::Conversation,
            >>::from_spec(stored[i]),
    )
}

/// The stored messages as they are shown, in the same order.
pub open spec fn shown_messages(stored: Seq<entities::Message>) -> Seq<Message> {
    Seq::new(
        stored.len(),
        |i: int|
            <Message as vstd::std_specs::convert::FromSpec<entities::Message>>::from_spec(
                stored[i],
            ),
    )
}

impl ConversationList {
    /// The list that shows the given conversations, each in its place.
    pub fn from_entities(stored: Vec<entities::Conversation>) -> (list: ConversationList)
        ensures
            list.conversations@ == shown_conversations(stored@),
    {
        let mut conversations: Vec<Conversation> = Vec::new();
        let ghost all = stored@;
        for conversation in it: stored
            invariant
                it.seq() == all,
                conversations@ == shown_conversations(all.take(it.index() as int)),
        {
            conversations.push(Conversation::from(conversation));
            assert(conversations@ =~= shown_conversations(all.take(it.index() + 1)));
        }
        assert(all.take(all.len() as int) =~= all);
        ConversationList { conversations }
    }
}

impl MessagesList {
    /// The list that shows the given messages, each in its place.
    pub fn from_entities(stored: Vec<entities::Message>) -> (list: MessagesList)
        ensures
            list.messages@ == shown_messages(stored@),
    {
        let mut messages: Vec<Message> = Vec::new();
        let ghost all = stored@;
        for message in it: stored
            invariant
                it.seq() == all,
                messages@ == shown_messages(all.take(it.index() as int)),
        {
            messages.push(Message::from(message));
            assert(messages@ =~= shown_messages(all.take(it.index() + 1)));
        }
        assert(all.take(all.len() as int) =~= all);
        MessagesList { messages }
    }
}

/// The answer to a request for a user's conversations: all of them, with
/// the status that says so.
pub fn conversations_response(stored: Vec<entities::Conversation>) -> (answer: (
    u16,
    ConversationList,
))
    ensures
        answer.0 == STATUS_OK,
        answer.1.conversations@ == shown_conversations(stored@),
{
    (STATUS_OK, ConversationList::from_entities(stored))
}

/// The answer to a request for the messages of a conversation: the messages
/// where the store found them, and an empty list under the status of a bad
/// request where it did not.
pub fn messages_response(found: Result<Vec<entities::Message>, ()>) -> (answer: (
    u16,
    MessagesList,
))
    ensures
        match found {
            Ok(stored) => answer.0 == STATUS_OK && answer.1.messages@ == shown_messages(stored@),
            Err(_) => answer.0 == STATUS_BAD_REQUEST && answer.1.messages@ == Seq::<
                Message,
            >::empty(),
        },
{
    match found {
        Ok(stored) => (STATUS_OK, MessagesList::from_entities(stored)),
        Err(_) => (STATUS_BAD_REQUEST, MessagesList::default()),
    }
}

} // verus!
