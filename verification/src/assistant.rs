//! What a caller hands to the worker: the conversation so far, and the
//! channel on which the reply comes back piece by piece.

use crate::entities;
use crate::outside::{
    entries_view, fragment_channel, jinja_list, jinja_list_value, jinja_map, jinja_map_value,
    jinja_text, jinja_text_value,
};
use tokio::sync::mpsc::{Receiver, Sender};
use vstd::prelude::*;

verus! {

/// The speaker of a chat message.
#[derive(Debug, Clone, Copy, PartialEq, Eq, Structural)]
pub enum Role {
    User,
    Assistant,
    System,
}

impl Role {
    /// The role under which the model sees what a message kind wrote.
    pub open spec fn spec_of_kind(kind: entities::MessageKind) -> Role {
        match kind {
            entities::MessageKind::System => Role::System,
            entities::MessageKind::User => Role::User,
            entities::MessageKind::Bot => Role::Assistant,
        }
    }

    /// The role under which the model sees what a message kind wrote.
    #[verifier::when_used_as_spec(spec_of_kind)]
    pub fn of_kind(kind: entities::MessageKind) -> (role: Role)
        ensures
            role == Role::spec_of_kind(kind),
    {
        match kind {
            entities::MessageKind::System => Role::System,
            entities::MessageKind::User => Role::User,
            entities::MessageKind::Bot => Role::Assistant,
        }
    }

    /// The name by which chat templates know a role.
    pub open spec fn spec_name(self) -> Seq<char> {
        match self {
            Role::User => "user"@,
            Role::Assistant => "assistant"@,
            Role::System => "system"@,
        }
    }

    /// The name by which chat templates know this role.
    pub fn name(self) -> (name: &'static str)
        ensures
            name@ == self.spec_name(),
    {
        match self {
            Role::User => "user",
            Role::Assistant => "assistant",
            Role::System => "system",
        }
    }
}

/// One message of a prompt.
#[derive(Debug, Clone)]
pub struct ChatMessage {
    pub role: Role,
    pub content: String,
}

impl ChatMessage {
    /// What a chat template is given for this message: a map of `role`, the
    /// role's name, and `content`, the text.
    pub open spec fn spec_jinja_value(self) -> minijinja::Value {
        jinja_map(
            seq![
                ("role"@, jinja_text(self.role.spec_name())),
                ("content"@, jinja_text(self.content@)),
            ],
        )
    }

    /// The value that a chat template is given for this message.
    pub fn as_jinja_value(&self) -> (value: minijinja::Value)
        ensures
            value == self.spec_jinja_value(),
    {
        let mut entries: Vec<(&'static str, minijinja::Value)> = Vec::new();
        entries.push(("role", jinja_text_value(self.role.name())));
        entries.push(("content", jinja_text_value(self.content.as_str())));
        assert(entries_view(entries@) =~= seq![
            ("role"@, jinja_text(self.role.spec_name())),
            ("content"@, jinja_text(self.content@)),
        ]);
        jinja_map_value(entries)
    }
}

impl From<entities::Message> for ChatMessage {
    fn from(m: entities::Message) -> (message: ChatMessage) {
        ChatMessage { content: m.text, role: Role::of_kind(m.kind) }
    }
}

impl vstd::std_specs::convert::FromSpecImpl<entities::Message> for ChatMessage {
    open spec fn obeys_from_spec() -> bool {
        true
    }

    open spec fn from_spec(m: entities::Message) -> ChatMessage {
        ChatMessage { content: m.text, role: Role::spec_of_kind(m.kind) }
    }
}

/// The number of fragments that a task's channel holds before its sender
/// has to wait.
pub const FRAGMENT_BUFFER: usize = 1000;

/// One request for a reply: the prompt, and the write end of the channel
/// on which the fragments of the reply go back to the caller.
pub struct InferenceTask {
    messages: Vec<ChatMessage>,
    return_channel: Sender<String>,
}

/// What a chat template is given for each message of a prompt, in order.
pub open spec fn jinja_values(messages: Seq<ChatMessage>) -> Seq<minijinja::Value> {
    Seq::new(messages.len(), |i: int| messages[i].spec_jinja_value())
}

impl InferenceTask {
    /// The messages of the prompt, oldest first.
    pub closed spec fn prompt(&self) -> Seq<ChatMessage> {
        self.messages@
    }

    /// What a chat template is given for a task: a map whose `messages`
    /// is the list of the values of its messages, in order.
    pub open spec fn spec_jinja_input(&self) -> minijinja::Value {
        jinja_map(seq![("messages"@, jinja_list(jinja_values(self.prompt())))])
    }

    /// A task for the given prompt, with the read end of its fragment channel.
    pub fn new(messages: Vec<ChatMessage>) -> (made: (InferenceTask, Receiver<String>))
        ensures
            made.0.prompt() == messages@,
    {
        let (sender, receiver) = fragment_channel(FRAGMENT_BUFFER);
        (InferenceTask { messages, return_channel: sender }, receiver)
    }

    pub fn messages(&self) -> (messages: &Vec<ChatMessage>)
        ensures
            messages@ == self.prompt(),
    {
        &self.messages
    }

    /// The write end of the fragment channel.
    pub closed spec fn sink(&self) -> Sender<String> {
        self.return_channel
    }

    /// The write end of the fragment channel.
    pub fn return_channel(&self) -> (sender: &Sender<String>)
        ensures
            *sender == self.sink(),
    {
        &self.return_channel
    }

    /// The value that a chat template is given for the whole prompt.
    pub fn as_jinja_input(&self) -> (value: minijinja::Value)
        ensures
            value == self.spec_jinja_input(),
    {
        let mut values: Vec<minijinja::Value> = Vec::new();
        let mut i: usize = 0;
        while i < self.messages.len()
            invariant
                i <= self.messages.len(),
                values@ == jinja_values(self.messages@.take(i as int)),
            decreases self.messages.len() - i,
        {
            values.push(self.messages[i].as_jinja_value());
            assert(values@ =~= jinja_values(self.messages@.take(i + 1)));
            i = i + 1;
        }
        assert(self.messages@.take(i as int) =~= self.messages@);
        let mut entries: Vec<(&'static str, minijinja::Value)> = Vec::new();
        entries.push(("messages", jinja_list_value(values)));
        assert(entries_view(entries@) =~= seq![
            ("messages"@, jinja_list(jinja_values(self.prompt()))),
        ]);
        jinja_map_value(entries)
    }
}

} // verus!
