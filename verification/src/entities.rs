//! The records that the store keeps.

use uuid::Uuid;
use vstd::prelude::*;

verus! {

/// A moment in UTC: whole seconds since 1970, and the nanoseconds past them.
#[derive(Clone, Copy, Debug, PartialEq, Eq, Structural)]
pub struct Timestamp {
    pub secs: i64,
    pub nanos: u32,
}

#[derive(Debug, Clone)]
pub struct Conversation {
    pub id: Uuid,
    pub user: Uuid,
    pub created_at: Timestamp,
}

/// Who wrote a message.
#[derive(Debug, Clone, Copy, PartialEq, Eq, Structural)]
pub enum MessageKind {
    System,
    Bot,
    User,
}

impl MessageKind {
    /// The number under which the store keeps a kind.
    pub open spec fn spec_code(self) -> u8 {
        match self {
            MessageKind::System => 1,
            MessageKind::Bot => 2,
            MessageKind::User => 3,
        }
    }

    /// The kind that the store keeps under a number, if there is one.
    pub open spec fn spec_from_code(code: u8) -> Option<MessageKind> {
        if code == 1 {
            Some(MessageKind::System)
        } else if code == 2 {
            Some(MessageKind::Bot)
        } else if code == 3 {
            Some(MessageKind::User)
        } else {
            None
        }
    }

    /// The number under which the store keeps this kind.
    #[verifier::when_used_as_spec(spec_code)]
    pub fn code(self) -> (code: u8)
        ensures
            code == self.spec_code(),
    {
        match self {
            MessageKind::System => 1,
            MessageKind::Bot => 2,
            MessageKind::User => 3,
        }
    }

    /// The kind that the store keeps under a number, if there is one.
    #[verifier::when_used_as_spec(spec_from_code)]
    pub fn from_code(code: u8) -> (kind: Option<MessageKind>)
        ensures
            kind == Self::spec_from_code(code),
    {
        if code == 1 {
            Some(MessageKind::System)
        } else if code == 2 {
            Some(MessageKind::Bot)
        } else if code == 3 {
            Some(MessageKind::User)
        } else {
            None
        }
    }
}

/// Every kind is found again under its number, and no number stands for two
/// kinds.
pub proof fn lemma_kind_codes_round_trip(kind: MessageKind, code: u8)
    ensures
        MessageKind::spec_from_code(kind.spec_code()) == Some(kind),
        MessageKind::spec_from_code(code) == Some(kind) <==> kind.spec_code() == code,
        MessageKind::spec_from_code(code) is Some <==> 1 <= code <= 3,
{
}

#[derive(Debug, Clone)]
pub struct Message {
    pub id: Uuid,
    pub conversation_id: Uuid,
    pub kind: MessageKind,
    pub created_at: Timestamp,
    pub text: String,
}

} // verus!
