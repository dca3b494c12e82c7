//! The stream bridge: between the fragments that a session produces and the
//! caller who reads them. The first thing a caller gets is the stored user
//! message; then each fragment as it comes; and when generation is done the
//! bridge asks, once, for the assembled reply to be stored.

use crate::entities;
use crate::outside::new_uuid;
use crate::schemas;
use crate::session::{Phase, SessionEnd};
use uuid::Uuid;
use vstd::prelude::*;
use vstd::string::StringExecFns;

verus! {

/// Where a stream stands.
#[derive(Clone, Copy, Debug, PartialEq, Eq, Structural)]
pub enum BridgeStage {
    /// Fragments are being relayed.
    Streaming,
    /// Generation is done and the reply is being stored.
    Persisting,
    /// The reply is stored: the stream ended well.
    Completed,
    /// The reply could not be stored: the stream ended with an error.
    Failed,
    /// Generation was aborted: the stream ended and nothing was stored.
    Abandoned,
}

/// The one error that a stream can end with.
#[derive(Clone, Copy, Debug, PartialEq, Eq, Structural)]
pub enum StreamError {
    /// The reply was generated and delivered, but it could not be stored.
    PersistenceFailure,
}

/// The request to store a finished reply.
#[derive(Debug)]
pub struct PersistRequest {
    pub conversation_id: Uuid,
    pub message_id: Uuid,
    pub kind: entities::MessageKind,
    pub text: String,
}

/// One thing that can happen to a stream.
pub enum BridgeOp {
    /// A fragment arrives from the session.
    Relay(Seq<char>),
    /// The session has ended and its channel is closed.
    Close(SessionEnd),
    /// The store answers the request: `true` where the reply was stored.
    Persisted(bool),
}

/// The mathematical state of a stream.
pub struct BridgeModel {
    pub conversation_id: Uuid,
    pub message_id: Uuid,
    /// The fragments relayed so far, put together in order.
    pub assembled: Seq<char>,
    pub stage: BridgeStage,
}

/// The texts of a sequence of fragments, one after the other.
pub open spec fn joined(fragments: Seq<Seq<char>>) -> Seq<char>
    decreases fragments.len(),
{
    if fragments.len() == 0 {
        Seq::empty()
    } else {
        joined(fragments.drop_last()) + fragments.last()
    }
}

impl BridgeModel {
    /// A stream that has relayed nothing yet.
    pub open spec fn opened(conversation_id: Uuid, message_id: Uuid) -> BridgeModel {
        BridgeModel {
            conversation_id,
            message_id,
            assembled: Seq::empty(),
            stage: BridgeStage::Streaming,
        }
    }

    pub open spec fn relay(self, fragment: Seq<char>) -> BridgeModel {
        if self.stage == BridgeStage::Streaming {
            BridgeModel { assembled: self.assembled + fragment, ..self }
        } else {
            self
        }
    }

    /// The closure of a stream asks for the reply to be stored: only a stream
    /// that is still relaying does, and only where generation is done.
    pub open spec fn asks_to_persist(self, end: SessionEnd) -> bool {
        self.stage == BridgeStage::Streaming && end.spec_phase() == Phase::Done
    }

    pub open spec fn close(self, end: SessionEnd) -> BridgeModel {
        if self.stage != BridgeStage::Streaming {
            self
        } else if end.spec_phase() == Phase::Done {
            BridgeModel { stage: BridgeStage::Persisting, ..self }
        } else {
            BridgeModel { stage: BridgeStage::Abandoned, ..self }
        }
    }

    pub open spec fn persisted(self, saved: bool) -> BridgeModel {
        if self.stage != BridgeStage::Persisting {
            self
        } else if saved {
            BridgeModel { stage: BridgeStage::Completed, ..self }
        } else {
            BridgeModel { stage: BridgeStage::Failed, ..self }
        }
    }

    pub open spec fn apply(self, op: BridgeOp) -> BridgeModel {
        match op {
            BridgeOp::Relay(fragment) => self.relay(fragment),
            BridgeOp::Close(end) => self.close(end),
            BridgeOp::Persisted(saved) => self.persisted(saved),
        }
    }

    /// The stream after a sequence of happenings.
    pub open spec fn run(self, ops: Seq<BridgeOp>) -> BridgeModel
        decreases ops.len(),
    {
        if ops.len() == 0 {
            self
        } else {
            self.run(ops.drop_last()).apply(ops.last())
        }
    }

    /// The stream after relaying the given fragments in order.
    pub open spec fn relay_all(self, fragments: Seq<Seq<char>>) -> BridgeModel
        decreases fragments.len(),
    {
        if fragments.len() == 0 {
            self
        } else {
            self.relay_all(fragments.drop_last()).relay(fragments.last())
        }
    }

    /// The fragments pushed to the caller during a run, in the order in which
    /// they were pushed.
    pub open spec fn pushed(self, ops: Seq<BridgeOp>) -> Seq<Seq<char>>
        decreases ops.len(),
    {
        if ops.len() == 0 {
            Seq::empty()
        } else {
            let before = self.run(ops.drop_last());
            match ops.last() {
                BridgeOp::Relay(fragment) if before.stage == BridgeStage::Streaming => self.pushed(
                    ops.drop_last(),
                ).push(fragment),
                _ => self.pushed(ops.drop_last()),
            }
        }
    }

    /// The number of times that a run asks for the reply to be stored.
    pub open spec fn persist_requests(self, ops: Seq<BridgeOp>) -> nat
        decreases ops.len(),
    {
        if ops.len() == 0 {
            0
        } else {
            let before = self.run(ops.drop_last());
            self.persist_requests(ops.drop_last()) + (match ops.last() {
                BridgeOp::Close(end) if before.asks_to_persist(end) => 1nat,
                _ => 0nat,
            })
        }
    }
}

/// The bridge of one reply.
pub struct StreamBridge {
    conversation_id: Uuid,
    message_id: Uuid,
    assembled: String,
    stage: BridgeStage,
}

impl View for StreamBridge {
    type V = BridgeModel;

    closed spec fn view(&self) -> BridgeModel {
        BridgeModel {
            conversation_id: self.conversation_id,
            message_id: self.message_id,
            assembled: self.assembled@,
            stage: self.stage,
        }
    }
}

impl StreamBridge {
    /// Opens the stream of the reply to a stored user message, under the
    /// identifier that the reply will have. Comes with the first element of
    /// every stream: the user message as it is shown.
    pub fn open(user_message: entities::Message, message_id: Uuid) -> (opened: (
        StreamBridge,
        schemas::Message,
    ))
        ensures
            opened.0@ == BridgeModel::opened(user_message.conversation_id, message_id),
            opened.1 == <schemas::Message as vstd::std_specs::convert::FromSpec<
                entities::Message,
            >>::from_spec(user_message),
    {
        let bridge = StreamBridge {
            conversation_id: user_message.conversation_id,
            message_id,
            assembled: String::new(),
            stage: BridgeStage::Streaming,
        };
        (bridge, schemas::Message::from(user_message))
    }

    /// Opens the stream of the reply to a stored user message, under a fresh
    /// identifier, chosen here, before any fragment exists.
    pub fn begin(user_message: entities::Message) -> (opened: (StreamBridge, schemas::Message))
        ensures
            opened.0@ == BridgeModel::opened(
                user_message.conversation_id,
                opened.0@.message_id,
            ),
            opened.1 == <schemas::Message as vstd::std_specs::convert::FromSpec<
                entities::Message,
            >>::from_spec(user_message),
    {
        StreamBridge::open(user_message, new_uuid())
    }

    pub fn conversation_id(&self) -> (id: Uuid)
        ensures
            id == self@.conversation_id,
    {
        self.conversation_id
    }

    /// The identifier under which every fragment goes out and the reply is
    /// stored.
    pub fn message_id(&self) -> (id: Uuid)
        ensures
            id == self@.message_id,
    {
        self.message_id
    }

    pub fn stage(&self) -> (stage: BridgeStage)
        ensures
            stage == self@.stage,
    {
        self.stage
    }

    /// The fragments relayed so far, put together in order.
    pub fn assembled(&self) -> (text: &str)
        ensures
            text@ == self@.assembled,
    {
        self.assembled.as_str()
    }

    /// Takes a fragment from the session and makes the element that is pushed
    /// to the caller. A stream that has been closed relays nothing.
    pub fn relay(&mut self, fragment: String) -> (part: Option<schemas::MessagePart>)
        ensures
            final(self)@ == old(self)@.relay(fragment@),
            part is Some <==> old(self)@.stage == BridgeStage::Streaming,
            part matches Some(p) ==> p.conversation_id == old(self)@.conversation_id
                && p.message_id == old(self)@.message_id && p.message_part == fragment,
    {
        match self.stage {
            BridgeStage::Streaming => {
                self.assembled.append(fragment.as_str());
                Some(
                    schemas::MessagePart {
                        conversation_id: self.conversation_id,
                        message_id: self.message_id,
                        message_part: fragment,
                    },
                )
            },
            _ => None,
        }
    }

    /// Closes the stream when its session has ended. Where generation is done,
    /// the assembled reply is to be stored, under the identifier that its
    /// fragments went out with; where it was aborted, nothing is.
    pub fn close(&mut self, end: SessionEnd) -> (request: Option<PersistRequest>)
        ensures
            final(self)@ == old(self)@.close(end),
            request is Some <==> old(self)@.asks_to_persist(end),
            request matches Some(r) ==> r.conversation_id == old(self)@.conversation_id
                && r.message_id == old(self)@.message_id && r.kind == entities::MessageKind::Bot
                && r.text@ == old(self)@.assembled,
    {
        match self.stage {
            BridgeStage::Streaming => {
                match end.phase() {
                    Phase::Done => {
                        self.stage = BridgeStage::Persisting;
                        Some(
                            PersistRequest {
                                conversation_id: self.conversation_id,
                                message_id: self.message_id,
                                kind: entities::MessageKind::Bot,
                                text: self.assembled.clone(),
                            },
                        )
                    },
                    _ => {
                        self.stage = BridgeStage::Abandoned;
                        None
                    },
                }
            },
            _ => None,
        }
    }

    /// Takes the store's answer to the request. The stream ends well where the
    /// reply was stored, and with `PersistenceFailure` where it was not; the
    /// same error is reported of a stream that has already failed.
    pub fn persisted(&mut self, saved: bool) -> (outcome: Result<(), StreamError>)
        ensures
            final(self)@ == old(self)@.persisted(saved),
            outcome is Err <==> final(self)@.stage == BridgeStage::Failed,
    {
        match self.stage {
            BridgeStage::Persisting => {
                if saved {
                    self.stage = BridgeStage::Completed;
                    Ok(())
                } else {
                    self.stage = BridgeStage::Failed;
                    Err(StreamError::PersistenceFailure)
                }
            },
            BridgeStage::Failed => Err(StreamError::PersistenceFailure),
            _ => Ok(()),
        }
    }
}

/// Joining fragments goes along with putting sequences of them together.
pub proof fn lemma_joined_push(fragments: Seq<Seq<char>>, fragment: Seq<char>)
    ensures
        joined(fragments.push(fragment)) == joined(fragments) + fragment,
{
    assert(fragments.push(fragment).drop_last() =~= fragments);
}

/// What a stream has assembled after relaying fragments is what it had
/// before, followed by the fragments in the order in which they came.
pub proof fn lemma_relay_all(m: BridgeModel, fragments: Seq<Seq<char>>)
    requires
        m.stage == BridgeStage::Streaming,
    ensures
        m.relay_all(fragments) == (BridgeModel {
            assembled: m.assembled + joined(fragments),
            ..m
        }),
    decreases fragments.len(),
{
    if fragments.len() == 0 {
        assert(m.assembled + joined(fragments) =~= m.assembled);
    } else {
        lemma_relay_all(m, fragments.drop_last());
        assert(m.assembled + joined(fragments.drop_last()) + fragments.last() =~= m.assembled
            + joined(fragments));
    }
}

/// The reply that is stored is the fragments in the order of their
/// production: a stream that relays a session's fragments and is closed after
/// a session that is done asks to store exactly their texts put together.
pub proof fn lemma_stored_reply_is_fragments_in_order(
    conversation_id: Uuid,
    message_id: Uuid,
    fragments: Seq<Seq<char>>,
    end: SessionEnd,
)
    requires
        end.spec_phase() == Phase::Done,
    ensures
        ({
            let relayed = BridgeModel::opened(conversation_id, message_id).relay_all(fragments);
            &&& relayed.asks_to_persist(end)
            &&& relayed.assembled == joined(fragments)
            &&& relayed.message_id == message_id
            &&& relayed.conversation_id == conversation_id
        }),
{
    let m = BridgeModel::opened(conversation_id, message_id);
    lemma_relay_all(m, fragments);
    assert(m.assembled + joined(fragments) =~= joined(fragments));
}

/// Whatever happens to a stream and in whatever order, what was pushed to the
/// caller, put together in the order of pushing, is what the stream has
/// assembled beyond what it started with; and the identifiers never change.
pub proof fn lemma_assembled_is_pushed_in_order(m: BridgeModel, ops: Seq<BridgeOp>)
    ensures
        m.run(ops).assembled == m.assembled + joined(m.pushed(ops)),
        m.run(ops).conversation_id == m.conversation_id,
        m.run(ops).message_id == m.message_id,
    decreases ops.len(),
{
    if ops.len() == 0 {
        assert(m.assembled + joined(m.pushed(ops)) =~= m.assembled);
    } else {
        lemma_assembled_is_pushed_in_order(m, ops.drop_last());
        let before = m.run(ops.drop_last());
        match ops.last() {
            BridgeOp::Relay(fragment) => {
                if before.stage == BridgeStage::Streaming {
                    lemma_joined_push(m.pushed(ops.drop_last()), fragment);
                    assert(m.assembled + joined(m.pushed(ops.drop_last())) + fragment
                        =~= m.assembled + (joined(m.pushed(ops.drop_last())) + fragment));
                }
            },
            _ => {},
        }
    }
}

/// The order of the stages of a stream.
pub open spec fn stage_rank(stage: BridgeStage) -> nat {
    match stage {
        BridgeStage::Streaming => 0,
        BridgeStage::Persisting => 1,
        BridgeStage::Completed | BridgeStage::Failed | BridgeStage::Abandoned => 2,
    }
}

/// A stream never goes back: whatever happens to it, its stage does not come
/// to stand before the one it had, and a stream that has ended, well, with an
/// error or abandoned, stays exactly as it ended.
pub proof fn lemma_stages_in_order(m: BridgeModel, op: BridgeOp)
    ensures
        stage_rank(m.stage) <= stage_rank(m.apply(op).stage),
        stage_rank(m.stage) == 2 ==> m.apply(op) == m,
{
}

/// Whatever happens to a stream and in whatever order, it asks at most once
/// for the reply to be stored: once if it has left the streaming stage by way
/// of a session that was done, and never if that session was aborted.
pub proof fn lemma_persists_at_most_once(m: BridgeModel, ops: Seq<BridgeOp>)
    requires
        m.stage == BridgeStage::Streaming,
    ensures
        m.persist_requests(ops) <= 1,
        m.persist_requests(ops) == 1 <==> (m.run(ops).stage == BridgeStage::Persisting || m.run(
            ops,
        ).stage == BridgeStage::Completed || m.run(ops).stage == BridgeStage::Failed),
        m.run(ops).stage == BridgeStage::Abandoned ==> m.persist_requests(ops) == 0,
    decreases ops.len(),
{
    if ops.len() > 0 {
        lemma_persists_at_most_once(m, ops.drop_last());
    }
}

/// Nothing is ever stored for a session that was aborted: once a stream was
/// closed after such a session, nothing that happens to it asks for the reply
/// to be stored, and the stream stays as it ended.
pub proof fn lemma_aborted_is_never_persisted(
    m: BridgeModel,
    end: SessionEnd,
    ops: Seq<BridgeOp>,
)
    requires
        m.stage == BridgeStage::Streaming,
        end.spec_phase() == Phase::Aborted,
    ensures
        !m.asks_to_persist(end),
        m.close(end).stage == BridgeStage::Abandoned,
        m.close(end).persist_requests(ops) == 0,
        m.close(end).run(ops) == m.close(end),
    decreases ops.len(),
{
    if ops.len() > 0 {
        lemma_aborted_is_never_persisted(m, end, ops.drop_last());
    }
}

} // verus!
