//! What happens when a caller posts a message: the conversation so far
//! becomes a prompt, the prompt a task, and the task goes to the admission
//! queue. Either the task is admitted and a stream begins, or the caller
//! learns at once why it was not, before anything was generated.

use crate::assistant::{ChatMessage, InferenceTask};
use crate::entities;
use crate::queue::{AdmissionQueue, Rejected};
use crate::schemas;
use crate::stream::{BridgeModel, StreamBridge};
use tokio::sync::mpsc::Receiver;
use vstd::prelude::*;

verus! {

/// The stored messages of a conversation as the model is to see them, in
/// the same order.
pub open spec fn spec_prompt_of(history: Seq<entities::Message>) -> Seq<ChatMessage> {
    Seq::new(
        history.len(),
        |i: int|
            <ChatMessage as vstd::std_specs::convert::FromSpec<entities::Message>>::from_spec(
                history[i],
            ),
    )
}

/// The prompt that the stored messages of a conversation make.
pub fn prompt_of(history: Vec<entities::Message>) -> (prompt: Vec<ChatMessage>)
    ensures
        prompt@ == spec_prompt_of(history@),
{
    let mut prompt: Vec<ChatMessage> = Vec::new();
    let ghost all = history@;
    for message in it: history
        invariant
            it.seq() == all,
            prompt@ == spec_prompt_of(all.take(it.index() as int)),
    {
        prompt.push(ChatMessage::from(message));
        assert(prompt@ =~= spec_prompt_of(all.take(it.index() + 1)));
    }
    assert(all.take(all.len() as int) =~= all);
    prompt
}

/// The task that asks for a reply to a conversation, with the read end of
/// its fragment channel: its prompt is the conversation so far.
pub fn task_for(history: Vec<entities::Message>) -> (made: (InferenceTask, Receiver<String>))
    ensures
        made.0.prompt() == spec_prompt_of(history@),
{
    InferenceTask::new(prompt_of(history))
}

/// What a caller gets when its task was admitted.
pub struct Admitted {
    /// The bridge of the reply's stream.
    pub bridge: StreamBridge,
    /// The first element of the stream: the stored user message, as shown.
    pub first: schemas::Message,
}

/// Submits the task that asks for the reply to a stored user message. Where
/// the queue admits it, the task is the last one pending and the stream of
/// the reply is open, with nothing relayed yet and its identifier chosen.
/// Where the queue does not, nothing has changed, no stream exists, and the
/// task comes back with the reason.
pub fn request_reply<T>(
    queue: &mut AdmissionQueue<T>,
    task: T,
    stored: entities::Message,
) -> (outcome: Result<Admitted, Rejected<T>>)
    requires
        old(queue)@.wf(),
    ensures
        final(queue)@ == old(queue)@.submit(task),
        final(queue)@.wf(),
        match old(queue)@.refusal() {
            Some(reason) => outcome matches Err(rejected) && rejected.task == task
                && rejected.reason == reason,
            None => {
                &&& outcome matches Ok(admitted)
                &&& admitted.bridge@ == BridgeModel::opened(
                    stored.conversation_id,
                    admitted.bridge@.message_id,
                )
                &&& admitted.first == <schemas::Message as vstd::std_specs::convert::FromSpec<
                    entities::Message,
                >>::from_spec(stored)
            },
        },
{
    match queue.submit(task) {
        Ok(()) => {
            let (bridge, first) = StreamBridge::begin(stored);
            Ok(Admitted { bridge, first })
        },
        Err(rejected) => Err(rejected),
    }
}

} // verus!
