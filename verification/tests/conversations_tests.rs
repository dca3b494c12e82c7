use local_llm_api::assistant::{InferenceTask, Role};
use local_llm_api::conversations::{prompt_of, request_reply, task_for};
use local_llm_api::entities;
use local_llm_api::entities::Timestamp;
use local_llm_api::queue::{AdmissionError, AdmissionQueue};
use local_llm_api::schemas;
use local_llm_api::stream::BridgeStage;
use uuid::Uuid;

fn stored(conversation_id: Uuid, kind: entities::MessageKind, text: &str) -> entities::Message {
    entities::Message {
        id: Uuid::new_v4(),
        conversation_id,
        kind,
        created_at: Timestamp { secs: 1_700_000_000, nanos: 0 },
        text: text.to_string(),
    }
}

fn history(conversation_id: Uuid) -> Vec<entities::Message> {
    vec![
        stored(conversation_id, entities::MessageKind::System, "rules"),
        stored(conversation_id, entities::MessageKind::User, "Hi"),
        stored(conversation_id, entities::MessageKind::Bot, "Hello"),
        stored(conversation_id, entities::MessageKind::User, "Again"),
    ]
}

#[test]
fn prompt_of_history_keeps_order_roles_and_texts() {
    let prompt = prompt_of(history(Uuid::new_v4()));
    let seen: Vec<(Role, &str)> = prompt.iter().map(|m| (m.role, m.content.as_str())).collect();
    assert_eq!(
        seen,
        vec![
            (Role::System, "rules"),
            (Role::User, "Hi"),
            (Role::Assistant, "Hello"),
            (Role::User, "Again"),
        ]
    );
    assert!(prompt_of(Vec::new()).is_empty());
}

#[test]
fn task_for_history_carries_the_prompt() {
    let (task, _fragments) = task_for(history(Uuid::new_v4()));
    assert_eq!(task.messages().len(), 4);
    assert_eq!(task.messages()[3].content, "Again");
    assert_eq!(task.messages()[2].role, Role::Assistant);
}

#[test]
fn admitted_request_opens_a_stream_and_queues_the_task() {
    let conversation_id = Uuid::new_v4();
    let mut queue: AdmissionQueue<InferenceTask> = AdmissionQueue::new(10);
    let user = stored(conversation_id, entities::MessageKind::User, "Hi");
    let user_id = user.id;
    let (task, _fragments) = task_for(history(conversation_id));

    let admitted = request_reply(&mut queue, task, user).ok().unwrap();
    assert_eq!(admitted.first.id, user_id);
    assert_eq!(admitted.first.text, "Hi");
    assert_eq!(admitted.first.kind, schemas::MessageKind::User);
    assert_eq!(admitted.bridge.conversation_id(), conversation_id);
    assert_eq!(admitted.bridge.stage(), BridgeStage::Streaming);
    assert_eq!(admitted.bridge.assembled(), "");
    assert_eq!(queue.len(), 1);
    assert_eq!(queue.take().unwrap().messages().len(), 4);
}

#[test]
fn request_to_full_queue_fails_before_anything_is_produced() {
    let mut queue: AdmissionQueue<u32> = AdmissionQueue::new(2);
    let conversation_id = Uuid::new_v4();
    assert!(request_reply(&mut queue, 1, stored(conversation_id, entities::MessageKind::User, "a")).is_ok());
    assert!(request_reply(&mut queue, 2, stored(conversation_id, entities::MessageKind::User, "b")).is_ok());
    let rejected = request_reply(&mut queue, 3, stored(conversation_id, entities::MessageKind::User, "c"))
        .err()
        .unwrap();
    assert_eq!(rejected.reason, AdmissionError::QueueFull);
    assert_eq!(rejected.task, 3);
    assert_eq!(queue.len(), 2);
    assert_eq!(queue.take(), Some(1));
    assert!(request_reply(&mut queue, 3, stored(conversation_id, entities::MessageKind::User, "c")).is_ok());
    assert_eq!(queue.take(), Some(2));
    assert_eq!(queue.take(), Some(3));
}

#[test]
fn request_to_closed_queue_is_refused() {
    let mut queue: AdmissionQueue<u32> = AdmissionQueue::new(2);
    queue.close();
    let rejected = request_reply(&mut queue, 1, stored(Uuid::new_v4(), entities::MessageKind::User, "a"))
        .err()
        .unwrap();
    assert_eq!(rejected.reason, AdmissionError::Closed);
    assert_eq!(rejected.task, 1);
    assert!(queue.is_empty());
}
