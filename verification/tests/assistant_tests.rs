use chrono::Utc;
use local_llm_api::assistant::{ChatMessage, InferenceTask, Role, FRAGMENT_BUFFER};
use local_llm_api::entities;
use local_llm_api::entities::Timestamp;
use uuid::Uuid;

fn now() -> Timestamp {
    let now = Utc::now();
    Timestamp { secs: now.timestamp(), nanos: now.timestamp_subsec_nanos() }
}

#[test]
fn test_chat_message_from_user_entity() {
    let user_message = entities::Message {
        id: Uuid::new_v4(),
        conversation_id: Uuid::new_v4(),
        kind: entities::MessageKind::User,
        created_at: now(),
        text: "Hello".to_string(),
    };

    let chat_message: ChatMessage = user_message.into();
    assert!(matches!(chat_message.role, Role::User));
    assert_eq!(chat_message.content, "Hello");
}

#[test]
fn test_chat_message_from_bot_entity() {
    let bot_message = entities::Message {
        id: Uuid::new_v4(),
        conversation_id: Uuid::new_v4(),
        kind: entities::MessageKind::Bot,
        created_at: now(),
        text: "Hi there!".to_string(),
    };

    let chat_message: ChatMessage = bot_message.into();
    assert!(matches!(chat_message.role, Role::Assistant));
    assert_eq!(chat_message.content, "Hi there!");
}

#[test]
fn test_chat_message_from_system_entity() {
    let system_message = entities::Message {
        id: Uuid::new_v4(),
        conversation_id: Uuid::new_v4(),
        kind: entities::MessageKind::System,
        created_at: now(),
        text: "You are an assistant".to_string(),
    };

    let chat_message: ChatMessage = system_message.into();
    assert!(matches!(chat_message.role, Role::System));
    assert_eq!(chat_message.content, "You are an assistant");
}

#[test]
fn test_chat_message_as_jinja_value() {
    let message = ChatMessage { role: Role::User, content: "Test message".to_string() };

    let jinja_val = message.as_jinja_value();
    assert!(jinja_val.as_object().is_some());
}

#[test]
fn test_inference_task_new_creates_channel() {
    let messages = vec![ChatMessage { role: Role::User, content: "Hello".to_string() }];

    let (task, mut receiver) = InferenceTask::new(messages);

    task.return_channel().try_send("test".to_string()).unwrap();

    let received = receiver.try_recv().ok();
    assert_eq!(received, Some("test".to_string()));
}

#[test]
fn test_inference_task_as_jinja_input() {
    let messages = vec![
        ChatMessage { role: Role::System, content: "System prompt".to_string() },
        ChatMessage { role: Role::User, content: "User message".to_string() },
    ];

    let (task, _) = InferenceTask::new(messages);
    let jinja_input = task.as_jinja_input();

    assert!(jinja_input.as_object().is_some());
}

#[test]
fn chat_message_jinja_value_holds_role_and_content() {
    for (role, name) in
        [(Role::User, "user"), (Role::Assistant, "assistant"), (Role::System, "system")]
    {
        let message = ChatMessage { role, content: "Test message".to_string() };
        let value = message.as_jinja_value();
        assert_eq!(value.get_attr("role").unwrap().as_str(), Some(name));
        assert_eq!(value.get_attr("content").unwrap().as_str(), Some("Test message"));
        assert_eq!(value.len(), Some(2));
        assert_eq!(role.name(), name);
    }
}

#[test]
fn inference_task_jinja_input_lists_messages_in_order() {
    let messages = vec![
        ChatMessage { role: Role::System, content: "System prompt".to_string() },
        ChatMessage { role: Role::User, content: "User message".to_string() },
        ChatMessage { role: Role::Assistant, content: "Reply".to_string() },
    ];
    let (task, _receiver) = InferenceTask::new(messages);
    let input = task.as_jinja_input();
    let listed = input.get_attr("messages").unwrap();
    assert_eq!(listed.len(), Some(3));
    let expected =
        [("system", "System prompt"), ("user", "User message"), ("assistant", "Reply")];
    for (i, (role, content)) in expected.iter().enumerate() {
        let item = listed.get_item_by_index(i).unwrap();
        assert_eq!(item.get_attr("role").unwrap().as_str(), Some(*role));
        assert_eq!(item.get_attr("content").unwrap().as_str(), Some(*content));
    }
    assert_eq!(task.messages().len(), 3);
    assert_eq!(task.messages()[1].content, "User message");
}

#[test]
fn inference_task_template_renders_from_jinja_input() {
    let messages = vec![
        ChatMessage { role: Role::System, content: "Be brief".to_string() },
        ChatMessage { role: Role::User, content: "Hi".to_string() },
    ];
    let (task, _receiver) = InferenceTask::new(messages);
    let mut env = minijinja::Environment::new();
    env.add_template(
        "main",
        "{% for m in messages %}<{{ m.role }}>{{ m.content }}{% endfor %}",
    )
    .unwrap();
    let rendered = env.get_template("main").unwrap().render(task.as_jinja_input()).unwrap();
    assert_eq!(rendered, "<system>Be brief<user>Hi");
}

#[test]
fn inference_task_channel_keeps_fragment_order_and_closes() {
    let (task, mut receiver) = InferenceTask::new(Vec::new());
    task.return_channel().try_send("He".to_string()).unwrap();
    task.return_channel().try_send("llo".to_string()).unwrap();
    assert_eq!(receiver.try_recv().ok(), Some("He".to_string()));
    assert_eq!(receiver.try_recv().ok(), Some("llo".to_string()));
    assert_eq!(task.return_channel().max_capacity(), FRAGMENT_BUFFER);
    assert_eq!(FRAGMENT_BUFFER, 1000);
    drop(receiver);
    assert!(task.return_channel().try_send("late".to_string()).is_err());
    assert!(task.return_channel().is_closed());
}

#[test]
fn role_of_each_message_kind() {
    assert_eq!(Role::of_kind(entities::MessageKind::System), Role::System);
    assert_eq!(Role::of_kind(entities::MessageKind::User), Role::User);
    assert_eq!(Role::of_kind(entities::MessageKind::Bot), Role::Assistant);
}
