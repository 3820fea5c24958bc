use chat_service::Message;
use chat_service::MessageError;
use chat_service::Model;
use chat_service::Timestamp;
use uuid::Uuid;

fn now() -> Timestamp {
    Timestamp::from_millis(chrono::Utc::now().timestamp_millis())
}

#[test]
fn message_test_new() {
    let id = Uuid::new_v4();
    let role = "user";
    let content = "Hello, world!";
    let tokens = 4092;
    let model = Model::new("gpt-3.5-turbo".to_string(), 4096);
    let created_at = now();
    let message = Message::new(id, role, content, tokens, &model, created_at);

    assert_eq!(message.id, id);
    assert_eq!(message.role, role);
    assert_eq!(message.content, content);
    assert_eq!(message.tokens, tokens);
    assert_eq!(message.model, &model);
    assert_eq!(message.created_at, created_at);
}

#[test]
fn test_validate() {
    let id = Uuid::new_v4();
    let role = "user";
    let content = "Hello, world!";
    let tokens = 4092;
    let model = Model::new("gpt-3.5-turbo".to_string(), 4096);
    let created_at = now();
    let message = Message::new(id, role, content, tokens, &model, created_at);

    assert_eq!(message.validate(), Ok(()));
}

#[test]
fn test_invalid_role() {
    let id = Uuid::new_v4();
    let role = "invalid";
    let content = "Hello, world!";
    let tokens = 4092;
    let model = Model::new("gpt-3.5-turbo".to_string(), 4096);
    let created_at = now();
    let message = Message::new(id, role, content, tokens, &model, created_at);

    assert_eq!(message.validate(), Err(MessageError::InvalidRole));
    assert_eq!(message.validate().unwrap_err().message(), "role is invalid".to_string());
}

#[test]
fn test_empty_content() {
    let id = Uuid::new_v4();
    let role = "user";
    let content = "";
    let tokens = 4092;
    let model = Model::new("gpt-3.5-turbo".to_string(), 4096);
    let created_at = now();
    let message = Message::new(id, role, content, tokens, &model, created_at);

    assert_eq!(message.validate(), Err(MessageError::EmptyContent));
    assert_eq!(message.validate().unwrap_err().message(), "content is empty".to_string());
}

#[test]
fn test_role_is_empty() {
    let id = Uuid::new_v4();
    let role = "";
    let content = "Hello, world!";
    let tokens = 4092;
    let model = Model::new("gpt-3.5-turbo".to_string(), 4096);
    let created_at = now();
    let message = Message::new(id, role, content, tokens, &model, created_at);

    assert_eq!(message.validate(), Err(MessageError::InvalidRole));
    assert_eq!(message.validate().unwrap_err().message(), "role is invalid".to_string());
}

#[test]
fn test_created_at_is_invalid() {
    let id = Uuid::new_v4();
    let role = "user";
    let content = "Hello, world!";
    let tokens = 4092;
    let model = Model::new("gpt-3.5-turbo".to_string(), 4096);
    let one_day_ms: i64 = 24 * 60 * 60 * 1000;
    let created_at = Timestamp::from_millis(chrono::Utc::now().timestamp_millis() + one_day_ms);
    let message = Message::new(id, role, content, tokens, &model, created_at);

    assert_eq!(message.validate(), Err(MessageError::InvalidTimestamp));
    assert_eq!(message.validate().unwrap_err().message(), "created_at is invalid".to_string());
}

#[test]
fn test_tokenizer_fallback_for_unknown_model() {
    let model = Model::new("mystery-model".to_string(), 100);
    let message = Message::new(Uuid::new_v4(), "user", "Hello, world!", 7, &model, now());

    assert_eq!(message.tokens, 7);
}

#[test]
fn test_tokenizer_overrides_fallback() {
    let model = Model::new("gpt-3.5-turbo".to_string(), 4096);
    let message = Message::new(Uuid::new_v4(), "user", "Hello, world!", 0, &model, now());

    assert_eq!(message.tokens, 4092);
}

#[test]
fn test_clone_is_independent() {
    let model = Model::new("gpt-3.5-turbo".to_string(), 4096);
    let message = Message::new(Uuid::new_v4(), "user", "Hello, world!", 0, &model, now());

    let mut copy = message.clone();
    assert_eq!(copy.id, message.id);
    assert_eq!(copy.role, message.role);
    assert_eq!(copy.content, message.content);
    assert_eq!(copy.tokens, message.tokens);
    assert_eq!(copy.created_at, message.created_at);

    copy.content = "changed".to_string();
    copy.tokens = 1;
    assert_eq!(message.content, "Hello, world!");
    assert_eq!(message.tokens, 4092);
}

#[test]
fn test_getters() {
    let id = Uuid::new_v4();
    let created_at = now();
    let model = Model::new("gpt-3.5-turbo".to_string(), 4096);
    let message = Message::new(id, "assistant", "Hi there.", 3, &model, created_at);

    assert_eq!(message.id(), id);
    assert_eq!(message.role(), "assistant");
    assert_eq!(message.content(), "Hi there.");
    assert_eq!(message.tokens(), message.tokens);
    assert_eq!(message.model(), &model);
    assert_eq!(message.created_at(), created_at);
}

#[test]
fn test_resolve_token_count() {
    assert_eq!(chat_service::message::resolve_token_count(Some(11), 4), 11);
    assert_eq!(chat_service::message::resolve_token_count(None, 4), 4);
}

#[test]
fn test_validate_at_exact_boundary() {
    let model = Model::new("mystery-model".to_string(), 100);
    let instant = Timestamp::from_millis(1_000);
    let message = Message::new(Uuid::new_v4(), "system", "Hello.", 2, &model, instant);

    assert_eq!(message.validate_at(Timestamp::from_millis(1_000)), Ok(()));
    assert_eq!(
        message.validate_at(Timestamp::from_millis(999)),
        Err(MessageError::InvalidTimestamp)
    );
    assert_eq!(message.validate_at(Timestamp::from_millis(1_001)), Ok(()));
}
