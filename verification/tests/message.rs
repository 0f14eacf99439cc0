use neo_ai::json::Json;
use neo_ai::message::{Message, MessageType};

#[test]
fn new_keeps_role_and_content() {
    let m = Message::new(MessageType::ASSISTANT, "hi".to_string());
    assert_eq!(m.role, MessageType::ASSISTANT);
    assert_eq!(m.content, "hi");
}

#[test]
fn default_is_an_empty_user_message() {
    let m = Message::default();
    assert_eq!(m.role, MessageType::USER);
    assert_eq!(m.content, "");
}

#[test]
fn roles_are_named_as_the_service_names_them() {
    assert_eq!(MessageType::ASSISTANT.to_string(), "assistant");
    assert_eq!(MessageType::SYSTEM.to_string(), "system");
    assert_eq!(MessageType::USER.to_string(), "user");
}

#[test]
fn messages_are_shown_with_their_author() {
    assert_eq!(Message::new(MessageType::USER, "hello".to_string()).to_string(), "You: hello");
    assert_eq!(Message::new(MessageType::SYSTEM, "rules".to_string()).to_string(), "System: rules");
    assert_eq!(
        Message::new(MessageType::ASSISTANT, "hi".to_string()).to_string(),
        "N\u{e9}o AI: hi"
    );
}

#[test]
fn message_json_has_role_and_content() {
    let m = Message::new(MessageType::USER, "Tell me".to_string());
    assert_eq!(
        m.to_json(),
        Json::Object(vec![
            ("role".to_string(), Json::Text("user".to_string())),
            ("content".to_string(), Json::Text("Tell me".to_string())),
        ])
    );
}

#[test]
fn clone_is_equal() {
    let m = Message::new(MessageType::SYSTEM, "p".to_string());
    assert_eq!(m.clone(), m);
}
