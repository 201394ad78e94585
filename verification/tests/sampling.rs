use bioma_tool::cognition::conversation::MessageRole;
use bioma_tool::sampling::chat::{chat_messages, num_predict, reply_role, SamplingMessage};
use bioma_tool::sampling::SamplingError;
use bioma_tool::schema::Role;

#[test]
fn sampling_messages_with_system_prompt() {
    let messages = vec![
        SamplingMessage { role: Role::User, content: "\"What is the capital of France?\"".to_string() },
        SamplingMessage { role: Role::Assistant, content: "\"Paris\"".to_string() },
    ];
    let c = chat_messages(Some("be brief".to_string()), &messages);
    assert_eq!(c.len(), 3);
    assert_eq!(c[0].role, MessageRole::System);
    assert_eq!(c[0].content, "be brief");
    assert_eq!(c[1].role, MessageRole::User);
    assert_eq!(c[1].content, "\"What is the capital of France?\"");
    assert_eq!(c[2].role, MessageRole::Assistant);
    let plain = chat_messages(None, &messages);
    assert_eq!(plain.len(), 2);
    assert_eq!(plain[0].role, MessageRole::User);
}

#[test]
fn sampling_token_limit_is_cast() {
    assert_eq!(num_predict(128), 128);
    assert_eq!(num_predict(1i64 << 32), 0);
    assert_eq!(num_predict(-1), -1);
}

#[test]
fn sampling_reply_roles() {
    assert_eq!(reply_role(MessageRole::Assistant), Ok(Role::Assistant));
    assert_eq!(reply_role(MessageRole::User), Ok(Role::User));
    assert_eq!(
        reply_role(MessageRole::System),
        Err(SamplingError::Execution("Unsupported message role: System".to_string()))
    );
    assert_eq!(reply_role(MessageRole::Tool).unwrap_err().to_string(), "Sampling failed: Unsupported message role: Tool");
}
