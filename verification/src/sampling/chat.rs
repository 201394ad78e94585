//! Sampling with a chat model: the conversation the model is sent for a
//! sampling request, its limit on generated tokens, and the role of its
//! reply. Sending it to the model is the server's part.
use vstd::prelude::*;
use crate::cognition::conversation::{ChatMessage, MessageRole};
use crate::sampling::SamplingError;
use crate::schema::Role;
use crate::text::{append_str, from_chars};

verus! {

/// A message of a sampling request; its content is JSON text.
#[derive(Debug, Clone)]
pub struct SamplingMessage {
    pub role: Role,
    pub content: String,
}

/// The chat role of a sampling role.
pub open spec fn chat_role(r: Role) -> MessageRole {
    match r {
        Role::User => MessageRole::User,
        Role::Assistant => MessageRole::Assistant,
    }
}

/// The conversation sent to the model: the system prompt first, when the
/// request has one, then the request's messages in order, each with its
/// role and its content's JSON text.
pub fn chat_messages(system_prompt: Option<String>, messages: &Vec<SamplingMessage>) -> (c: Vec<ChatMessage>)
    ensures
        ({
            let k: int = if system_prompt is Some { 1 } else { 0 };
            &&& c.len() == k + messages.len()
            &&& system_prompt matches Some(p) ==> c[0].role == MessageRole::System && c[0].content@ == p@
            &&& forall|i: int| 0 <= i < messages.len() ==> (#[trigger] c[k + i]).role == chat_role(messages[i].role)
                && c[k + i].content@ == messages[i].content@
            &&& forall|i: int| 0 <= i < c.len() ==> (#[trigger] c[i]).images is None
        }),
{
    let mut c: Vec<ChatMessage> = Vec::new();
    let k: usize = match system_prompt {
        Some(p) => {
            c.push(ChatMessage { role: MessageRole::System, content: p, images: None });
            1
        },
        None => 0,
    };
    let mut i: usize = 0;
    while i < messages.len()
        invariant
            k == (if system_prompt is Some { 1usize } else { 0usize }),
            c.len() == k + i,
            i <= messages.len(),
            system_prompt matches Some(p) ==> c[0].role == MessageRole::System && c[0].content@ == p@,
            forall|j: int| 0 <= j < i ==> (#[trigger] c[k + j]).role == chat_role(messages[j].role)
                && c[k + j].content@ == messages[j].content@,
            forall|j: int| 0 <= j < c.len() ==> (#[trigger] c[j]).images is None,
        decreases messages.len() - i,
    {
        let role = match messages[i].role {
            Role::User => MessageRole::User,
            Role::Assistant => MessageRole::Assistant,
        };
        c.push(ChatMessage { role, content: messages[i].content.clone(), images: None });
        i = i + 1;
    }
    c
}

/// The model's limit on generated tokens: the request's maximum, cut to
/// 32 bits as a cast does.
pub fn num_predict(max_tokens: i64) -> (n: i32)
    ensures
        n == max_tokens as i32,
{
    #[verifier::truncate]
    (max_tokens as i32)
}

/// The sampling role of the model's reply; a system or tool message is an
/// error.
pub fn reply_role(role: MessageRole) -> (r: Result<Role, SamplingError>)
    ensures
        role == MessageRole::User ==> r == Ok::<Role, SamplingError>(Role::User),
        role == MessageRole::Assistant ==> r == Ok::<Role, SamplingError>(Role::Assistant),
        role == MessageRole::System ==> (r matches Err(SamplingError::Execution(m))
            && m@ == "Unsupported message role: System"@),
        role == MessageRole::Tool ==> (r matches Err(SamplingError::Execution(m))
            && m@ == "Unsupported message role: Tool"@),
{
    match role {
        MessageRole::User => Ok(Role::User),
        MessageRole::Assistant => Ok(Role::Assistant),
        MessageRole::System => {
            let mut m: Vec<char> = Vec::new();
            append_str(&mut m, "Unsupported message role: System");
            Err(SamplingError::Execution(from_chars(&m)))
        },
        MessageRole::Tool => {
            let mut m: Vec<char> = Vec::new();
            append_str(&mut m, "Unsupported message role: Tool");
            Err(SamplingError::Execution(from_chars(&m)))
        },
    }
}

} // verus!
