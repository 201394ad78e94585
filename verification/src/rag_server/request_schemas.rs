//! The request bodies of the RAG server's endpoints; they are those of the
//! cognition server, and a request's chat message converts to the message
//! a chat model is sent.
use vstd::prelude::*;
use crate::cognition::conversation::{ChatMessage, MessageRole};

pub use crate::cognition::request_schemas::{
    ChatMessageRequestSchema, ChunkCapacityRequestSchema, DeleteSourceRequestSchema, IndexGlobsRequestSchema,
    MessageRoleRequestSchema, RetrieveQueryRequestSchema,
};

verus! {

/// The role a request's role stands for.
pub open spec fn role_of(r: MessageRoleRequestSchema) -> MessageRole {
    match r {
        MessageRoleRequestSchema::User => MessageRole::User,
        MessageRoleRequestSchema::Assistant => MessageRole::Assistant,
        MessageRoleRequestSchema::System => MessageRole::System,
        MessageRoleRequestSchema::Tool => MessageRole::Tool,
    }
}

/// The chat message a request's message stands for: its role, its content
/// and its images (none when absent).
pub fn into_chat_message(m: ChatMessageRequestSchema) -> (c: ChatMessage)
    ensures
        c.role == role_of(m.role),
        c.content == m.content,
        match m.images {
            Some(imgs) => c.images == Some(imgs),
            None => c.images matches Some(v) && v.len() == 0,
        },
{
    let role = match m.role {
        MessageRoleRequestSchema::User => MessageRole::User,
        MessageRoleRequestSchema::Assistant => MessageRole::Assistant,
        MessageRoleRequestSchema::System => MessageRole::System,
        MessageRoleRequestSchema::Tool => MessageRole::Tool,
    };
    let images = match m.images {
        Some(imgs) => imgs,
        None => Vec::new(),
    };
    ChatMessage { role, content: m.content, images: Some(images) }
}

} // verus!
