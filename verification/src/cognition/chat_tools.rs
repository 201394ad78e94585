//! Chatting with a model that may call tools: which tool a call goes to,
//! what the errors say, and the decisions of the chat loop. The loop
//! itself (sending to the model, calling the tools, streaming the replies)
//! is performed by the server, which hands each reply's number of tool
//! calls to [`ToolChat::on_reply`] and does what it answers.
use vstd::prelude::*;
use crate::cognition::conversation::{ChatMessage, MessageRole};
use crate::text::{append_str, from_chars, str_eq};

/// The cognition server keeps its tool servers as the RAG server does: the
/// first tool of a name is found server by server.
pub use crate::rag_server::tool::{ToolClient, Tools as ToolsHub};

verus! {

/// What can go wrong while chatting with tools.
#[derive(Debug)]
pub enum ChatToolError {
    FetchToolsError(String),
    SendChatRequestError(String),
    StreamResponseError(String),
    AnalyzeDependencyTreeError(String),
    ToolNotFound(String),
}

impl ChatToolError {
    /// The error's message.
    pub fn to_string(&self) -> (s: String)
        ensures
            match self {
                ChatToolError::FetchToolsError(m) => s@ == "Error fetching tools: "@ + m@,
                ChatToolError::SendChatRequestError(m) => s@ == "Error sending chat request: "@ + m@,
                ChatToolError::StreamResponseError(m) => s@ == "Error streaming response: "@ + m@,
                ChatToolError::AnalyzeDependencyTreeError(m) => s@ == "Error analyzing dependency tree: "@ + m@,
                ChatToolError::ToolNotFound(m) => s@ == "Tool not found: "@ + m@,
            },
    {
        let mut out: Vec<char> = Vec::new();
        match self {
            ChatToolError::FetchToolsError(m) => {
                append_str(&mut out, "Error fetching tools: ");
                append_str(&mut out, m.as_str());
            },
            ChatToolError::SendChatRequestError(m) => {
                append_str(&mut out, "Error sending chat request: ");
                append_str(&mut out, m.as_str());
            },
            ChatToolError::StreamResponseError(m) => {
                append_str(&mut out, "Error streaming response: ");
                append_str(&mut out, m.as_str());
            },
            ChatToolError::AnalyzeDependencyTreeError(m) => {
                append_str(&mut out, "Error analyzing dependency tree: ");
                append_str(&mut out, m.as_str());
            },
            ChatToolError::ToolNotFound(m) => {
                append_str(&mut out, "Tool not found: ");
                append_str(&mut out, m.as_str());
            },
        }
        from_chars(&out)
    }
}

/// The tool a call of `name` goes to: the first of the given tools that
/// has that name.
pub fn find_tool(tool_names: &Vec<String>, name: &str) -> (r: Result<usize, ChatToolError>)
    ensures
        match r {
            Ok(i) => i < tool_names.len() && tool_names@[i as int]@ == name@ && forall|j: int|
                0 <= j < i ==> (#[trigger] tool_names@[j])@ != name@,
            Err(ChatToolError::ToolNotFound(m)) => m@ == name@ && forall|j: int|
                0 <= j < tool_names.len() ==> (#[trigger] tool_names@[j])@ != name@,
            Err(_) => false,
        },
{
    let mut i: usize = 0;
    while i < tool_names.len()
        invariant
            i <= tool_names.len(),
            forall|j: int| 0 <= j < i ==> (#[trigger] tool_names@[j])@ != name@,
        decreases tool_names.len() - i,
    {
        if str_eq(tool_names[i].as_str(), name) {
            return Ok(i);
        }
        i = i + 1;
    }
    Err(ChatToolError::ToolNotFound(from_chars(&crate::text::to_chars(name))))
}

/// What the chat loop does with a reply of the model.
#[derive(Debug, Clone, Copy, PartialEq, Eq, Structural)]
pub enum ToolChatAction {
    /// Forward the reply to the client, with the conversation as its
    /// context when this is the first reply forwarded.
    Forward { with_context: bool },
    /// Call each requested tool, add each result to the conversation, and
    /// ask the model again with the longer conversation.
    CallTools,
}

/// A chat with tools: the conversation so far and whether a reply was
/// already forwarded.
pub struct ToolChat {
    pub messages: Vec<ChatMessage>,
    pub forwarded: bool,
}

impl ToolChat {
    /// A chat about a conversation, with nothing forwarded yet.
    pub fn new(messages: Vec<ChatMessage>) -> (c: Self)
        ensures
            c.messages@ == messages@,
            !c.forwarded,
    {
        ToolChat { messages, forwarded: false }
    }

    /// Decides what to do with a reply that asks for `tool_calls` calls:
    /// a reply without calls is forwarded, with the conversation only the
    /// first time; one with calls has them performed.
    pub fn on_reply(&mut self, tool_calls: usize) -> (a: ToolChatAction)
        ensures
            tool_calls == 0 ==> a == (ToolChatAction::Forward { with_context: !old(self).forwarded })
                && final(self).forwarded,
            tool_calls > 0 ==> a == ToolChatAction::CallTools && final(self).forwarded == old(self).forwarded,
            final(self).messages@ == old(self).messages@,
    {
        if tool_calls == 0 {
            let with_context = !self.forwarded;
            self.forwarded = true;
            ToolChatAction::Forward { with_context }
        } else {
            ToolChatAction::CallTools
        }
    }

    /// Adds a tool's result to the conversation, as a message of the tool.
    pub fn add_tool_result(&mut self, result: String)
        ensures
            final(self).messages@.len() == old(self).messages@.len() + 1,
            final(self).messages@.subrange(0, old(self).messages@.len() as int) == old(self).messages@,
            final(self).messages@.last().role == MessageRole::Tool,
            final(self).messages@.last().content@ == result@,
            final(self).messages@.last().images is None,
            final(self).forwarded == old(self).forwarded,
    {
        self.messages.push(ChatMessage { role: MessageRole::Tool, content: result, images: None });
        assert(self.messages@.subrange(0, old(self).messages@.len() as int) =~= old(self).messages@);
    }
}

} // verus!
