//! The cognition server's configuration and its defaults.
use vstd::prelude::*;
use crate::client::ClientConfig;

verus! {

/// The cognition server's configuration.
#[derive(Debug, Clone)]
pub struct Config {
    /// The endpoint of the actor engine's database.
    pub engine_endpoint: String,
    pub rag_endpoint: String,
    pub chat_endpoint: String,
    pub chat_model: String,
    pub chat_prompt: String,
    pub think_prompt: String,
    pub think_model: String,
    pub messages_limit: usize,
    pub context_length: u32,
    pub tools: Vec<ClientConfig>,
}

/// The chat prompt by default.
pub open spec fn chat_prompt_text() -> Seq<char> {
    "You are, Bioma, a helpful assistant. Your creator is Vertex Studio, a games and \nsimulation company. Format your response in markdown. Use the following context to \nanswer the user's query:\n\n"@
}

/// The endpoint of the actor engine's database by default.
pub fn default_engine_endpoint() -> (s: String)
    ensures
        s@ == "ws://0.0.0.0:9123"@,
{
    "ws://0.0.0.0:9123".to_owned()
}

/// The RAG server's endpoint by default, as its URL is written.
pub fn default_rag_endpoint() -> (s: String)
    ensures
        s@ == "http://0.0.0.0:5766/"@,
{
    "http://0.0.0.0:5766/".to_owned()
}

/// The chat model server's endpoint by default, as its URL is written.
pub fn default_chat_endpoint() -> (s: String)
    ensures
        s@ == "http://0.0.0.0:11434/"@,
{
    "http://0.0.0.0:11434/".to_owned()
}

/// The chat model by default.
pub fn default_chat_model() -> (s: String)
    ensures
        s@ == "llama3.2-vision"@,
{
    "llama3.2-vision".to_owned()
}

/// The chat prompt by default.
pub fn default_chat_prompt() -> (s: String)
    ensures
        s@ == chat_prompt_text(),
{
    "You are, Bioma, a helpful assistant. Your creator is Vertex Studio, a games and \nsimulation company. Format your response in markdown. Use the following context to \nanswer the user's query:\n\n".to_owned()
}

/// The think prompt by default; `{tools_list}` stands for the list of tools.
pub fn default_think_prompt() -> (s: String)
    ensures
        s@ == think_prompt_text(),
{
    "You're a selection tools assistant, created by Vertex Studio. Format responses in markdown.\n\nAPPROVED TOOLS LIST:\n{tools_list}\n\nTOOL USAGE REQUIREMENTS:\n1. Review the available tools and their documented intents\n2. Only suggest tools that precisely match the required capability\n3. Each tool suggestion must align with its documented Intent field\n4. Tools must be used within their specified Family classification\n5. When suggesting tools, include the full Name for general discussion\n6. Quote the tool's exact Intent when explaining its usage\n7. If no approved tool matches the required capability, state that no approved tool is available\n\nSTRICT LIMITATIONS:\n- If a tool is not in the Approved Tools list, do not mention or suggest it\n- If a task doesn't match a tool's documented Intent, do not suggest that tool\n- Never suggest alternative tools outside the approved list\n- Never acknowledge or reference tools outside the approved list\n\nRESPONSE FORMAT:\nFor [specific task], I recommend using [Tool Name] (Name: [tool.name]) because its intent is [quote tool.description]".to_owned()
}

/// The think prompt by default.
pub open spec fn think_prompt_text() -> Seq<char> {
    "You're a selection tools assistant, created by Vertex Studio. Format responses in markdown.\n\nAPPROVED TOOLS LIST:\n{tools_list}\n\nTOOL USAGE REQUIREMENTS:\n1. Review the available tools and their documented intents\n2. Only suggest tools that precisely match the required capability\n3. Each tool suggestion must align with its documented Intent field\n4. Tools must be used within their specified Family classification\n5. When suggesting tools, include the full Name for general discussion\n6. Quote the tool's exact Intent when explaining its usage\n7. If no approved tool matches the required capability, state that no approved tool is available\n\nSTRICT LIMITATIONS:\n- If a tool is not in the Approved Tools list, do not mention or suggest it\n- If a task doesn't match a tool's documented Intent, do not suggest that tool\n- Never suggest alternative tools outside the approved list\n- Never acknowledge or reference tools outside the approved list\n\nRESPONSE FORMAT:\nFor [specific task], I recommend using [Tool Name] (Name: [tool.name]) because its intent is [quote tool.description]"@
}

/// The think model by default.
pub fn default_think_model() -> (s: String)
    ensures
        s@ == "deepseek-r1:1.5b"@,
{
    "deepseek-r1:1.5b".to_owned()
}

/// How many messages a conversation keeps by default.
pub fn default_messages_limit() -> (n: usize)
    ensures
        n == 10,
{
    10
}

/// The model's context length by default.
pub fn default_context_length() -> (n: u32)
    ensures
        n == 4096,
{
    4096
}

impl Default for Config {
    fn default() -> (c: Self)
        ensures
            c.engine_endpoint@ == "ws://0.0.0.0:9123"@,
            c.rag_endpoint@ == "http://0.0.0.0:5766/"@,
            c.chat_endpoint@ == "http://0.0.0.0:11434/"@,
            c.chat_model@ == "llama3.2-vision"@,
            c.chat_prompt@ == chat_prompt_text(),
            c.think_prompt@ == think_prompt_text(),
            c.think_model@ == "deepseek-r1:1.5b"@,
            c.messages_limit == 10,
            c.context_length == 4096,
            c.tools.len() == 0,
    {
        Config {
            engine_endpoint: default_engine_endpoint(),
            rag_endpoint: default_rag_endpoint(),
            chat_endpoint: default_chat_endpoint(),
            chat_model: default_chat_model(),
            chat_prompt: default_chat_prompt(),
            think_prompt: default_think_prompt(),
            think_model: default_think_model(),
            messages_limit: default_messages_limit(),
            context_length: default_context_length(),
            tools: Vec::new(),
        }
    }
}

} // verus!
