//! The RAG server's configuration and its defaults.
use vstd::prelude::*;
use crate::client::ClientConfig;

verus! {

/// The RAG server's configuration.
#[derive(Debug, Clone)]
pub struct Config {
    pub engine_endpoint: String,
    pub rag_endpoint: String,
    pub chat_model: String,
    pub chat_prompt: String,
    pub tools: Vec<ClientConfig>,
}

/// The chat prompt by default.
pub open spec fn chat_prompt_text() -> Seq<char> {
    "You are, Bioma, a helpful assistant. Your creator is Vertex Studio, a games and \nsimulation company. Format your response in markdown. Use the following context to \nanswer the user's query:\n\n"@
}

/// The engine's endpoint by default.
pub fn default_engine_endpoint() -> (s: String)
    ensures
        s@ == "ws://0.0.0.0:9123"@,
{
    "ws://0.0.0.0:9123".to_owned()
}

/// The RAG server's endpoint by default.
pub fn default_rag_endpoint() -> (s: String)
    ensures
        s@ == "http://0.0.0.0:5766"@,
{
    "http://0.0.0.0:5766".to_owned()
}

/// The chat model by default.
pub fn default_chat_model() -> (s: String)
    ensures
        s@ == "llama3.2-vision"@,
{
    "llama3.2-vision".to_owned()
}

/// The chat prompt by default.
pub fn default_chat_prompt() -> (s: String)
    ensures
        s@ == chat_prompt_text(),
{
    "You are, Bioma, a helpful assistant. Your creator is Vertex Studio, a games and \nsimulation company. Format your response in markdown. Use the following context to \nanswer the user's query:\n\n".to_owned()
}

impl Default for Config {
    fn default() -> (c: Self)
        ensures
            c.engine_endpoint@ == "ws://0.0.0.0:9123"@,
            c.rag_endpoint@ == "http://0.0.0.0:5766"@,
            c.chat_model@ == "llama3.2-vision"@,
            c.chat_prompt@ == chat_prompt_text(),
            c.tools.len() == 0,
    {
        Config {
            engine_endpoint: default_engine_endpoint(),
            rag_endpoint: default_rag_endpoint(),
            chat_model: default_chat_model(),
            chat_prompt: default_chat_prompt(),
            tools: Vec::new(),
        }
    }
}

} // verus!
