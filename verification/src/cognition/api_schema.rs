//! The schemas of the cognition server's API and the defaults of their
//! fields.
use vstd::prelude::*;

verus! {

/// Whether a chat answer is streamed by default.
pub fn default_chat_stream() -> (b: bool)
    ensures
        b,
{
    true
}

/// Whether a think answer is streamed by default.
pub fn default_think_stream() -> (b: bool)
    ensures
        b,
{
    true
}

/// The source indexed content belongs to by default.
pub fn default_source() -> (s: String)
    ensures
        s@ == "/global"@,
{
    "/global".to_owned()
}

/// The embedding models.
#[derive(Debug, Clone, Copy, PartialEq, Eq, Structural)]
pub enum ModelEmbed {
    NomicEmbedTextV15,
    NomicEmbedVisionV15,
}

/// How retrieved context is written out.
#[derive(Debug, Clone, Copy, PartialEq, Eq, Structural)]
pub enum RetrieveOutputFormat {
    Markdown,
    Json,
}

/// The kinds of retrieval query.
#[derive(Debug, Clone, Copy, PartialEq, Eq, Structural)]
pub enum RetrieveType {
    Text,
}

/// The format retrieved context is written in by default.
pub fn default_retriever_format() -> (f: RetrieveOutputFormat)
    ensures
        f == RetrieveOutputFormat::Markdown,
{
    RetrieveOutputFormat::Markdown
}

/// Where an uploaded file goes.
#[derive(Debug, Clone)]
pub struct UploadMetadata {
    /// The target path of the file.
    pub path: String,
}

} // verus!
