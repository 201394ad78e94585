//! The request bodies of the cognition server's endpoints, and the settings
//! they resolve to once their defaults are applied.
use vstd::prelude::*;

verus! {

/// The default span of a chunk's length: from 500 up to 2000 characters.
pub const DEFAULT_CHUNK_CAPACITY_START: usize = 500;
pub const DEFAULT_CHUNK_CAPACITY_END: usize = 2000;
/// The default overlap of consecutive chunks.
pub const DEFAULT_CHUNK_OVERLAP: usize = 200;
/// The default number of chunks embedded at once.
pub const DEFAULT_CHUNK_BATCH_SIZE: usize = 50;
/// The default number of contexts retrieved.
pub const DEFAULT_RETRIEVER_LIMIT: usize = 10;

/// The author of a chat message.
#[derive(Debug, Clone, Copy, PartialEq, Eq, Structural)]
pub enum MessageRoleRequestSchema {
    User,
    Assistant,
    System,
    Tool,
}

/// A chat message as a request carries it: images in base64.
#[derive(Debug, Clone)]
pub struct ChatMessageRequestSchema {
    pub role: MessageRoleRequestSchema,
    pub content: String,
    pub images: Option<Vec<String>>,
}

/// The span of a chunk's length.
#[derive(Debug, Clone, Copy, PartialEq, Eq)]
pub struct ChunkCapacityRequestSchema {
    pub start: usize,
    pub end: usize,
}

/// A request to index the files that match glob patterns.
#[derive(Debug, Clone)]
pub struct IndexGlobsRequestSchema {
    pub globs: Vec<String>,
    pub chunk_capacity: Option<ChunkCapacityRequestSchema>,
    pub chunk_overlap: Option<usize>,
    pub chunk_batch_size: Option<usize>,
}

/// What indexing by glob patterns is asked to do, defaults applied.
#[derive(Debug, Clone)]
pub struct IndexGlobs {
    pub globs: Vec<String>,
    pub chunk_capacity_start: usize,
    pub chunk_capacity_end: usize,
    pub chunk_overlap: usize,
    pub chunk_batch_size: usize,
}

impl IndexGlobsRequestSchema {
    /// The settings asked for: a chunk length of 500 to 2000, an overlap of
    /// 200 and batches of 50 unless given.
    pub fn into_index_globs(self) -> (r: IndexGlobs)
        ensures
            r.globs == self.globs,
            match self.chunk_capacity {
                Some(c) => r.chunk_capacity_start == c.start && r.chunk_capacity_end == c.end,
                None => r.chunk_capacity_start == 500 && r.chunk_capacity_end == 2000,
            },
            r.chunk_overlap == match self.chunk_overlap { Some(o) => o, None => 200 },
            r.chunk_batch_size == match self.chunk_batch_size { Some(b) => b, None => 50 },
    {
        let (start, end) = match self.chunk_capacity {
            Some(c) => (c.start, c.end),
            None => (DEFAULT_CHUNK_CAPACITY_START, DEFAULT_CHUNK_CAPACITY_END),
        };
        IndexGlobs {
            globs: self.globs,
            chunk_capacity_start: start,
            chunk_capacity_end: end,
            chunk_overlap: match self.chunk_overlap {
                Some(o) => o,
                None => DEFAULT_CHUNK_OVERLAP,
            },
            chunk_batch_size: match self.chunk_batch_size {
                Some(b) => b,
                None => DEFAULT_CHUNK_BATCH_SIZE,
            },
        }
    }
}

/// The query of a retrieval request, under either of its names.
#[derive(Debug, Clone)]
pub enum RetrieveQueryRequestSchema {
    Text(String),
    Segundo(String),
}

impl RetrieveQueryRequestSchema {
    /// The query text; both forms are text queries.
    pub fn into_text(self) -> (s: String)
        ensures
            match self {
                RetrieveQueryRequestSchema::Text(q) => s == q,
                RetrieveQueryRequestSchema::Segundo(q) => s == q,
            },
    {
        match self {
            RetrieveQueryRequestSchema::Text(q) => q,
            RetrieveQueryRequestSchema::Segundo(q) => q,
        }
    }
}

/// The number of contexts a retrieval asks for: 10 unless given.
pub fn retrieve_limit(limit: Option<usize>) -> (n: usize)
    ensures
        n == match limit { Some(l) => l, None => 10 },
{
    match limit {
        Some(l) => l,
        None => DEFAULT_RETRIEVER_LIMIT,
    }
}

/// A request to delete an indexed source.
#[derive(Debug, Clone)]
pub struct DeleteSourceRequestSchema {
    pub source: String,
}

/// What deleting a source is asked to do.
#[derive(Debug, Clone)]
pub struct DeleteSource {
    pub source: String,
}

impl DeleteSourceRequestSchema {
    /// The source to delete.
    pub fn into_delete_source(self) -> (d: DeleteSource)
        ensures
            d.source == self.source,
    {
        DeleteSource { source: self.source }
    }
}

/// The embedding models.
#[derive(Debug, Clone, Copy, PartialEq, Eq, Structural)]
pub enum ModelEmbedRequestSchema {
    NomicEmbedTextV15,
    NomicEmbedVisionV15,
}

/// The side a text too long for the reranker is cut on.
#[derive(Debug, Clone, Copy, PartialEq, Eq, Structural)]
pub enum TruncationDirectionRequestSchema {
    Left,
    Right,
}

/// A request to rank texts by their relevance to a query.
#[derive(Debug, Clone)]
pub struct RankTextsRequestSchema {
    pub query: String,
    pub raw_scores: Option<bool>,
    pub return_text: Option<bool>,
    pub texts: Vec<String>,
    pub truncate: Option<bool>,
    pub truncation_direction: Option<TruncationDirectionRequestSchema>,
}

/// What ranking is asked to do, defaults applied.
#[derive(Debug, Clone)]
pub struct RankTexts {
    pub query: String,
    pub raw_scores: bool,
    pub return_text: bool,
    pub texts: Vec<String>,
    pub truncate: bool,
    pub truncation_direction: TruncationDirectionRequestSchema,
}

impl RankTextsRequestSchema {
    /// The ranking asked for: no raw scores, no texts returned, no
    /// truncation, and cutting on the right, unless given.
    pub fn into_rank_texts(self) -> (r: RankTexts)
        ensures
            r.query == self.query,
            r.texts == self.texts,
            r.raw_scores == match self.raw_scores { Some(b) => b, None => false },
            r.return_text == match self.return_text { Some(b) => b, None => false },
            r.truncate == match self.truncate { Some(b) => b, None => false },
            r.truncation_direction == match self.truncation_direction {
                Some(d) => d,
                None => TruncationDirectionRequestSchema::Right,
            },
    {
        RankTexts {
            query: self.query,
            raw_scores: match self.raw_scores {
                Some(b) => b,
                None => false,
            },
            return_text: match self.return_text {
                Some(b) => b,
                None => false,
            },
            texts: self.texts,
            truncate: match self.truncate {
                Some(b) => b,
                None => false,
            },
            truncation_direction: match self.truncation_direction {
                Some(d) => d,
                None => TruncationDirectionRequestSchema::Right,
            },
        }
    }
}

/// Where an uploaded file goes.
#[derive(Debug, Clone)]
pub struct UploadMetadata {
    pub path: String,
}

} // verus!
