//! The Model Context Protocol's data: definitions of resources, prompts and
//! tools, and the results of reading, getting and calling them.
use vstd::prelude::*;

verus! {

/// A resource a server offers.
#[derive(Debug, Clone, PartialEq, Eq)]
pub struct Resource {
    pub name: String,
    pub description: Option<String>,
    pub uri: String,
    pub mime_type: Option<String>,
}

/// A family of resources described by a URI template.
#[derive(Debug, Clone, PartialEq, Eq)]
pub struct ResourceTemplate {
    pub name: String,
    pub description: Option<String>,
    pub uri_template: String,
    pub mime_type: Option<String>,
}

/// An argument a prompt takes.
#[derive(Debug, Clone, PartialEq, Eq)]
pub struct PromptArgument {
    pub name: String,
    pub description: Option<String>,
    pub required: Option<bool>,
}

/// A prompt a server offers.
#[derive(Debug, Clone, PartialEq, Eq)]
pub struct Prompt {
    pub name: String,
    pub description: Option<String>,
    pub arguments: Option<Vec<PromptArgument>>,
}

/// A tool a server offers; its input schema is JSON Schema text.
#[derive(Debug, Clone, PartialEq, Eq)]
pub struct Tool {
    pub name: String,
    pub description: Option<String>,
    pub input_schema: String,
}

/// Text content of a message or a tool result; its type is `text`.
#[derive(Debug, Clone, PartialEq, Eq)]
pub struct TextContent {
    pub text: String,
    pub type_: String,
}

/// The speaker of a prompt message.
#[derive(Debug, Clone, Copy, PartialEq, Eq, Structural)]
pub enum Role {
    Assistant,
    User,
}

/// One message of a prompt.
#[derive(Debug, Clone, PartialEq, Eq)]
pub struct PromptMessage {
    pub role: Role,
    pub content: TextContent,
}

/// What getting a prompt returns.
#[derive(Debug, Clone, PartialEq, Eq)]
pub struct GetPromptResult {
    pub description: Option<String>,
    pub messages: Vec<PromptMessage>,
}

/// What calling a tool returns.
#[derive(Debug, Clone, PartialEq, Eq)]
pub struct CallToolResult {
    pub content: Vec<TextContent>,
    pub is_error: Option<bool>,
}

/// A root a client exposes.
#[derive(Debug, Clone, PartialEq, Eq)]
pub struct Root {
    pub name: Option<String>,
    pub uri: String,
}

/// What listing roots returns.
#[derive(Debug, Clone, PartialEq, Eq)]
pub struct ListRootsResult {
    pub roots: Vec<Root>,
}

/// A name and version of a client or server.
#[derive(Debug, Clone, PartialEq, Eq)]
pub struct Implementation {
    pub name: String,
    pub version: String,
}

/// One entry of what reading a resource returns: its URI, MIME type and
/// either its text or its bytes in base64.
#[derive(Debug, Clone, PartialEq, Eq)]
pub struct ResourceContents {
    pub uri: String,
    pub mime_type: Option<String>,
    pub text: Option<String>,
    pub blob: Option<String>,
}

/// What reading a resource returns.
#[derive(Debug, Clone, PartialEq, Eq)]
pub struct ReadResourceResult {
    pub contents: Vec<ResourceContents>,
}

/// Text content of type `text`.
pub fn text_content(text: String) -> (c: TextContent)
    ensures
        c.text == text,
        c.type_@ == "text"@,
{
    TextContent { text, type_: "text".to_owned() }
}

/// A tool result of one text: an error result or a successful one.
pub fn tool_text_result(text: String, is_error: bool) -> (r: CallToolResult)
    ensures
        r.content.len() == 1,
        r.content@[0].text == text,
        r.content@[0].type_@ == "text"@,
        r.is_error == Some(is_error),
{
    CallToolResult { content: vec![text_content(text)], is_error: Some(is_error) }
}

/// A copy of an optional string.
pub fn copy_opt(o: &Option<String>) -> (r: Option<String>)
    ensures
        r == *o,
{
    match o {
        Some(s) => Some(s.clone()),
        None => None,
    }
}

impl Resource {
    /// A copy of this definition.
    pub fn copied(&self) -> (r: Resource)
        ensures
            r == *self,
    {
        Resource {
            name: self.name.clone(),
            description: copy_opt(&self.description),
            uri: self.uri.clone(),
            mime_type: copy_opt(&self.mime_type),
        }
    }
}

impl ResourceTemplate {
    /// A copy of this template.
    pub fn copied(&self) -> (r: ResourceTemplate)
        ensures
            r == *self,
    {
        ResourceTemplate {
            name: self.name.clone(),
            description: copy_opt(&self.description),
            uri_template: self.uri_template.clone(),
            mime_type: copy_opt(&self.mime_type),
        }
    }
}

impl PromptArgument {
    /// A copy of this argument.
    pub fn copied(&self) -> (r: PromptArgument)
        ensures
            r == *self,
    {
        PromptArgument { name: self.name.clone(), description: copy_opt(&self.description), required: self.required }
    }
}

impl Prompt {
    /// A copy of this definition.
    pub fn copied(&self) -> (r: Prompt)
        ensures
            r.name == self.name,
            r.description == self.description,
            match (r.arguments, self.arguments) {
                (Some(a), Some(b)) => a@ == b@,
                (None, None) => true,
                _ => false,
            },
    {
        let arguments = match &self.arguments {
            Some(args) => {
                let mut out: Vec<PromptArgument> = Vec::new();
                let mut i: usize = 0;
                while i < args.len()
                    invariant
                        i <= args.len(),
                        out@ == args@.subrange(0, i as int),
                    decreases args.len() - i,
                {
                    out.push(args[i].copied());
                    assert(out@ =~= args@.subrange(0, i + 1));
                    i = i + 1;
                }
                assert(args@.subrange(0, args.len() as int) =~= args@);
                Some(out)
            },
            None => None,
        };
        Prompt { name: self.name.clone(), description: copy_opt(&self.description), arguments }
    }
}

impl Tool {
    /// A copy of this definition.
    pub fn copied(&self) -> (r: Tool)
        ensures
            r == *self,
    {
        Tool {
            name: self.name.clone(),
            description: copy_opt(&self.description),
            input_schema: self.input_schema.clone(),
        }
    }
}

} // verus!
