//! A greeting prompt.
use vstd::prelude::*;
use crate::prompts::PromptError;
use crate::schema::{text_content, GetPromptResult, Prompt, PromptArgument, PromptMessage, Role};
use crate::text::{append_str, from_chars};

verus! {

/// The arguments of the greeting prompt.
#[derive(Debug, Clone, PartialEq, Eq)]
pub struct GreetArgs {
    /// Name of the person to greet.
    pub name: String,
}

/// A friendly greeting prompt.
#[derive(Debug, Clone, Copy, PartialEq, Eq)]
pub struct Greet;

/// The greeting for a name.
pub open spec fn greeting(name: Seq<char>) -> Seq<char> {
    "Hello, "@ + name + "! Welcome to Bioma!"@
}

impl Greet {
    /// The prompt's definition: one required argument, `name`.
    pub fn def() -> (p: Prompt)
        ensures
            p.name@ == "greet"@,
            p.description matches Some(d) && d@ == "A friendly greeting prompt"@,
            p.arguments matches Some(args) && args.len() == 1 && args@[0].name@ == "name"@
                && (args@[0].description matches Some(d) && d@ == "Name of the person to greet"@)
                && args@[0].required == Some(true),
    {
        Prompt {
            name: "greet".to_owned(),
            description: Some("A friendly greeting prompt".to_owned()),
            arguments: Some(vec![PromptArgument {
                name: "name".to_owned(),
                description: Some("Name of the person to greet".to_owned()),
                required: Some(true),
            }]),
        }
    }

    /// The prompt for a name: the assistant's greeting, then the name as the
    /// user's message.
    pub fn get(&self, args: GreetArgs) -> (r: Result<GetPromptResult, PromptError>)
        ensures
            r matches Ok(res) && res.messages.len() == 2
                && res.messages@[0].role == Role::Assistant
                && res.messages@[0].content.text@ == greeting(args.name@)
                && res.messages@[0].content.type_@ == "text"@
                && res.messages@[1].role == Role::User
                && res.messages@[1].content.text == args.name
                && res.messages@[1].content.type_@ == "text"@
                && (res.description matches Some(d) && d@ == "A friendly greeting prompt"@),
    {
        let mut hello: Vec<char> = Vec::new();
        append_str(&mut hello, "Hello, ");
        append_str(&mut hello, args.name.as_str());
        append_str(&mut hello, "! Welcome to Bioma!");
        Ok(GetPromptResult {
            messages: vec![
                PromptMessage { role: Role::Assistant, content: text_content(from_chars(&hello)) },
                PromptMessage { role: Role::User, content: text_content(args.name) },
            ],
            description: Some("A friendly greeting prompt".to_owned()),
        })
    }
}

} // verus!
