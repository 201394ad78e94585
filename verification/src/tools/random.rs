//! A tool that draws a random integer from a closed range.
use vstd::prelude::*;
use crate::schema::{tool_text_result, CallToolResult, Tool};
use crate::text::{append_str, from_chars, push_signed_decimal, signed_decimal};
use crate::tools::ToolError;

verus! {

/// The input schema of the random tool.
pub const RANDOM_SCHEMA: &'static str = "{
    \"type\": \"object\",
    \"properties\": {
        \"start\": {
            \"description\": \"The smallest value the random number can be\",
            \"type\": \"number\"
        },
        \"end\": {
            \"description\": \"The biggest value the random number can be\",
            \"type\": \"number\"
        }
    },
    \"required\": [\"start\", \"end\"]
}";

/// Generates a random number.
#[derive(Debug, Clone, Copy, PartialEq, Eq)]
pub struct RandomNumber;

/// The arguments of the random tool: the range's two ends, both included.
#[derive(Debug, Clone, Copy, PartialEq, Eq)]
pub struct RandomNumberArgs {
    pub start: i32,
    pub end: i32,
}

/// A uniformly drawn integer of `start..=end`, from
/// `rand::thread_rng().gen_range`, which panics on an empty range.
#[verifier::external_body]
fn gen_range_inclusive(start: i32, end: i32) -> (n: i32)
    requires
        start <= end,
    ensures
        start <= n <= end,
{
    rand::Rng::gen_range(&mut rand::thread_rng(), start..=end)
}

/// The text reporting a drawn number: `Generated number: <n>`.
pub open spec fn generated_text(n: int) -> Seq<char> {
    "Generated number: "@ + signed_decimal(n)
}

impl RandomNumber {
    /// The tool's definition.
    pub fn def() -> (t: Tool)
        ensures
            t.name@ == "random"@,
            t.description matches Some(d) && d@ == "Generate a random number"@,
            t.input_schema@ == RANDOM_SCHEMA@,
    {
        Tool {
            name: "random".to_owned(),
            description: Some("Generate a random number".to_owned()),
            input_schema: RANDOM_SCHEMA.to_owned(),
        }
    }

    /// The result reporting the number drawn.
    pub fn drawn_result(n: i32) -> (r: CallToolResult)
        ensures
            r.content.len() == 1,
            r.content@[0].text@ == generated_text(n as int),
            r.content@[0].type_@ == "text"@,
            r.is_error == Some(false),
    {
        let mut out: Vec<char> = Vec::new();
        append_str(&mut out, "Generated number: ");
        push_signed_decimal(&mut out, n as i64);
        tool_text_result(from_chars(&out), false)
    }

    /// Draws a number of `start..=end`; an error result when `start` is not
    /// below `end`.
    pub fn call(&self, args: RandomNumberArgs) -> (r: Result<CallToolResult, ToolError>)
        ensures
            r matches Ok(res) && res.content.len() == 1 && res.content@[0].type_@ == "text"@,
            args.start >= args.end ==> (r matches Ok(res)
                && res.content@[0].text@ == "Start value must be smaller than end value"@
                && res.is_error == Some(true)),
            args.start < args.end ==> (r matches Ok(res) && res.is_error == Some(false)
                && exists|n: int| args.start <= n <= args.end
                    && res.content@[0].text@ == generated_text(n)),
    {
        if args.start >= args.end {
            return Ok(tool_text_result("Start value must be smaller than end value".to_owned(), true));
        }
        let n = gen_range_inclusive(args.start, args.end);
        let res = Self::drawn_result(n);
        assert(args.start <= n as int <= args.end && res.content@[0].text@ == generated_text(n as int));
        Ok(res)
    }
}

} // verus!
