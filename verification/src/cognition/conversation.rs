//! How the cognition server turns a request's messages into the
//! conversation a chat model is sent: the query used to retrieve context,
//! the system message that carries that context, and the order of the
//! messages; and how streamed answers are framed.
use vstd::prelude::*;
use crate::json::{json_pretty, json_quote, json_string_literal, pretty_json};
use crate::text::{append_str, from_chars, join, replace, replace_all};

verus! {

/// The author of a chat message.
#[derive(Debug, Clone, Copy, PartialEq, Eq, Structural)]
pub enum MessageRole {
    User,
    Assistant,
    System,
    Tool,
}

/// A chat message: its author, its text and its images in base64.
#[derive(Debug, Clone)]
pub struct ChatMessage {
    pub role: MessageRole,
    pub content: String,
    pub images: Option<Vec<String>>,
}

/// The abstract content of a chat message.
pub struct ChatMessageView {
    pub role: MessageRole,
    pub content: Seq<char>,
    pub images: Option<Seq<String>>,
}

impl View for ChatMessage {
    type V = ChatMessageView;

    open spec fn view(&self) -> ChatMessageView {
        ChatMessageView {
            role: self.role,
            content: self.content@,
            images: match self.images {
                Some(v) => Some(v@),
                None => None,
            },
        }
    }
}

impl ChatMessage {
    /// A system message with this text and no images.
    pub fn system(content: String) -> (m: ChatMessage)
        ensures
            m.role == MessageRole::System,
            m.content == content,
            m.images is None,
    {
        ChatMessage { role: MessageRole::System, content, images: None }
    }

    /// A copy of this message.
    pub fn copied(&self) -> (m: ChatMessage)
        ensures
            m@ == self@,
    {
        let images = match &self.images {
            Some(v) => {
                let mut out: Vec<String> = Vec::new();
                let mut i: usize = 0;
                while i < v.len()
                    invariant
                        i <= v.len(),
                        out@ == v@.subrange(0, i as int),
                    decreases v.len() - i,
                {
                    out.push(v[i].clone());
                    assert(out@ =~= v@.subrange(0, i + 1));
                    i = i + 1;
                }
                assert(v@.subrange(0, v.len() as int) =~= v@);
                Some(out)
            },
            None => None,
        };
        ChatMessage { role: self.role, content: self.content.clone(), images }
    }
}

/// The views of the messages.
pub open spec fn views(ms: Seq<ChatMessage>) -> Seq<ChatMessageView> {
    ms.map_values(|m: ChatMessage| m@)
}

/// The texts of the user's messages, in order.
pub open spec fn user_contents(ms: Seq<ChatMessageView>) -> Seq<Seq<char>>
    decreases ms.len(),
{
    if ms.len() == 0 {
        Seq::empty()
    } else {
        let pre = user_contents(ms.drop_last());
        if ms.last().role == MessageRole::User { pre.push(ms.last().content) } else { pre }
    }
}

/// The query that retrieves context for a conversation: the user's
/// messages, one per line.
pub fn user_query(messages: &Vec<ChatMessage>) -> (q: String)
    ensures
        q@ == join(user_contents(views(messages@)), seq!['\n']),
{
    let mut out: Vec<char> = Vec::new();
    let mut count: usize = 0;
    let mut i: usize = 0;
    let ghost vs = views(messages@);
    while i < messages.len()
        invariant
            i <= messages.len(),
            vs == views(messages@),
            count <= i,
            count == user_contents(vs.subrange(0, i as int)).len(),
            out@ == join(user_contents(vs.subrange(0, i as int)), seq!['\n']),
        decreases messages.len() - i,
    {
        proof {
            assert(vs.subrange(0, i + 1).drop_last() =~= vs.subrange(0, i as int));
            assert(vs.subrange(0, i + 1).last() == messages@[i as int]@);
        }
        if messages[i].role == MessageRole::User {
            let ghost pre = user_contents(vs.subrange(0, i as int));
            if count > 0 {
                out.push('\n');
            }
            append_str(&mut out, messages[i].content.as_str());
            proof {
                let cur = pre.push(messages@[i as int].content@);
                assert(cur.drop_last() =~= pre);
                if count == 0 {
                    assert(pre.len() == 0);
                    assert(join(pre, seq!['\n']) =~= Seq::<char>::empty());
                    assert(out@ =~= join(cur, seq!['\n']));
                } else {
                    assert(out@ =~= join(cur, seq!['\n']));
                }
            }
            count = count + 1;
        }
        i = i + 1;
    }
    assert(vs.subrange(0, messages.len() as int) =~= vs);
    from_chars(&out)
}

/// The messages before the last one.
pub open spec fn earlier(ms: Seq<ChatMessageView>) -> Seq<ChatMessageView> {
    if ms.len() == 0 { ms } else { ms.drop_last() }
}

/// The last system message of `ms`.
pub open spec fn last_system(ms: Seq<ChatMessageView>) -> Option<ChatMessageView>
    decreases ms.len(),
{
    if ms.len() == 0 {
        None
    } else if ms.last().role == MessageRole::System {
        Some(ms.last())
    } else {
        last_system(ms.drop_last())
    }
}

/// The messages of `ms` that are not system messages, in order.
pub open spec fn non_system(ms: Seq<ChatMessageView>) -> Seq<ChatMessageView>
    decreases ms.len(),
{
    if ms.len() == 0 {
        Seq::empty()
    } else {
        let pre = non_system(ms.drop_last());
        if ms.last().role == MessageRole::System { pre } else { pre.push(ms.last()) }
    }
}

/// Takes the system messages out of all but the last message: the last of
/// them replaces the server's own system prompt, the others are dropped;
/// the rest keep their order.
pub fn split_system(messages: &Vec<ChatMessage>) -> (r: (Option<ChatMessage>, Vec<ChatMessage>))
    ensures
        match (r.0, last_system(earlier(views(messages@)))) {
            (Some(m), Some(v)) => m@ == v,
            (None, None) => true,
            _ => false,
        },
        views(r.1@) == non_system(earlier(views(messages@))),
{
    let ghost vs = views(messages@);
    let n: usize = if messages.len() == 0 { 0 } else { messages.len() - 1 };
    let ghost ev = vs.subrange(0, n as int);
    assert(ev == earlier(vs)) by {
        if messages.len() > 0 {
            assert(vs.drop_last() =~= ev);
        } else {
            assert(vs =~= ev);
        }
    }
    let mut sys: Option<ChatMessage> = None;
    let mut kept: Vec<ChatMessage> = Vec::new();
    let mut i: usize = 0;
    while i < n
        invariant
            i <= n,
            n <= messages.len(),
            vs == views(messages@),
            ev == vs.subrange(0, n as int),
            match (sys, last_system(ev.subrange(0, i as int))) {
                (Some(m), Some(v)) => m@ == v,
                (None, None) => true,
                _ => false,
            },
            views(kept@) == non_system(ev.subrange(0, i as int)),
        decreases n - i,
    {
        proof {
            assert(ev.subrange(0, i + 1).drop_last() =~= ev.subrange(0, i as int));
            assert(ev.subrange(0, i + 1).last() == messages@[i as int]@);
        }
        if messages[i].role == MessageRole::System {
            sys = Some(messages[i].copied());
        } else {
            let ghost before = kept@;
            kept.push(messages[i].copied());
            assert(views(kept@) =~= views(before).push(messages@[i as int]@));
        }
        i = i + 1;
    }
    assert(ev.subrange(0, n as int) =~= ev);
    (sys, kept)
}

/// The system prompt that carries the retrieved context: after the request's
/// own system message when it has one, else after the server's prompt.
pub open spec fn context_prompt(context: Seq<char>, system: Option<Seq<char>>, default_prompt: Seq<char>) -> Seq<char> {
    match system {
        Some(s) => "Use the following context to answer the user's query:\n"@ + context + "\n\n"@ + s,
        None => default_prompt + context,
    }
}

/// The system message of a chat or ask request.
pub fn context_message(context: &str, system: &Option<ChatMessage>, default_prompt: &str) -> (m: ChatMessage)
    ensures
        m.role == MessageRole::System,
        m.images is None,
        m.content@ == context_prompt(context@, match *system { Some(s) => Some(s.content@), None => None },
            default_prompt@),
{
    let mut out: Vec<char> = Vec::new();
    match system {
        Some(s) => {
            append_str(&mut out, "Use the following context to answer the user's query:\n");
            append_str(&mut out, context);
            append_str(&mut out, "\n\n");
            append_str(&mut out, s.content.as_str());
        },
        None => {
            append_str(&mut out, default_prompt);
            append_str(&mut out, context);
        },
    }
    ChatMessage::system(from_chars(&out))
}

/// The context a think request is given: the retrieved context, or a note
/// that there is none.
pub fn think_context(retrieved_nothing: bool, markdown: &str) -> (s: String)
    ensures
        retrieved_nothing ==> s@ == "No additional context available"@,
        !retrieved_nothing ==> s@ == markdown@,
{
    if retrieved_nothing {
        "No additional context available".to_owned()
    } else {
        markdown.to_owned()
    }
}

/// A tool as a think request lists it: its name, description and the JSON
/// text of its parameters.
#[derive(Debug, Clone)]
pub struct ToolDescription {
    pub name: String,
    pub description: String,
    pub parameters: String,
}

/// A text with every line indented by four spaces.
pub open spec fn indented(s: Seq<char>) -> Seq<char> {
    "    "@ + replace_all(s, seq!['\n'], "\n    "@)
}

/// The parameters as they are listed: pretty JSON, or a note when they do
/// not parse.
pub open spec fn listed_parameters(parameters: Seq<char>) -> Seq<char> {
    match json_pretty(parameters) {
        Some(p) => p,
        None => "Unable to parse parameters"@,
    }
}

/// One tool's entry in the list of tools.
pub open spec fn tool_entry(t: ToolDescription) -> Seq<char> {
    "- "@ + t.name@ + ": "@ + t.description@ + "\n  Parameters:\n"@ + indented(listed_parameters(t.parameters@))
}

/// The list of tools: their entries, separated by blank lines.
pub open spec fn tools_list(ts: Seq<ToolDescription>) -> Seq<char> {
    join(ts.map_values(|t: ToolDescription| tool_entry(t)), "\n\n"@)
}

/// One tool's entry in the list of tools.
fn tool_entry_text(t: &ToolDescription) -> (s: String)
    ensures
        s@ == tool_entry(*t),
{
    let params = match pretty_json(t.parameters.as_str()) {
        Some(p) => p,
        None => "Unable to parse parameters".to_owned(),
    };
    proof {
        reveal_strlit("\n");
    }
    let ind = replace(params.as_str(), "\n", "\n    ");
    let mut out: Vec<char> = Vec::new();
    append_str(&mut out, "- ");
    append_str(&mut out, t.name.as_str());
    append_str(&mut out, ": ");
    append_str(&mut out, t.description.as_str());
    append_str(&mut out, "\n  Parameters:\n");
    append_str(&mut out, "    ");
    append_str(&mut out, ind.as_str());
    proof {
        reveal_strlit("\n");
        assert("\n"@ =~= seq!['\n']);
    }
    from_chars(&out)
}

/// The list of tools given to a think request.
pub fn tools_list_text(tools: &Vec<ToolDescription>) -> (s: String)
    ensures
        s@ == tools_list(tools@),
{
    let mut out: Vec<char> = Vec::new();
    let ghost entries = tools@.map_values(|t: ToolDescription| tool_entry(t));
    let mut i: usize = 0;
    while i < tools.len()
        invariant
            i <= tools.len(),
            entries == tools@.map_values(|t: ToolDescription| tool_entry(t)),
            out@ == join(entries.subrange(0, i as int), "\n\n"@),
        decreases tools.len() - i,
    {
        if i > 0 {
            append_str(&mut out, "\n\n");
        }
        let e = tool_entry_text(&tools[i]);
        append_str(&mut out, e.as_str());
        proof {
            let s1 = entries.subrange(0, i + 1);
            assert(s1.drop_last() =~= entries.subrange(0, i as int));
            assert(s1.last() == e@);
            if i == 0 {
                assert(join(entries.subrange(0, 0), "\n\n"@) =~= Seq::<char>::empty());
            }
            assert(out@ =~= join(s1, "\n\n"@));
        }
        i = i + 1;
    }
    assert(entries.subrange(0, tools.len() as int) =~= entries);
    from_chars(&out)
}

/// The system prompt of a think request: after the request's own system
/// message when it has one; else the tool prompt with the tools listed in
/// it when there are tools; else the server's chat prompt; the context
/// follows.
pub open spec fn think_prompt_text(
    context: Seq<char>,
    system: Option<Seq<char>>,
    tools: Seq<ToolDescription>,
    tool_prompt: Seq<char>,
    chat_prompt: Seq<char>,
) -> Seq<char> {
    match system {
        Some(s) => "Use the following context to answer the user's query:\n"@ + context + "\n\n"@ + s,
        None => if tools.len() > 0 {
            replace_all(tool_prompt, "{tools_list}"@, tools_list(tools)) + "\n\nADDITIONAL CONTEXT:\n"@ + context
        } else {
            chat_prompt + "\n\nADDITIONAL CONTEXT:\n"@ + context
        },
    }
}

/// The system message of a think request.
pub fn think_message(
    context: &str,
    system: &Option<ChatMessage>,
    tools: &Vec<ToolDescription>,
    tool_prompt: &str,
    chat_prompt: &str,
) -> (m: ChatMessage)
    ensures
        m.role == MessageRole::System,
        m.images is None,
        m.content@ == think_prompt_text(context@, match *system { Some(s) => Some(s.content@), None => None },
            tools@, tool_prompt@, chat_prompt@),
{
    let mut out: Vec<char> = Vec::new();
    match system {
        Some(s) => {
            append_str(&mut out, "Use the following context to answer the user's query:\n");
            append_str(&mut out, context);
            append_str(&mut out, "\n\n");
            append_str(&mut out, s.content.as_str());
        },
        None => {
            if tools.len() > 0 {
                let list = tools_list_text(tools);
                proof {
                    reveal_strlit("{tools_list}");
                }
                let filled = replace(tool_prompt, "{tools_list}", list.as_str());
                append_str(&mut out, filled.as_str());
            } else {
                append_str(&mut out, chat_prompt);
            }
            append_str(&mut out, "\n\nADDITIONAL CONTEXT:\n");
            append_str(&mut out, context);
        },
    }
    ChatMessage::system(from_chars(&out))
}

/// Attaches the image that came with the retrieved context.
pub fn attach_image(message: &mut ChatMessage, image_base64: String)
    ensures
        final(message).role == old(message).role,
        final(message).content == old(message).content,
        final(message).images matches Some(v) && v@ == seq![image_base64],
{
    message.images = Some(vec![image_base64]);
}

/// The conversation sent to a chat model: the earlier messages without
/// their system messages, then the system message with the context, then
/// the request's last message; only the system message when the request
/// has no message.
pub open spec fn conversation_of(messages: Seq<ChatMessageView>, context: ChatMessageView) -> Seq<ChatMessageView> {
    if messages.len() == 0 {
        seq![context]
    } else {
        non_system(earlier(messages)).push(context).push(messages.last())
    }
}

/// Builds the conversation sent to a chat model from the request's
/// messages, their earlier non-system messages and the context message.
pub fn assemble(messages: &Vec<ChatMessage>, filtered: Vec<ChatMessage>, context: ChatMessage) -> (c: Vec<ChatMessage>)
    requires
        views(filtered@) == non_system(earlier(views(messages@))),
    ensures
        views(c@) == conversation_of(views(messages@), context@),
{
    let ghost cv = context@;
    if messages.len() == 0 {
        let c = vec![context];
        assert(views(c@) =~= seq![cv]);
        return c;
    }
    let mut c = filtered;
    let ghost f = c@;
    c.push(context);
    let last = messages[messages.len() - 1].copied();
    c.push(last);
    assert(views(c@) =~= views(f).push(cv).push(views(messages@).last()));
    c
}

/// What a request asks of the retriever: the user's messages as the query,
/// the server's limit and the request's sources. (Its score threshold is
/// always zero.)
pub struct RetrievalQuery {
    pub query: String,
    pub limit: usize,
    pub sources: Vec<String>,
}

/// The retrieval a chat, ask or think request makes.
pub fn retrieval_query(messages: &Vec<ChatMessage>, limit: usize, sources: Vec<String>) -> (q: RetrievalQuery)
    ensures
        q.query@ == join(user_contents(views(messages@)), seq!['\n']),
        q.limit == limit,
        q.sources@ == sources@,
{
    RetrievalQuery { query: user_query(messages), limit, sources }
}

/// The retrieved context in the order it is written into the prompt: the
/// most relevant part last, nearest the user's question.
pub fn most_relevant_last<T>(items: Vec<T>) -> (r: Vec<T>)
    ensures
        r@ == items@.reverse(),
{
    let mut rest = items;
    let ghost all = rest@;
    let mut out: Vec<T> = Vec::new();
    while rest.len() > 0
        invariant
            all.len() == out.len() + rest.len(),
            rest@ == all.subrange(0, rest.len() as int),
            out@ == all.subrange(rest.len() as int, all.len() as int).reverse(),
        decreases rest.len(),
    {
        let ghost n = rest.len() as int;
        let x = rest.pop().unwrap();
        assert(x == all[n - 1]);
        out.push(x);
        assert(out@ =~= all.subrange(n - 1, all.len() as int).reverse());
        assert(rest@ =~= all.subrange(0, n - 1));
    }
    assert(all.subrange(0, all.len() as int) =~= all);
    out
}

/// The system message's view: its text, and the retrieved image when there
/// is one.
pub open spec fn system_view(content: Seq<char>, image: Option<String>) -> ChatMessageView {
    ChatMessageView {
        role: MessageRole::System,
        content,
        images: match image {
            Some(i) => Some(seq![i]),
            None => None,
        },
    }
}

/// The content of the last system message among the earlier messages.
pub open spec fn request_system(messages: Seq<ChatMessage>) -> Option<Seq<char>> {
    match last_system(earlier(views(messages))) {
        Some(v) => Some(v.content),
        None => None,
    }
}

/// The conversation a chat or ask request sends: the earlier non-system
/// messages, the system message with the rendered context (after the
/// request's own system message, else after the server's prompt, with the
/// retrieved image), and the last message.
pub fn chat_conversation(messages: &Vec<ChatMessage>, context: &str, default_prompt: &str, image: Option<String>)
    -> (c: Vec<ChatMessage>)
    ensures
        views(c@) == conversation_of(
            views(messages@),
            system_view(context_prompt(context@, request_system(messages@), default_prompt@), image),
        ),
{
    let (system, filtered) = split_system(messages);
    let mut m = context_message(context, &system, default_prompt);
    match image {
        Some(i) => attach_image(&mut m, i),
        None => {},
    }
    assemble(messages, filtered, m)
}

/// The conversation a think request sends: as a chat's, with the think
/// prompt (the tools listed when the request has them) and a note when
/// nothing was retrieved.
pub fn think_conversation(
    messages: &Vec<ChatMessage>,
    retrieved_nothing: bool,
    markdown: &str,
    tools: &Vec<ToolDescription>,
    tool_prompt: &str,
    chat_prompt: &str,
    image: Option<String>,
) -> (c: Vec<ChatMessage>)
    ensures
        views(c@) == conversation_of(
            views(messages@),
            system_view(
                think_prompt_text(
                    if retrieved_nothing { "No additional context available"@ } else { markdown@ },
                    request_system(messages@),
                    tools@,
                    tool_prompt@,
                    chat_prompt@,
                ),
                image,
            ),
        ),
{
    let context = think_context(retrieved_nothing, markdown);
    let (system, filtered) = split_system(messages);
    let mut m = think_message(context.as_str(), &system, tools, tool_prompt, chat_prompt);
    match image {
        Some(i) => attach_image(&mut m, i),
        None => {},
    }
    assemble(messages, filtered, m)
}

/// What is sent to the chat model: the conversation, whether the model
/// starts afresh, whether it keeps the conversation, whether it streams,
/// the JSON schema its answer must follow (as JSON text), and the tools it
/// may call.
pub struct ModelRequest {
    pub messages: Vec<ChatMessage>,
    pub restart: bool,
    pub persist: bool,
    pub stream: bool,
    pub format: Option<String>,
    pub tools: Option<Vec<ToolDescription>>,
}

/// The request a think or ask sends: the conversation afresh, not kept,
/// streamed as asked, in the caller's format, and no tools.
pub fn model_request(conversation: Vec<ChatMessage>, stream: bool, format: Option<String>) -> (r: ModelRequest)
    ensures
        r.messages@ == conversation@,
        r.restart,
        !r.persist,
        r.stream == stream,
        r.format == format,
        r.tools is None,
{
    ModelRequest { messages: conversation, restart: true, persist: false, stream, format, tools: None }
}

/// The request a chat sends when its caller gives tools: the conversation
/// afresh, not kept, not streamed, in the caller's format, with those
/// tools.
pub fn model_request_with_tools(conversation: Vec<ChatMessage>, tools: Vec<ToolDescription>, format: Option<String>)
    -> (r: ModelRequest)
    ensures
        r.messages@ == conversation@,
        r.restart,
        !r.persist,
        !r.stream,
        r.format == format,
        r.tools matches Some(t) && t@ == tools@,
{
    ModelRequest { messages: conversation, restart: true, persist: false, stream: false, format, tools: Some(tools) }
}

/// A copy of each message.
pub fn copy_messages(ms: &Vec<ChatMessage>) -> (r: Vec<ChatMessage>)
    ensures
        views(r@) == views(ms@),
{
    let mut out: Vec<ChatMessage> = Vec::new();
    let mut i: usize = 0;
    while i < ms.len()
        invariant
            i <= ms.len(),
            views(out@) == views(ms@).subrange(0, i as int),
        decreases ms.len() - i,
    {
        let ghost prev = out@;
        let m = ms[i].copied();
        out.push(m);
        assert(views(out@) =~= views(prev).push(ms@[i as int]@));
        assert(views(out@) =~= views(ms@).subrange(0, i + 1));
        i = i + 1;
    }
    assert(views(ms@).subrange(0, ms.len() as int) =~= views(ms@));
    out
}

/// The model's answer paired with the conversation that was sent for it.
pub struct ConversationReply<R> {
    pub response: R,
    pub context: Vec<ChatMessage>,
}

/// Pairs the model's answer with the conversation of the request that
/// produced it.
pub fn paired_reply<R>(request: &ModelRequest, response: R) -> (r: ConversationReply<R>)
    ensures
        r.response == response,
        views(r.context@) == views(request.messages@),
{
    ConversationReply { response, context: copy_messages(&request.messages) }
}

/// A line of a chat's NDJSON answer: the answer with its conversation, or
/// the error.
pub enum ChatLine<R> {
    Answer(ConversationReply<R>),
    Error(String),
}

/// What a chat answers when its caller gives tools: the one request is
/// sent, no tool is run, and the stream holds exactly one line, the answer
/// with the conversation sent, or the error.
pub fn tool_chat_lines<R>(request: &ModelRequest, outcome: Result<R, String>) -> (lines: Vec<ChatLine<R>>)
    ensures
        lines.len() == 1,
        match outcome {
            Ok(v) => lines@[0] matches ChatLine::Answer(a) && a.response == v
                && views(a.context@) == views(request.messages@),
            Err(e) => lines@[0] matches ChatLine::Error(m) && m == e,
        },
{
    let line = match outcome {
        Ok(v) => ChatLine::Answer(paired_reply(request, v)),
        Err(e) => ChatLine::Error(e),
    };
    vec![line]
}

/// An ask's reply: 200 with the answer and its conversation, or 500 with
/// the error's text.
pub struct AskReply<R> {
    pub status: u16,
    pub body: Result<ConversationReply<R>, String>,
}

/// What an ask answers once the model replied or failed: the answer with
/// the conversation sent, or `Error fetching ask response: <error>`.
pub fn ask_reply<R>(request: &ModelRequest, outcome: Result<R, String>) -> (r: AskReply<R>)
    ensures
        match outcome {
            Ok(v) => r.status == 200 && (r.body matches Ok(a) && a.response == v
                && views(a.context@) == views(request.messages@)),
            Err(e) => r.status == 500 && (r.body matches Err(m)
                && m@ == "Error fetching ask response: "@ + e@),
        },
{
    match outcome {
        Ok(v) => {
            let a = paired_reply(request, v);
            AskReply { status: 200, body: Ok(a) }
        },
        Err(e) => {
            let mut out: Vec<char> = Vec::new();
            append_str(&mut out, "Error fetching ask response: ");
            append_str(&mut out, e.as_str());
            AskReply { status: 500, body: Err(from_chars(&out)) }
        },
    }
}

/// What an ask answers when the context could not be fetched.
pub fn ask_context_failure<R>(error: &str) -> (r: AskReply<R>)
    ensures
        r.status == 500,
        r.body matches Err(m) && m@ == "Error fetching context: "@ + error@,
{
    let mut out: Vec<char> = Vec::new();
    append_str(&mut out, "Error fetching context: ");
    append_str(&mut out, error);
    AskReply { status: 500, body: Err(from_chars(&out)) }
}

/// The messages a streamed answer carries as its context: the conversation
/// with the first answer only.
pub fn response_context(first: bool, conversation: &Vec<ChatMessage>) -> (c: Vec<ChatMessage>)
    ensures
        first ==> views(c@) == views(conversation@),
        !first ==> c.len() == 0,
{
    if !first {
        return Vec::new();
    }
    let mut out: Vec<ChatMessage> = Vec::new();
    let mut i: usize = 0;
    while i < conversation.len()
        invariant
            i <= conversation.len(),
            views(out@) == views(conversation@.subrange(0, i as int)),
        decreases conversation.len() - i,
    {
        let ghost before = out@;
        out.push(conversation[i].copied());
        assert(views(out@) =~= views(before).push(conversation@[i as int]@));
        assert(views(conversation@.subrange(0, i + 1)) =~= views(conversation@.subrange(0, i as int)).push(
            conversation@[i as int]@));
        i = i + 1;
    }
    assert(conversation@.subrange(0, conversation.len() as int) =~= conversation@);
    out
}

/// One line of a streamed answer: the answer's JSON, or the error as
/// `{"error":"..."}`; a newline ends it.
pub fn ndjson_line(item: Result<String, String>) -> (s: String)
    ensures
        match item {
            Ok(json) => s@ == json@.push('\n'),
            Err(e) => s@ == "{\"error\":"@ + json_string_literal(e@) + "}\n"@,
        },
{
    let mut out: Vec<char> = Vec::new();
    match item {
        Ok(json) => {
            append_str(&mut out, json.as_str());
            out.push('\n');
            assert(out@ =~= json@.push('\n'));
        },
        Err(e) => {
            append_str(&mut out, "{\"error\":");
            let q = json_quote(e.as_str());
            append_str(&mut out, q.as_str());
            append_str(&mut out, "}\n");
        },
    }
    from_chars(&out)
}

/// The body of an error response: what failed, and why.
pub fn error_body(what: &str, error: &str) -> (s: String)
    ensures
        s@ == what@ + ": "@ + error@,
{
    let mut out: Vec<char> = Vec::new();
    append_str(&mut out, what);
    append_str(&mut out, ": ");
    append_str(&mut out, error);
    from_chars(&out)
}

/// The conversation keeps the request's last message last, with the context
/// message just before it, and no system message of the request's own.
pub proof fn lemma_conversation_shape(messages: Seq<ChatMessageView>, context: ChatMessageView)
    requires
        messages.len() > 0,
        context.role == MessageRole::System,
    ensures
        ({
            let c = conversation_of(messages, context);
            &&& c.last() == messages.last()
            &&& c[c.len() - 2] == context
            &&& forall|i: int| 0 <= i < c.len() - 2 ==> (#[trigger] c[i]).role != MessageRole::System
        }),
{
    let ns = non_system(earlier(messages));
    lemma_non_system_roles(earlier(messages));
    let c = conversation_of(messages, context);
    assert forall|i: int| 0 <= i < c.len() - 2 implies (#[trigger] c[i]).role != MessageRole::System by {
        assert(c[i] == ns[i]);
    }
}

/// No system message is left after they are taken out.
pub proof fn lemma_non_system_roles(ms: Seq<ChatMessageView>)
    ensures
        forall|i: int| 0 <= i < non_system(ms).len() ==> (#[trigger] non_system(ms)[i]).role != MessageRole::System,
    decreases ms.len(),
{
    if ms.len() > 0 {
        lemma_non_system_roles(ms.drop_last());
    }
}

} // verus!
