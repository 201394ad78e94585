//! The MCP server: its transport configurations, and the dispatcher that
//! decides how each JSON-RPC method call is answered — from its own state,
//! or by one of the resource, prompt or tool handlers it routes the call to.
use vstd::prelude::*;
use crate::client_id::ClientId;
use crate::registry::Registry;
use crate::schema::{Implementation, Prompt, Resource, ResourceTemplate, Tool};
use crate::text::{append_str, from_chars, str_eq};

verus! {

/// The metadata of a method call: the client that made it.
#[derive(Debug, Clone, Copy, PartialEq, Eq)]
pub struct ServerMetadata {
    pub client_id: ClientId,
}

/// Configuration of the stdio transport; it has no settings.
#[derive(Debug, Clone, Copy, PartialEq, Eq)]
pub struct StdioConfig {}

/// Configuration of the SSE transport.
#[derive(Debug, Clone, PartialEq, Eq)]
pub struct SseConfig {
    /// The address to listen on.
    pub endpoint: String,
    /// The capacity of each client's event channel.
    pub channel_capacity: usize,
    /// Whether to keep connections alive.
    pub keep_alive: bool,
}

/// The address the SSE server listens on by default.
pub fn default_server_url() -> (s: String)
    ensures
        s@ == "127.0.0.1:8090/sse"@,
{
    "127.0.0.1:8090/sse".to_owned()
}

/// The capacity of a client's event channel by default.
pub fn default_channel_capacity() -> (n: usize)
    ensures
        n == 32,
{
    32
}

impl Default for SseConfig {
    fn default() -> (c: Self)
        ensures
            c.endpoint@ == "127.0.0.1:8090/sse"@,
            c.channel_capacity == 32,
            c.keep_alive,
    {
        SseConfig { endpoint: default_server_url(), channel_capacity: default_channel_capacity(), keep_alive: true }
    }
}

/// Configuration of the WebSocket transport.
#[derive(Debug, Clone, PartialEq, Eq)]
pub struct WsConfig {
    /// The address to listen on.
    pub endpoint: String,
}

/// The address the WebSocket server listens on by default.
pub fn default_ws_server_url() -> (s: String)
    ensures
        s@ == "127.0.0.1:9090"@,
{
    "127.0.0.1:9090".to_owned()
}

impl Default for WsConfig {
    fn default() -> (c: Self)
        ensures
            c.endpoint@ == "127.0.0.1:9090"@,
    {
        WsConfig { endpoint: default_ws_server_url() }
    }
}

/// The transport a server runs over, with its configuration.
#[derive(Debug, Clone)]
pub enum TransportConfig {
    Stdio(StdioConfig),
    Sse(SseConfig),
    Ws(WsConfig),
}

/// A JSON-RPC error: its code and message.
#[derive(Debug, Clone, PartialEq, Eq)]
pub struct RpcError {
    pub code: i64,
    pub message: String,
}

/// The JSON-RPC error for an unknown method.
pub fn method_not_found() -> (e: RpcError)
    ensures
        e.code == -32601,
        e.message@ == "Method not found"@,
{
    RpcError { code: -32601, message: "Method not found".to_owned() }
}

/// The JSON-RPC error for a failure inside a method.
pub fn internal_error() -> (e: RpcError)
    ensures
        e.code == -32603,
        e.message@ == "Internal error"@,
{
    RpcError { code: -32603, message: "Internal error".to_owned() }
}

/// The JSON-RPC error for parameters that do not fit the method.
pub fn invalid_params(message: String) -> (e: RpcError)
    ensures
        e.code == -32602,
        e.message == message,
{
    RpcError { code: -32602, message }
}

/// The JSON-RPC error for a call that is not JSON-RPC 2.0.
pub fn invalid_version() -> (e: RpcError)
    ensures
        e.code == -32600,
        e.message@ == "Unsupported JSON-RPC protocol version"@,
{
    RpcError { code: -32600, message: "Unsupported JSON-RPC protocol version".to_owned() }
}

/// The methods a server answers.
#[derive(Debug, Clone, Copy, PartialEq, Eq, Structural)]
pub enum McpMethod {
    Initialize,
    Ping,
    ResourcesList,
    ResourcesRead,
    ResourcesSubscribe,
    ResourcesUnsubscribe,
    PromptsList,
    PromptsGet,
    ToolsList,
    ToolsCall,
    ResourceTemplatesList,
    /// Any other name, including those of notifications.
    Unknown,
}

/// The method a call names.
pub open spec fn method_of(name: Seq<char>) -> McpMethod {
    if name == "initialize"@ {
        McpMethod::Initialize
    } else if name == "ping"@ {
        McpMethod::Ping
    } else if name == "resources/list"@ {
        McpMethod::ResourcesList
    } else if name == "resources/read"@ {
        McpMethod::ResourcesRead
    } else if name == "resources/subscribe"@ {
        McpMethod::ResourcesSubscribe
    } else if name == "resources/unsubscribe"@ {
        McpMethod::ResourcesUnsubscribe
    } else if name == "prompts/list"@ {
        McpMethod::PromptsList
    } else if name == "prompts/get"@ {
        McpMethod::PromptsGet
    } else if name == "tools/list"@ {
        McpMethod::ToolsList
    } else if name == "tools/call"@ {
        McpMethod::ToolsCall
    } else if name == "resources/templates/list"@ {
        McpMethod::ResourceTemplatesList
    } else {
        McpMethod::Unknown
    }
}

/// The name a method goes by on the wire.
pub open spec fn wire_name(m: McpMethod) -> Seq<char> {
    match m {
        McpMethod::Initialize => "initialize"@,
        McpMethod::Ping => "ping"@,
        McpMethod::ResourcesList => "resources/list"@,
        McpMethod::ResourcesRead => "resources/read"@,
        McpMethod::ResourcesSubscribe => "resources/subscribe"@,
        McpMethod::ResourcesUnsubscribe => "resources/unsubscribe"@,
        McpMethod::PromptsList => "prompts/list"@,
        McpMethod::PromptsGet => "prompts/get"@,
        McpMethod::ToolsList => "tools/list"@,
        McpMethod::ToolsCall => "tools/call"@,
        McpMethod::ResourceTemplatesList => "resources/templates/list"@,
        McpMethod::Unknown => Seq::empty(),
    }
}

/// Two names that classify as the same known method are the same name:
/// no two method names are taken for one method.
pub proof fn lemma_known_methods_distinct(a: Seq<char>, b: Seq<char>)
    requires
        method_of(a) == method_of(b),
        method_of(a) != McpMethod::Unknown,
    ensures
        a == b,
{
}

/// Every known method is classified from its own wire name, and a known
/// classification comes only from that name.
pub proof fn lemma_method_names(m: McpMethod, name: Seq<char>)
    requires
        m != McpMethod::Unknown,
    ensures
        method_of(wire_name(m)) == m,
        method_of(name) == m <==> name == wire_name(m),
{
    reveal_strlit("initialize");
    reveal_strlit("ping");
    reveal_strlit("resources/list");
    reveal_strlit("resources/read");
    reveal_strlit("resources/subscribe");
    reveal_strlit("resources/unsubscribe");
    reveal_strlit("prompts/list");
    reveal_strlit("prompts/get");
    reveal_strlit("tools/list");
    reveal_strlit("tools/call");
    reveal_strlit("resources/templates/list");
    assert("initialize"@.len() == 10);
    assert("ping"@.len() == 4);
    assert("resources/list"@.len() == 14);
    assert("resources/read"@.len() == 14);
    assert("resources/subscribe"@.len() == 19);
    assert("resources/unsubscribe"@.len() == 21);
    assert("prompts/list"@.len() == 12);
    assert("prompts/get"@.len() == 11);
    assert("tools/list"@.len() == 10);
    assert("tools/call"@.len() == 10);
    assert("resources/templates/list"@.len() == 24);
    assert("initialize"@[0] != "tools/list"@[0]);
    assert("initialize"@[0] != "tools/call"@[0]);
    assert("resources/list"@[10] != "resources/read"@[10]);
    assert("tools/list"@[6] != "tools/call"@[6]);
}

/// Classifies a method name, so that the parameters can be read as that
/// method's.
pub fn classify_method(name: &str) -> (m: McpMethod)
    ensures
        m == method_of(name@),
{
    if str_eq(name, "initialize") {
        McpMethod::Initialize
    } else if str_eq(name, "ping") {
        McpMethod::Ping
    } else if str_eq(name, "resources/list") {
        McpMethod::ResourcesList
    } else if str_eq(name, "resources/read") {
        McpMethod::ResourcesRead
    } else if str_eq(name, "resources/subscribe") {
        McpMethod::ResourcesSubscribe
    } else if str_eq(name, "resources/unsubscribe") {
        McpMethod::ResourcesUnsubscribe
    } else if str_eq(name, "prompts/list") {
        McpMethod::PromptsList
    } else if str_eq(name, "prompts/get") {
        McpMethod::PromptsGet
    } else if str_eq(name, "tools/list") {
        McpMethod::ToolsList
    } else if str_eq(name, "tools/call") {
        McpMethod::ToolsCall
    } else if str_eq(name, "resources/templates/list") {
        McpMethod::ResourceTemplatesList
    } else {
        McpMethod::Unknown
    }
}

/// The parameters of `initialize`.
#[derive(Debug, Clone)]
pub struct InitializeParams {
    pub protocol_version: String,
    pub client_info: Implementation,
}

/// The parameters of `prompts/get`: the prompt's name and its arguments.
#[derive(Debug, Clone)]
pub struct GetPromptParams {
    pub name: String,
    pub arguments: Option<Vec<(String, String)>>,
}

/// The parameters of `tools/call`: the tool's name and its arguments as the
/// text of a JSON object.
#[derive(Debug, Clone)]
pub struct CallToolParams {
    pub name: String,
    pub arguments: Option<String>,
}

/// A method call with its parameters read as that method's; a parameter
/// error carries the message of what failed to parse. `initialize` carries
/// the tools created for the calling client.
pub enum McpRequest<T> {
    Initialize { params: Result<InitializeParams, String>, tools: Vec<ToolSlot<T>> },
    Ping,
    ResourcesList,
    ResourcesRead(Result<String, String>),
    ResourcesSubscribe(Result<String, String>),
    ResourcesUnsubscribe(Result<String, String>),
    PromptsList,
    PromptsGet(Result<GetPromptParams, String>),
    ToolsList,
    ToolsCall(Result<CallToolParams, String>),
    ResourceTemplatesList,
    Unknown,
}

/// A resource handler with what the server knows of it.
pub struct ResourceSlot<R> {
    pub def: Resource,
    pub template: Option<ResourceTemplate>,
    pub subscribable: bool,
    pub handler: R,
}

/// A prompt handler with its definition.
pub struct PromptSlot<P> {
    pub def: Prompt,
    pub handler: P,
}

/// A tool handler with its definition.
pub struct ToolSlot<T> {
    pub def: Tool,
    pub handler: T,
}

/// What the server answers from its own state.
pub enum ServerReply {
    /// The result of `initialize`.
    Initialized {
        protocol_version: String,
        capabilities: String,
        server_info: Implementation,
        instructions: Option<String>,
    },
    /// An empty object.
    Empty,
    Resources(Vec<Resource>),
    Prompts(Vec<Prompt>),
    Tools(Vec<Tool>),
    Templates(Vec<ResourceTemplate>),
}

/// How a call is answered: at once, with an error, or by the handler at an
/// index, whose outcome `complete` turns into the answer.
pub enum ServerAction {
    Reply(ServerReply),
    Fail(RpcError),
    ReadResource { index: usize, uri: String },
    SubscribeResource { index: usize, uri: String },
    UnsubscribeResource { index: usize, uri: String },
    GetPrompt { index: usize, arguments: Option<Vec<(String, String)>> },
    CallTool { index: usize, arguments: Option<String> },
}

/// Whether a resource handles `uri` (for subscriptions, also whether it
/// supports them).
pub open spec fn resource_matches<R>(s: ResourceSlot<R>, uri: Seq<char>, for_subscription: bool) -> bool {
    s.def.uri@ == uri && (for_subscription ==> s.subscribable)
}

/// `i` is the first resource that handles `uri`.
pub open spec fn first_resource<R>(rs: Seq<ResourceSlot<R>>, uri: Seq<char>, for_subscription: bool, i: int) -> bool {
    &&& 0 <= i < rs.len()
    &&& resource_matches(rs[i], uri, for_subscription)
    &&& forall|j: int| 0 <= j < i ==> !resource_matches(#[trigger] rs[j], uri, for_subscription)
}

/// No resource handles `uri`.
pub open spec fn no_resource<R>(rs: Seq<ResourceSlot<R>>, uri: Seq<char>, for_subscription: bool) -> bool {
    forall|j: int| 0 <= j < rs.len() ==> !resource_matches(#[trigger] rs[j], uri, for_subscription)
}

/// `i` is the first prompt named `name`.
pub open spec fn first_prompt<P>(ps: Seq<PromptSlot<P>>, name: Seq<char>, i: int) -> bool {
    &&& 0 <= i < ps.len()
    &&& ps[i].def.name@ == name
    &&& forall|j: int| 0 <= j < i ==> (#[trigger] ps[j]).def.name@ != name
}

/// `i` is the first tool named `name`.
pub open spec fn first_tool<T>(ts: Seq<ToolSlot<T>>, name: Seq<char>, i: int) -> bool {
    &&& 0 <= i < ts.len()
    &&& ts[i].def.name@ == name
    &&& forall|j: int| 0 <= j < i ==> (#[trigger] ts[j]).def.name@ != name
}

/// Two prompt definitions say the same: name, description and arguments.
pub open spec fn same_prompt(a: Prompt, b: Prompt) -> bool {
    &&& a.name == b.name
    &&& a.description == b.description
    &&& match (a.arguments, b.arguments) {
        (Some(x), Some(y)) => x@ == y@,
        (None, None) => true,
        _ => false,
    }
}

/// The text of an error about a resource: the message and the URI.
pub open spec fn resource_error_text(prefix: Seq<char>, uri: Seq<char>) -> Seq<char> {
    prefix + uri
}

/// The dispatcher's state: the server's resources and prompts, its
/// capabilities (JSON text), and the tools of each client that initialized.
pub struct McpDispatcher<R, P, T> {
    resources: Vec<ResourceSlot<R>>,
    prompts: Vec<PromptSlot<P>>,
    capabilities: String,
    tools: Registry<ClientId, Vec<ToolSlot<T>>>,
}

impl<R, P, T> McpDispatcher<R, P, T> {
    /// The resources, in the order they are tried.
    pub closed spec fn resources(&self) -> Seq<ResourceSlot<R>> {
        self.resources@
    }

    /// The prompts, in the order they are tried.
    pub closed spec fn prompts(&self) -> Seq<PromptSlot<P>> {
        self.prompts@
    }

    /// The server's capabilities, as JSON text.
    pub closed spec fn capabilities(&self) -> String {
        self.capabilities
    }

    /// The tools of each client that initialized.
    pub closed spec fn client_tools(&self) -> Map<ClientId, Seq<ToolSlot<T>>> {
        self.tools.map().map_values(|v: Vec<ToolSlot<T>>| v@)
    }

    pub closed spec fn wf(&self) -> bool {
        self.tools.wf()
    }

    /// A dispatcher for these resources and prompts; no client has tools yet.
    pub fn new(resources: Vec<ResourceSlot<R>>, prompts: Vec<PromptSlot<P>>, capabilities: String) -> (d: Self)
        ensures
            d.wf(),
            d.resources() == resources@,
            d.prompts() == prompts@,
            d.capabilities() == capabilities,
            d.client_tools() == Map::<ClientId, Seq<ToolSlot<T>>>::empty(),
    {
        let d = McpDispatcher { resources, prompts, capabilities, tools: Registry::new() };
        assert(d.client_tools() =~= Map::<ClientId, Seq<ToolSlot<T>>>::empty());
        d
    }

    /// The first resource that handles `uri`.
    fn find_resource(&self, uri: &str, for_subscription: bool) -> (r: Option<usize>)
        ensures
            match r {
                Some(i) => first_resource(self.resources@, uri@, for_subscription, i as int),
                None => no_resource(self.resources@, uri@, for_subscription),
            },
    {
        let mut i: usize = 0;
        while i < self.resources.len()
            invariant
                i <= self.resources.len(),
                forall|j: int| 0 <= j < i ==> !resource_matches(#[trigger] self.resources@[j], uri@, for_subscription),
            decreases self.resources.len() - i,
        {
            let s = &self.resources[i];
            if str_eq(s.def.uri.as_str(), uri) && (!for_subscription || s.subscribable) {
                return Some(i);
            }
            i = i + 1;
        }
        None
    }

    /// The first prompt named `name`.
    fn find_prompt(&self, name: &str) -> (r: Option<usize>)
        ensures
            match r {
                Some(i) => first_prompt(self.prompts@, name@, i as int),
                None => forall|j: int| 0 <= j < self.prompts.len() ==> (#[trigger] self.prompts@[j]).def.name@ != name@,
            },
    {
        let mut i: usize = 0;
        while i < self.prompts.len()
            invariant
                i <= self.prompts.len(),
                forall|j: int| 0 <= j < i ==> (#[trigger] self.prompts@[j]).def.name@ != name@,
            decreases self.prompts.len() - i,
        {
            if str_eq(self.prompts[i].def.name.as_str(), name) {
                return Some(i);
            }
            i = i + 1;
        }
        None
    }

    /// The first of a client's tools named `name`.
    fn find_tool(tools: &Vec<ToolSlot<T>>, name: &str) -> (r: Option<usize>)
        ensures
            match r {
                Some(i) => first_tool(tools@, name@, i as int),
                None => forall|j: int| 0 <= j < tools.len() ==> (#[trigger] tools@[j]).def.name@ != name@,
            },
    {
        let mut i: usize = 0;
        while i < tools.len()
            invariant
                i <= tools.len(),
                forall|j: int| 0 <= j < i ==> (#[trigger] tools@[j]).def.name@ != name@,
            decreases tools.len() - i,
        {
            if str_eq(tools[i].def.name.as_str(), name) {
                return Some(i);
            }
            i = i + 1;
        }
        None
    }

    /// The definitions of all resources, in order.
    fn resource_defs(&self) -> (r: Vec<Resource>)
        ensures
            r.len() == self.resources.len(),
            forall|i: int| 0 <= i < r.len() ==> r@[i] == (#[trigger] self.resources@[i]).def,
    {
        let mut out: Vec<Resource> = Vec::new();
        let mut i: usize = 0;
        while i < self.resources.len()
            invariant
                i <= self.resources.len(),
                out.len() == i,
                forall|j: int| 0 <= j < i ==> out@[j] == (#[trigger] self.resources@[j]).def,
            decreases self.resources.len() - i,
        {
            out.push(self.resources[i].def.copied());
            i = i + 1;
        }
        out
    }

    /// The templates of the resources that have one, in order.
    fn resource_templates(&self) -> (r: Vec<ResourceTemplate>)
        ensures
            r@ == templates_of(self.resources@),
    {
        let mut out: Vec<ResourceTemplate> = Vec::new();
        let mut i: usize = 0;
        while i < self.resources.len()
            invariant
                i <= self.resources.len(),
                out@ == templates_of(self.resources@.subrange(0, i as int)),
            decreases self.resources.len() - i,
        {
            let ghost pre = self.resources@.subrange(0, i as int);
            assert(self.resources@.subrange(0, i + 1).drop_last() =~= pre);
            match &self.resources[i].template {
                Some(t) => out.push(t.copied()),
                None => {},
            }
            i = i + 1;
        }
        assert(self.resources@.subrange(0, self.resources.len() as int) =~= self.resources@);
        out
    }

    /// The definitions of all prompts, in order.
    fn prompt_defs(&self) -> (r: Vec<Prompt>)
        ensures
            r.len() == self.prompts.len(),
            forall|i: int| 0 <= i < r.len() ==> same_prompt(#[trigger] r@[i], self.prompts@[i].def),
    {
        let mut out: Vec<Prompt> = Vec::new();
        let mut i: usize = 0;
        while i < self.prompts.len()
            invariant
                i <= self.prompts.len(),
                out.len() == i,
                forall|j: int| 0 <= j < i ==> same_prompt(#[trigger] out@[j], self.prompts@[j].def),
            decreases self.prompts.len() - i,
        {
            out.push(self.prompts[i].def.copied());
            i = i + 1;
        }
        out
    }

    /// The definitions of a client's tools, in order.
    fn tool_defs(tools: &Vec<ToolSlot<T>>) -> (r: Vec<Tool>)
        ensures
            r.len() == tools.len(),
            forall|i: int| 0 <= i < r.len() ==> r@[i] == (#[trigger] tools@[i]).def,
    {
        let mut out: Vec<Tool> = Vec::new();
        let mut i: usize = 0;
        while i < tools.len()
            invariant
                i <= tools.len(),
                out.len() == i,
                forall|j: int| 0 <= j < i ==> out@[j] == (#[trigger] tools@[j]).def,
            decreases tools.len() - i,
        {
            out.push(tools[i].def.copied());
            i = i + 1;
        }
        out
    }

    /// Decides how a method call of `client_id` is answered. A call that is
    /// not JSON-RPC 2.0 and an unknown method fail at once; `initialize`
    /// first stores the client's tools, then answers with the protocol
    /// version asked for, the capabilities and the server's name; lists are
    /// answered from the state; a read, subscription, prompt or tool call is
    /// routed to the first handler that matches, and fails with invalid
    /// parameters (resources) or an unknown method (prompts, tools) when
    /// none does. Only `initialize` changes the state.
    pub fn dispatch(&mut self, client_id: ClientId, valid_version: bool, request: McpRequest<T>) -> (a: ServerAction)
        requires
            old(self).wf(),
        ensures
            final(self).wf(),
            final(self).resources() == old(self).resources(),
            final(self).prompts() == old(self).prompts(),
            final(self).capabilities() == old(self).capabilities(),
            !valid_version ==> (final(self).client_tools() == old(self).client_tools()
                && (a matches ServerAction::Fail(e) && e.code == -32600)),
            valid_version ==> match request {
                McpRequest::Initialize { params, tools } => {
                    &&& final(self).client_tools() == old(self).client_tools().insert(client_id, tools@)
                    &&& match params {
                        Ok(p) => a matches ServerAction::Reply(ServerReply::Initialized {
                                protocol_version, capabilities, server_info, instructions })
                            && protocol_version == p.protocol_version
                            && capabilities == old(self).capabilities()
                            && server_info.name@ == "bioma-mcp-server"@
                            && server_info.version@ == "0.1.0"@
                            && (instructions matches Some(ins) && ins@ == "Bioma MCP server"@),
                        Err(m) => a matches ServerAction::Fail(e) && e == invalid_params_spec(m),
                    }
                },
                _ => final(self).client_tools() == old(self).client_tools() && match request {
                    McpRequest::Ping => a matches ServerAction::Reply(ServerReply::Empty),
                    McpRequest::ResourcesList => a matches ServerAction::Reply(ServerReply::Resources(rs))
                        && rs.len() == old(self).resources().len()
                        && forall|i: int| 0 <= i < rs.len() ==> rs@[i] == (#[trigger] old(self).resources()[i]).def,
                    McpRequest::ResourceTemplatesList => a matches ServerAction::Reply(ServerReply::Templates(ts))
                        && ts@ == templates_of(old(self).resources()),
                    McpRequest::PromptsList => a matches ServerAction::Reply(ServerReply::Prompts(ps))
                        && ps.len() == old(self).prompts().len()
                        && forall|i: int| 0 <= i < ps.len() ==> same_prompt(#[trigger] ps@[i], old(self).prompts()[i].def),
                    McpRequest::ToolsList => a matches ServerAction::Reply(ServerReply::Tools(ts))
                        && if old(self).client_tools().contains_key(client_id) {
                            ts.len() == old(self).client_tools()[client_id].len()
                            && forall|i: int| 0 <= i < ts.len()
                                ==> ts@[i] == (#[trigger] old(self).client_tools()[client_id][i]).def
                        } else {
                            ts.len() == 0
                        },
                    McpRequest::ResourcesRead(params) => match params {
                        Err(m) => a matches ServerAction::Fail(e) && e == invalid_params_spec(m),
                        Ok(uri) => if no_resource(old(self).resources(), uri@, false) {
                            a matches ServerAction::Fail(e) && e.code == -32602
                                && e.message@ == resource_error_text("Resource not found: "@, uri@)
                        } else {
                            a matches ServerAction::ReadResource { index, uri: u }
                                && first_resource(old(self).resources(), uri@, false, index as int) && u == uri
                        },
                    },
                    McpRequest::ResourcesSubscribe(params) => match params {
                        Err(m) => a matches ServerAction::Fail(e) && e == invalid_params_spec(m),
                        Ok(uri) => if no_resource(old(self).resources(), uri@, true) {
                            a matches ServerAction::Fail(e) && e.code == -32602
                                && e.message@ == resource_error_text(
                                    "Resource not found or doesn't support subscription: "@, uri@)
                        } else {
                            a matches ServerAction::SubscribeResource { index, uri: u }
                                && first_resource(old(self).resources(), uri@, true, index as int) && u == uri
                        },
                    },
                    McpRequest::ResourcesUnsubscribe(params) => match params {
                        Err(m) => a matches ServerAction::Fail(e) && e == invalid_params_spec(m),
                        Ok(uri) => if no_resource(old(self).resources(), uri@, true) {
                            a matches ServerAction::Fail(e) && e.code == -32602
                                && e.message@ == resource_error_text(
                                    "Resource not found or doesn't support subscription: "@, uri@)
                        } else {
                            a matches ServerAction::UnsubscribeResource { index, uri: u }
                                && first_resource(old(self).resources(), uri@, true, index as int) && u == uri
                        },
                    },
                    McpRequest::PromptsGet(params) => match params {
                        Err(m) => a matches ServerAction::Fail(e) && e == invalid_params_spec(m),
                        Ok(p) => if exists|i: int| first_prompt(old(self).prompts(), p.name@, i) {
                            a matches ServerAction::GetPrompt { index, arguments }
                                && first_prompt(old(self).prompts(), p.name@, index as int)
                                && arguments == p.arguments
                        } else {
                            a matches ServerAction::Fail(e) && e.code == -32601
                        },
                    },
                    McpRequest::ToolsCall(params) => match params {
                        Err(m) => a matches ServerAction::Fail(e) && e == invalid_params_spec(m),
                        Ok(p) => if old(self).client_tools().contains_key(client_id)
                            && exists|i: int| first_tool(old(self).client_tools()[client_id], p.name@, i) {
                            a matches ServerAction::CallTool { index, arguments }
                                && first_tool(old(self).client_tools()[client_id], p.name@, index as int)
                                && arguments == p.arguments
                        } else {
                            a matches ServerAction::Fail(e) && e.code == -32601
                        },
                    },
                    McpRequest::Unknown => a matches ServerAction::Fail(e) && e.code == -32601,
                    McpRequest::Initialize { .. } => false,
                },
            },
    {
        if !valid_version {
            return ServerAction::Fail(invalid_version());
        }
        match request {
            McpRequest::Initialize { params, tools } => {
                let ghost tv = tools@;
                let ghost old_tools = self.client_tools();
                let _ = self.tools.insert(client_id, tools);
                assert(self.client_tools() =~= old_tools.insert(client_id, tv));
                match params {
                    Ok(p) => {
                        let caps = self.capabilities.clone();
                        ServerAction::Reply(ServerReply::Initialized {
                            protocol_version: p.protocol_version,
                            capabilities: caps,
                            server_info: Implementation {
                                name: "bioma-mcp-server".to_owned(),
                                version: "0.1.0".to_owned(),
                            },
                            instructions: Some("Bioma MCP server".to_owned()),
                        })
                    },
                    Err(m) => ServerAction::Fail(invalid_params(m)),
                }
            },
            McpRequest::Ping => ServerAction::Reply(ServerReply::Empty),
            McpRequest::ResourcesList => ServerAction::Reply(ServerReply::Resources(self.resource_defs())),
            McpRequest::ResourceTemplatesList => ServerAction::Reply(ServerReply::Templates(self.resource_templates())),
            McpRequest::PromptsList => ServerAction::Reply(ServerReply::Prompts(self.prompt_defs())),
            McpRequest::ToolsList => {
                match self.tools.get(&client_id) {
                    Some(ts) => ServerAction::Reply(ServerReply::Tools(Self::tool_defs(ts))),
                    None => ServerAction::Reply(ServerReply::Tools(Vec::new())),
                }
            },
            McpRequest::ResourcesRead(params) => match params {
                Err(m) => ServerAction::Fail(invalid_params(m)),
                Ok(uri) => match self.find_resource(uri.as_str(), false) {
                    Some(index) => ServerAction::ReadResource { index, uri },
                    None => {
                        let mut msg: Vec<char> = Vec::new();
                        append_str(&mut msg, "Resource not found: ");
                        append_str(&mut msg, uri.as_str());
                        ServerAction::Fail(invalid_params(from_chars(&msg)))
                    },
                },
            },
            McpRequest::ResourcesSubscribe(params) => match params {
                Err(m) => ServerAction::Fail(invalid_params(m)),
                Ok(uri) => match self.find_resource(uri.as_str(), true) {
                    Some(index) => ServerAction::SubscribeResource { index, uri },
                    None => ServerAction::Fail(invalid_params(no_subscription_message(uri.as_str()))),
                },
            },
            McpRequest::ResourcesUnsubscribe(params) => match params {
                Err(m) => ServerAction::Fail(invalid_params(m)),
                Ok(uri) => match self.find_resource(uri.as_str(), true) {
                    Some(index) => ServerAction::UnsubscribeResource { index, uri },
                    None => ServerAction::Fail(invalid_params(no_subscription_message(uri.as_str()))),
                },
            },
            McpRequest::PromptsGet(params) => match params {
                Err(m) => ServerAction::Fail(invalid_params(m)),
                Ok(p) => match self.find_prompt(p.name.as_str()) {
                    Some(index) => ServerAction::GetPrompt { index, arguments: p.arguments },
                    None => {
                        assert forall|i: int| !first_prompt(self.prompts@, p.name@, i) by {
                            if 0 <= i < self.prompts.len() {
                                assert(self.prompts@[i].def.name@ != p.name@);
                            }
                        }
                        ServerAction::Fail(method_not_found())
                    },
                },
            },
            McpRequest::ToolsCall(params) => match params {
                Err(m) => ServerAction::Fail(invalid_params(m)),
                Ok(p) => match self.tools.get(&client_id) {
                    Some(ts) => match Self::find_tool(ts, p.name.as_str()) {
                        Some(index) => ServerAction::CallTool { index, arguments: p.arguments },
                        None => {
                            assert forall|i: int| !first_tool(self.client_tools()[client_id], p.name@, i) by {
                                if 0 <= i < ts.len() {
                                    assert(ts@[i].def.name@ != p.name@);
                                }
                            }
                            ServerAction::Fail(method_not_found())
                        },
                    },
                    None => ServerAction::Fail(method_not_found()),
                },
            },
            McpRequest::Unknown => ServerAction::Fail(method_not_found()),
        }
    }

    /// The handler of the resource at `index`.
    pub fn resource_handler(&self, index: usize) -> (h: &R)
        requires
            index < self.resources().len(),
        ensures
            *h == self.resources()[index as int].handler,
    {
        &self.resources[index].handler
    }

    /// The handler of the prompt at `index`.
    pub fn prompt_handler(&self, index: usize) -> (h: &P)
        requires
            index < self.prompts().len(),
        ensures
            *h == self.prompts()[index as int].handler,
    {
        &self.prompts[index].handler
    }

    /// The handler of the calling client's tool at `index`.
    pub fn tool_handler(&self, client_id: ClientId, index: usize) -> (h: Option<&T>)
        requires
            self.wf(),
        ensures
            match h {
                Some(t) => self.client_tools().contains_key(client_id)
                    && index < self.client_tools()[client_id].len()
                    && *t == self.client_tools()[client_id][index as int].handler,
                None => !self.client_tools().contains_key(client_id)
                    || index >= self.client_tools()[client_id].len(),
            },
    {
        match self.tools.get(&client_id) {
            Some(ts) => if index < ts.len() {
                Some(&ts[index].handler)
            } else {
                None
            },
            None => None,
        }
    }

    /// Forgets the tools of a client that disconnected.
    pub fn forget_client(&mut self, client_id: ClientId)
        requires
            old(self).wf(),
        ensures
            final(self).wf(),
            final(self).resources() == old(self).resources(),
            final(self).prompts() == old(self).prompts(),
            final(self).capabilities() == old(self).capabilities(),
            final(self).client_tools() == old(self).client_tools().remove(client_id),
    {
        let ghost old_tools = self.client_tools();
        let _ = self.tools.remove(&client_id);
        assert(self.client_tools() =~= old_tools.remove(client_id));
    }
}

/// The invalid-parameters error with this message.
pub open spec fn invalid_params_spec(message: String) -> RpcError {
    RpcError { code: -32602i64, message }
}

/// The templates of the resources that have one, in order.
pub open spec fn templates_of<R>(rs: Seq<ResourceSlot<R>>) -> Seq<ResourceTemplate>
    decreases rs.len(),
{
    if rs.len() == 0 {
        Seq::empty()
    } else {
        let pre = templates_of(rs.drop_last());
        match rs.last().template {
            Some(t) => pre.push(t),
            None => pre,
        }
    }
}

/// `Resource not found or doesn't support subscription: <uri>`.
fn no_subscription_message(uri: &str) -> (s: String)
    ensures
        s@ == resource_error_text("Resource not found or doesn't support subscription: "@, uri@),
{
    let mut msg: Vec<char> = Vec::new();
    append_str(&mut msg, "Resource not found or doesn't support subscription: ");
    append_str(&mut msg, uri);
    from_chars(&msg)
}

/// The answer to a call routed to a handler: its result, or an internal
/// error when the handler failed.
pub fn complete<S, E>(outcome: Result<S, E>) -> (r: Result<S, RpcError>)
    ensures
        match outcome {
            Ok(s) => r matches Ok(s2) && s2 == s,
            Err(_) => r matches Err(e) && e.code == -32603 && e.message@ == "Internal error"@,
        },
{
    match outcome {
        Ok(s) => Ok(s),
        Err(_) => Err(internal_error()),
    }
}

} // verus!
