//! The MCP client: its configuration, and the correlation of the requests it
//! sends with the responses that come back.
use vstd::prelude::*;
use crate::json::JsonValue;
use crate::schema::Implementation;
use crate::server::InitializeParams;
use crate::text::{append_str, from_chars};

verus! {

/// Configuration of the stdio transport: the server command to run.
#[derive(Debug, Clone)]
pub struct StdioConfig {
    pub command: String,
    pub args: Vec<String>,
}

/// Configuration of the SSE transport.
#[derive(Debug, Clone, PartialEq, Eq)]
pub struct SseConfig {
    /// The URL of the server's event stream.
    pub endpoint: String,
    /// How many times to retry connecting.
    pub retry_count: usize,
    /// How long to wait between attempts, in milliseconds.
    pub retry_delay_ms: u64,
}

/// The URL of the server's event stream by default.
pub fn default_server_url() -> (s: String)
    ensures
        s@ == "http://127.0.0.1:8090/sse"@,
{
    "http://127.0.0.1:8090/sse".to_owned()
}

impl Default for SseConfig {
    fn default() -> (c: Self)
        ensures
            c.endpoint@ == "http://127.0.0.1:8090/sse"@,
            c.retry_count == 3,
            c.retry_delay_ms == 5000,
    {
        SseConfig { endpoint: default_server_url(), retry_count: 3, retry_delay_ms: 5000 }
    }
}

/// Configuration of the WebSocket transport.
#[derive(Debug, Clone, PartialEq, Eq)]
pub struct WsConfig {
    pub endpoint: String,
}

/// The URL of the WebSocket server by default.
pub fn default_ws_server_url() -> (s: String)
    ensures
        s@ == "ws://127.0.0.1:9090"@,
{
    "ws://127.0.0.1:9090".to_owned()
}

impl Default for WsConfig {
    fn default() -> (c: Self)
        ensures
            c.endpoint@ == "ws://127.0.0.1:9090"@,
    {
        WsConfig { endpoint: default_ws_server_url() }
    }
}

/// The transport a client connects over.
#[derive(Debug, Clone)]
pub enum TransportConfig {
    Stdio(StdioConfig),
    Sse(SseConfig),
    Ws(WsConfig),
}

/// A server a client talks to.
#[derive(Debug, Clone)]
pub struct ServerConfig {
    pub name: String,
    pub version: String,
    pub transport: TransportConfig,
    /// Seconds to wait for a response.
    pub request_timeout: u64,
}

/// The version a server config names by default.
pub fn default_version() -> (s: String)
    ensures
        s@ == "0.1.0"@,
{
    "0.1.0".to_owned()
}

/// The seconds to wait for a response by default.
pub fn default_request_timeout() -> (n: u64)
    ensures
        n == 5,
{
    5
}

impl ServerConfig {
    /// A server config with the default version and timeout.
    pub fn new(name: String, transport: TransportConfig) -> (c: Self)
        ensures
            c.name == name,
            c.version@ == "0.1.0"@,
            c.request_timeout == 5,
    {
        ServerConfig { name, version: default_version(), transport, request_timeout: default_request_timeout() }
    }
}

/// A client's configuration: the server it talks to.
#[derive(Debug, Clone)]
pub struct ClientConfig {
    pub server: ServerConfig,
}

/// Errors of an MCP client.
#[derive(Debug, Clone, PartialEq, Eq)]
pub enum ModelContextProtocolClientError {
    System(String),
    Transport(String),
    JsonError(String),
    Request(String),
    ResponseIdMismatch { expected: u64, actual: String },
    ClientNotInitialized,
}

impl ModelContextProtocolClientError {
    /// The error's message.
    pub fn to_string(&self) -> (s: String)
        ensures
            match self {
                ModelContextProtocolClientError::System(m) => s@ == "System error: "@ + m@,
                ModelContextProtocolClientError::Transport(m) => s@ == "Invalid transport type: "@ + m@,
                ModelContextProtocolClientError::JsonError(m) => s@ == "JSON error: "@ + m@,
                ModelContextProtocolClientError::Request(m) => s@ == "Request: "@ + m@,
                ModelContextProtocolClientError::ResponseIdMismatch { expected, actual } =>
                    s@ == "Response ID mismatch: expected "@ + crate::text::decimal(*expected as nat)
                        + ", got "@ + actual@,
                ModelContextProtocolClientError::ClientNotInitialized => s@ == "MCP Client not initialized"@,
            },
    {
        let mut out: Vec<char> = Vec::new();
        match self {
            ModelContextProtocolClientError::System(m) => {
                append_str(&mut out, "System error: ");
                append_str(&mut out, m.as_str());
            },
            ModelContextProtocolClientError::Transport(m) => {
                append_str(&mut out, "Invalid transport type: ");
                append_str(&mut out, m.as_str());
            },
            ModelContextProtocolClientError::JsonError(m) => {
                append_str(&mut out, "JSON error: ");
                append_str(&mut out, m.as_str());
            },
            ModelContextProtocolClientError::Request(m) => {
                append_str(&mut out, "Request: ");
                append_str(&mut out, m.as_str());
            },
            ModelContextProtocolClientError::ResponseIdMismatch { expected, actual } => {
                append_str(&mut out, "Response ID mismatch: expected ");
                crate::text::push_decimal(&mut out, *expected);
                append_str(&mut out, ", got ");
                append_str(&mut out, actual.as_str());
            },
            ModelContextProtocolClientError::ClientNotInitialized => {
                append_str(&mut out, "MCP Client not initialized");
            },
        }
        from_chars(&out)
    }
}

/// The protocol version a client asks for.
pub open spec fn protocol_version() -> Seq<char> {
    "2024-11-05"@
}

/// The parameters of the `initialize` request a client sends.
pub fn initialize_params(client_info: Implementation) -> (p: InitializeParams)
    ensures
        p.protocol_version@ == protocol_version(),
        p.client_info == client_info,
{
    InitializeParams { protocol_version: "2024-11-05".to_owned(), client_info }
}

/// The members sent as a request's parameters: those of a JSON object, and
/// none for any other value.
pub fn params_members(params: JsonValue) -> (m: Vec<(String, JsonValue)>)
    ensures
        match params {
            JsonValue::Object(members) => m@ == members@,
            _ => m.len() == 0,
        },
{
    match params {
        JsonValue::Object(members) => members,
        _ => Vec::new(),
    }
}

/// The id of a response.
#[derive(Debug, Clone, PartialEq, Eq)]
pub enum ResponseId {
    Num(u64),
    Str(String),
    Null,
}

/// What a response carries: a result, or an error (as its debug text).
#[derive(Debug, Clone)]
pub enum RpcOutcome<V> {
    Success(V),
    Failure(String),
}

/// Whether `answer` is what a waiting request receives for `outcome`: the
/// result, or the error `RPC error: <error>`.
pub open spec fn answers<V>(outcome: RpcOutcome<V>, answer: Result<V, ModelContextProtocolClientError>) -> bool {
    match outcome {
        RpcOutcome::Success(v) => answer == Ok::<V, ModelContextProtocolClientError>(v),
        RpcOutcome::Failure(e) => answer matches Err(ModelContextProtocolClientError::Request(m))
            && m@ == "RPC error: "@ + e@,
    }
}

/// A message a client receives: a single response, with its id and what it
/// carries, or any other message.
#[derive(Debug, Clone)]
pub enum Incoming<V> {
    Response(ResponseId, RpcOutcome<V>),
    Other,
}

/// The step of starting a client that can fail: building its transport,
/// or starting it.
#[derive(Debug, Clone, Copy, PartialEq, Eq, Structural)]
pub enum StartupStep {
    Build,
    Start,
}

/// The error a client's constructor fails with when its transport could
/// not be built (`Client new: <error>`) or started (`Start: <error>`).
pub fn startup_error(step: StartupStep, error: &str) -> (e: ModelContextProtocolClientError)
    ensures
        e matches ModelContextProtocolClientError::Transport(m) && m@ == (match step {
            StartupStep::Build => "Client new: "@,
            StartupStep::Start => "Start: "@,
        }) + error@,
{
    let mut out: Vec<char> = Vec::new();
    match step {
        StartupStep::Build => append_str(&mut out, "Client new: "),
        StartupStep::Start => append_str(&mut out, "Start: "),
    }
    append_str(&mut out, error);
    ModelContextProtocolClientError::Transport(from_chars(&out))
}

/// The requests of a client that wait for a response, each with the channel
/// its response goes to, and the last id issued.
pub struct RequestTracker<S> {
    counter: u64,
    pending: std::collections::HashMap<u64, S>,
}

/// Which pending request a response is for: only numeric ids are issued.
pub open spec fn response_target(id: ResponseId) -> Option<u64> {
    match id {
        ResponseId::Num(n) => Some(n),
        _ => None,
    }
}

broadcast use vstd::std_specs::hash::group_hash_axioms;

impl<S> RequestTracker<S> {
    /// The last id issued; ids start at 1.
    pub closed spec fn counter(&self) -> u64 {
        self.counter
    }

    /// The waiting requests, by id.
    pub closed spec fn pending(&self) -> Map<u64, S> {
        self.pending@
    }

    /// Every waiting request has an id that was issued.
    pub closed spec fn wf(&self) -> bool {
        forall|id: u64| #[trigger] self.pending@.contains_key(id) ==> 1 <= id <= self.counter
    }

    /// No request issued yet.
    pub fn new() -> (t: Self)
        ensures
            t.wf(),
            t.counter() == 0,
            t.pending() == Map::<u64, S>::empty(),
    {
        RequestTracker { counter: 0, pending: std::collections::HashMap::new() }
    }

    /// Issues the next id for a request and records where its response
    /// goes. The id is one more than the last, so no waiting request has it.
    pub fn begin(&mut self, response_to: S) -> (id: u64)
        requires
            old(self).wf(),
            old(self).counter() < u64::MAX,
        ensures
            final(self).wf(),
            id == old(self).counter() + 1,
            final(self).counter() == id,
            !old(self).pending().contains_key(id),
            final(self).pending() == old(self).pending().insert(id, response_to),
    {
        self.counter = self.counter + 1;
        let id = self.counter;
        let _ = self.pending.insert(id, response_to);
        id
    }

    /// Takes the request a response is for, with the answer it receives;
    /// `None` when no waiting request has the response's id.
    pub fn resolve<V>(&mut self, id: ResponseId, outcome: RpcOutcome<V>)
        -> (r: Option<(S, Result<V, ModelContextProtocolClientError>)>)
        requires
            old(self).wf(),
        ensures
            final(self).wf(),
            final(self).counter() == old(self).counter(),
            match response_target(id) {
                Some(n) => if old(self).pending().contains_key(n) {
                    &&& final(self).pending() == old(self).pending().remove(n)
                    &&& r matches Some((s, answer))
                    &&& s == old(self).pending()[n]
                    &&& answers(outcome, answer)
                } else {
                    final(self).pending() == old(self).pending() && r is None
                },
                None => final(self).pending() == old(self).pending() && r is None,
            },
    {
        match id {
            ResponseId::Num(n) => match self.pending.remove(&n) {
                Some(s) => {
                    let answer = match outcome {
                        RpcOutcome::Success(v) => Ok(v),
                        RpcOutcome::Failure(e) => {
                            let mut m: Vec<char> = Vec::new();
                            append_str(&mut m, "RPC error: ");
                            append_str(&mut m, e.as_str());
                            Err(ModelContextProtocolClientError::Request(from_chars(&m)))
                        },
                    };
                    Some((s, answer))
                },
                None => None,
            },
            _ => None,
        }
    }

    /// Handles a message the client receives: a response goes to the
    /// request waiting for it, as `resolve` does; any other message (a
    /// request, a notification, a batch) changes nothing.
    pub fn on_message<V>(&mut self, message: Incoming<V>)
        -> (r: Option<(S, Result<V, ModelContextProtocolClientError>)>)
        requires
            old(self).wf(),
        ensures
            final(self).wf(),
            final(self).counter() == old(self).counter(),
            match message {
                Incoming::Other => final(self).pending() == old(self).pending() && r is None,
                Incoming::Response(id, outcome) => match response_target(id) {
                    Some(n) => if old(self).pending().contains_key(n) {
                        &&& final(self).pending() == old(self).pending().remove(n)
                        &&& r matches Some((s, answer))
                        &&& s == old(self).pending()[n]
                        &&& answers(outcome, answer)
                    } else {
                        final(self).pending() == old(self).pending() && r is None
                    },
                    None => final(self).pending() == old(self).pending() && r is None,
                },
            },
    {
        match message {
            Incoming::Response(id, outcome) => self.resolve(id, outcome),
            Incoming::Other => None,
        }
    }

    /// Gives up on a request whose send failed, with the error
    /// `Send: <error>`.
    pub fn send_failed(&mut self, id: u64, error: &str) -> (e: ModelContextProtocolClientError)
        requires
            old(self).wf(),
        ensures
            final(self).wf(),
            final(self).counter() == old(self).counter(),
            final(self).pending() == old(self).pending().remove(id),
            e matches ModelContextProtocolClientError::Transport(m) && m@ == "Send: "@ + error@,
    {
        let _ = self.pending.remove(&id);
        let mut out: Vec<char> = Vec::new();
        append_str(&mut out, "Send: ");
        append_str(&mut out, error);
        ModelContextProtocolClientError::Transport(from_chars(&out))
    }

    /// Gives up on a request whose response did not come in time.
    pub fn timed_out(&mut self, id: u64) -> (e: ModelContextProtocolClientError)
        requires
            old(self).wf(),
        ensures
            final(self).wf(),
            final(self).counter() == old(self).counter(),
            final(self).pending() == old(self).pending().remove(id),
            e matches ModelContextProtocolClientError::Request(m) && m@ == "Request timed out"@,
    {
        let _ = self.pending.remove(&id);
        ModelContextProtocolClientError::Request("Request timed out".to_owned())
    }
}

} // verus!
