//! The WebSocket transport's decisions: what a received frame means, the
//! identification message a client sends first, and the errors of sending.
use vstd::prelude::*;
use crate::client_id::{uuid_text, ClientId};
use crate::json::{is_rpc_message_text, JsonRpcMessage};
use crate::text::{append_chars, append_str, from_chars};
use crate::transport::ClientSenders;

verus! {

/// Metadata for the WebSocket transport: the client a message is for.
#[derive(Debug, Clone, Copy, PartialEq, Eq)]
pub struct WsMetadata {
    /// Unique identifier for the client.
    pub client_id: ClientId,
}

/// A message received from, or to be sent to, a WebSocket client.
#[derive(Debug, Clone)]
pub struct WsMessage {
    /// The JSON-RPC message payload.
    pub message: JsonRpcMessage,
    /// The client that sent or should receive this message.
    pub client_id: ClientId,
}

/// Errors of the WebSocket transport.
#[derive(Debug, Clone, PartialEq, Eq)]
pub enum WsError {
    /// Connection establishment or communication failed.
    ConnectionError(String),
    /// A message did not serialize or deserialize.
    SerializationError(String),
    /// The client a message is for is not connected.
    ClientNotFound(ClientId),
    /// A channel to a client was closed.
    SendError(String),
    /// An I/O operation failed.
    IoError(String),
    /// A client tried to send before connecting.
    NotConnected,
}

/// The kinds of WebSocket frame a peer can receive.
#[derive(Debug, Clone)]
pub enum WsFrame {
    Text(String),
    Binary,
    Ping,
    Pong,
    Close,
}

/// What a peer does with a received frame.
#[derive(Debug, Clone)]
pub enum FrameAction {
    /// Hand the decoded message on.
    Deliver(JsonRpcMessage),
    /// A text frame that is not a JSON-RPC message: log it and read on.
    Malformed,
    /// Not a text frame: read on.
    Ignore,
    /// The peer closed the connection: stop reading.
    Stop,
}

/// Decides what a received frame means: a text frame carries a JSON-RPC
/// message (a malformed one is skipped), a close frame ends the connection,
/// and other frames are ignored.
pub fn handle_frame(frame: WsFrame) -> (a: FrameAction)
    ensures
        match frame {
            WsFrame::Text(t) => if is_rpc_message_text(t@) {
                a matches FrameAction::Deliver(m) && m@ == t@
            } else {
                a matches FrameAction::Malformed
            },
            WsFrame::Close => a matches FrameAction::Stop,
            _ => a matches FrameAction::Ignore,
        },
{
    match frame {
        WsFrame::Text(t) => match JsonRpcMessage::from_text(t.as_str()) {
            Some(m) => FrameAction::Deliver(m),
            None => FrameAction::Malformed,
        },
        WsFrame::Close => FrameAction::Stop,
        _ => FrameAction::Ignore,
    }
}

pub open spec fn client_id_prefix() -> Seq<char> {
    seq!['{', '"', 'c', 'l', 'i', 'e', 'n', 't', 'I', 'd', '"', ':', '"']
}

/// The first message a client sends after connecting, naming itself:
/// `{"clientId":"<uuid>"}`.
pub fn client_id_message(client_id: ClientId) -> (s: String)
    ensures
        s@ == client_id_prefix() + uuid_text(client_id.0) + seq!['"', '}'],
{
    let mut out: Vec<char> = vec!['{', '"', 'c', 'l', 'i', 'e', 'n', 't', 'I', 'd', '"', ':', '"'];
    let id = client_id.to_string();
    append_str(&mut out, id.as_str());
    let tail: Vec<char> = vec!['"', '}'];
    append_chars(&mut out, &tail);
    assert(out@ =~= client_id_prefix() + uuid_text(client_id.0) + seq!['"', '}']);
    from_chars(&out)
}

/// The sender of the client a server-side message is for, or
/// `ClientNotFound` naming that client.
pub fn sender_for<S>(clients: &ClientSenders<S>, client_id: ClientId) -> (r: Result<&S, WsError>)
    requires
        clients.wf(),
    ensures
        match r {
            Ok(s) => clients.clients().contains_key(client_id) && *s == clients.clients()[client_id],
            Err(e) => !clients.clients().contains_key(client_id) && e == WsError::ClientNotFound(client_id),
        },
{
    match clients.get(client_id) {
        Some(s) => Ok(s),
        None => Err(WsError::ClientNotFound(client_id)),
    }
}

/// The error of a send whose channel to the client was closed:
/// `Failed to send message to client <id>`.
pub fn send_failed(client_id: ClientId) -> (e: WsError)
    ensures
        e matches WsError::SendError(m) && m@ == "Failed to send message to client "@ + uuid_text(client_id.0),
{
    let mut out: Vec<char> = Vec::new();
    append_str(&mut out, "Failed to send message to client ");
    let id = client_id.to_string();
    append_str(&mut out, id.as_str());
    WsError::SendError(from_chars(&out))
}

impl WsError {
    /// The error's message.
    pub fn to_string(&self) -> (s: String)
        ensures
            match self {
                WsError::ConnectionError(m) => s@ == "WebSocket connection error: "@ + m@,
                WsError::SerializationError(m) => s@ == "JSON serialization error: "@ + m@,
                WsError::ClientNotFound(id) => s@ == "Client not found: "@ + uuid_text(id.0),
                WsError::SendError(m) => s@ == "Message sending failed: "@ + m@,
                WsError::IoError(m) => s@ == "IO error: "@ + m@,
                WsError::NotConnected => s@ == "WebSocket connection not established. Call start() first."@,
            },
    {
        let mut out: Vec<char> = Vec::new();
        match self {
            WsError::ConnectionError(m) => {
                append_str(&mut out, "WebSocket connection error: ");
                append_str(&mut out, m.as_str());
            },
            WsError::SerializationError(m) => {
                append_str(&mut out, "JSON serialization error: ");
                append_str(&mut out, m.as_str());
            },
            WsError::ClientNotFound(id) => {
                append_str(&mut out, "Client not found: ");
                let t = id.to_string();
                append_str(&mut out, t.as_str());
            },
            WsError::SendError(m) => {
                append_str(&mut out, "Message sending failed: ");
                append_str(&mut out, m.as_str());
            },
            WsError::IoError(m) => {
                append_str(&mut out, "IO error: ");
                append_str(&mut out, m.as_str());
            },
            WsError::NotConnected => {
                append_str(&mut out, "WebSocket connection not established. Call start() first.");
            },
        }
        from_chars(&out)
    }
}

} // verus!
