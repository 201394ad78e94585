//! Transports that carry JSON-RPC messages between MCP clients and servers,
//! and the registry of connected clients that the server side keeps.
use vstd::prelude::*;
use crate::client_id::ClientId;
use crate::registry::Registry;

pub mod client;
pub mod sse;
pub mod stdio;
pub mod ws;

verus! {

/// Marker for the per-message metadata a transport attaches to a message.
pub trait TransportMetadata {}

/// The transports a client or server can run over.
#[derive(Debug, Clone, Copy, PartialEq, Eq, Structural)]
pub enum TransportType {
    /// Newline-delimited JSON over a child process's stdin and stdout.
    Stdio,
    /// Server-Sent Events for server-to-client and HTTP POST for client-to-server.
    Sse,
    /// WebSocket text frames in both directions.
    Ws,
}

/// The clients connected to a server, each with the sender of its outgoing
/// stream, in the order they connected.
pub struct ClientSenders<S> {
    pub registry: Registry<ClientId, S>,
}

impl<S> ClientSenders<S> {
    pub open spec fn wf(&self) -> bool {
        self.registry.wf()
    }

    /// The connected clients and their senders.
    pub open spec fn clients(&self) -> Map<ClientId, S> {
        self.registry.map()
    }

    /// No client connected.
    pub fn new() -> (r: Self)
        ensures
            r.wf(),
            r.clients() == Map::<ClientId, S>::empty(),
    {
        ClientSenders { registry: Registry::new() }
    }

    /// Registers a connected client, replacing an earlier sender of the same
    /// client.
    pub fn register(&mut self, client_id: ClientId, sender: S)
        requires
            old(self).wf(),
        ensures
            final(self).wf(),
            final(self).clients() == old(self).clients().insert(client_id, sender),
    {
        let _ = self.registry.insert(client_id, sender);
    }

    /// The sender of a connected client.
    pub fn get(&self, client_id: ClientId) -> (r: Option<&S>)
        requires
            self.wf(),
        ensures
            match r {
                Some(s) => self.clients().contains_key(client_id) && *s == self.clients()[client_id],
                None => !self.clients().contains_key(client_id),
            },
    {
        self.registry.get(&client_id)
    }

    /// Removes a client that disconnected, returning its sender.
    pub fn unregister(&mut self, client_id: ClientId) -> (r: Option<S>)
        requires
            old(self).wf(),
        ensures
            final(self).wf(),
            final(self).clients() == old(self).clients().remove(client_id),
            r is Some <==> old(self).clients().contains_key(client_id),
            r matches Some(s) ==> s == old(self).clients()[client_id],
    {
        self.registry.remove(&client_id)
    }

    /// Removes every client, returning each with its sender in the order
    /// they connected.
    pub fn drain(&mut self) -> (r: Vec<(ClientId, S)>)
        requires
            old(self).wf(),
        ensures
            final(self).wf(),
            final(self).clients() == Map::<ClientId, S>::empty(),
            r@.map_values(|e: (ClientId, S)| e.0) == old(self).registry.keys(),
            r@.map_values(|e: (ClientId, S)| e.1) == old(self).registry.values(),
    {
        self.registry.drain()
    }
}

} // verus!
