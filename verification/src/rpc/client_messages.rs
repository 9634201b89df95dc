//! Messages that a client sends to the server.

use vstd::prelude::*;

verus! {

/// The two kinds of message a client sends.
#[derive(Clone, Copy, Debug, PartialEq, Eq, Structural)]
pub enum ClientMessageType {
    Request,
    Response,
}

/// A request of the client, with its raw JSON data.
pub struct ClientRequest {
    pub task_id: u64,
    /// Raw JSON text.
    pub data: String,
}

/// A response of the client to a request of the server.
pub struct ClientResponse {
    pub task_id: u64,
    /// Raw JSON text.
    pub data: String,
}

/// Any message of the client.
pub struct ClientMessage {
    pub message_type: ClientMessageType,
    pub task_id: u64,
    /// Raw JSON text.
    pub data: String,
}

} // verus!
