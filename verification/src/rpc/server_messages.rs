//! Messages that the server sends to a client.

use crate::rpc::protocol::{envelope_json, envelope_to_json, MessageType};
use vstd::prelude::*;

verus! {

/// A request of the server, with its raw JSON data.
pub struct ServerRequest {
    pub task_id: u64,
    /// Raw JSON text.
    pub data: String,
}

/// A response of the server to a request of the client.
pub struct ServerResponse {
    pub task_id: u64,
    /// Raw JSON text.
    pub data: String,
}

/// Any message of the server.
pub enum ServerMessage {
    Request(ServerRequest),
    Response(ServerResponse),
}

/// The JSON text of a server message: an object tagged by `type`, followed by
/// the fields of the request or response.
pub open spec fn server_message_json(message: ServerMessage) -> Seq<char> {
    match message {
        ServerMessage::Request(request) => envelope_json(MessageType::Request, request.task_id, request.data@),
        ServerMessage::Response(response) => envelope_json(MessageType::Response, response.task_id, response.data@),
    }
}

impl ServerMessage {
    /// The JSON text of the message.
    pub fn serialize_to_json_string(&self) -> (text: String)
        ensures
            text@ == server_message_json(*self),
    {
        match self {
            ServerMessage::Request(request) => envelope_to_json(MessageType::Request, request.task_id, request.data.as_str()),
            ServerMessage::Response(response) => envelope_to_json(MessageType::Response, response.task_id, response.data.as_str()),
        }
    }
}

} // verus!
