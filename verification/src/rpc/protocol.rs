//! The envelope of every message: its type, its task ID and its raw JSON data.

use crate::json::{append_decimal, decimal};
use vstd::prelude::*;
use vstd::string::*;

verus! {

/// Whether a message asks the peer to run a task, or answers such a request.
#[derive(Clone, Copy, Debug, PartialEq, Eq, Structural)]
pub enum MessageType {
    Request,
    Response,
}

/// The name under which a message type is written in JSON.
pub open spec fn message_type_name(message_type: MessageType) -> Seq<char> {
    match message_type {
        MessageType::Request => "Request"@,
        MessageType::Response => "Response"@,
    }
}

/// The JSON text of an envelope: an object with the fields `type`, `task_id`
/// and `data`, in this order, where `data` is the raw JSON text carried along.
pub open spec fn envelope_json(message_type: MessageType, task_id: u64, data: Seq<char>) -> Seq<char> {
    "{\"type\":\""@ + message_type_name(message_type) + "\",\"task_id\":"@ + decimal(task_id as nat)
        + ",\"data\":"@ + data + "}"@
}

fn message_type_str(message_type: MessageType) -> (name: &'static str)
    ensures
        name@ == message_type_name(message_type),
{
    match message_type {
        MessageType::Request => "Request",
        MessageType::Response => "Response",
    }
}

/// Writes the JSON text of an envelope.
pub fn envelope_to_json(message_type: MessageType, task_id: u64, data: &str) -> (text: String)
    ensures
        text@ == envelope_json(message_type, task_id, data@),
{
    let mut text = String::from_str("{\"type\":\"");
    text.append(message_type_str(message_type));
    text.append("\",\"task_id\":");
    append_decimal(&mut text, task_id);
    text.append(",\"data\":");
    text.append(data);
    text.append("}");
    proof {
        assert(text@ =~= envelope_json(message_type, task_id, data@));
    }
    text
}

/// The task ID and the raw JSON data of a message, without its type.
pub struct MessageData {
    pub task_id: u64,
    /// Raw JSON text.
    pub data: String,
}

/// A message of the protocol, in either direction.
pub struct Message {
    pub message_type: MessageType,
    pub task_id: u64,
    /// Raw JSON text.
    pub data: String,
}

impl Message {
    /// The request that carries `message_data`.
    #[verifier::allow_in_spec]
    pub fn request(message_data: MessageData) -> Self
        returns
            (Message {
                message_type: MessageType::Request,
                task_id: message_data.task_id,
                data: message_data.data,
            }),
    {
        Message { message_type: MessageType::Request, task_id: message_data.task_id, data: message_data.data }
    }

    /// The response that carries `message_data`.
    #[verifier::allow_in_spec]
    pub fn response(message_data: MessageData) -> Self
        returns
            (Message {
                message_type: MessageType::Response,
                task_id: message_data.task_id,
                data: message_data.data,
            }),
    {
        Message { message_type: MessageType::Response, task_id: message_data.task_id, data: message_data.data }
    }

    /// Separates the type of a message from its task ID and data.
    #[verifier::allow_in_spec]
    pub fn split(self) -> (MessageType, MessageData)
        returns
            (self.message_type, MessageData { task_id: self.task_id, data: self.data }),
    {
        (self.message_type, MessageData { task_id: self.task_id, data: self.data })
    }

    /// The JSON text of the message.
    pub fn serialize_to_json_string(&self) -> (text: String)
        ensures
            text@ == envelope_json(self.message_type, self.task_id, self.data@),
    {
        envelope_to_json(self.message_type, self.task_id, self.data.as_str())
    }
}

/// Splitting a request gives back the request type and the data it was made
/// from; the same holds of a response.
pub proof fn law_split_undoes_request_and_response(message_data: MessageData)
    ensures
        Message::split(Message::request(message_data)) == (MessageType::Request, message_data),
        Message::split(Message::response(message_data)) == (MessageType::Response, message_data),
{
}

/// A message is rebuilt from its parts: the constructor of its type applied to
/// its data gives it back.
pub proof fn law_split_then_rebuild(message: Message)
    ensures
        ({
            let (message_type, message_data) = Message::split(message);
            match message_type {
                MessageType::Request => Message::request(message_data),
                MessageType::Response => Message::response(message_data),
            }
        }) == message,
{
}

} // verus!
