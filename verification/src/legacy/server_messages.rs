//! Messages that the server sends.

use crate::json::{append_decimal, append_json_string, decimal, json_string_literal};
use vstd::prelude::*;
use vstd::string::*;

verus! {

/// The result of checking one URL.
pub enum CheckStatus {
    /// The URL is already in its normalized form.
    Updated,
    /// The URL should be replaced by `url`.
    Update { url: String },
    /// The URL could not be checked.
    Error { message: String },
}

/// The fields of a check status inside a JSON object: the tag `status`, and
/// the URL or the message where the status carries one.
pub open spec fn check_status_fields(status: CheckStatus) -> Seq<char> {
    match status {
        CheckStatus::Updated => "\"status\":\"Updated\""@,
        CheckStatus::Update { url } => "\"status\":\"Update\",\"url\":"@ + json_string_literal(url@),
        CheckStatus::Error { message } => "\"status\":\"Error\",\"message\":"@ + json_string_literal(message@),
    }
}

/// The JSON text of a check status.
pub open spec fn check_status_json(status: CheckStatus) -> Seq<char> {
    "{"@ + check_status_fields(status) + "}"@
}

/// A new status for the URL at `index` of the list being checked.
pub struct UpdateStatusRequest {
    pub index: usize,
    pub status: CheckStatus,
}

/// The JSON text of a status update: the index, then the fields of the status.
pub open spec fn update_status_json(request: UpdateStatusRequest) -> Seq<char> {
    "{\"index\":"@ + decimal(request.index as nat) + ","@ + check_status_fields(request.status) + "}"@
}

/// The requests that the server makes of the user interface.
pub enum ServerRequestData {
    UpdateStatus(UpdateStatusRequest),
}

/// The JSON text of a request of the server: the method name under `method`
/// and its argument under `data`.
pub open spec fn server_request_data_json(data: ServerRequestData) -> Seq<char> {
    match data {
        ServerRequestData::UpdateStatus(request) => "{\"method\":\"UpdateStatus\",\"data\":"@ + update_status_json(
            request,
        ) + "}"@,
    }
}

/// The answer to a check request, sent once every URL has its status.
pub struct CheckResponse;

/// The answers of the server.
pub enum ServerResponseData {
    Check(CheckResponse),
}

/// The JSON text of an answer of the server, tagged by its method.
pub open spec fn server_response_data_json(data: ServerResponseData) -> Seq<char> {
    "{\"Check\":null}"@
}

/// A request of the server, under its task ID.
pub struct ServerRequest {
    pub task_id: u64,
    pub data: ServerRequestData,
}

/// The answer of the server, under the task ID of the request it answers.
pub struct ServerResponse {
    pub task_id: u64,
    pub data: ServerResponseData,
}

/// Any message of the server.
pub enum ServerMessage {
    Request(ServerRequest),
    Response(ServerResponse),
}

/// The JSON text of a message of the server: an object tagged by `type`, with
/// the task ID and the data.
pub open spec fn server_message_json(message: ServerMessage) -> Seq<char> {
    match message {
        ServerMessage::Request(request) => "{\"type\":\"Request\",\"task_id\":"@ + decimal(request.task_id as nat)
            + ",\"data\":"@ + server_request_data_json(request.data) + "}"@,
        ServerMessage::Response(response) => "{\"type\":\"Response\",\"task_id\":"@ + decimal(
            response.task_id as nat,
        ) + ",\"data\":"@ + server_response_data_json(response.data) + "}"@,
    }
}

fn append_status_fields(out: &mut String, status: &CheckStatus)
    ensures
        final(out)@ == old(out)@ + check_status_fields(*status),
{
    match status {
        CheckStatus::Updated => out.append("\"status\":\"Updated\""),
        CheckStatus::Update { url } => {
            out.append("\"status\":\"Update\",\"url\":");
            append_json_string(out, url.as_str());
        },
        CheckStatus::Error { message } => {
            out.append("\"status\":\"Error\",\"message\":");
            append_json_string(out, message.as_str());
        },
    }
    proof {
        assert(final(out)@ =~= old(out)@ + check_status_fields(*status));
    }
}

fn append_update_status(out: &mut String, request: &UpdateStatusRequest)
    ensures
        final(out)@ == old(out)@ + update_status_json(*request),
{
    out.append("{\"index\":");
    append_decimal(out, request.index as u64);
    out.append(",");
    append_status_fields(out, &request.status);
    out.append("}");
    proof {
        assert(final(out)@ =~= old(out)@ + update_status_json(*request));
    }
}

fn append_server_request_data(out: &mut String, data: &ServerRequestData)
    ensures
        final(out)@ == old(out)@ + server_request_data_json(*data),
{
    match data {
        ServerRequestData::UpdateStatus(request) => {
            out.append("{\"method\":\"UpdateStatus\",\"data\":");
            append_update_status(out, request);
            out.append("}");
        },
    }
    proof {
        assert(final(out)@ =~= old(out)@ + server_request_data_json(*data));
    }
}

impl CheckStatus {
    /// The JSON text of the status.
    pub fn to_json(&self) -> (text: String)
        ensures
            text@ == check_status_json(*self),
    {
        let mut text = String::from_str("{");
        append_status_fields(&mut text, self);
        text.append("}");
        proof {
            assert(text@ =~= check_status_json(*self));
        }
        text
    }
}

impl UpdateStatusRequest {
    /// The JSON text of the status update.
    pub fn to_json(&self) -> (text: String)
        ensures
            text@ == update_status_json(*self),
    {
        let mut text = String::new();
        append_update_status(&mut text, self);
        proof {
            assert(text@ =~= update_status_json(*self));
        }
        text
    }
}

impl ServerRequestData {
    /// The JSON text of the request.
    pub fn to_json(&self) -> (text: String)
        ensures
            text@ == server_request_data_json(*self),
    {
        let mut text = String::new();
        append_server_request_data(&mut text, self);
        proof {
            assert(text@ =~= server_request_data_json(*self));
        }
        text
    }
}

impl From<UpdateStatusRequest> for ServerRequestData {
    fn from(request: UpdateStatusRequest) -> (data: ServerRequestData) {
        ServerRequestData::UpdateStatus(request)
    }
}

impl vstd::std_specs::convert::FromSpecImpl<UpdateStatusRequest> for ServerRequestData {
    open spec fn obeys_from_spec() -> bool {
        true
    }

    open spec fn from_spec(request: UpdateStatusRequest) -> ServerRequestData {
        ServerRequestData::UpdateStatus(request)
    }
}

impl CheckResponse {
    /// The JSON text of the answer: `null`.
    pub fn to_json(&self) -> (text: String)
        ensures
            text@ == "null"@,
    {
        String::from_str("null")
    }
}

impl ServerResponseData {
    /// The JSON text of the answer, tagged by its method.
    pub fn to_json(&self) -> (text: String)
        ensures
            text@ == server_response_data_json(*self),
    {
        String::from_str("{\"Check\":null}")
    }
}

impl ServerMessage {
    /// The JSON text of the message.
    pub fn to_json(&self) -> (text: String)
        ensures
            text@ == server_message_json(*self),
    {
        match self {
            ServerMessage::Request(request) => {
                let mut text = String::from_str("{\"type\":\"Request\",\"task_id\":");
                append_decimal(&mut text, request.task_id);
                text.append(",\"data\":");
                append_server_request_data(&mut text, &request.data);
                text.append("}");
                proof {
                    assert(text@ =~= server_message_json(*self));
                }
                text
            },
            ServerMessage::Response(response) => {
                let mut text = String::from_str("{\"type\":\"Response\",\"task_id\":");
                append_decimal(&mut text, response.task_id);
                text.append(",\"data\":");
                text.append("{\"Check\":null}");
                text.append("}");
                proof {
                    assert(text@ =~= server_message_json(*self));
                }
                text
            },
        }
    }
}

} // verus!
