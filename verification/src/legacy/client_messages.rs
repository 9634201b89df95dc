//! Messages that the user interface sends.

use vstd::prelude::*;

verus! {

/// A request to check a list of URLs.
pub struct CheckRequest {
    pub urls: Vec<String>,
}

/// The methods of the server.
pub enum ClientRequestData {
    Check(CheckRequest),
}

/// The answer of the user interface to a status update.
pub struct UpdateStatusResponse;

/// The answers of the user interface.
pub enum ClientResponseData {
    UpdateStatus(UpdateStatusResponse),
}

/// A request of the user interface.
pub struct ClientRequest {
    pub task_id: u64,
    pub data: ClientRequestData,
}

/// A response of the user interface; its task ID is never 0.
pub struct ClientResponse {
    pub task_id: u64,
    pub data: ClientResponseData,
}

/// Any message of the user interface.
pub enum ClientMessage {
    Request(ClientRequest),
    Response(ClientResponse),
}

} // verus!
