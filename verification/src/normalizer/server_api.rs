//! The API of the server, which the user interface calls.

use vstd::prelude::*;
use vstd::string::*;

verus! {

/// A request to check a list of URLs.
pub struct CheckRequest {
    pub urls: Vec<String>,
}

/// The answer to a check request, sent once every URL has its status.
pub struct CheckResponse;

impl CheckResponse {
    /// The JSON text of the answer: `null`.
    pub fn to_json(&self) -> (text: String)
        ensures
            text@ == "null"@,
    {
        String::from_str("null")
    }
}

/// The methods of the server.
pub enum ClientRequestData {
    Check(CheckRequest),
}

/// The answers of the server.
pub enum ServerResponseData {
    Check(CheckResponse),
}

impl ServerResponseData {
    /// The JSON text of the answer, tagged by its method.
    pub fn to_json(&self) -> (text: String)
        ensures
            text@ == "{\"Check\":null}"@,
    {
        match self {
            ServerResponseData::Check(_) => String::from_str("{\"Check\":null}"),
        }
    }
}

impl From<CheckResponse> for ServerResponseData {
    fn from(response: CheckResponse) -> (data: ServerResponseData) {
        ServerResponseData::Check(response)
    }
}

impl vstd::std_specs::convert::FromSpecImpl<CheckResponse> for ServerResponseData {
    open spec fn obeys_from_spec() -> bool {
        true
    }

    open spec fn from_spec(response: CheckResponse) -> ServerResponseData {
        ServerResponseData::Check(response)
    }
}

} // verus!
