//! The API of the user interface, which the server calls.

use crate::json::{append_decimal, append_json_string, decimal, json_string_literal};
use vstd::prelude::*;
use vstd::string::*;

verus! {

/// The result of checking one URL.
pub enum CheckStatus {
    /// The URL is already in its normalized form.
    Updated,
    /// The URL should be replaced by `url`.
    Update { url: String },
    /// The URL could not be checked.
    Error { message: String },
}

/// The fields of a check status inside a JSON object: the tag `status`, and
/// the URL or the message where the status carries one.
pub open spec fn check_status_fields(status: CheckStatus) -> Seq<char> {
    match status {
        CheckStatus::Updated => "\"status\":\"Updated\""@,
        CheckStatus::Update { url } => "\"status\":\"Update\",\"url\":"@ + json_string_literal(url@),
        CheckStatus::Error { message } => "\"status\":\"Error\",\"message\":"@ + json_string_literal(message@),
    }
}

/// The JSON text of a check status.
pub open spec fn check_status_json(status: CheckStatus) -> Seq<char> {
    "{"@ + check_status_fields(status) + "}"@
}

/// A new status for the URL at `index` of the list being checked.
pub struct UpdateStatusRequest {
    pub index: usize,
    pub status: CheckStatus,
}

/// The JSON text of a status update: the index, then the fields of the status.
pub open spec fn update_status_json(request: UpdateStatusRequest) -> Seq<char> {
    "{\"index\":"@ + decimal(request.index as nat) + ","@ + check_status_fields(request.status) + "}"@
}

/// The answer of the user interface to a status update.
pub struct UpdateStatusResponse;

/// The methods of the user interface.
pub enum UiApi {
    UpdateStatus(UpdateStatusRequest),
}

/// The JSON text of a call: the method name, and its argument.
pub open spec fn ui_api_json(call: UiApi) -> Seq<char> {
    match call {
        UiApi::UpdateStatus(request) => "{\"method\":\"UpdateStatus\",\"argument\":"@ + update_status_json(request)
            + "}"@,
    }
}

fn append_status_fields(out: &mut String, status: &CheckStatus)
    ensures
        final(out)@ == old(out)@ + check_status_fields(*status),
{
    match status {
        CheckStatus::Updated => out.append("\"status\":\"Updated\""),
        CheckStatus::Update { url } => {
            out.append("\"status\":\"Update\",\"url\":");
            append_json_string(out, url.as_str());
        },
        CheckStatus::Error { message } => {
            out.append("\"status\":\"Error\",\"message\":");
            append_json_string(out, message.as_str());
        },
    }
    proof {
        assert(final(out)@ =~= old(out)@ + check_status_fields(*status));
    }
}

impl CheckStatus {
    /// The JSON text of the status.
    pub fn to_json(&self) -> (text: String)
        ensures
            text@ == check_status_json(*self),
    {
        let mut text = String::from_str("{");
        append_status_fields(&mut text, self);
        text.append("}");
        proof {
            assert(text@ =~= check_status_json(*self));
        }
        text
    }
}

fn append_update_status(out: &mut String, request: &UpdateStatusRequest)
    ensures
        final(out)@ == old(out)@ + update_status_json(*request),
{
    out.append("{\"index\":");
    append_decimal(out, request.index as u64);
    out.append(",");
    append_status_fields(out, &request.status);
    out.append("}");
    proof {
        assert(final(out)@ =~= old(out)@ + update_status_json(*request));
    }
}

impl UpdateStatusRequest {
    /// The JSON text of the status update.
    pub fn to_json(&self) -> (text: String)
        ensures
            text@ == update_status_json(*self),
    {
        let mut text = String::new();
        append_update_status(&mut text, self);
        proof {
            assert(text@ =~= update_status_json(*self));
        }
        text
    }
}

impl UiApi {
    /// The JSON text of the call.
    pub fn to_json(&self) -> (text: String)
        ensures
            text@ == ui_api_json(*self),
    {
        match self {
            UiApi::UpdateStatus(request) => {
                let mut text = String::from_str("{\"method\":\"UpdateStatus\",\"argument\":");
                append_update_status(&mut text, request);
                text.append("}");
                proof {
                    assert(text@ =~= ui_api_json(*self));
                }
                text
            },
        }
    }
}

impl From<UpdateStatusRequest> for UiApi {
    fn from(request: UpdateStatusRequest) -> (call: UiApi) {
        UiApi::UpdateStatus(request)
    }
}

impl vstd::std_specs::convert::FromSpecImpl<UpdateStatusRequest> for UiApi {
    open spec fn obeys_from_spec() -> bool {
        true
    }

    open spec fn from_spec(request: UpdateStatusRequest) -> UiApi {
        UiApi::UpdateStatus(request)
    }
}

} // verus!
