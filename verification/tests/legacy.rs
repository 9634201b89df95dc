use url_normalizer::legacy::connection::Poll::{ClientToServer, ServerToClient, ServerToClientToEnd};
use url_normalizer::legacy::connection::PollOutcome::{Failed, Finished, Pending, Progressed};
use reqwest::Url;
use serde_json::Value;
use url_normalizer::legacy::check::{CheckProgress, ProbeOutcome, UrlCheck};
use url_normalizer::legacy::client_messages::{ClientMessage, ClientResponse, ClientResponseData, UpdateStatusResponse};
use url_normalizer::legacy::connection::{
    Action, ClientMessageRoute, Completion, ConnectionCore, PendingRequests, Poll, PollOutcome, Scheduler,
};
use url_normalizer::legacy::server_messages::{
    CheckResponse, CheckStatus, ServerMessage, ServerRequestData, ServerResponse, ServerResponseData, UpdateStatusRequest,
};
use url_normalizer::url_parts::{trim_root_url, UrlParts};

fn object(fields: Vec<(&str, Value)>) -> Value {
    let mut map = serde_json::Map::new();
    for (key, value) in fields {
        map.insert(key.to_string(), value);
    }
    Value::Object(map)
}

fn text(s: &str) -> Value {
    Value::String(s.to_string())
}

fn parse(s: &str) -> Value {
    serde_json::from_str(s).unwrap()
}

fn parts(url: &str) -> UrlParts {
    let url = Url::parse(url).unwrap();
    UrlParts::new(
        url.as_str().to_string(),
        url.path().to_string(),
        url.query().map(str::to_string),
        url.fragment().map(str::to_string),
    )
    .unwrap()
}

#[test]
fn server_messages_test_serialize_check_status() {
    assert_eq!(parse(&CheckStatus::Updated.to_json()), object(vec![("status", text("Updated"))]));

    assert_eq!(
        parse(&CheckStatus::Update { url: String::from("abc") }.to_json()),
        object(vec![("status", text("Update")), ("url", text("abc"))])
    );
}

#[test]
fn server_messages_test_serialize_server_request_data() {
    let data = ServerRequestData::UpdateStatus(UpdateStatusRequest { index: 3, status: CheckStatus::Updated });
    assert_eq!(
        parse(&data.to_json()),
        object(vec![
            ("method", text("UpdateStatus")),
            ("data", object(vec![("index", Value::from(3)), ("status", text("Updated"))])),
        ])
    );
}

#[test]
fn server_messages_test_serialize_check_response() {
    assert_eq!(parse(&CheckResponse.to_json()), Value::Null);
}

#[test]
fn legacy_messages_are_exact() {
    let update = UpdateStatusRequest { index: 1, status: CheckStatus::Error { message: String::from("Invalid URL.") } };
    assert_eq!(update.to_json(), r#"{"index":1,"status":"Error","message":"Invalid URL."}"#);
    let response = ServerMessage::Response(ServerResponse { task_id: 9, data: ServerResponseData::Check(CheckResponse) });
    assert_eq!(response.to_json(), r#"{"type":"Response","task_id":9,"data":{"Check":null}}"#);
    assert_eq!(ServerResponseData::Check(CheckResponse).to_json(), r#"{"Check":null}"#);
}

#[test]
fn legacy_task_ids_skip_zero() {
    let mut pending: PendingRequests<u8> = PendingRequests::new();
    assert_eq!(pending.next_task_id(), 1);
    let data: ServerRequestData = UpdateStatusRequest { index: 0, status: CheckStatus::Updated }.into();
    let (task_id, text) = pending.begin_server_request(data);
    assert_eq!(task_id, 2);
    assert_eq!(
        text,
        r#"{"type":"Request","task_id":2,"data":{"method":"UpdateStatus","data":{"index":0,"status":"Updated"}}}"#
    );
}

#[test]
fn legacy_response_reaches_its_request_once() {
    let mut pending: PendingRequests<&str> = PendingRequests::new();
    pending.register(3, "waiting");
    let response = || ClientMessage::Response(ClientResponse { task_id: 3, data: ClientResponseData::UpdateStatus(UpdateStatusResponse) });
    match pending.route_client_message(response()) {
        ClientMessageRoute::Deliver { sender, .. } => assert_eq!(sender, "waiting"),
        _ => panic!("not delivered"),
    }
    match pending.route_client_message(response()) {
        ClientMessageRoute::UnknownTask { task_id } => assert_eq!(task_id, 3),
        _ => panic!("delivered twice"),
    }
    assert_eq!(pending.take(3), None);
}

#[test]
fn legacy_root_path_is_trimmed() {
    assert_eq!(trim_root_url(&parts("https://example.com/")), "https://example.com");
    assert_eq!(trim_root_url(&parts("https://example.com/a/")), "https://example.com/a/");
    assert_eq!(trim_root_url(&parts("https://example.com/?q=1")), "https://example.com/?q=");
}

#[test]
fn legacy_probes_four_urls() {
    let mut progress = UrlCheck::start(String::from("https://example.com/"));
    let expected = ["https://example.com", "https://example.com/", "http://example.com", "http://example.com/"];
    for url in expected {
        let check = match progress {
            CheckProgress::Probe(check) => check,
            CheckProgress::Finished(_) => panic!("finished early"),
        };
        assert_eq!(check.request(), url);
        progress = check.on_outcome(ProbeOutcome::Failure(format!("failed {}", url)));
    }
    match progress {
        CheckProgress::Finished(CheckStatus::Error { message }) => assert_eq!(message, "failed http://example.com/"),
        _ => panic!("a fifth request was tried"),
    }

    let check = match UrlCheck::start(String::from("https://example.com")) {
        CheckProgress::Probe(check) => check,
        _ => panic!("refused"),
    };
    match check.on_outcome(ProbeOutcome::Success(parts("https://example.com/"))) {
        CheckProgress::Finished(CheckStatus::Updated) => {}
        _ => panic!("not up to date"),
    }
}

fn run(scheduler: &mut Scheduler, outcomes: &[(Poll, PollOutcome)]) -> Completion {
    let mut action = scheduler.begin();
    for (expected, outcome) in outcomes {
        match action {
            Action::Poll(poll) => {
                assert_eq!(poll, *expected);
                action = scheduler.on_outcome(*outcome);
            }
            Action::Complete(_) => panic!("completed too early"),
        }
    }
    match action {
        Action::Complete(completion) => completion,
        Action::Poll(poll) => panic!("still polling {:?}", poll),
    }
}

#[test]
fn legacy_scheduler_closes_after_client_ends() {
    let mut scheduler = Scheduler::new();
    assert_eq!(
        run(&mut scheduler, &[(ClientToServer, Progressed), (ServerToClient, Progressed), (ClientToServer, Pending), (ServerToClient, Pending)]),
        Completion::Pending
    );
    assert!(scheduler.is_reading_client());
    assert_eq!(
        run(
            &mut scheduler,
            &[(ClientToServer, Finished), (ServerToClient, Progressed), (ServerToClientToEnd, Progressed), (ServerToClientToEnd, Pending)]
        ),
        Completion::Pending
    );
    assert!(!scheduler.is_reading_client());
    assert_eq!(run(&mut scheduler, &[(ServerToClientToEnd, Finished)]), Completion::Done);
}

#[test]
fn legacy_scheduler_drains_and_fails() {
    let mut scheduler = Scheduler::new();
    assert_eq!(
        run(&mut scheduler, &[(ClientToServer, Progressed), (ServerToClient, Pending), (ClientToServer, Progressed), (ClientToServer, Finished)]),
        Completion::Pending
    );
    assert!(!scheduler.is_reading_client());

    let mut scheduler = Scheduler::new();
    assert_eq!(
        run(&mut scheduler, &[(ClientToServer, Pending), (ServerToClient, Progressed), (ServerToClient, Failed)]),
        Completion::Failed
    );
}

#[test]
fn legacy_closing_client_drops_requests_in_flight() {
    let mut core: ConnectionCore<&str> = ConnectionCore::new();
    let data: ServerRequestData = UpdateStatusRequest { index: 0, status: CheckStatus::Updated }.into();
    let (task_id, _) = core.begin_server_request(data).unwrap();
    assert_eq!(task_id, 1);
    assert_eq!(core.finish_server_request(task_id, "waiting", true), None);

    assert_eq!(core.begin(), Action::Poll(ClientToServer));
    assert_eq!(core.on_outcome(Finished), Action::Poll(ServerToClient));
    assert_eq!(core.on_outcome(Pending), Action::Complete(Completion::Pending));
    assert!(!core.is_reading_client());
    let data: ServerRequestData = UpdateStatusRequest { index: 1, status: CheckStatus::Updated }.into();
    assert!(core.begin_server_request(data).is_none());
    match core.route_client_message(ClientMessage::Response(ClientResponse {
        task_id: 1,
        data: ClientResponseData::UpdateStatus(UpdateStatusResponse),
    })) {
        ClientMessageRoute::UnknownTask { task_id } => assert_eq!(task_id, 1),
        _ => panic!("a response reached a dropped request"),
    }
}
