use url_normalizer::rpc::connection::Direction::{ClientToServer, ServerToClient};
use url_normalizer::rpc::connection::PollOutcome::{Failed, Finished, Pending, Progressed};
use serde_json::value::RawValue;
use serde_json::Value;
use url_normalizer::rpc::connection::{
    error_response, Action, ClientMessageRoute, Completion, ConnectionCore, Direction, PendingRequests, PollOutcome,
    Scheduler,
};
use url_normalizer::rpc::protocol::{Message, MessageData, MessageType};
use url_normalizer::rpc::select::select;
use url_normalizer::rpc::server_messages::{ServerMessage, ServerRequest, ServerResponse};

fn object(fields: Vec<(&str, Value)>) -> Value {
    let mut map = serde_json::Map::new();
    for (key, value) in fields {
        map.insert(key.to_string(), value);
    }
    Value::Object(map)
}

fn text(s: &str) -> Value {
    Value::String(s.to_string())
}

fn parse(s: &str) -> Value {
    serde_json::from_str(s).unwrap()
}

fn raw(s: &str) -> String {
    RawValue::from_string(String::from(s)).unwrap().get().to_string()
}

#[test]
fn test_serialize_request_message() {
    let message = Message::request(MessageData {
        task_id: 2,
        data: raw(r#"{ "method": "Foo", "argument": ["abc"] }"#),
    });
    assert_eq!(
        parse(&message.serialize_to_json_string()),
        object(vec![
            ("type", text("Request")),
            ("task_id", Value::from(2)),
            (
                "data",
                object(vec![("method", text("Foo")), ("argument", Value::Array(vec![text("abc")]))])
            ),
        ])
    );
}

#[test]
fn test_serialize_response_message() {
    let message = Message::response(MessageData { task_id: 2, data: raw(r#"{ "foo": "bar" }"#) });
    assert_eq!(
        parse(&message.serialize_to_json_string()),
        object(vec![
            ("type", text("Response")),
            ("task_id", Value::from(2)),
            ("data", object(vec![("foo", text("bar"))])),
        ])
    );
}

#[test]
fn test_serialize_server_request_message() {
    let message = ServerMessage::Request(ServerRequest { task_id: 2, data: raw("456") });
    assert_eq!(
        parse(&message.serialize_to_json_string()),
        object(vec![("type", text("Request")), ("task_id", Value::from(2)), ("data", Value::from(456))])
    );
}

#[test]
fn test_serialize_server_response_message() {
    let message = ServerMessage::Response(ServerResponse { task_id: 2, data: raw("789") });
    assert_eq!(
        parse(&message.serialize_to_json_string()),
        object(vec![("type", text("Response")), ("task_id", Value::from(2)), ("data", Value::from(789))])
    );
}

#[test]
fn envelope_text_is_exact() {
    let message = Message::response(MessageData { task_id: 18446744073709551615, data: String::from("null") });
    assert_eq!(
        message.serialize_to_json_string(),
        r#"{"type":"Response","task_id":18446744073709551615,"data":null}"#
    );
    let message = Message::request(MessageData { task_id: 0, data: String::from("[1, 2]") });
    assert_eq!(message.serialize_to_json_string(), r#"{"type":"Request","task_id":0,"data":[1, 2]}"#);
}

#[test]
fn split_undoes_request_and_response() {
    let (message_type, data) = Message::request(MessageData { task_id: 7, data: String::from("1") }).split();
    assert_eq!(message_type, MessageType::Request);
    assert_eq!(data.task_id, 7);
    assert_eq!(data.data, "1");
    let (message_type, data) = Message::response(MessageData { task_id: 8, data: String::from("2") }).split();
    assert_eq!(message_type, MessageType::Response);
    assert_eq!(data.task_id, 8);
    assert_eq!(data.data, "2");
}

#[test]
fn task_ids_count_up_and_wrap() {
    let mut pending: PendingRequests<&str> = PendingRequests::new();
    assert_eq!(pending.next_task_id(), 0);
    assert_eq!(pending.next_task_id(), 1);
    let (task_id, text) = pending.begin_server_request("{\"x\":1}");
    assert_eq!(task_id, 2);
    assert_eq!(text, r#"{"type":"Request","task_id":2,"data":{"x":1}}"#);
    assert_eq!(pending.len(), 0);
}

#[test]
fn response_reaches_its_request_once() {
    let mut pending: PendingRequests<&str> = PendingRequests::new();
    let (task_id, _) = pending.begin_server_request("null");
    pending.register(task_id, "first");
    let (other, _) = pending.begin_server_request("null");
    pending.register(other, "second");
    assert_eq!(pending.len(), 2);

    let response = Message::response(MessageData { task_id: other, data: String::from("\"ok\"") });
    match pending.route_client_message(response) {
        ClientMessageRoute::Deliver { sender, data } => {
            assert_eq!(sender, "second");
            assert_eq!(data, "\"ok\"");
        }
        _ => panic!("the response was not delivered"),
    }
    assert_eq!(pending.len(), 1);

    let again = Message::response(MessageData { task_id: other, data: String::from("1") });
    match pending.route_client_message(again) {
        ClientMessageRoute::UnknownTask { task_id } => assert_eq!(task_id, other),
        _ => panic!("a second response was delivered"),
    }
    assert_eq!(pending.len(), 1);
}

#[test]
fn client_request_goes_to_handler() {
    let mut pending: PendingRequests<u8> = PendingRequests::new();
    pending.register(5, 1);
    let request = Message::request(MessageData { task_id: 5, data: String::from("{}") });
    match pending.route_client_message(request) {
        ClientMessageRoute::Request(data) => {
            assert_eq!(data.task_id, 5);
            assert_eq!(data.data, "{}");
        }
        _ => panic!("a request was taken for a response"),
    }
    assert_eq!(pending.len(), 1);
}

#[test]
fn error_response_is_a_json_string() {
    let response = error_response(4, "bad \"input\"\n");
    assert_eq!(response.task_id, 4);
    assert_eq!(response.data, r#""bad \"input\"\n""#);
}

fn run(scheduler: &mut Scheduler, outcomes: &[(Direction, PollOutcome)]) -> Completion {
    let mut action = scheduler.begin();
    for (expected, outcome) in outcomes {
        match action {
            Action::Poll(direction) => {
                assert_eq!(direction, *expected);
                action = scheduler.on_outcome(*outcome);
            }
            Action::Complete(_) => panic!("completed too early"),
        }
    }
    match action {
        Action::Complete(completion) => completion,
        Action::Poll(direction) => panic!("still polling {:?}", direction),
    }
}

#[test]
fn scheduler_alternates_then_drains() {
    let mut scheduler = Scheduler::new();
    let completion = run(
        &mut scheduler,
        &[
            (ClientToServer, Progressed),
            (ServerToClient, Progressed),
            (ClientToServer, Progressed),
            (ServerToClient, Pending),
            (ClientToServer, Progressed),
            (ClientToServer, Pending),
        ],
    );
    assert_eq!(completion, Completion::Pending);
    assert!(scheduler.is_open(ClientToServer));
    assert!(scheduler.is_open(ServerToClient));

    let completion = run(&mut scheduler, &[(ClientToServer, Finished), (ServerToClient, Progressed), (ServerToClient, Pending)]);
    assert_eq!(completion, Completion::Pending);
    assert!(!scheduler.is_open(ClientToServer));
    assert!(scheduler.is_open(ServerToClient));

    let completion = run(&mut scheduler, &[(ServerToClient, Finished)]);
    assert_eq!(completion, Completion::Done);
    assert!(scheduler.is_finished());
}

#[test]
fn scheduler_settles_when_one_side_waits() {
    let mut scheduler = Scheduler::new();
    let completion = run(&mut scheduler, &[(ClientToServer, Pending), (ServerToClient, Finished)]);
    assert_eq!(completion, Completion::Pending);
    assert!(scheduler.is_open(ClientToServer));
    assert!(!scheduler.is_open(ServerToClient));

    let completion = run(&mut scheduler, &[(ClientToServer, Progressed), (ClientToServer, Finished)]);
    assert_eq!(completion, Completion::Done);
    assert!(scheduler.is_finished());
}

#[test]
fn scheduler_failure_ends_both_directions() {
    let mut scheduler = Scheduler::new();
    let completion = run(&mut scheduler, &[(ClientToServer, Progressed), (ServerToClient, Failed)]);
    assert_eq!(completion, Completion::Failed);
    assert!(scheduler.is_finished());

    let mut scheduler = Scheduler::new();
    let completion = run(&mut scheduler, &[(ClientToServer, Pending), (ServerToClient, Progressed), (ServerToClient, Failed)]);
    assert_eq!(completion, Completion::Failed);
    assert!(scheduler.is_finished());
}

#[test]
fn scheduler_server_side_ends_first() {
    let mut scheduler = Scheduler::new();
    let completion = run(&mut scheduler, &[(ClientToServer, Progressed), (ServerToClient, Finished), (ClientToServer, Pending)]);
    assert_eq!(completion, Completion::Pending);
    assert!(scheduler.is_open(ClientToServer));
    assert!(!scheduler.is_open(ServerToClient));
}

#[test]
fn select_keeps_both_futures() {
    let pair = select(1, "two");
    assert_eq!(pair.future1, 1);
    assert_eq!(pair.future2, "two");
}

#[test]
fn closing_client_direction_drops_requests_in_flight() {
    let mut core: ConnectionCore<&str> = ConnectionCore::new();
    let (task_id, text) = core.begin_server_request("1").unwrap();
    assert_eq!(text, r#"{"type":"Request","task_id":0,"data":1}"#);
    assert_eq!(core.finish_server_request(task_id, "waiting", true), None);
    let (unsent_id, _) = core.begin_server_request("2").unwrap();
    assert_eq!(core.finish_server_request(unsent_id, "unsent", false), Some("unsent"));
    assert_eq!(core.pending_len(), 1);

    assert_eq!(core.begin(), Action::Poll(ClientToServer));
    assert_eq!(core.on_outcome(Finished), Action::Poll(ServerToClient));
    assert!(!core.is_open(ClientToServer));
    assert_eq!(core.pending_len(), 0);
    assert!(core.begin_server_request("3").is_none());

    let response = Message::response(MessageData { task_id, data: String::from("null") });
    match core.route_client_message(response) {
        ClientMessageRoute::UnknownTask { task_id: id } => assert_eq!(id, task_id),
        _ => panic!("a response reached a dropped request"),
    }
}

#[test]
fn requests_are_dropped_once_server_direction_ends() {
    let mut core: ConnectionCore<u8> = ConnectionCore::new();
    assert_eq!(core.begin(), Action::Poll(ClientToServer));
    assert_eq!(core.on_outcome(Progressed), Action::Poll(ServerToClient));
    assert_eq!(core.on_outcome(Finished), Action::Poll(ClientToServer));
    let request = Message::request(MessageData { task_id: 4, data: String::from("{}") });
    match core.route_client_message(request) {
        ClientMessageRoute::Unanswerable { task_id } => assert_eq!(task_id, 4),
        _ => panic!("a request was served without a way to answer it"),
    }
}
