use reqwest::Url;
use serde_json::Value;
use url_normalizer::normalizer::check::{CheckProgress, HttpMethod, ProbeOutcome, UrlCheck};
use url_normalizer::normalizer::client_api::{CheckStatus, UiApi, UpdateStatusRequest};
use url_normalizer::normalizer::routing::{handshake_failure_status, route, route_status, Counter, HandshakeFailure, Route};
use url_normalizer::normalizer::server_api::{CheckResponse, ServerResponseData};
use url_normalizer::url_parts::{normalize_url, UrlParts};

fn object(fields: Vec<(&str, Value)>) -> Value {
    let mut map = serde_json::Map::new();
    for (key, value) in fields {
        map.insert(key.to_string(), value);
    }
    Value::Object(map)
}

fn text(s: &str) -> Value {
    Value::String(s.to_string())
}

fn parse(s: &str) -> Value {
    serde_json::from_str(s).unwrap()
}

fn parts(url: &Url) -> UrlParts {
    UrlParts::new(
        url.as_str().to_string(),
        url.path().to_string(),
        url.query().map(str::to_string),
        url.fragment().map(str::to_string),
    )
    .unwrap()
}

#[test]
fn test_normalize_url() {
    let test_cases = [
        ("https://example.com/", "https://example.com"),
        ("https://example.com/#", "https://example.com"),
        ("https://example.com/#foobar", "https://example.com/#foobar"),
        ("https://example.com/?", "https://example.com"),
        ("https://example.com/?#", "https://example.com"),
        ("https://example.com/?foo=bar", "https://example.com/?foo=bar"),
        ("https://example.com/?foo=bar#", "https://example.com/?foo=bar#"),
        ("https://example.com/?foo=bar#foobar", "https://example.com/?foo=bar#foobar"),
        ("https://example.com//", "https://example.com"),
        ("https://example.com//#", "https://example.com"),
        ("https://example.com//?", "https://example.com"),
        ("https://example.com//?#", "https://example.com"),
        ("https://example.com//?#foobar", "https://example.com//?#foobar"),
        ("https://example.com//?foo=bar#foobar", "https://example.com//?foo=bar#foobar"),
        ("https://example.com/a", "https://example.com/a"),
    ];

    for (url, expected) in test_cases {
        let parsed_url = Url::parse(url).unwrap();

        assert_eq!(parsed_url.as_str(), url);
        assert_eq!(normalize_url(&parts(&parsed_url)), expected);
    }
}

#[test]
fn url_parts_refuse_inconsistent_components() {
    assert!(UrlParts::new(String::from("https://a.com/x"), String::from("/y"), None, None).is_none());
    assert!(UrlParts::new(String::from("https://a.com/x?q"), String::from("/x"), None, None).is_none());
    assert!(UrlParts::new(String::from("https://a.com/é"), String::from("/é"), None, None).is_none());
    let url = UrlParts::new(String::from("https://a.com/x?q#f"), String::from("/x"), Some(String::from("q")), Some(String::from("f"))).unwrap();
    assert_eq!(url.as_str(), "https://a.com/x?q#f");
    assert_eq!(url.path(), "/x");
    assert_eq!(url.query(), Some("q"));
    assert_eq!(url.fragment(), Some("f"));
}

#[test]
fn client_api_test_serialize_server_request_data() {
    let call = UiApi::UpdateStatus(UpdateStatusRequest { index: 3, status: CheckStatus::Updated });
    assert_eq!(
        parse(&call.to_json()),
        object(vec![
            ("method", text("UpdateStatus")),
            ("argument", object(vec![("index", Value::from(3)), ("status", text("Updated"))])),
        ])
    );
}

#[test]
fn client_api_test_serialize_check_status() {
    assert_eq!(parse(&CheckStatus::Updated.to_json()), object(vec![("status", text("Updated"))]));

    assert_eq!(
        parse(&CheckStatus::Update { url: String::from("abc") }.to_json()),
        object(vec![("status", text("Update")), ("url", text("abc"))])
    );
}

#[test]
fn server_api_test_serialize_check_response() {
    assert_eq!(parse(&CheckResponse.to_json()), Value::Null);
}

#[test]
fn status_update_texts_are_exact() {
    let request = UpdateStatusRequest { index: 12, status: CheckStatus::Error { message: String::from("404 \"Not Found\"") } };
    assert_eq!(request.to_json(), r#"{"index":12,"status":"Error","message":"404 \"Not Found\""}"#);
    let call: UiApi = UpdateStatusRequest { index: 0, status: CheckStatus::Update { url: String::from("http://a") } }.into();
    assert_eq!(call.to_json(), r#"{"method":"UpdateStatus","argument":{"index":0,"status":"Update","url":"http://a"}}"#);
    let data: ServerResponseData = CheckResponse.into();
    assert_eq!(data.to_json(), r#"{"Check":null}"#);
}

fn success(url: &str) -> ProbeOutcome {
    ProbeOutcome::Success(parts(&Url::parse(url).unwrap()))
}

#[test]
fn invalid_url_is_refused_without_request() {
    match UrlCheck::start(String::from("ftp://example.com")) {
        CheckProgress::Finished(CheckStatus::Error { message }) => assert_eq!(message, "Invalid URL."),
        _ => panic!("an FTP URL was probed"),
    }
}

#[test]
fn probes_try_eight_urls_in_order() {
    let mut progress = UrlCheck::start(String::from("http://example.com/path//"));
    let expected = [
        (HttpMethod::Head, "https://example.com/path"),
        (HttpMethod::Head, "https://example.com/path/"),
        (HttpMethod::Head, "http://example.com/path"),
        (HttpMethod::Head, "http://example.com/path/"),
        (HttpMethod::Get, "https://example.com/path"),
        (HttpMethod::Get, "https://example.com/path/"),
        (HttpMethod::Get, "http://example.com/path"),
        (HttpMethod::Get, "http://example.com/path/"),
    ];
    for (i, (method, url)) in expected.iter().enumerate() {
        let check = match progress {
            CheckProgress::Probe(check) => check,
            CheckProgress::Finished(_) => panic!("finished after {} requests", i),
        };
        let (actual_method, actual_url) = check.request();
        assert_eq!(actual_method, *method);
        assert_eq!(actual_url, *url);
        progress = check.on_outcome(ProbeOutcome::Status(format!("{} Not Found", 400 + i)));
    }
    match progress {
        CheckProgress::Finished(CheckStatus::Error { message }) => assert_eq!(message, "407 Not Found"),
        _ => panic!("a ninth request was tried"),
    }
}

#[test]
fn success_decides_status() {
    let check = match UrlCheck::start(String::from("https://example.com")) {
        CheckProgress::Probe(check) => check,
        _ => panic!("refused"),
    };
    match check.on_outcome(success("https://example.com/")) {
        CheckProgress::Finished(CheckStatus::Updated) => {}
        _ => panic!("not up to date"),
    }

    let check = match UrlCheck::start(String::from("http://example.com")) {
        CheckProgress::Probe(check) => check,
        _ => panic!("refused"),
    };
    let check = match check.on_outcome(ProbeOutcome::Failure(String::from("connection refused"))) {
        CheckProgress::Probe(check) => check,
        _ => panic!("gave up after one failure"),
    };
    match check.on_outcome(success("https://www.example.com/a/")) {
        CheckProgress::Finished(CheckStatus::Update { url }) => assert_eq!(url, "https://www.example.com/a/"),
        _ => panic!("no update"),
    }
}

#[test]
fn routes_and_statuses() {
    assert_eq!(route("/", true), Route::Index);
    assert_eq!(route("/", false), Route::MethodNotAllowed);
    assert_eq!(route("/api", true), Route::WebSocket);
    assert_eq!(route("/api", false), Route::WebSocket);
    assert_eq!(route("/other", true), Route::NotFound);
    assert_eq!(route_status(Route::Index), 200);
    assert_eq!(route_status(Route::MethodNotAllowed), 405);
    assert_eq!(route_status(Route::NotFound), 404);
    assert_eq!(handshake_failure_status(HandshakeFailure::WrongHttpMethod), 405);
    assert_eq!(handshake_failure_status(HandshakeFailure::Protocol), 400);
    assert_eq!(handshake_failure_status(HandshakeFailure::Other), 500);
}

#[test]
fn counter_counts_from_zero() {
    let mut counter = Counter(0);
    assert_eq!(counter.next(), 0);
    assert_eq!(counter.next(), 1);
    assert_eq!(counter.0, 2);
}
