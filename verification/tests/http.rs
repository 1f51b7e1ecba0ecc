//! Routing of requests, origins and content types, and the framing of requests.

use dbgflow::http::{
    begin_request, content_type_is_json, continue_request, finish_request, handle_connection,
    message_answered, origin_is_allowed, reason_phrase, route_request, stream_step,
    write_response_head, Headers, HttpRequest, HttpResponse, HttpStep, ReadStep, StreamEvent,
    MAX_REQUEST_BYTES, SSE_HEAD, SSE_KEEPALIVE,
};
use dbgflow::ids::SessionId;
use dbgflow::json::{parse_json_bytes, Json};
use dbgflow::mcp::{McpServer, McpStep};

fn test_server() -> McpServer {
    McpServer::new("0.1.0")
}

fn headers(items: &[(&str, &str)]) -> Headers {
    let mut all = Headers::new();
    for (name, value) in items {
        all.insert(name.to_string(), value.to_string());
    }
    all
}

fn request(method: &str, path: &str, headers: Headers, body: Vec<u8>) -> HttpRequest {
    HttpRequest {
        method: method.to_string(),
        path: path.to_string(),
        headers,
        body,
    }
}

fn response(step: HttpStep) -> HttpResponse {
    match step {
        HttpStep::Respond(response) => response,
        HttpStep::Work(McpStep::Reply(reply)) => message_answered(reply),
        other => panic!("no response: {other:?}"),
    }
}

fn json_body(response: HttpResponse) -> Json {
    parse_json_bytes(&response.body).expect("json response")
}

#[test]
fn validates_json_content_type() {
    assert!(content_type_is_json(Some(&"application/json".to_string())));
    assert!(content_type_is_json(Some(
        &"application/json; charset=utf-8".to_string()
    )));
    assert!(!content_type_is_json(Some(&"text/plain".to_string())));
    assert!(!content_type_is_json(None));
}

#[test]
fn request_body_limit_is_sixteen_mib() {
    assert_eq!(MAX_REQUEST_BYTES, 16 * 1024 * 1024);
}

#[test]
fn allows_only_empty_or_localhost_origin() {
    assert!(origin_is_allowed(None));
    assert!(origin_is_allowed(Some(
        &"http://localhost:7331".to_string()
    )));
    assert!(origin_is_allowed(Some(&"http://127.0.0.1".to_string())));
    assert!(origin_is_allowed(Some(&"http://[::1]:7331".to_string())));
    assert!(!origin_is_allowed(Some(&"http://example.com".to_string())));
}

#[test]
fn healthz_returns_ok() {
    let response = response(route_request(
        &test_server(),
        &request("GET", "/healthz", Headers::new(), Vec::new()),
    ));

    assert_eq!(response.status, 200);
    assert_eq!(json_body(response).text_at("status"), Some("ok"));
}

#[test]
fn mcp_get_route_is_method_not_allowed_for_plain_request() {
    let response = response(route_request(
        &test_server(),
        &request("GET", "/mcp", Headers::new(), Vec::new()),
    ));

    assert_eq!(response.status, 405);
}

#[test]
fn mcp_post_initialize_returns_json_response() {
    let headers = headers(&[("content-type", "application/json")]);
    let body = br#"{"jsonrpc":"2.0","id":1,"method":"initialize","params":{}}"#.to_vec();

    let response = response(route_request(
        &test_server(),
        &request("POST", "/mcp", headers, body),
    ));

    assert_eq!(response.status, 200);
    assert_eq!(json_body(response).unsigned_at("id"), Some(1));
}

#[test]
fn mcp_post_notification_returns_accepted() {
    let headers = headers(&[("content-type", "application/json")]);
    let body = br#"{"jsonrpc":"2.0","method":"notifications/initialized"}"#.to_vec();

    let response = response(route_request(
        &test_server(),
        &request("POST", "/mcp", headers, body),
    ));

    assert_eq!(response.status, 202);
    assert!(response.body.is_empty());
}

#[test]
fn mcp_post_accepts_plain_request() {
    let headers = headers(&[("content-type", "application/json")]);
    let body = br#"{"jsonrpc":"2.0","id":1,"method":"initialize","params":{}}"#.to_vec();

    let response = response(route_request(
        &test_server(),
        &request("POST", "/mcp", headers, body),
    ));

    assert_eq!(response.status, 200);
}

#[test]
fn mcp_post_rejects_non_localhost_origin() {
    let headers = headers(&[
        ("content-type", "application/json"),
        ("origin", "http://example.com"),
    ]);

    let response = response(route_request(
        &test_server(),
        &request("POST", "/mcp", headers, b"{}".to_vec()),
    ));

    assert_eq!(response.status, 403);
}

#[test]
fn posts_that_are_no_json_are_refused() {
    let server = test_server();
    let plain = request("POST", "/mcp", headers(&[("content-type", "text/plain")]), b"{}".to_vec());
    assert_eq!(response(route_request(&server, &plain)).status, 415);

    let broken = request(
        "POST",
        "/mcp",
        headers(&[("content-type", "application/json")]),
        b"{".to_vec(),
    );
    let refused = response(route_request(&server, &broken));
    assert_eq!(refused.status, 400);
    let message = json_body(refused);
    assert!(message.text_at("error").expect("error").starts_with("parse error: "));

    let unknown = request("GET", "/other", Headers::new(), Vec::new());
    assert_eq!(response(route_request(&server, &unknown)).status, 404);
}

#[test]
fn reads_a_request_line_by_line() {
    let step = begin_request("POST /mcp HTTP/1.1\r\n");
    let step = continue_request(step, "Content-Type: application/json\r\n");
    let step = continue_request(step, "Content-Length: 2\r\n");
    let (head, length) = match continue_request(step, "\r\n") {
        ReadStep::Body(head, length) => (head, length),
        other => panic!("no body: {other:?}"),
    };
    assert_eq!(length, 2);
    let read = finish_request(head, b"{}".to_vec());
    assert_eq!(read.method, "POST");
    assert_eq!(read.path, "/mcp");
    assert_eq!(
        read.headers.get("content-type").map(String::as_str),
        Some("application/json")
    );
}

#[test]
fn a_body_over_the_limit_is_refused() {
    let step = begin_request("POST /mcp HTTP/1.1\r\n");
    let step = continue_request(step, "Content-Length: 16777217\r\n");
    assert!(matches!(continue_request(step, "\r\n"), ReadStep::Failed(_)));

    let step = begin_request("POST /mcp HTTP/1.1\r\n");
    let step = continue_request(step, "Content-Length: 16777216\r\n");
    assert!(matches!(continue_request(step, "\r\n"), ReadStep::Body(_, 16777216)));
}

#[test]
fn event_streams_are_opened_for_get_requests() {
    let server = test_server();
    let listen = request(
        "GET",
        "/mcp",
        headers(&[("accept", "text/event-stream")]),
        Vec::new(),
    );
    match handle_connection(&server, &listen) {
        HttpStep::Stream(head) => assert_eq!(head, SSE_HEAD),
        other => panic!("no stream: {other:?}"),
    }

    assert_eq!(stream_step(StreamEvent::Quiet).as_deref(), Some(SSE_KEEPALIVE));
    assert_eq!(stream_step(StreamEvent::Closed), None);
    let update = stream_step(StreamEvent::Updated(SessionId(0x10))).expect("update");
    assert!(update.contains("dbgflow://sessions/00000000-0000-0000-0000-000000000010"));
    assert!(update.ends_with("\n\n"));
}

#[test]
fn response_heads_name_status_and_length() {
    let head = write_response_head(&HttpResponse::json(200, &Json::object()));
    assert!(head.starts_with("HTTP/1.1 200 OK\r\n"));
    assert!(head.contains("Content-Length: 2\r\n"));
    assert!(head.ends_with("\r\n\r\n"));
    assert_eq!(reason_phrase(404), "Not Found");
}
