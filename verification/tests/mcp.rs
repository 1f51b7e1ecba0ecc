//! Messages of the protocol.

use dbgflow::error::DbgFlowError;
use dbgflow::ida::worker::fallback_tool_descriptors;
use dbgflow::ids::SessionId;
use dbgflow::json::{parse_json, Json};
use dbgflow::mcp::{
    initialize, is_valid_request_id, jsonrpc_id_label, parse_session_resource_uri,
    resource_read_decoded, session_read, session_resource_uri, session_updated, sessions_listed,
    tool_call_decoded, tool_finished, tools_listed, CallToolParams, McpServer, McpStep,
    SessionSummary,
};
use dbgflow::tools::registry::{
    plan_add_symbols, route_tool, tool_descriptor_values, ToolCallError, ToolRoute,
};

fn test_server() -> McpServer {
    McpServer::new("0.1.0")
}

fn value(text: &str) -> Json {
    parse_json(text).expect("json")
}

fn reply(step: McpStep) -> Json {
    match step {
        McpStep::Reply(Some(reply)) => reply,
        other => panic!("no reply: {other:?}"),
    }
}

fn at<'a>(value: &'a Json, path: &[&str]) -> &'a Json {
    path.iter()
        .fold(value, |value, name| value.get(name).expect("member"))
}

fn items(value: &Json) -> &Vec<Json> {
    match value {
        Json::List(items) => items,
        other => panic!("no list: {other:?}"),
    }
}

fn code(response: &Json) -> i64 {
    match at(response, &["error", "code"]) {
        Json::Negative(code) => *code,
        other => panic!("no error code: {other:?}"),
    }
}

#[test]
fn initialize_returns_tool_capability() {
    let response = reply(test_server().handle_message(&value(
        r#"{"jsonrpc":"2.0","id":1,"method":"initialize","params":{"protocolVersion":"2025-06-18"}}"#,
    )));

    assert_eq!(
        at(&response, &["result"]).text_at("protocolVersion"),
        Some("2025-06-18")
    );
    assert_eq!(
        at(&response, &["result", "capabilities", "tools"]).bool_at("listChanged"),
        Some(false)
    );
}

#[test]
fn initialize_keeps_legacy_supported_protocol_version() {
    let response = reply(test_server().handle_message(&value(
        r#"{"jsonrpc":"2.0","id":1,"method":"initialize","params":{"protocolVersion":"2024-11-05"}}"#,
    )));

    assert_eq!(
        at(&response, &["result"]).text_at("protocolVersion"),
        Some("2024-11-05")
    );
}

#[test]
fn initialize_falls_back_for_unsupported_protocol_version() {
    let response = reply(test_server().handle_message(&value(
        r#"{"jsonrpc":"2.0","id":1,"method":"initialize","params":{"protocolVersion":"unsupported-version"}}"#,
    )));

    assert_eq!(
        at(&response, &["result"]).text_at("protocolVersion"),
        Some("2025-06-18")
    );
}

#[test]
fn tools_list_includes_input_schemas() {
    let step = test_server().handle_message(&value(
        r#"{"jsonrpc":"2.0","id":"tools","method":"tools/list"}"#,
    ));
    let id = match step {
        McpStep::ListTools { id } => id,
        other => panic!("no list: {other:?}"),
    };
    let response = tools_listed(id, tool_descriptor_values(&fallback_tool_descriptors()));
    assert_eq!(response.text_at("id"), Some("tools"));

    let tools = items(at(&response, &["result", "tools"]));
    let create_session = tools
        .iter()
        .find(|tool| tool.text_at("name") == Some("create_session"))
        .expect("create_session tool");
    let schema = at(create_session, &["inputSchema"]);
    assert_eq!(schema.text_at("type"), Some("object"));
    assert!(at(schema, &["properties"]).get("startup_timeout_ms").is_none());
    assert_eq!(items(at(schema, &["required"]))[0].as_str(), Some("target"));
    let kinds: Vec<&str> = items(at(schema, &["properties", "target", "oneOf"]))
        .iter()
        .map(|target| {
            at(target, &["properties", "kind"])
                .text_at("const")
                .expect("kind")
        })
        .collect();
    assert!(!kinds.contains(&"mock"));
    assert!(kinds.contains(&"attach"));
    assert!(kinds.contains(&"launch"));
    let eval = tools
        .iter()
        .find(|tool| tool.text_at("name") == Some("eval"))
        .expect("eval tool");
    let schema = at(eval, &["inputSchema"]);
    assert_eq!(items(at(schema, &["required"]))[0].as_str(), Some("session_id"));
    assert!(at(schema, &["properties"]).get("timeout_ms").is_none());
    assert!(tools.iter().any(|tool| tool.text_at("name") == Some("get_session")));
    assert!(tools.iter().any(|tool| tool.text_at("name") == Some("set_symbols")));
}

#[test]
fn tools_call_set_symbols_accepts_raw_symbol_path() {
    assert!(matches!(route_tool("set_symbols"), Ok(ToolRoute::AddSymbols)));
    let symbol_path = "srv*C:\\symbols*https://msdl.microsoft.com/download/symbols";
    let plan = plan_add_symbols(&[symbol_path.to_string()]);

    assert!(plan.error.is_none());
    assert!(plan.commands[0].contains(&format!(".sympath {symbol_path}")));
}

#[test]
fn tools_call_set_symbols_rejects_line_separators() {
    let plan = plan_add_symbols(&["srv*C:\\symbols\r\n.shell dir".to_string()]);
    assert!(plan.commands.is_empty());
    let error = ToolCallError::execution(&plan.error.expect("error"));
    let response = tool_finished(Some(Json::Unsigned(2)), Err(error));

    assert_eq!(at(&response, &["result"]).bool_at("isError"), Some(true));
    assert!(items(at(&response, &["result", "content"]))[0]
        .text_at("text")
        .expect("tool error text")
        .contains("symbol path contains unsupported control characters"));
}

#[test]
fn tools_call_returns_protocol_error_for_unknown_tool() {
    let step = test_server().handle_message(&value(
        r#"{"jsonrpc":"2.0","id":1,"method":"tools/call","params":{"name":"missing_tool","arguments":{}}}"#,
    ));
    let (id, params) = match step {
        McpStep::DecodeToolCall { id, params } => (id, params),
        other => panic!("no call: {other:?}"),
    };
    let decoded = CallToolParams {
        name: params.text_at("name").expect("name").to_string(),
        arguments: params.get("arguments").map(Json::duplicate),
    };
    let (id, name) = match tool_call_decoded(id, Ok(decoded)) {
        McpStep::CallTool { id, name, .. } => (id, name),
        other => panic!("no call: {other:?}"),
    };
    let error = route_tool(&name).expect_err("unknown tool");
    let response = tool_finished(id, Err(error));

    assert_eq!(code(&response), -32602);
    assert!(at(&response, &["error"])
        .text_at("message")
        .expect("error message")
        .contains("unknown tool"));
}

#[test]
fn rejects_invalid_jsonrpc_envelope() {
    let response = reply(test_server().handle_message(&value(
        r#"{"jsonrpc":"1.0","id":1,"method":"tools/list"}"#,
    )));

    assert_eq!(code(&response), -32600);
    assert!(at(&response, &["error"])
        .text_at("message")
        .expect("error message")
        .contains("JSON-RPC"));
}

#[test]
fn rejects_request_methods_without_id() {
    let step = test_server().handle_message(&value(
        r#"{"jsonrpc":"2.0","method":"tools/list"}"#,
    ));
    let id = match step {
        McpStep::ListTools { id } => id,
        other => panic!("no list: {other:?}"),
    };
    let response = tools_listed(id, tool_descriptor_values(&fallback_tool_descriptors()));

    assert!(matches!(response.get("id"), Some(Json::Null)));
    assert_eq!(code(&response), -32600);
}

#[test]
fn notifications_get_no_answer() {
    let step = test_server().handle_message(&value(
        r#"{"jsonrpc":"2.0","method":"notifications/initialized"}"#,
    ));
    assert!(matches!(step, McpStep::Reply(None)));
}

#[test]
fn unknown_methods_are_errors() {
    let response = reply(test_server().handle_message(&value(
        r#"{"jsonrpc":"2.0","id":1,"method":"other"}"#,
    )));
    assert_eq!(code(&response), -32601);
}

#[test]
fn request_ids_are_texts_or_numbers() {
    assert!(is_valid_request_id(&Json::Unsigned(1)));
    assert!(is_valid_request_id(&Json::text("a")));
    assert!(!is_valid_request_id(&Json::Bool(true)));
    assert_eq!(jsonrpc_id_label(Some(&Json::text("tools"))), "tools");
    assert_eq!(jsonrpc_id_label(Some(&Json::Unsigned(42))), "42");
}

#[test]
fn sessions_are_resources() {
    let id = SessionId(0x0123456789abcdef0123456789abcdef);
    let uri = session_resource_uri(id);
    assert_eq!(uri, "dbgflow://sessions/01234567-89ab-cdef-0123-456789abcdef");
    assert_eq!(parse_session_resource_uri(&uri).expect("read back"), id);
    assert!(parse_session_resource_uri("dbgflow://sessions/none").is_err());
    assert!(parse_session_resource_uri("file:///etc").is_err());

    let listed = sessions_listed(
        Some(Json::Unsigned(1)),
        Ok(vec![SessionSummary { id, state: "Break".to_string() }]),
    );
    let resources = items(at(&listed, &["result", "resources"]));
    assert_eq!(resources[0].text_at("uri"), Some(uri.as_str()));

    let step = resource_read_decoded(Some(Json::Unsigned(1)), Ok(uri.clone()));
    assert!(matches!(step, McpStep::ReadSession { session_id, .. } if session_id == id));
    let read = session_read(Some(Json::Unsigned(1)), &uri, Ok(Json::object().with_text("state", "Break")));
    let contents = items(at(&read, &["result", "contents"]));
    assert_eq!(contents[0].text_at("uri"), Some(uri.as_str()));
    assert!(contents[0].text_at("text").expect("text").contains("Break"));
    let missing = session_read(
        Some(Json::Unsigned(1)),
        &uri,
        Err(DbgFlowError::SessionNotFound(id.to_text())),
    );
    assert!(missing.get("error").is_some());

    let note = session_updated(id);
    assert_eq!(note.text_at("method"), Some("notifications/resources/updated"));
}

#[test]
fn tool_results_are_texts() {
    let done = tool_finished(
        Some(Json::Unsigned(7)),
        Ok(Json::object().with_text("state", "Ready")),
    );
    let text = items(at(&done, &["result", "content"]))[0]
        .text_at("text")
        .expect("text")
        .to_string();
    assert_eq!(value(&text).text_at("state"), Some("Ready"));
    assert_eq!(at(&done, &["result"]).bool_at("isError"), Some(false));
}

#[test]
fn the_server_names_itself() {
    let answer = initialize(&Json::object(), "1.2.3");
    assert_eq!(at(&answer, &["serverInfo"]).text_at("name"), Some("dbgflow"));
    assert_eq!(at(&answer, &["serverInfo"]).text_at("version"), Some("1.2.3"));
}

#[test]
fn arguments_that_cannot_be_decoded_are_refused() {
    let error = ToolCallError::invalid_arguments("missing field `target`");
    let response = tool_finished(Some(Json::Unsigned(1)), Err(error));
    let error = response.get("error").expect("error");
    assert!(matches!(error.get("code"), Some(Json::Negative(-32602))));
    assert_eq!(error.text_at("message"), Some("invalid tool arguments: missing field `target`"));
}
