//! The JSON-RPC protocol of the server: which message gets which answer, and which work has to
//! be done before it can be given.

use crate::error::DbgFlowError;
use crate::ids;
use crate::ids::SessionId;
use crate::json;
use crate::json::{Json, JsonView};
use crate::scan;
use crate::text::{cat2, chars_of, same};
use crate::tools::registry::ToolCallError;
use vstd::prelude::*;

verus! {

pub const JSONRPC_VERSION: &'static str = "2.0";

pub const DEFAULT_PROTOCOL_VERSION: &'static str = "2025-06-18";

pub const SESSION_URI_PREFIX: &'static str = "dbgflow://sessions/";

/// A failed request: a JSON-RPC error code and a text.
#[derive(Debug)]
pub struct ServerError {
    pub code: i64,
    pub message: String,
}

/// The mathematical form of a failed request.
pub struct ServerErrorView {
    pub code: int,
    pub message: Seq<char>,
}

impl View for ServerError {
    type V = ServerErrorView;

    open spec fn view(&self) -> ServerErrorView {
        ServerErrorView { code: self.code as int, message: self.message@ }
    }
}

impl ServerError {
    /// An error with a fixed text.
    pub fn new(code: i64, message: &str) -> (r: ServerError)
        ensures
            r@ == (ServerErrorView { code: code as int, message: message@ }),
    {
        ServerError { code, message: message.to_owned() }
    }
}

/// The decoded parameters of a tool call.
#[derive(Debug)]
pub struct CallToolParams {
    pub name: String,
    pub arguments: Option<Json>,
}

/// What a message asks for.
#[derive(Debug)]
pub enum McpStep {
    /// The answer, or none.
    Reply(Option<Json>),
    /// Collect the descriptors of all tools.
    ListTools { id: Option<Json> },
    /// Decode the parameters of a tool call.
    DecodeToolCall { id: Option<Json>, params: Json },
    /// Run a tool.
    CallTool { id: Option<Json>, name: String, arguments: Json },
    /// List the sessions.
    ListResources { id: Option<Json> },
    /// Decode the parameters of a resource request.
    DecodeResourceRead { id: Option<Json>, params: Json },
    /// Look a session up.
    ReadSession { id: Option<Json>, uri: String, session_id: SessionId },
}

/// The mathematical form of a step.
pub enum StepView {
    Reply(Option<JsonView>),
    ListTools { id: Option<JsonView> },
    DecodeToolCall { id: Option<JsonView>, params: JsonView },
    CallTool { id: Option<JsonView>, name: Seq<char>, arguments: JsonView },
    ListResources { id: Option<JsonView> },
    DecodeResourceRead { id: Option<JsonView>, params: JsonView },
    ReadSession { id: Option<JsonView>, uri: Seq<char>, session_id: SessionId },
}

/// The view of an optional value.
pub open spec fn json_opt(o: Option<Json>) -> Option<JsonView> {
    match o {
        Some(j) => Some(j@),
        None => None,
    }
}

impl View for McpStep {
    type V = StepView;

    open spec fn view(&self) -> StepView {
        match *self {
            McpStep::Reply(r) => StepView::Reply(json_opt(r)),
            McpStep::ListTools { id } => StepView::ListTools { id: json_opt(id) },
            McpStep::DecodeToolCall { id, params } => StepView::DecodeToolCall {
                id: json_opt(id),
                params: params@,
            },
            McpStep::CallTool { id, name, arguments } => StepView::CallTool {
                id: json_opt(id),
                name: name@,
                arguments: arguments@,
            },
            McpStep::ListResources { id } => StepView::ListResources { id: json_opt(id) },
            McpStep::DecodeResourceRead { id, params } => StepView::DecodeResourceRead {
                id: json_opt(id),
                params: params@,
            },
            McpStep::ReadSession { id, uri, session_id } => StepView::ReadSession {
                id: json_opt(id),
                uri: uri@,
                session_id,
            },
        }
    }
}

/// The answer to a request that succeeded.
pub open spec fn success_view(id: JsonView, result: JsonView) -> JsonView {
    JsonView::object().with_text("jsonrpc"@, JSONRPC_VERSION@).with("id"@, id).with(
        "result"@,
        result,
    )
}

/// The number of an error code as a value.
pub open spec fn code_view(code: int) -> JsonView {
    if code < 0 {
        JsonView::Negative(code as i64)
    } else {
        JsonView::Unsigned(code as u64)
    }
}

/// The answer to a request that failed.
pub open spec fn error_view(id: JsonView, code: int, message: Seq<char>) -> JsonView {
    JsonView::object().with_text("jsonrpc"@, JSONRPC_VERSION@).with("id"@, id).with(
        "error"@,
        JsonView::object().with("code"@, code_view(code)).with_text("message"@, message),
    )
}

/// The answer to a request that was carried out. A request without an id was none, whatever
/// came of it.
pub open spec fn response_view(
    id: Option<JsonView>,
    outcome: Result<JsonView, ServerErrorView>,
) -> JsonView {
    match id {
        None => error_view(JsonView::Null, -32600, "request method requires id"@),
        Some(id) => match outcome {
            Ok(result) => success_view(id, result),
            Err(error) => error_view(id, error.code, error.message),
        },
    }
}

/// The answer to a request that succeeded.
pub fn success_response(id: Json, result: Json) -> (r: Json)
    ensures
        r@ == success_view(id@, result@),
{
    Json::object().with_text("jsonrpc", JSONRPC_VERSION).with("id", id).with("result", result)
}

/// The answer to a request that failed.
pub fn error_response(id: Json, code: i64, message: &str) -> (r: Json)
    ensures
        r@ == error_view(id@, code as int, message@),
{
    let number = if code < 0 {
        Json::Negative(code)
    } else {
        Json::Unsigned(code as u64)
    };
    Json::object().with_text("jsonrpc", JSONRPC_VERSION).with("id", id).with(
        "error",
        Json::object().with("code", number).with_text("message", message),
    )
}

/// The outcome of a request by its view.
pub open spec fn outcome_view(o: Result<Json, ServerError>) -> Result<JsonView, ServerErrorView> {
    match o {
        Ok(j) => Ok(j@),
        Err(e) => Err(e@),
    }
}

/// The answer to a request that was carried out.
pub fn respond(id: Option<Json>, outcome: Result<Json, ServerError>) -> (r: Json)
    ensures
        r@ == response_view(json_opt(id), outcome_view(outcome)),
{
    match id {
        None => error_response(Json::Null, -32600, "request method requires id"),
        Some(id) => match outcome {
            Ok(result) => success_response(id, result),
            Err(error) => error_response(id, error.code, error.message.as_str()),
        },
    }
}

/// Whether a value can be the id of a request.
pub open spec fn valid_id(id: JsonView) -> bool {
    id is Text || id is Unsigned || id is Negative || id is Decimal || id is Null
}

/// Whether a value can be the id of a request.
pub fn is_valid_request_id(id: &Json) -> (r: bool)
    ensures
        r == valid_id(id@),
{
    match id {
        Json::Text(_) => true,
        Json::Unsigned(_) => true,
        Json::Negative(_) => true,
        Json::Decimal(_) => true,
        Json::Null => true,
        _ => false,
    }
}

/// How an id is shown in a log.
pub fn jsonrpc_id_label(id: Option<&Json>) -> (r: String)
    ensures
        r@ == match id {
            Some(j) => match j@ {
                JsonView::Text(s) => s,
                other => json::compact_text(other),
            },
            None => "<notification>"@,
        },
{
    match id {
        Some(Json::Text(s)) => s.clone(),
        Some(value) => value.to_compact(),
        None => "<notification>".to_owned(),
    }
}

/// Whether the server speaks a version of the protocol.
pub open spec fn supported_version(version: Seq<char>) -> bool {
    version == "2024-11-05"@ || version == "2025-03-26"@ || version == DEFAULT_PROTOCOL_VERSION@
}

/// The protocol version that the server speaks with a client: the one that the client asks
/// for if it is supported, or else the default.
pub open spec fn negotiated_version(params: JsonView) -> Seq<char> {
    match params.text_at("protocolVersion"@) {
        Some(v) => if supported_version(v) {
            v
        } else {
            DEFAULT_PROTOCOL_VERSION@
        },
        None => DEFAULT_PROTOCOL_VERSION@,
    }
}

/// The result of the request that opens a connection.
pub open spec fn initialize_view(params: JsonView, server_version: Seq<char>) -> JsonView {
    JsonView::object().with_text("protocolVersion"@, negotiated_version(params)).with(
        "capabilities"@,
        JsonView::object().with(
            "tools"@,
            JsonView::object().with("listChanged"@, JsonView::Bool(false)),
        ).with(
            "resources"@,
            JsonView::object().with("subscribe"@, JsonView::Bool(false)).with(
                "listChanged"@,
                JsonView::Bool(false),
            ),
        ),
    ).with(
        "serverInfo"@,
        JsonView::object().with_text("name"@, "dbgflow"@).with_text("version"@, server_version),
    ).with_text(
        "instructions"@,
        "Use dbgflow tools to create debug sessions and run audited native debugger commands in trusted local environments."@,
    )
}

/// The result of the request that opens a connection.
pub fn initialize(params: &Json, server_version: &str) -> (r: Json)
    ensures
        r@ == initialize_view(params@, server_version@),
{
    let version: &str = match params.text_at("protocolVersion") {
        Some(v) => if same(v, "2024-11-05") || same(v, "2025-03-26") {
            v
        } else {
            DEFAULT_PROTOCOL_VERSION
        },
        None => DEFAULT_PROTOCOL_VERSION,
    };
    Json::object().with_text("protocolVersion", version).with(
        "capabilities",
        Json::object().with(
            "tools",
            Json::object().with("listChanged", Json::Bool(false)),
        ).with(
            "resources",
            Json::object().with("subscribe", Json::Bool(false)).with(
                "listChanged",
                Json::Bool(false),
            ),
        ),
    ).with(
        "serverInfo",
        Json::object().with_text("name", "dbgflow").with_text("version", server_version),
    ).with_text(
        "instructions",
        "Use dbgflow tools to create debug sessions and run audited native debugger commands in trusted local environments.",
    )
}

/// The parameters of a message; none count as null.
pub open spec fn params_view(message: JsonView) -> JsonView {
    match message.get("params"@) {
        Some(p) => p,
        None => JsonView::Null,
    }
}

/// What a well formed request asks for.
pub open spec fn request_step(
    id: Option<JsonView>,
    method: Seq<char>,
    params: JsonView,
    server_version: Seq<char>,
) -> StepView {
    if method == "initialize"@ {
        StepView::Reply(Some(response_view(id, Ok(initialize_view(params, server_version)))))
    } else if method == "notifications/initialized"@ {
        StepView::Reply(None)
    } else if method == "ping"@ {
        StepView::Reply(Some(response_view(id, Ok(JsonView::object()))))
    } else if method == "tools/list"@ {
        StepView::ListTools { id }
    } else if method == "tools/call"@ {
        StepView::DecodeToolCall { id, params }
    } else if method == "resources/list"@ {
        StepView::ListResources { id }
    } else if method == "resources/read"@ {
        StepView::DecodeResourceRead { id, params }
    } else {
        StepView::Reply(
            Some(
                response_view(
                    id,
                    Err(
                        ServerErrorView {
                            code: -32601,
                            message: "method not found: "@ + method,
                        },
                    ),
                ),
            ),
        )
    }
}

/// What a message asks for.
pub open spec fn message_step(message: JsonView, server_version: Seq<char>) -> StepView {
    if message !is Object {
        StepView::Reply(Some(error_view(JsonView::Null, -32600, "invalid request"@)))
    } else {
        let id = message.get("id"@);
        let response_id = match id {
            Some(id) => id,
            None => JsonView::Null,
        };
        if message.text_at("jsonrpc"@) != Some(JSONRPC_VERSION@) {
            StepView::Reply(Some(error_view(response_id, -32600, "invalid JSON-RPC version"@)))
        } else if !valid_id(response_id) {
            StepView::Reply(
                Some(error_view(JsonView::Null, -32600, "invalid JSON-RPC request id"@)),
            )
        } else {
            match message.text_at("method"@) {
                None => StepView::Reply(Some(error_view(response_id, -32600, "invalid request"@))),
                Some(method) => request_step(id, method, params_view(message), server_version),
            }
        }
    }
}

/// The protocol side of the server.
#[derive(Debug)]
pub struct McpServer {
    /// The version that the server reports of itself.
    pub version: String,
}

impl McpServer {
    /// A server that reports the given version.
    pub fn new(version: &str) -> (r: McpServer)
        ensures
            r.version@ == version@,
    {
        McpServer { version: version.to_owned() }
    }

    /// Takes a message in.
    pub fn handle_message(&self, message: &Json) -> (r: McpStep)
        ensures
            r@ == message_step(message@, self.version@),
    {
        if !message.is_object() {
            return McpStep::Reply(Some(error_response(Json::Null, -32600, "invalid request")));
        }
        let id: Option<Json> = match message.get("id") {
            Some(id) => Some(id.duplicate()),
            None => None,
        };
        let response_id = match &id {
            Some(id) => id.duplicate(),
            None => Json::Null,
        };
        let versioned = match message.text_at("jsonrpc") {
            Some(version) => same(version, JSONRPC_VERSION),
            None => false,
        };
        if !versioned {
            return McpStep::Reply(
                Some(error_response(response_id, -32600, "invalid JSON-RPC version")),
            );
        }
        if !is_valid_request_id(&response_id) {
            return McpStep::Reply(
                Some(error_response(Json::Null, -32600, "invalid JSON-RPC request id")),
            );
        }
        match message.text_at("method") {
            None => McpStep::Reply(Some(error_response(response_id, -32600, "invalid request"))),
            Some(method) => {
                let params = match message.get("params") {
                    Some(params) => params.duplicate(),
                    None => Json::Null,
                };
                self.handle_request(id, method, params)
            },
        }
    }

    fn handle_request(&self, id: Option<Json>, method: &str, params: Json) -> (r: McpStep)
        ensures
            r@ == request_step(json_opt(id), method@, params@, self.version@),
    {
        if same(method, "initialize") {
            McpStep::Reply(Some(respond(id, Ok(initialize(&params, self.version.as_str())))))
        } else if same(method, "notifications/initialized") {
            McpStep::Reply(None)
        } else if same(method, "ping") {
            McpStep::Reply(Some(respond(id, Ok(Json::object()))))
        } else if same(method, "tools/list") {
            McpStep::ListTools { id }
        } else if same(method, "tools/call") {
            McpStep::DecodeToolCall { id, params }
        } else if same(method, "resources/list") {
            McpStep::ListResources { id }
        } else if same(method, "resources/read") {
            McpStep::DecodeResourceRead { id, params }
        } else {
            let error = ServerError { code: -32601, message: cat2("method not found: ", method) };
            McpStep::Reply(Some(respond(id, Err(error))))
        }
    }
}

/// The answer with the descriptors of all tools.
pub fn tools_listed(id: Option<Json>, tools: Vec<Json>) -> (r: Json)
    ensures
        r@ == response_view(
            json_opt(id),
            Ok(JsonView::object().with("tools"@, JsonView::List(json::items_view(tools@)))),
        ),
{
    respond(id, Ok(Json::object().with("tools", Json::list(tools))))
}

/// What follows when the parameters of a tool call were decoded.
pub fn tool_call_decoded(id: Option<Json>, decoded: Result<CallToolParams, String>) -> (r: McpStep)
    ensures
        r@ == match decoded {
            Ok(params) => StepView::CallTool {
                id: json_opt(id),
                name: params.name@,
                arguments: match params.arguments {
                    Some(a) => a@,
                    None => JsonView::object(),
                },
            },
            Err(e) => StepView::Reply(
                Some(
                    response_view(
                        json_opt(id),
                        Err(
                            ServerErrorView {
                                code: -32602,
                                message: "invalid tools/call params: "@ + e@,
                            },
                        ),
                    ),
                ),
            ),
        },
{
    match decoded {
        Ok(params) => {
            let arguments = match params.arguments {
                Some(arguments) => arguments,
                None => Json::object(),
            };
            McpStep::CallTool { id, name: params.name, arguments }
        },
        Err(error) => {
            let message = cat2("invalid tools/call params: ", error.as_str());
            McpStep::Reply(Some(respond(id, Err(ServerError { code: -32602, message }))))
        },
    }
}

/// The result of a tool call as text content.
pub open spec fn content_view(text: Seq<char>, is_error: bool) -> JsonView {
    JsonView::object().with(
        "content"@,
        JsonView::List(
            seq![JsonView::object().with_text("type"@, "text"@).with_text("text"@, text)],
        ),
    ).with("isError"@, JsonView::Bool(is_error))
}

fn content(text: &str, is_error: bool) -> (r: Json)
    ensures
        r@ == content_view(text@, is_error),
{
    let mut items: Vec<Json> = Vec::new();
    items.push(Json::object().with_text("type", "text").with_text("text", text));
    assert(json::items_view(items@) =~= seq![
        JsonView::object().with_text("type"@, "text"@).with_text("text"@, text@),
    ]);
    Json::object().with("content", Json::list(items)).with("isError", Json::Bool(is_error))
}

/// The result of a tool that succeeded.
pub fn tool_success(value: &Json) -> (r: Json)
    ensures
        r@ == content_view(json::pretty_text(value@), false),
{
    content(value.to_pretty().as_str(), false)
}

/// The result of a tool that failed.
pub fn tool_error(message: &str) -> (r: Json)
    ensures
        r@ == content_view(message@, true),
{
    content(message, true)
}

/// The outcome of a tool call for the client: a tool that failed is a result, a call that was
/// wrong is an error.
pub open spec fn tool_outcome_view(outcome: Result<Json, ToolCallError>) -> Result<
    JsonView,
    ServerErrorView,
> {
    match outcome {
        Ok(value) => Ok(content_view(json::pretty_text(value@), false)),
        Err(ToolCallError::InvalidRequest(m)) => Err(ServerErrorView { code: -32602, message: m@ }),
        Err(ToolCallError::Execution(m)) => Ok(content_view(m@, true)),
    }
}

/// The answer when a tool has run.
pub fn tool_finished(id: Option<Json>, outcome: Result<Json, ToolCallError>) -> (r: Json)
    ensures
        r@ == response_view(json_opt(id), tool_outcome_view(outcome)),
{
    let result = match outcome {
        Ok(value) => Ok(tool_success(&value)),
        Err(ToolCallError::InvalidRequest(message)) => Err(ServerError { code: -32602, message }),
        Err(ToolCallError::Execution(message)) => Ok(tool_error(message.as_str())),
    };
    respond(id, result)
}

/// A session as the list of resources shows it.
#[derive(Debug)]
pub struct SessionSummary {
    pub id: SessionId,
    pub state: String,
}

/// The address of a session resource.
pub open spec fn session_uri(id: SessionId) -> Seq<char> {
    SESSION_URI_PREFIX@ + ids::uuid_text(id.0)
}

/// The entry of a session in the list of resources.
pub open spec fn resource_view(id: SessionId, state: Seq<char>) -> JsonView {
    JsonView::object().with_text("uri"@, session_uri(id)).with_text(
        "name"@,
        "dbgflow session "@ + ids::uuid_text(id.0),
    ).with_text("description"@, "dbgflow session state: "@ + state).with_text(
        "mimeType"@,
        "application/json"@,
    )
}

/// The session that an address names.
pub open spec fn uri_session(uri: Seq<char>) -> Result<u128, ServerErrorView> {
    if !scan::starts(uri, SESSION_URI_PREFIX@) {
        Err(ServerErrorView { code: -32602, message: "invalid session resource uri: "@ + uri })
    } else {
        match ids::uuid_read(uri.skip(SESSION_URI_PREFIX@.len() as int)) {
            Ok(id) => Ok(id),
            Err(e) => Err(
                ServerErrorView {
                    code: -32602,
                    message: "invalid session id in uri: "@ + ("UUID parsing failed: "@ + e),
                },
            ),
        }
    }
}

/// The address of a session resource. It is read back as that session.
pub fn session_resource_uri(session_id: SessionId) -> (r: String)
    ensures
        r@ == session_uri(session_id),
        uri_session(r@) matches Ok(read) && read == session_id.0,
{
    let id = session_id.to_text();
    let uri = cat2(SESSION_URI_PREFIX, id.as_str());
    proof {
        let n = SESSION_URI_PREFIX@.len() as int;
        assert(uri@.take(n) =~= SESSION_URI_PREFIX@);
        assert(uri@.skip(n) =~= id@);
    }
    uri
}

/// Reads the session out of the address of a resource.
pub fn parse_session_resource_uri(uri: &str) -> (r: Result<SessionId, ServerError>)
    ensures
        match r {
            Ok(id) => uri_session(uri@) matches Ok(read) && read == id.0,
            Err(e) => uri_session(uri@) matches Err(error) && error == e@,
        },
{
    if !scan::starts_with(uri, SESSION_URI_PREFIX) {
        return Err(
            ServerError { code: -32602, message: cat2("invalid session resource uri: ", uri) },
        );
    }
    let chars = chars_of(uri);
    let prefix = chars_of(SESSION_URI_PREFIX);
    let id = scan::part(chars.as_slice(), prefix.len(), chars.len());
    assert(id@ =~= uri@.skip(SESSION_URI_PREFIX@.len() as int));
    match SessionId::parse(id.as_str()) {
        Ok(id) => Ok(id),
        Err(error) => {
            let detail = cat2("UUID parsing failed: ", error.as_str());
            Err(
                ServerError {
                    code: -32602,
                    message: cat2("invalid session id in uri: ", detail.as_str()),
                },
            )
        },
    }
}

/// The answer with the list of sessions.
pub fn sessions_listed(
    id: Option<Json>,
    sessions: Result<Vec<SessionSummary>, DbgFlowError>,
) -> (r: Json)
    ensures
        r@ == response_view(
            json_opt(id),
            match sessions {
                Ok(list) => Ok(
                    JsonView::object().with(
                        "resources"@,
                        JsonView::List(
                            list@.map_values(|s: SessionSummary| resource_view(s.id, s.state@)),
                        ),
                    ),
                ),
                Err(e) => Err(ServerErrorView { code: -32000, message: e@.text() }),
            },
        ),
{
    match sessions {
        Ok(list) => {
            let mut resources: Vec<Json> = Vec::new();
            let mut i: usize = 0;
            while i < list.len()
                invariant
                    i <= list@.len(),
                    resources@.len() == i,
                    forall|j: int|
                        0 <= j < i ==> (#[trigger] resources@[j])@ == resource_view(
                            list@[j].id,
                            list@[j].state@,
                        ),
                decreases list@.len() - i,
            {
                let session = &list[i];
                let uri = session_resource_uri(session.id);
                let name = cat2("dbgflow session ", session.id.to_text().as_str());
                let description = cat2("dbgflow session state: ", session.state.as_str());
                resources.push(
                    Json::object().with_text("uri", uri.as_str()).with_text(
                        "name",
                        name.as_str(),
                    ).with_text("description", description.as_str()).with_text(
                        "mimeType",
                        "application/json",
                    ),
                );
                i += 1;
            }
            assert(json::items_view(resources@) =~= list@.map_values(
                |s: SessionSummary| resource_view(s.id, s.state@),
            ));
            respond(id, Ok(Json::object().with("resources", Json::list(resources))))
        },
        Err(error) => respond(id, Err(ServerError { code: -32000, message: error.message() })),
    }
}

/// What follows when the parameters of a resource request were decoded.
pub fn resource_read_decoded(id: Option<Json>, decoded: Result<String, String>) -> (r: McpStep)
    ensures
        r@ == match decoded {
            Ok(uri) => match uri_session(uri@) {
                Ok(session) => StepView::ReadSession {
                    id: json_opt(id),
                    uri: uri@,
                    session_id: SessionId(session),
                },
                Err(e) => StepView::Reply(Some(response_view(json_opt(id), Err(e)))),
            },
            Err(e) => StepView::Reply(
                Some(
                    response_view(
                        json_opt(id),
                        Err(
                            ServerErrorView {
                                code: -32602,
                                message: "invalid resources/read params: "@ + e@,
                            },
                        ),
                    ),
                ),
            ),
        },
{
    match decoded {
        Ok(uri) => match parse_session_resource_uri(uri.as_str()) {
            Ok(session_id) => McpStep::ReadSession { id, uri, session_id },
            Err(error) => McpStep::Reply(Some(respond(id, Err(error)))),
        },
        Err(error) => {
            let message = cat2("invalid resources/read params: ", error.as_str());
            McpStep::Reply(Some(respond(id, Err(ServerError { code: -32602, message }))))
        },
    }
}

/// The answer with a session.
pub fn session_read(id: Option<Json>, uri: &str, session: Result<Json, DbgFlowError>) -> (r: Json)
    ensures
        r@ == response_view(
            json_opt(id),
            match session {
                Ok(value) => Ok(
                    JsonView::object().with(
                        "contents"@,
                        JsonView::List(
                            seq![
                                JsonView::object().with_text("uri"@, uri@).with_text(
                                    "mimeType"@,
                                    "application/json"@,
                                ).with_text("text"@, json::pretty_text(value@)),
                            ],
                        ),
                    ),
                ),
                Err(e) => Err(ServerErrorView { code: -32000, message: e@.text() }),
            },
        ),
{
    match session {
        Ok(value) => {
            let text = value.to_pretty();
            let mut contents: Vec<Json> = Vec::new();
            contents.push(
                Json::object().with_text("uri", uri).with_text(
                    "mimeType",
                    "application/json",
                ).with_text("text", text.as_str()),
            );
            assert(json::items_view(contents@) =~= seq![
                JsonView::object().with_text("uri"@, uri@).with_text(
                    "mimeType"@,
                    "application/json"@,
                ).with_text("text"@, json::pretty_text(value@)),
            ]);
            respond(id, Ok(Json::object().with("contents", Json::list(contents))))
        },
        Err(error) => respond(id, Err(ServerError { code: -32000, message: error.message() })),
    }
}

/// The notification that a session changed.
pub fn session_updated(session_id: SessionId) -> (r: Json)
    ensures
        r@ == JsonView::object().with_text("jsonrpc"@, JSONRPC_VERSION@).with_text(
            "method"@,
            "notifications/resources/updated"@,
        ).with("params"@, JsonView::object().with_text("uri"@, session_uri(session_id))),
{
    let uri = session_resource_uri(session_id);
    Json::object().with_text("jsonrpc", JSONRPC_VERSION).with_text(
        "method",
        "notifications/resources/updated",
    ).with("params", Json::object().with_text("uri", uri.as_str()))
}

/// Whether a message is a request that can be carried out or refused for what it asks: an
/// object of the right version, with a usable id or none, that names a method.
pub open spec fn well_formed_request(message: JsonView) -> bool {
    &&& message is Object
    &&& message.text_at("jsonrpc"@) == Some(JSONRPC_VERSION@)
    &&& message.get("id"@) matches Some(id) ==> valid_id(id)
    &&& message.text_at("method"@) is Some
}

/// The refusal of a request without an id.
pub open spec fn id_required() -> JsonView {
    error_view(JsonView::Null, -32600, "request method requires id"@)
}

proof fn member_names_differ()
    ensures
        "jsonrpc"@ != "id"@,
        "jsonrpc"@ != "result"@,
        "jsonrpc"@ != "error"@,
        "id"@ != "result"@,
        "id"@ != "error"@,
        "result"@ != "error"@,
{
    reveal_strlit("jsonrpc");
    reveal_strlit("id");
    reveal_strlit("result");
    reveal_strlit("error");
    assert("jsonrpc"@.len() == 7 && "id"@.len() == 2 && "result"@.len() == 6 && "error"@.len() == 5);
}

proof fn members_of_three(
    first: (Seq<char>, JsonView),
    second: (Seq<char>, JsonView),
    third: (Seq<char>, JsonView),
    name: Seq<char>,
)
    ensures
        json::lookup(seq![first, second, third], name) == if first.0 == name {
            Some(first.1)
        } else if second.0 == name {
            Some(second.1)
        } else if third.0 == name {
            Some(third.1)
        } else {
            None
        },
{
    let all = seq![first, second, third];
    assert(all.drop_first() =~= seq![second, third]);
    assert(all.drop_first().drop_first() =~= seq![third]);
    assert(all.drop_first().drop_first().drop_first() =~= seq![]);
    reveal_with_fuel(json::lookup, 4);
}

/// The members of an answer: its id is that of the request, and it holds either a result or an
/// error.
pub proof fn answers_carry_the_id(id: JsonView, outcome: Result<JsonView, ServerErrorView>)
    ensures
        response_view(Some(id), outcome).get("id"@) == Some(id),
        response_view(Some(id), outcome).text_at("jsonrpc"@) == Some(JSONRPC_VERSION@),
        outcome matches Ok(result) ==> {
            &&& response_view(Some(id), outcome).get("result"@) == Some(result)
            &&& response_view(Some(id), outcome).get("error"@) is None
        },
        outcome is Err ==> {
            &&& response_view(Some(id), outcome).get("error"@) is Some
            &&& response_view(Some(id), outcome).get("result"@) is None
        },
{
    member_names_differ();
    let first = ("jsonrpc"@, JsonView::Text(JSONRPC_VERSION@));
    let second = ("id"@, id);
    let third = match outcome {
        Ok(result) => ("result"@, result),
        Err(e) => (
            "error"@,
            JsonView::object().with("code"@, code_view(e.code)).with_text("message"@, e.message),
        ),
    };
    assert(response_view(Some(id), outcome)->Object_0 =~= seq![first, second, third]);
    members_of_three(first, second, third, "id"@);
    members_of_three(first, second, third, "jsonrpc"@);
    members_of_three(first, second, third, "result"@);
    members_of_three(first, second, third, "error"@);
}

/// A request with an id is answered under that id: at once, or by a step that keeps it. Only the
/// notification that a client is ready has no answer.
pub proof fn requests_are_answered(message: JsonView, server_version: Seq<char>)
    requires
        well_formed_request(message),
        message.get("id"@) is Some,
    ensures
        match message_step(message, server_version) {
            StepView::Reply(None) => message.text_at("method"@) == Some(
                "notifications/initialized"@,
            ),
            StepView::Reply(Some(reply)) => reply.get("id"@) == message.get("id"@),
            StepView::ListTools { id } => id == message.get("id"@),
            StepView::DecodeToolCall { id, params } => id == message.get("id"@),
            StepView::CallTool { id, name, arguments } => false,
            StepView::ListResources { id } => id == message.get("id"@),
            StepView::DecodeResourceRead { id, params } => id == message.get("id"@),
            StepView::ReadSession { id, uri, session_id } => false,
        },
{
    let id = message.get("id"@)->0;
    let method = message.text_at("method"@)->0;
    answers_carry_the_id(id, Ok(initialize_view(params_view(message), server_version)));
    answers_carry_the_id(id, Ok(JsonView::object()));
    answers_carry_the_id(
        id,
        Err(ServerErrorView { code: -32601, message: "method not found: "@ + method }),
    );
}

/// A request without an id is refused whatever it asks for and whatever comes of it: at once, or
/// when the step that it led to is answered.
pub proof fn requests_without_id_are_refused(
    message: JsonView,
    server_version: Seq<char>,
    outcome: Result<JsonView, ServerErrorView>,
)
    requires
        well_formed_request(message),
        message.get("id"@) is None,
        message.text_at("method"@) != Some("notifications/initialized"@),
    ensures
        match message_step(message, server_version) {
            StepView::Reply(reply) => reply == Some(id_required()),
            StepView::ListTools { id } => response_view(id, outcome) == id_required(),
            StepView::DecodeToolCall { id, params } => response_view(id, outcome) == id_required(),
            StepView::CallTool { id, name, arguments } => false,
            StepView::ListResources { id } => response_view(id, outcome) == id_required(),
            StepView::DecodeResourceRead { id, params } => response_view(id, outcome)
                == id_required(),
            StepView::ReadSession { id, uri, session_id } => false,
        },
{
}

/// A message that is no request is refused as such, and starts no work.
pub proof fn malformed_messages_are_refused(message: JsonView, server_version: Seq<char>)
    requires
        !well_formed_request(message),
    ensures
        message_step(message, server_version) matches StepView::Reply(Some(reply)) && exists|
            id: JsonView,
            text: Seq<char>,
        |
            reply == #[trigger] error_view(id, -32600, text) && (id == JsonView::Null
                || message.get("id"@) == Some(id)),
{
    let id = match message.get("id"@) {
        Some(id) => id,
        None => JsonView::Null,
    };
    if message !is Object {
        assert(message_step(message, server_version) == StepView::Reply(
            Some(error_view(JsonView::Null, -32600, "invalid request"@)),
        ));
    } else if message.text_at("jsonrpc"@) != Some(JSONRPC_VERSION@) {
        assert(message_step(message, server_version) == StepView::Reply(
            Some(error_view(id, -32600, "invalid JSON-RPC version"@)),
        ));
    } else if !valid_id(id) {
        assert(message_step(message, server_version) == StepView::Reply(
            Some(error_view(JsonView::Null, -32600, "invalid JSON-RPC request id"@)),
        ));
    } else {
        assert(message_step(message, server_version) == StepView::Reply(
            Some(error_view(id, -32600, "invalid request"@)),
        ));
    }
}

/// The version that the server speaks is a supported one, and the one asked for if that is
/// supported.
pub proof fn spoken_versions_are_supported(params: JsonView)
    ensures
        supported_version(negotiated_version(params)),
        params.text_at("protocolVersion"@) matches Some(v) ==> supported_version(v)
            ==> negotiated_version(params) == v,
{
}

} // verus!
