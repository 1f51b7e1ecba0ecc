//! Laws of the protocol: each method leads to its own work, and each answer says what came of it.

use crate::error::DbgFlowError;
use crate::ids;
use crate::ids::SessionId;
use crate::json;
use crate::json::{Json, JsonView};
use crate::mcp;
use crate::mcp::{
    error_response, initialize, parse_session_resource_uri, resource_read_decoded, respond,
    session_read, session_resource_uri, session_updated, sessions_listed, success_response,
    tool_call_decoded, tool_finished, tools_listed, CallToolParams, McpServer, McpStep, ServerError,
    SessionSummary, StepView,
};
use crate::scan;
use crate::tools::registry::ToolCallError;
use vstd::prelude::*;

verus! {

proof fn method_names_differ()
    ensures
        "initialize"@ != "notifications/initialized"@ && "initialize"@ != "ping"@ && "initialize"@
            != "tools/list"@ && "initialize"@ != "tools/call"@ && "initialize"@ != "resources/list"@
            && "initialize"@ != "resources/read"@,
        "notifications/initialized"@ != "ping"@ && "notifications/initialized"@ != "tools/list"@
            && "notifications/initialized"@ != "tools/call"@ && "notifications/initialized"@
            != "resources/list"@ && "notifications/initialized"@ != "resources/read"@,
        "ping"@ != "tools/list"@ && "ping"@ != "tools/call"@ && "ping"@ != "resources/list"@
            && "ping"@ != "resources/read"@,
        "tools/list"@ != "tools/call"@ && "tools/list"@ != "resources/list"@ && "tools/list"@
            != "resources/read"@,
        "tools/call"@ != "resources/list"@ && "tools/call"@ != "resources/read"@,
        "resources/list"@ != "resources/read"@,
{
    reveal_strlit("initialize");
    reveal_strlit("notifications/initialized");
    reveal_strlit("ping");
    reveal_strlit("tools/list");
    reveal_strlit("tools/call");
    reveal_strlit("resources/list");
    reveal_strlit("resources/read");
    assert("initialize"@.len() == 10 && "notifications/initialized"@.len() == 25 && "ping"@.len() == 4 && "tools/list"@.len() == 10 && "tools/call"@.len() == 10 && "resources/list"@.len() == 14 && "resources/read"@.len() == 14);
    assert("initialize"@[0] == 'i' && "tools/list"@[0] == 't');
    assert("initialize"@[0] == 'i' && "tools/call"@[0] == 't');
    assert("tools/list"@[6] == 'l' && "tools/call"@[6] == 'c');
    assert("resources/list"@[10] == 'l' && "resources/read"@[10] == 'r');
}

proof fn answer_members_differ()
    ensures
        "jsonrpc"@ != "id"@ && "jsonrpc"@ != "result"@ && "jsonrpc"@ != "error"@,
        "id"@ != "result"@ && "id"@ != "error"@ && "result"@ != "error"@ && "code"@ != "message"@,
{
    reveal_strlit("jsonrpc");
    reveal_strlit("id");
    reveal_strlit("result");
    reveal_strlit("error");
    reveal_strlit("code");
    reveal_strlit("message");
    assert("jsonrpc"@.len() == 7 && "id"@.len() == 2 && "result"@.len() == 6 && "error"@.len() == 5 && "code"@.len() == 4 && "message"@.len() == 7);
    assert("jsonrpc"@[0] == 'j' && "message"@[0] == 'm');
}

/// Whether a value is a request with an id: an object of version 2.0 that names a method, with an
/// id that is a text, a number or null.
pub open spec fn is_request(message: JsonView, id: JsonView, method: Seq<char>) -> bool {
    &&& message is Object
    &&& message.get("jsonrpc"@) == Some(JsonView::Text("2.0"@))
    &&& message.get("method"@) == Some(JsonView::Text(method))
    &&& message.get("id"@) == Some(id)
    &&& id is Text || id is Unsigned || id is Negative || id is Decimal || id is Null
}

/// Each method leads to its own work, and to each work leads one method; the work gets the id and
/// the parameters of the request.
pub proof fn methods_lead_to_their_work(
    server: McpServer,
    message: Json,
    id: JsonView,
    method: Seq<char>,
    step: McpStep,
)
    requires
        is_request(message@, id, method),
        call_ensures(McpServer::handle_message, (&server, &message), step),
    ensures
        method == "tools/list"@ <==> step is ListTools,
        method == "resources/list"@ <==> step is ListResources,
        method == "tools/call"@ <==> step is DecodeToolCall,
        method == "resources/read"@ <==> step is DecodeResourceRead,
        method == "notifications/initialized"@ <==> step@ == StepView::Reply(None),
        method == "initialize"@ || method == "ping"@ ==> (step@ matches StepView::Reply(Some(_))),
        step !is CallTool,
        step !is ReadSession,
        step@ matches StepView::ListTools { id: i } ==> i == Some(id),
        step@ matches StepView::ListResources { id: i } ==> i == Some(id),
        step@ matches StepView::DecodeToolCall { id: i, params } ==> i == Some(id) && params
            == match message@.get("params"@) {
            Some(p) => p,
            None => JsonView::Null,
        },
        step@ matches StepView::DecodeResourceRead { id: i, params } ==> i == Some(id) && params
            == match message@.get("params"@) {
            Some(p) => p,
            None => JsonView::Null,
        },
{
    method_names_differ();
}

/// A ping is answered with an empty object, and a method that there is not with an error that names
/// it; both under the id of the request.
pub proof fn simple_requests_are_answered_at_once(
    server: McpServer,
    message: Json,
    id: JsonView,
    method: Seq<char>,
    step: McpStep,
)
    requires
        is_request(message@, id, method),
        call_ensures(McpServer::handle_message, (&server, &message), step),
    ensures
        method == "ping"@ ==> (step@ matches StepView::Reply(Some(r)) && r.get("result"@) == Some(
            JsonView::Object(Seq::empty()),
        ) && r.get("id"@) == Some(id) && r.get("error"@) is None && r.text_at("jsonrpc"@) == Some(
            "2.0"@,
        )),
        method != "initialize"@ && method != "notifications/initialized"@ && method != "ping"@
            && method != "tools/list"@ && method != "tools/call"@ && method != "resources/list"@
            && method != "resources/read"@ ==> (step@ matches StepView::Reply(Some(r)) && r.get(
            "id"@,
        ) == Some(id) && r.get("result"@) is None && (r.get("error"@) matches Some(e) && e.get(
            "code"@,
        ) == Some(JsonView::Negative(-32601i64)) && e.text_at("message"@) == Some(
            "method not found: "@ + method,
        ))),
{
    broadcast use json::added_members_are_found;

    method_names_differ();
    answer_members_differ();
}

/// A client is answered with the version that it asked for, if the server speaks it, or else with
/// the newest one, and with the name and version of the server.
pub proof fn clients_are_welcomed(params: Json, version: &str, r: Json)
    requires
        call_ensures(initialize, (&params, version), r),
    ensures
        params@.text_at("protocolVersion"@) == Some("2024-11-05"@) ==> r@.text_at(
            "protocolVersion"@,
        ) == Some("2024-11-05"@),
        params@.text_at("protocolVersion"@) == Some("2025-03-26"@) ==> r@.text_at(
            "protocolVersion"@,
        ) == Some("2025-03-26"@),
        params@.text_at("protocolVersion"@) != Some("2024-11-05"@) && params@.text_at(
            "protocolVersion"@,
        ) != Some("2025-03-26"@) ==> r@.text_at("protocolVersion"@) == Some("2025-06-18"@),
        r@.get("serverInfo"@) matches Some(i) && i.text_at("name"@) == Some("dbgflow"@)
            && i.text_at("version"@) == Some(version@),
        r@.get("capabilities"@) matches Some(c) && (c.get("tools"@) matches Some(t) && t.bool_at(
            "listChanged"@,
        ) == Some(false)) && (c.get("resources"@) matches Some(s) && s.bool_at("subscribe"@)
            == Some(false) && s.bool_at("listChanged"@) == Some(false)),
        r@.get("instructions"@) is Some,
{
    broadcast use json::added_members_are_found;

    reveal_strlit("protocolVersion");
    reveal_strlit("capabilities");
    reveal_strlit("serverInfo");
    reveal_strlit("instructions");
    reveal_strlit("name");
    reveal_strlit("version");
    reveal_strlit("tools");
    reveal_strlit("resources");
    reveal_strlit("subscribe");
    reveal_strlit("listChanged");
    assert("protocolVersion"@.len() == 15 && "capabilities"@.len() == 12 && "serverInfo"@.len() == 10 && "instructions"@.len() == 12 && "name"@.len() == 4 && "version"@.len() == 7 && "tools"@.len() == 5 && "resources"@.len() == 9 && "subscribe"@.len() == 9 && "listChanged"@.len() == 11);
    assert("capabilities"@[0] == 'c' && "instructions"@[0] == 'i');
    assert("resources"@[0] == 'r' && "subscribe"@[0] == 's');
}

/// An answer carries the id of its request, and either the result or the error, never both. An
/// error carries its code and its text.
pub proof fn answers_say_what_came_of_it(
    id: Json,
    result: Json,
    good: Json,
    code: i64,
    message: &str,
    bad: Json,
)
    requires
        call_ensures(success_response, (id, result), good),
        call_ensures(error_response, (id, code, message), bad),
    ensures
        good@.text_at("jsonrpc"@) == Some("2.0"@),
        good@.get("id"@) == Some(id@),
        good@.get("result"@) == Some(result@),
        good@.get("error"@) is None,
        bad@.text_at("jsonrpc"@) == Some("2.0"@),
        bad@.get("id"@) == Some(id@),
        bad@.get("result"@) is None,
        bad@.get("error"@) matches Some(e) && e.text_at("message"@) == Some(message@) && (code < 0
            ==> e.get("code"@) == Some(JsonView::Negative(code))) && (code >= 0 ==> e.get("code"@)
            == Some(JsonView::Unsigned(code as u64))),
{
    broadcast use json::added_members_are_found;

    answer_members_differ();
}

/// Whether a value is the answer to a request under an id with a result.
pub open spec fn succeeds(answer: JsonView, id: JsonView) -> bool {
    answer.get("id"@) == Some(id) && answer.get("result"@) is Some && answer.get("error"@) is None
}

/// Whether a value is the answer to a request under an id with an error.
pub open spec fn fails_with(answer: JsonView, id: JsonView, code: int, message: Seq<char>) -> bool {
    &&& answer.get("id"@) == Some(id)
    &&& answer.get("result"@) is None
    &&& answer.get("error"@) matches Some(e)
    &&& e.get("code"@) == Some(JsonView::Negative(code as i64))
    &&& e.text_at("message"@) == Some(message)
}

/// The list of tools is answered as such, under the id of the request.
pub proof fn tools_are_listed_as_tools(id: Json, tools: Vec<Json>, r: Json)
    requires
        call_ensures(tools_listed, (Some(id), tools), r),
    ensures
        succeeds(r@, id@),
        r@.get("result"@)->0.get("tools"@) == Some(JsonView::List(json::items_view(tools@))),
        r@.get("result"@)->0.get("resources"@) is None,
{
    broadcast use json::added_members_are_found;

    answer_members_differ();
    reveal_strlit("tools");
    reveal_strlit("resources");
    assert("tools"@.len() == 5 && "resources"@.len() == 9);
}

/// The list of sessions is answered as resources, in the order of the list, each with its address,
/// its name and its state.
pub proof fn sessions_are_listed_as_resources(
    id: Json,
    list: Vec<SessionSummary>,
    r: Json,
    i: int,
)
    requires
        call_ensures(sessions_listed, (Some(id), Ok(list)), r),
        0 <= i < list@.len(),
    ensures
        succeeds(r@, id@),
        r@.get("result"@)->0.get("tools"@) is None,
        r@.get("result"@)->0.get("resources"@) matches Some(JsonView::List(items)) && items.len()
            == list@.len() && items[i].text_at("uri"@) == Some(
            "dbgflow://sessions/"@ + ids::uuid_text(list@[i].id.0),
        ) && items[i].text_at("name"@) == Some("dbgflow session "@ + ids::uuid_text(list@[i].id.0))
            && items[i].text_at("description"@) == Some("dbgflow session state: "@ + list@[i].state@)
            && items[i].text_at("mimeType"@) == Some("application/json"@),
{
    broadcast use json::added_members_are_found;

    answer_members_differ();
    reveal_strlit("tools");
    reveal_strlit("resources");
    reveal_strlit("uri");
    reveal_strlit("name");
    reveal_strlit("description");
    reveal_strlit("mimeType");
    assert("tools"@.len() == 5 && "resources"@.len() == 9 && "uri"@.len() == 3 && "name"@.len() == 4 && "description"@.len() == 11 && "mimeType"@.len() == 8);
}

/// A session is answered with its address and its content; one that is not there is an error.
pub proof fn sessions_are_read_as_contents(
    id: Json,
    uri: &str,
    session: Result<Json, DbgFlowError>,
    r: Json,
)
    requires
        call_ensures(session_read, (Some(id), uri, session), r),
    ensures
        session matches Ok(value) ==> {
            &&& succeeds(r@, id@)
            &&& r@.get("result"@)->0.get("contents"@) matches Some(JsonView::List(items))
            &&& items.len() == 1
            &&& items[0].text_at("uri"@) == Some(uri@)
            &&& items[0].text_at("mimeType"@) == Some("application/json"@)
            &&& items[0].text_at("text"@) == Some(json::pretty_text(value@))
        },
        session matches Err(e) ==> fails_with(r@, id@, -32000, e@.text()),
{
    broadcast use json::added_members_are_found;

    answer_members_differ();
    reveal_strlit("contents");
    reveal_strlit("uri");
    reveal_strlit("mimeType");
    reveal_strlit("text");
    assert("contents"@.len() == 8 && "uri"@.len() == 3 && "mimeType"@.len() == 8 && "text"@.len() == 4);
    assert("contents"@[0] == 'c' && "mimeType"@[0] == 'm');
}

/// A tool call goes on with the tool and the arguments that were given, or with none; parameters
/// that cannot be read are an error.
pub proof fn calls_go_on_as_given(
    id: Json,
    decoded: Result<CallToolParams, String>,
    step: McpStep,
    uri: Result<String, String>,
    read: McpStep,
)
    requires
        call_ensures(tool_call_decoded, (Some(id), decoded), step),
        call_ensures(resource_read_decoded, (Some(id), uri), read),
    ensures
        decoded matches Ok(p) ==> (step@ matches StepView::CallTool { id: i, name, arguments } && i
            == Some(id@) && name == p.name@ && (p.arguments matches Some(a) ==> arguments == a@) && (
        p.arguments is None ==> arguments == JsonView::Object(Seq::empty()))),
        decoded matches Err(e) ==> (step@ matches StepView::Reply(Some(r)) && fails_with(
            r,
            id@,
            -32602,
            "invalid tools/call params: "@ + e@,
        )),
        uri matches Err(e) ==> (read@ matches StepView::Reply(Some(r)) && fails_with(
            r,
            id@,
            -32602,
            "invalid resources/read params: "@ + e@,
        )),
        uri matches Ok(u) ==> match mcp::uri_session(u@) {
            Ok(session) => read@ matches StepView::ReadSession { id: i, uri: v, session_id } && i
                == Some(id@) && v == u@ && session_id.0 == session,
            Err(e) => e.code == -32602 && (read@ matches StepView::Reply(Some(r)) && fails_with(
                r,
                id@,
                -32602,
                e.message,
            )),
        },
{
    broadcast use json::added_members_are_found;

    answer_members_differ();
}

/// A tool that succeeded is answered with its value as text, and one that failed with its error as
/// text, marked as such; only a wrong call is an error of the protocol.
pub proof fn tool_outcomes_are_told_apart(
    id: Json,
    outcome: Result<Json, ToolCallError>,
    r: Json,
)
    requires
        call_ensures(tool_finished, (Some(id), outcome), r),
    ensures
        outcome matches Ok(value) ==> says(r@, id@, json::pretty_text(value@), false),
        outcome matches Err(ToolCallError::Execution(m)) ==> says(r@, id@, m@, true),
        outcome matches Err(ToolCallError::InvalidRequest(m)) ==> fails_with(r@, id@, -32602, m@),
{
    broadcast use json::added_members_are_found;

    answer_members_differ();
    reveal_strlit("content");
    reveal_strlit("isError");
    reveal_strlit("type");
    reveal_strlit("text");
    assert("content"@.len() == 7 && "isError"@.len() == 7 && "type"@.len() == 4 && "text"@.len() == 4);
    assert("content"@[0] == 'c' && "isError"@[0] == 'i');
    assert("type"@[1] == 'y' && "text"@[1] == 'e');
}

/// Whether an answer holds one piece of text, as the outcome of a tool that failed or did not.
pub open spec fn says(answer: JsonView, id: JsonView, text: Seq<char>, failed: bool) -> bool {
    &&& succeeds(answer, id)
    &&& answer.get("result"@)->0.bool_at("isError"@) == Some(failed)
    &&& answer.get("result"@)->0.get("content"@) matches Some(JsonView::List(items))
    &&& items.len() == 1
    &&& items[0].text_at("type"@) == Some("text"@)
    &&& items[0].text_at("text"@) == Some(text)
}

/// A session is addressed by its identifier, an address of that form is read as that session, and
/// one of another form is none.
pub proof fn addresses_name_their_session(
    id: SessionId,
    uri: String,
    note: Json,
    other: &str,
    read: Result<SessionId, ServerError>,
)
    requires
        call_ensures(session_resource_uri, (id,), uri),
        call_ensures(session_updated, (id,), note),
        call_ensures(parse_session_resource_uri, (other,), read),
    ensures
        uri@ == "dbgflow://sessions/"@ + ids::uuid_text(id.0),
        other@ == uri@ ==> (read matches Ok(s) && s == id),
        !scan::starts(other@, "dbgflow://sessions/"@) ==> (read matches Err(e) && e.code == -32602
            && e.message@ == "invalid session resource uri: "@ + other@),
        note@.text_at("jsonrpc"@) == Some("2.0"@),
        note@.text_at("method"@) == Some("notifications/resources/updated"@),
        note@.get("id"@) is None,
        note@.get("params"@) matches Some(p) && p.text_at("uri"@) == Some(uri@),
{
    broadcast use json::added_members_are_found;

    reveal_strlit("jsonrpc");
    reveal_strlit("method");
    reveal_strlit("params");
    reveal_strlit("id");
    assert("jsonrpc"@.len() == 7 && "method"@.len() == 6 && "params"@.len() == 6 && "id"@.len() == 2);
    assert("method"@[0] == 'm' && "params"@[0] == 'p');
}

/// A failed request without an id, or whatever becomes of one, is refused for that.
pub proof fn requests_need_an_id(outcome: Result<Json, ServerError>, r: Json)
    requires
        call_ensures(respond, (None::<Json>, outcome), r),
    ensures
        fails_with(r@, JsonView::Null, -32600, "request method requires id"@),
{
    broadcast use json::added_members_are_found;

    answer_members_differ();
}

/// A message that is no request is refused with the reason: it is no object, of another version,
/// with an id that can be none, or without a method.
pub proof fn wrong_messages_are_refused_for_the_reason(
    server: McpServer,
    message: Json,
    step: McpStep,
)
    requires
        call_ensures(McpServer::handle_message, (&server, &message), step),
    ensures
        ({
            let id = match message@.get("id"@) {
                Some(id) => id,
                None => JsonView::Null,
            };
            let versioned = message@.get("jsonrpc"@) == Some(JsonView::Text("2.0"@));
            let bad_id = id is Bool || id is List || id is Object;
            &&& message@ !is Object ==> refuses(step@, JsonView::Null, "invalid request"@)
            &&& message@ is Object && !versioned ==> refuses(
                step@,
                id,
                "invalid JSON-RPC version"@,
            )
            &&& message@ is Object && versioned && bad_id ==> refuses(
                step@,
                JsonView::Null,
                "invalid JSON-RPC request id"@,
            )
            &&& message@ is Object && versioned && !bad_id && message@.text_at("method"@) is None
                ==> refuses(step@, id, "invalid request"@)
        }),
{
    broadcast use json::added_members_are_found;

    answer_members_differ();
}

/// Whether a step is a refusal of what is no request.
pub open spec fn refuses(step: StepView, id: JsonView, reason: Seq<char>) -> bool {
    step matches StepView::Reply(Some(r)) && fails_with(r, id, -32600, reason)
}

} // verus!
