//! Laws of what tools say of themselves, of symbol paths and of what clients are told.

use crate::error::{DbgFlowError, ErrorView};
use crate::ids;
use crate::ids::SessionId;
use crate::json;
use crate::json::{Json, JsonView};
use crate::mcp::{
    initialize, is_valid_request_id, jsonrpc_id_label, parse_session_resource_uri, tool_error,
    tool_success, ServerError,
};
use crate::scan;
use crate::tools::registry::{inject_session_id_schema, symbol_command};
use crate::tools::schema;
use crate::tools::schema::{tool_descriptors, ToolDescriptor};
use vstd::prelude::*;

verus! {

/// Each tool says what it does.
pub proof fn tools_say_what_they_do(tools: Vec<ToolDescriptor>)
    requires
        call_ensures(tool_descriptors, (), tools),
    ensures
        tools@[0].description@
            == "Create a debug session or return an existing session for the same target."@,
        tools@[1].description@ == "Get the current state of a debug session."@,
        tools@[2].description@ == "List debug sessions."@,
        tools@[3].description@ == "Close a debug session."@,
        tools@[4].description@ == "Evaluate a native debugger command in a session."@,
        tools@[5].description@
            == "Set the native debugger symbol path of a session; further entries are appended."@,
        tools@[6].description@
            == "Launch a process and record a native ETW profile trace as a standard ETL artifact."@,
        tools@[7].description@
            == "Record a Time Travel Debugging trace with TTD.exe. Supports launch, attach, and bounded monitor recording into controlled artifacts."@,
        tools@[8].description@
            == "Create an IDA session or return an existing session for the same target."@,
        tools@[9].description@ == "Get the current state of an IDA session."@,
        tools@[10].description@ == "List IDA sessions."@,
        tools@[11].description@ == "Save and close an IDA session."@,
{
    let all = schema::descriptor_views(tools@);
    assert(all.len() == 12);
    assert(all[0] == tools@[0]@ && all[1] == tools@[1]@ && all[2] == tools@[2]@ && all[3]
        == tools@[3]@ && all[4] == tools@[4]@ && all[5] == tools@[5]@ && all[6] == tools@[6]@
        && all[7] == tools@[7]@ && all[8] == tools@[8]@ && all[9] == tools@[9]@ && all[10]
        == tools@[10]@ && all[11] == tools@[11]@);
}

/// The first symbol path replaces what was there and each further one is added; a path that shows
/// nothing or would break the command is refused.
pub proof fn symbol_paths_become_commands(
    path: &str,
    first: Result<String, DbgFlowError>,
    later: Result<String, DbgFlowError>,
    c: char,
)
    requires
        call_ensures(symbol_command, (path, true), first),
        call_ensures(symbol_command, (path, false), later),
        path@.contains(c),
    ensures
        first matches Ok(s) ==> s@ == ".sympath "@ + path@,
        later matches Ok(s) ==> s@ == ".sympath+ "@ + path@,
        first is Ok <==> later is Ok,
        scan::trim(path@).len() == 0 ==> (first matches Err(e) && e@ == ErrorView::Backend(
            "symbol path must not be empty"@,
        )),
        scan::trim(path@).len() > 0 && (c as u32 <= 31 || c as u32 == 127 || c as u32 == 0x2028 || c
            as u32 == 0x2029) ==> (first matches Err(e) && e@ == ErrorView::Backend(
            "symbol path contains unsupported control characters"@,
        )),
        scan::trim(path@).len() > 0 && (forall|i: int|
            0 <= i < path@.len() ==> ' ' <= (#[trigger] path@[i]) <= '~') ==> first is Ok,
{
    let i = choose|i: int| 0 <= i < path@.len() && path@[i] == c;
    assert(path@[i] == c);
}

/// Ids of requests are texts, numbers or null, and are shown as they are.
pub proof fn ids_are_texts_numbers_or_null(id: Json, valid: bool, none: Option<&Json>, l: String, n: String)
    requires
        none is None,
        call_ensures(is_valid_request_id, (&id,), valid),
        call_ensures(jsonrpc_id_label, (Some(&id),), l),
        call_ensures(jsonrpc_id_label, (none,), n),
    ensures
        id@ is Text || id@ is Unsigned || id@ is Negative || id@ is Decimal || id@ is Null ==> valid,
        id@ is Bool || id@ is List || id@ is Object ==> !valid,
        id@ matches JsonView::Text(s) ==> l@ == s,
        !(id@ is Text) ==> l@ == json::compact_text(id@),
        n@ == "<notification>"@,
{
}

/// Clients are told how to use the server.
pub proof fn clients_are_told_how_to_go_on(params: Json, version: &str, r: Json)
    requires
        call_ensures(initialize, (&params, version), r),
    ensures
        r@.text_at("instructions"@) == Some(
            "Use dbgflow tools to create debug sessions and run audited native debugger commands in trusted local environments."@,
        ),
{
    broadcast use json::added_members_are_found;

    reveal_strlit("protocolVersion");
    reveal_strlit("capabilities");
    reveal_strlit("serverInfo");
    reveal_strlit("instructions");
    assert("protocolVersion"@.len() == 15 && "capabilities"@.len() == 12 && "serverInfo"@.len() == 10 && "instructions"@.len() == 12);
    assert("capabilities"@[0] == 'c' && "instructions"@[0] == 'i');
}

/// An address with a wrong id is refused with what is wrong with it.
pub proof fn wrong_ids_in_addresses_are_refused(
    id: Seq<char>,
    m: Seq<char>,
    uri: &str,
    r: Result<SessionId, ServerError>,
)
    requires
        uri@ == "dbgflow://sessions/"@ + id,
        ids::uuid_read(id) == Err::<u128, Seq<char>>(m),
        call_ensures(parse_session_resource_uri, (uri,), r),
    ensures
        r matches Err(e) && e.code == -32602 && e.message@ == "invalid session id in uri: "@ + (
        "UUID parsing failed: "@ + m),
{
    let n = "dbgflow://sessions/"@.len() as int;
    assert(uri@.take(n) =~= "dbgflow://sessions/"@);
    assert(uri@.skip(n) =~= id);
}

/// What came of a tool is a text: the value that it gave, or what went wrong.
pub proof fn outcomes_are_texts(value: Json, message: &str, good: Json, bad: Json)
    requires
        call_ensures(tool_success, (&value,), good),
        call_ensures(tool_error, (message,), bad),
    ensures
        good@.bool_at("isError"@) == Some(false),
        bad@.bool_at("isError"@) == Some(true),
        good@.get("content"@) matches Some(JsonView::List(c)) && c.len() == 1 && c[0].text_at(
            "type"@,
        ) == Some("text"@) && c[0].text_at("text"@) == Some(json::pretty_text(value@)),
        bad@.get("content"@) matches Some(JsonView::List(c)) && c.len() == 1 && c[0].text_at(
            "type"@,
        ) == Some("text"@) && c[0].text_at("text"@) == Some(message@),
{
    broadcast use json::added_members_are_found;

    reveal_strlit("content");
    reveal_strlit("isError");
    assert("content"@.len() == 7 && "isError"@.len() == 7);
    assert("content"@[0] == 'c' && "isError"@[0] == 'i');
    reveal_strlit("type");
    reveal_strlit("text");
    assert("type"@.len() == 4 && "text"@.len() == 4);
    assert("type"@[1] == 'y' && "text"@[1] == 'e');
}

/// The session that a tool of the backend takes is described.
pub proof fn sessions_are_described(schema: Json, r: Json)
    requires
        call_ensures(inject_session_id_schema, (&schema,), r),
    ensures
        r@.get("properties"@) matches Some(p) && (p.get("session_id"@) matches Some(s) && s.text_at(
            "description"@,
        ) == Some("dbgflow IDA session id returned by ida.create_session."@) && s.text_at("type"@)
            == Some("string"@)),
{
    crate::tools::laws::backend_tools_take_a_session(schema@);
    broadcast use json::added_members_are_found;

    reveal_strlit("type");
    reveal_strlit("description");
    assert("type"@.len() == 4 && "description"@.len() == 11);
}

} // verus!
