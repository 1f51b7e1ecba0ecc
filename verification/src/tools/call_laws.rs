//! Laws of tool calls: each name leads to its own operation, and each tool says what it takes.

use crate::error::DbgFlowError;
use crate::ida::model::UpstreamToolDescriptor;
use crate::json;
use crate::json::{Json, JsonView};
use crate::scan;
use crate::text;
use crate::tools::registry;
use crate::tools::registry::{
    plan_add_symbols, route_tool, tool_arguments, tool_descriptor_values,
    upstream_tool_descriptor_value, SymbolPlan, ToolCallError, ToolRoute,
};
use crate::tools::schema;
use crate::tools::schema::{tool_descriptors, ToolDescriptor};
use vstd::prelude::*;

verus! {

proof fn tool_names_differ()
    ensures
        ({
            let names = seq![
                "create_session"@,
                "get_session"@,
                "list_sessions"@,
                "close_session"@,
                "eval"@,
                "set_symbols"@,
                "trace.record_profile"@,
                "trace.record_ttd"@,
                "ida.create_session"@,
                "ida.get_session"@,
                "ida.list_sessions"@,
                "ida.close_session"@,
            ];
            forall|i: int, j: int| 0 <= i < j < 12 ==> #[trigger] names[i] != #[trigger] names[j]
        }),
        "ida."@.len() == 4,
        "create_session"@[0] == 'c',
        "get_session"@[0] == 'g',
        "list_sessions"@[0] == 'l',
        "close_session"@[0] == 'c',
        "eval"@[0] == 'e',
        "set_symbols"@[0] == 's',
        "trace.record_profile"@[0] == 't',
        "trace.record_ttd"@[0] == 't',
        "ida."@[0] == 'i',
        "ida.create_session"@.take(4) == "ida."@,
        "ida.get_session"@.take(4) == "ida."@,
        "ida.list_sessions"@.take(4) == "ida."@,
        "ida.close_session"@.take(4) == "ida."@,
{
    reveal_strlit("create_session");
    reveal_strlit("get_session");
    reveal_strlit("list_sessions");
    reveal_strlit("close_session");
    reveal_strlit("eval");
    reveal_strlit("set_symbols");
    reveal_strlit("trace.record_profile");
    reveal_strlit("trace.record_ttd");
    reveal_strlit("ida.create_session");
    reveal_strlit("ida.get_session");
    reveal_strlit("ida.list_sessions");
    reveal_strlit("ida.close_session");
    assert("create_session"@.len() == 14 && "get_session"@.len() == 11 && "list_sessions"@.len() == 13 && "close_session"@.len() == 13 && "eval"@.len() == 4 && "set_symbols"@.len() == 11 && "trace.record_profile"@.len() == 20 && "trace.record_ttd"@.len() == 16 && "ida.create_session"@.len() == 18 && "ida.get_session"@.len() == 15 && "ida.list_sessions"@.len() == 17 && "ida.close_session"@.len() == 17);
    assert("get_session"@[0] == 'g' && "set_symbols"@[0] == 's');
    assert("list_sessions"@[0] == 'l' && "close_session"@[0] == 'c');
    assert("ida.list_sessions"@[4] == 'l' && "ida.close_session"@[4] == 'c');
    reveal_strlit("ida.");
    assert("ida.create_session"@.take(4) =~= "ida."@);
    assert("ida.get_session"@.take(4) =~= "ida."@);
    assert("ida.list_sessions"@.take(4) =~= "ida."@);
    assert("ida.close_session"@.take(4) =~= "ida."@);
}

/// Each name of a tool leads to the operation of that name, and to each operation leads one name.
/// Other names behind `ida.` lead to the tool of the backend that is named there; all others lead
/// nowhere.
pub proof fn names_lead_to_their_operation(name: &str, r: Result<ToolRoute, ToolCallError>)
    requires
        call_ensures(route_tool, (name,), r),
    ensures
        name@ == "create_session"@ <==> r matches Ok(ToolRoute::CreateSession),
        name@ == "get_session"@ <==> r matches Ok(ToolRoute::GetSession),
        name@ == "list_sessions"@ <==> r matches Ok(ToolRoute::ListSessions),
        name@ == "close_session"@ <==> r matches Ok(ToolRoute::CloseSession),
        name@ == "eval"@ <==> r matches Ok(ToolRoute::Eval),
        name@ == "set_symbols"@ <==> r matches Ok(ToolRoute::AddSymbols),
        name@ == "trace.record_profile"@ <==> r matches Ok(ToolRoute::RecordProfile),
        name@ == "trace.record_ttd"@ <==> r matches Ok(ToolRoute::RecordTtd),
        name@ == "ida.create_session"@ <==> r matches Ok(ToolRoute::IdaCreateSession),
        name@ == "ida.get_session"@ <==> r matches Ok(ToolRoute::IdaGetSession),
        name@ == "ida.list_sessions"@ <==> r matches Ok(ToolRoute::IdaListSessions),
        name@ == "ida.close_session"@ <==> r matches Ok(ToolRoute::IdaCloseSession),
        r matches Ok(ToolRoute::IdaUpstream(tool)) ==> name@ == "ida."@ + tool@,
        scan::starts(name@, "ida."@) ==> r is Ok,
        r matches Err(e) ==> (e matches ToolCallError::InvalidRequest(m) && m@ == "unknown tool: "@
            + name@),
{
    tool_names_differ();
    let names = seq![
        "create_session"@,
        "get_session"@,
        "list_sessions"@,
        "close_session"@,
        "eval"@,
        "set_symbols"@,
        "trace.record_profile"@,
        "trace.record_ttd"@,
        "ida.create_session"@,
        "ida.get_session"@,
        "ida.list_sessions"@,
        "ida.close_session"@,
    ];
    assert(names[0] == "create_session"@ && names[1] == "get_session"@ && names[2]
        == "list_sessions"@ && names[3] == "close_session"@ && names[4] == "eval"@ && names[5]
        == "set_symbols"@ && names[6] == "trace.record_profile"@ && names[7] == "trace.record_ttd"@
        && names[8] == "ida.create_session"@ && names[9] == "ida.get_session"@ && names[10]
        == "ida.list_sessions"@ && names[11] == "ida.close_session"@);
    if let Ok(ToolRoute::IdaUpstream(tool)) = r {
        assert(name@ =~= name@.take(4) + name@.skip(4));
    }
}

/// A tool of the backend is reached under its name behind `ida.`, whatever it is called, unless the
/// server has a tool of that name itself.
pub proof fn backend_tools_are_reached_by_name(
    tool: Seq<char>,
    name: &str,
    r: Result<ToolRoute, ToolCallError>,
)
    requires
        call_ensures(route_tool, (name,), r),
        name@ == "ida."@ + tool,
        name@ != "ida.create_session"@,
        name@ != "ida.get_session"@,
        name@ != "ida.list_sessions"@,
        name@ != "ida.close_session"@,
    ensures
        r matches Ok(ToolRoute::IdaUpstream(t)) && t@ == tool,
{
    tool_names_differ();
    assert(name@.take(4) =~= "ida."@);
    assert(name@.skip(4) =~= tool);
    assert(name@[0] == 'i');
}

/// Every tool that is listed can be called, and no two of them lead to the same operation.
pub proof fn listed_tools_can_be_called(tools: Vec<ToolDescriptor>, i: int, j: int)
    requires
        call_ensures(tool_descriptors, (), tools),
        0 <= i < j < tools@.len(),
    ensures
        registry::route_of(tools@[i].name@) is Some,
        registry::route_of(tools@[j].name@) is Some,
        registry::route_of(tools@[i].name@) != registry::route_of(tools@[j].name@),
        registry::route_of(tools@[i].name@)->0 !is IdaUpstream,
        registry::route_of(tools@[j].name@)->0 !is IdaUpstream,
{
    tool_names_differ();
    let all = schema::descriptor_views(tools@);
    assert(all[i].name == tools@[i].name@ && all[j].name == tools@[j].name@);
    assert(all.len() == 12);
    let names = seq![
        "create_session"@,
        "get_session"@,
        "list_sessions"@,
        "close_session"@,
        "eval"@,
        "set_symbols"@,
        "trace.record_profile"@,
        "trace.record_ttd"@,
        "ida.create_session"@,
        "ida.get_session"@,
        "ida.list_sessions"@,
        "ida.close_session"@,
    ];
    assert(names[0] == "create_session"@ && names[1] == "get_session"@ && names[2]
        == "list_sessions"@ && names[3] == "close_session"@ && names[4] == "eval"@ && names[5]
        == "set_symbols"@ && names[6] == "trace.record_profile"@ && names[7] == "trace.record_ttd"@
        && names[8] == "ida.create_session"@ && names[9] == "ida.get_session"@ && names[10]
        == "ida.list_sessions"@ && names[11] == "ida.close_session"@);
    assert(all[i].name == names[i] && all[j].name == names[j]);
}

/// The names of the properties and the required ones of an object schema that takes nothing else.
pub open spec fn takes(s: JsonView, properties: Seq<Seq<char>>, required: Seq<Seq<char>>) -> bool {
    &&& s.text_at("type"@) == Some("object"@)
    &&& s.bool_at("additionalProperties"@) == Some(false)
    &&& s.get("properties"@) matches Some(JsonView::Object(fields))
    &&& fields.len() == properties.len()
    &&& forall|i: int| 0 <= i < fields.len() ==> (#[trigger] fields[i]).0 == properties[i]
    &&& if required.len() == 0 {
        s.get("required"@) is None
    } else {
        s.get("required"@) matches Some(JsonView::List(items)) && items.len() == required.len()
            && forall|i: int|
            0 <= i < items.len() ==> #[trigger] items[i] == JsonView::Text(required[i])
    }
}

proof fn schema_members()
    ensures
        "type"@ != "properties"@,
        "type"@ != "required"@,
        "type"@ != "additionalProperties"@,
        "type"@ != "description"@,
        "properties"@ != "required"@,
        "properties"@ != "additionalProperties"@,
        "properties"@ != "description"@,
        "required"@ != "additionalProperties"@,
        "required"@ != "description"@,
        "additionalProperties"@ != "description"@,
{
    reveal_strlit("type");
    reveal_strlit("properties");
    reveal_strlit("required");
    reveal_strlit("additionalProperties");
    reveal_strlit("description");
    assert("type"@.len() == 4 && "properties"@.len() == 10 && "required"@.len() == 8 && "additionalProperties"@.len() == 20 && "description"@.len() == 11);
}

/// Each tool of the server is listed under its name with the arguments that it takes and needs.
pub proof fn tools_say_what_they_take(tools: Vec<ToolDescriptor>)
    requires
        call_ensures(tool_descriptors, (), tools),
    ensures
        tools@.len() == 12,
        tools@[0].name@ == "create_session"@,
        takes(tools@[0].input_schema@, seq!["target"@], seq!["target"@]),
        tools@[1].name@ == "get_session"@,
        takes(tools@[1].input_schema@, seq!["session_id"@], seq!["session_id"@]),
        tools@[2].name@ == "list_sessions"@,
        takes(tools@[2].input_schema@, seq![], seq![]),
        tools@[3].name@ == "close_session"@,
        takes(tools@[3].input_schema@, seq!["session_id"@], seq!["session_id"@]),
        tools@[4].name@ == "eval"@,
        takes(
            tools@[4].input_schema@,
            seq!["session_id"@, "command"@],
            seq!["session_id"@, "command"@],
        ),
        tools@[5].name@ == "set_symbols"@,
        takes(
            tools@[5].input_schema@,
            seq!["session_id"@, "paths"@],
            seq!["session_id"@, "paths"@],
        ),
        tools@[6].name@ == "trace.record_profile"@,
        takes(
            tools@[6].input_schema@,
            seq!["target"@, "timeout_ms"@, "collectors"@],
            seq!["target"@, "timeout_ms"@],
        ),
        tools@[7].name@ == "trace.record_ttd"@,
        takes(
            tools@[7].input_schema@,
            seq!["target"@, "timeout_ms"@, "options"@],
            seq!["target"@, "timeout_ms"@],
        ),
        tools@[8].name@ == "ida.create_session"@,
        takes(
            tools@[8].input_schema@,
            seq![
                "target"@,
                "run_auto_analysis"@,
                "build_caches"@,
                "init_hexrays"@,
                "mode"@,
                "idle_ttl_sec"@,
                "startup_timeout_ms"@,
            ],
            seq!["target"@],
        ),
        tools@[9].name@ == "ida.get_session"@,
        takes(tools@[9].input_schema@, seq!["session_id"@], seq!["session_id"@]),
        tools@[10].name@ == "ida.list_sessions"@,
        takes(tools@[10].input_schema@, seq![], seq![]),
        tools@[11].name@ == "ida.close_session"@,
        takes(tools@[11].input_schema@, seq!["session_id"@, "save"@], seq!["session_id"@]),
{
    let all = schema::descriptor_views(tools@);
    assert(all.len() == 12);
    assert forall|i: int| 0 <= i < 12 implies #[trigger] all[i] == tools@[i]@ by {}
    assert(all[0] == tools@[0]@ && all[1] == tools@[1]@ && all[2] == tools@[2]@ && all[3]
        == tools@[3]@ && all[4] == tools@[4]@ && all[5] == tools@[5]@ && all[6] == tools@[6]@
        && all[7] == tools@[7]@ && all[8] == tools@[8]@ && all[9] == tools@[9]@ && all[10]
        == tools@[10]@ && all[11] == tools@[11]@);
    debug_schemas();
    trace_schemas();
    ida_schemas();
}

proof fn debug_schemas()
    ensures
        takes(schema::create_session_schema_view(), seq!["target"@], seq!["target"@]),
        takes(schema::session_schema_view(), seq!["session_id"@], seq!["session_id"@]),
        takes(schema::empty_schema_view(), seq![], seq![]),
        takes(
            schema::eval_schema_view(),
            seq!["session_id"@, "command"@],
            seq!["session_id"@, "command"@],
        ),
        takes(
            schema::symbols_schema_view(),
            seq!["session_id"@, "paths"@],
            seq!["session_id"@, "paths"@],
        ),
{
    broadcast use json::added_members_are_found;

    schema_members();
}

proof fn trace_schemas()
    ensures
        takes(
            schema::profile_schema_view(),
            seq!["target"@, "timeout_ms"@, "collectors"@],
            seq!["target"@, "timeout_ms"@],
        ),
        takes(
            schema::ttd_schema_view(),
            seq!["target"@, "timeout_ms"@, "options"@],
            seq!["target"@, "timeout_ms"@],
        ),
        takes(
            schema::collector_schema_view(),
            seq!["kind"@, "scope"@, "event_sets"@, "stacks"@],
            seq!["kind"@, "scope"@, "event_sets"@],
        ),
        takes(
            schema::launch_target_view(),
            seq!["kind"@, "executable"@, "args"@],
            seq!["kind"@, "executable"@],
        ),
        takes(
            schema::ttd_options_schema_view(),
            seq![
                "children"@,
                "no_ui"@,
                "accept_eula"@,
                "ring"@,
                "max_file_mb"@,
                "modules"@,
                "record_mode"@,
                "replay_cpu_support"@,
            ],
            seq![],
        ),
{
    broadcast use json::added_members_are_found;

    schema_members();
}

proof fn ida_schemas()
    ensures
        takes(
            schema::ida_create_schema_view(),
            seq![
                "target"@,
                "run_auto_analysis"@,
                "build_caches"@,
                "init_hexrays"@,
                "mode"@,
                "idle_ttl_sec"@,
                "startup_timeout_ms"@,
            ],
            seq!["target"@],
        ),
        takes(schema::ida_session_schema_view(), seq!["session_id"@], seq!["session_id"@]),
        takes(
            schema::ida_close_schema_view(),
            seq!["session_id"@, "save"@],
            seq!["session_id"@],
        ),
{
    broadcast use json::added_members_are_found;

    schema_members();
}

/// A target is described by its kind: a dump by its path, a process by its number, a program by its
/// executable.
pub proof fn targets_are_described_by_kind()
    ensures
        takes(schema::dump_target_view(), seq!["kind"@, "path"@], seq!["kind"@, "path"@]),
        takes(schema::attach_target_view(), seq!["kind"@, "pid"@], seq!["kind"@, "pid"@]),
        takes(
            schema::launch_target_view(),
            seq!["kind"@, "executable"@, "args"@],
            seq!["kind"@, "executable"@],
        ),
        takes(schema::ttd_attach_target_view(), seq!["kind"@, "pid"@], seq!["kind"@, "pid"@]),
        takes(
            schema::ttd_monitor_target_view(),
            seq!["kind"@, "program"@, "cmd_line_filter"@],
            seq!["kind"@, "program"@],
        ),
        takes(schema::ida_binary_target_view(), seq!["kind"@, "path"@], seq!["kind"@, "path"@]),
        takes(schema::ida_database_target_view(), seq!["kind"@, "path"@], seq!["kind"@, "path"@]),
        says_kind(schema::dump_target_view(), "dump"@),
        says_kind(schema::attach_target_view(), "attach"@),
        says_kind(schema::launch_target_view(), "launch"@),
        says_kind(schema::ttd_attach_target_view(), "attach"@),
        says_kind(schema::ttd_monitor_target_view(), "monitor"@),
        says_kind(schema::ida_binary_target_view(), "binary"@),
        says_kind(schema::ida_database_target_view(), "database"@),
        says_kind(schema::collector_schema_view(), "native_etw"@),
        says_kind(schema::scope_schema_view(), "target_process"@),
        one_of(
            schema::debug_target_view(),
            seq![
                schema::dump_target_view(),
                schema::attach_target_view(),
                schema::launch_target_view(),
            ],
        ),
        one_of(
            schema::ttd_target_view(),
            seq![
                schema::launch_target_view(),
                schema::ttd_attach_target_view(),
                schema::ttd_monitor_target_view(),
            ],
        ),
        one_of(
            schema::ida_target_view(),
            seq![schema::ida_binary_target_view(), schema::ida_database_target_view()],
        ),
{
    broadcast use json::added_members_are_found;

    schema_members();
    trace_schemas();
    reveal_strlit("kind");
    reveal_strlit("path");
    reveal_strlit("pid");
    reveal_strlit("executable");
    reveal_strlit("args");
    reveal_strlit("program");
    reveal_strlit("cmd_line_filter");
    reveal_strlit("const");
    reveal_strlit("type");
    reveal_strlit("oneOf");
    reveal_strlit("description");
    reveal_strlit("scope");
    reveal_strlit("event_sets");
    reveal_strlit("stacks");
    assert("kind"@.len() == 4 && "path"@.len() == 4 && "pid"@.len() == 3 && "executable"@.len() == 10 && "args"@.len() == 4 && "program"@.len() == 7 && "cmd_line_filter"@.len() == 15 && "const"@.len() == 5 && "type"@.len() == 4 && "oneOf"@.len() == 5 && "description"@.len() == 11 && "scope"@.len() == 5 && "event_sets"@.len() == 10 && "stacks"@.len() == 6);
    assert("kind"@[0] == 'k' && "path"@[0] == 'p');
    assert("kind"@[0] == 'k' && "args"@[0] == 'a');
    assert("kind"@[0] == 'k' && "type"@[0] == 't');
    assert("path"@[0] == 'p' && "args"@[0] == 'a');
    assert("path"@[0] == 'p' && "type"@[0] == 't');
    assert("args"@[0] == 'a' && "type"@[0] == 't');
    assert("executable"@[1] == 'x' && "event_sets"@[1] == 'v');
    assert("const"@[0] == 'c' && "oneOf"@[0] == 'o');
    assert("const"@[0] == 'c' && "scope"@[0] == 's');
    assert("oneOf"@[0] == 'o' && "scope"@[0] == 's');
}

/// Whether the kind in a schema is a given one.
pub open spec fn says_kind(s: JsonView, kind: Seq<char>) -> bool {
    s.get("properties"@) matches Some(p) && (p.get("kind"@) matches Some(k) && k.text_at("const"@)
        == Some(kind))
}

/// Whether a schema allows for one of several.
pub open spec fn one_of(s: JsonView, all: Seq<JsonView>) -> bool {
    s.get("oneOf"@) == Some(JsonView::List(all))
}

/// Whether a property of a schema is of a type.
pub open spec fn of_type(s: JsonView, name: Seq<char>, kind: Seq<char>) -> bool {
    s.get("properties"@) matches Some(p) && (p.get(name) matches Some(q) && q.text_at("type"@)
        == Some(kind))
}

/// Each option of a recording and of a session is of the type that it is used as.
pub proof fn options_have_their_types()
    ensures
        of_type(schema::ttd_options_schema_view(), "children"@, "boolean"@),
        of_type(schema::ttd_options_schema_view(), "no_ui"@, "boolean"@),
        of_type(schema::ttd_options_schema_view(), "accept_eula"@, "boolean"@),
        of_type(schema::ttd_options_schema_view(), "ring"@, "boolean"@),
        of_type(schema::ttd_options_schema_view(), "max_file_mb"@, "integer"@),
        of_type(schema::ttd_options_schema_view(), "modules"@, "array"@),
        of_type(schema::ida_create_schema_view(), "target"@, "object"@),
        of_type(schema::ida_create_schema_view(), "run_auto_analysis"@, "boolean"@),
        of_type(schema::ida_create_schema_view(), "build_caches"@, "boolean"@),
        of_type(schema::ida_create_schema_view(), "init_hexrays"@, "boolean"@),
        of_type(schema::ida_create_schema_view(), "mode"@, "string"@),
        of_type(schema::ida_create_schema_view(), "idle_ttl_sec"@, "integer"@),
        of_type(schema::ida_create_schema_view(), "startup_timeout_ms"@, "integer"@),
        of_type(schema::ida_close_schema_view(), "save"@, "boolean"@),
        of_type(schema::ida_close_schema_view(), "session_id"@, "string"@),
        of_type(schema::eval_schema_view(), "session_id"@, "string"@),
        of_type(schema::eval_schema_view(), "command"@, "string"@),
        of_type(schema::symbols_schema_view(), "paths"@, "array"@),
        of_type(schema::profile_schema_view(), "timeout_ms"@, "integer"@),
        of_type(schema::profile_schema_view(), "target"@, "object"@),
        of_type(schema::profile_schema_view(), "collectors"@, "array"@),
        of_type(schema::ttd_schema_view(), "timeout_ms"@, "integer"@),
        of_type(schema::ttd_schema_view(), "target"@, "object"@),
        of_type(schema::ttd_schema_view(), "options"@, "object"@),
        of_type(schema::dump_target_view(), "path"@, "string"@),
        of_type(schema::attach_target_view(), "pid"@, "integer"@),
        of_type(schema::launch_target_view(), "executable"@, "string"@),
        of_type(schema::launch_target_view(), "args"@, "array"@),
        of_type(schema::ttd_monitor_target_view(), "program"@, "string"@),
        of_type(schema::ttd_monitor_target_view(), "cmd_line_filter"@, "string"@),
{
    broadcast use json::added_members_are_found;

    schema_members();
    ttd_option_names();
    ida_option_names();
    other_names();
}

proof fn ttd_option_names()
    ensures
        "children"@ != "no_ui"@ && "children"@ != "accept_eula"@ && "children"@ != "ring"@
            && "children"@ != "max_file_mb"@ && "children"@ != "modules"@,
        "no_ui"@ != "accept_eula"@ && "no_ui"@ != "ring"@ && "no_ui"@ != "max_file_mb"@ && "no_ui"@
            != "modules"@,
        "accept_eula"@ != "ring"@ && "accept_eula"@ != "max_file_mb"@ && "accept_eula"@
            != "modules"@,
        "ring"@ != "max_file_mb"@ && "ring"@ != "modules"@ && "max_file_mb"@ != "modules"@,
{
    reveal_strlit("children");
    reveal_strlit("no_ui");
    reveal_strlit("accept_eula");
    reveal_strlit("ring");
    reveal_strlit("max_file_mb");
    reveal_strlit("modules");
    assert("children"@.len() == 8 && "no_ui"@.len() == 5 && "accept_eula"@.len() == 11 && "ring"@.len() == 4 && "max_file_mb"@.len() == 11 && "modules"@.len() == 7);
    assert("accept_eula"@[0] == 'a' && "max_file_mb"@[0] == 'm');
}

proof fn ida_option_names()
    ensures
        "target"@ != "run_auto_analysis"@ && "target"@ != "build_caches"@ && "target"@
            != "init_hexrays"@ && "target"@ != "mode"@ && "target"@ != "idle_ttl_sec"@ && "target"@
            != "startup_timeout_ms"@,
        "run_auto_analysis"@ != "build_caches"@ && "run_auto_analysis"@ != "init_hexrays"@
            && "run_auto_analysis"@ != "mode"@ && "run_auto_analysis"@ != "idle_ttl_sec"@
            && "run_auto_analysis"@ != "startup_timeout_ms"@,
        "build_caches"@ != "init_hexrays"@ && "build_caches"@ != "mode"@ && "build_caches"@
            != "idle_ttl_sec"@ && "build_caches"@ != "startup_timeout_ms"@,
        "init_hexrays"@ != "mode"@ && "init_hexrays"@ != "idle_ttl_sec"@ && "init_hexrays"@
            != "startup_timeout_ms"@,
        "mode"@ != "idle_ttl_sec"@ && "mode"@ != "startup_timeout_ms"@ && "idle_ttl_sec"@
            != "startup_timeout_ms"@,
{
    reveal_strlit("target");
    reveal_strlit("run_auto_analysis");
    reveal_strlit("build_caches");
    reveal_strlit("init_hexrays");
    reveal_strlit("mode");
    reveal_strlit("idle_ttl_sec");
    reveal_strlit("startup_timeout_ms");
    assert("target"@.len() == 6 && "run_auto_analysis"@.len() == 17 && "build_caches"@.len() == 12 && "init_hexrays"@.len() == 12 && "mode"@.len() == 4 && "idle_ttl_sec"@.len() == 12 && "startup_timeout_ms"@.len() == 18);
    assert("build_caches"@[0] == 'b' && "init_hexrays"@[0] == 'i');
    assert("build_caches"@[0] == 'b' && "idle_ttl_sec"@[0] == 'i');
    assert("init_hexrays"@[1] == 'n' && "idle_ttl_sec"@[1] == 'd');
}

proof fn other_names()
    ensures
        "session_id"@ != "save"@ && "session_id"@ != "command"@ && "session_id"@ != "paths"@,
        "target"@ != "timeout_ms"@ && "target"@ != "collectors"@ && "target"@ != "options"@,
        "timeout_ms"@ != "collectors"@ && "timeout_ms"@ != "options"@,
        "kind"@ != "path"@ && "kind"@ != "pid"@ && "kind"@ != "executable"@ && "kind"@ != "args"@
            && "kind"@ != "program"@ && "kind"@ != "cmd_line_filter"@,
        "executable"@ != "args"@ && "program"@ != "cmd_line_filter"@,
        "type"@ != "items"@ && "type"@ != "minimum"@ && "type"@ != "minItems"@ && "type"@ != "oneOf"@
            && "type"@ != "enum"@,
{
    reveal_strlit("session_id");
    reveal_strlit("save");
    reveal_strlit("command");
    reveal_strlit("paths");
    reveal_strlit("target");
    reveal_strlit("timeout_ms");
    reveal_strlit("collectors");
    reveal_strlit("options");
    reveal_strlit("kind");
    reveal_strlit("path");
    reveal_strlit("pid");
    reveal_strlit("executable");
    reveal_strlit("args");
    reveal_strlit("program");
    reveal_strlit("cmd_line_filter");
    reveal_strlit("type");
    reveal_strlit("items");
    reveal_strlit("minimum");
    reveal_strlit("minItems");
    reveal_strlit("oneOf");
    reveal_strlit("enum");
    assert("session_id"@.len() == 10 && "save"@.len() == 4 && "command"@.len() == 7 && "paths"@.len() == 5 && "target"@.len() == 6 && "timeout_ms"@.len() == 10 && "collectors"@.len() == 10 && "options"@.len() == 7 && "kind"@.len() == 4 && "path"@.len() == 4 && "pid"@.len() == 3 && "executable"@.len() == 10 && "args"@.len() == 4 && "program"@.len() == 7 && "cmd_line_filter"@.len() == 15 && "type"@.len() == 4 && "items"@.len() == 5 && "minimum"@.len() == 7 && "minItems"@.len() == 8 && "oneOf"@.len() == 5 && "enum"@.len() == 4);
    assert("session_id"@[0] == 's' && "timeout_ms"@[0] == 't');
    assert("session_id"@[0] == 's' && "collectors"@[0] == 'c');
    assert("session_id"@[0] == 's' && "executable"@[0] == 'e');
    assert("timeout_ms"@[0] == 't' && "collectors"@[0] == 'c');
    assert("timeout_ms"@[0] == 't' && "executable"@[0] == 'e');
    assert("collectors"@[0] == 'c' && "executable"@[0] == 'e');
    assert("save"@[0] == 's' && "kind"@[0] == 'k');
    assert("save"@[0] == 's' && "path"@[0] == 'p');
    assert("save"@[0] == 's' && "args"@[0] == 'a');
    assert("save"@[0] == 's' && "type"@[0] == 't');
    assert("save"@[0] == 's' && "enum"@[0] == 'e');
    assert("kind"@[0] == 'k' && "path"@[0] == 'p');
    assert("kind"@[0] == 'k' && "args"@[0] == 'a');
    assert("kind"@[0] == 'k' && "type"@[0] == 't');
    assert("kind"@[0] == 'k' && "enum"@[0] == 'e');
    assert("path"@[0] == 'p' && "args"@[0] == 'a');
    assert("path"@[0] == 'p' && "type"@[0] == 't');
    assert("path"@[0] == 'p' && "enum"@[0] == 'e');
    assert("args"@[0] == 'a' && "type"@[0] == 't');
    assert("args"@[0] == 'a' && "enum"@[0] == 'e');
    assert("type"@[0] == 't' && "enum"@[0] == 'e');
    assert("command"@[0] == 'c' && "options"@[0] == 'o');
    assert("command"@[0] == 'c' && "program"@[0] == 'p');
    assert("command"@[0] == 'c' && "minimum"@[0] == 'm');
    assert("options"@[0] == 'o' && "program"@[0] == 'p');
    assert("options"@[0] == 'o' && "minimum"@[0] == 'm');
    assert("program"@[0] == 'p' && "minimum"@[0] == 'm');
    assert("paths"@[0] == 'p' && "items"@[0] == 'i');
    assert("paths"@[0] == 'p' && "oneOf"@[0] == 'o');
    assert("items"@[0] == 'i' && "oneOf"@[0] == 'o');
}

/// A text that can be chosen is one of those that are listed.
pub proof fn choices_are_listed()
    ensures
        chooses(schema::event_set_schema_view(), seq!["process"@, "file_io"@]),
        chooses(schema::record_mode_schema_view(), seq!["automatic"@, "manual"@]),
        chooses(
            schema::replay_cpu_schema_view(),
            seq![
                "default"@,
                "most_conservative"@,
                "most_aggressive"@,
                "intel_avx_required"@,
                "intel_avx2_required"@,
            ],
        ),
        chooses(
            schema::ida_mode_schema_view(),
            seq!["prefer_headless"@, "force_headless"@, "prefer_gui"@, "force_gui"@],
        ),
{
    broadcast use json::added_members_are_found;

    reveal_strlit("enum");
    reveal_strlit("type");
    assert("enum"@.len() == 4 && "type"@.len() == 4);
    assert("enum"@[0] == 'e' && "type"@[0] == 't');
}

/// Whether a schema lists texts to choose from.
pub open spec fn chooses(s: JsonView, all: Seq<Seq<char>>) -> bool {
    s.get("enum"@) matches Some(JsonView::List(items)) && items.len() == all.len() && forall|i: int|
        0 <= i < items.len() ==> #[trigger] items[i] == JsonView::Text(all[i])
}

/// A tool of the backend is listed under its name behind `ida.` with its own description, behind
/// the tools of the server.
pub proof fn backend_tools_are_listed_by_name(
    tool: UpstreamToolDescriptor,
    shown: Json,
    upstream: &[UpstreamToolDescriptor],
    all: Vec<Json>,
    i: int,
)
    requires
        call_ensures(upstream_tool_descriptor_value, (&tool,), shown),
        call_ensures(tool_descriptor_values, (upstream,), all),
        0 <= i < upstream@.len(),
    ensures
        shown@.text_at("name"@) == Some("ida."@ + tool.name@),
        shown@.text_at("description"@) == Some(tool.description@),
        shown@.get("inputSchema"@) is Some,
        tool.output_schema matches Some(s) ==> shown@.get("outputSchema"@) == Some(s@),
        tool.output_schema is None ==> shown@.get("outputSchema"@) is None,
        all@.len() == 12 + upstream@.len(),
        all@[12 + i]@.text_at("name"@) == Some("ida."@ + upstream@[i].name@),
        all@[12 + i]@.text_at("description"@) == Some(upstream@[i].description@),
{
    broadcast use json::added_members_are_found;

    reveal_strlit("name");
    reveal_strlit("description");
    reveal_strlit("inputSchema");
    reveal_strlit("outputSchema");
    assert("name"@.len() == 4 && "description"@.len() == 11 && "inputSchema"@.len() == 11 && "outputSchema"@.len() == 12);
    assert("description"@[0] == 'd' && "inputSchema"@[0] == 'i');
    let views = json::items_view(all@);
    assert(schema::descriptors().len() == 12);
    assert(views.len() == 12 + upstream@.len());
    assert(views[12 + i] == all@[12 + i]@);
}

/// A tool of the server is listed with its name, its description and its schema.
pub proof fn own_tools_are_listed_first(
    tools: Vec<ToolDescriptor>,
    upstream: &[UpstreamToolDescriptor],
    all: Vec<Json>,
    i: int,
)
    requires
        call_ensures(tool_descriptors, (), tools),
        call_ensures(tool_descriptor_values, (upstream,), all),
        0 <= i < 12,
    ensures
        all@.len() >= 12,
        tools@.len() == 12,
        all@[i]@.text_at("name"@) == Some(tools@[i].name@),
        all@[i]@.text_at("description"@) == Some(tools@[i].description@),
        all@[i]@.get("inputSchema"@) == Some(tools@[i].input_schema@),
{
    broadcast use json::added_members_are_found;

    reveal_strlit("name");
    reveal_strlit("description");
    reveal_strlit("inputSchema");
    assert("name"@.len() == 4 && "description"@.len() == 11 && "inputSchema"@.len() == 11);
    assert("description"@[0] == 'd' && "inputSchema"@[0] == 'i');
    let views = json::items_view(all@);
    let own = schema::descriptor_views(tools@);
    assert(own.len() == 12);
    assert(own[i] == tools@[i]@);
    assert(views.len() == 12 + upstream@.len());
    assert(views[i] == all@[i]@);
}

/// The first symbol path replaces what was there, and each further one is added. A path that is
/// blank or would break the command is refused, and none behind it is set.
pub proof fn symbol_paths_are_set_in_order(paths: &[String], r: SymbolPlan, i: int)
    requires
        call_ensures(plan_add_symbols, (paths,), r),
        0 <= i < r.commands@.len(),
    ensures
        r.commands@.len() <= paths@.len(),
        i == 0 ==> r.commands@[i]@ == ".sympath "@ + paths@[i]@,
        i > 0 ==> r.commands@[i]@ == ".sympath+ "@ + paths@[i]@,
        r.error is None <==> r.commands@.len() == paths@.len(),
        scan::trim(paths@[i]@).len() > 0,
        forall|k: int|
            0 <= k < paths@[i]@.len() ==> '\u{1f}' < #[trigger] paths@[i]@[k] && paths@[i]@[k]
                != '\u{7f}',
{
    let all = text::views(paths@);
    good_ones(all);
    let v = text::views(r.commands@);
    assert(v.len() == registry::good_prefix(all));
    assert(v[i] == r.commands@[i]@);
    assert(all[i] == paths@[i]@);
    assert(registry::symbol_path_error(all[i]) is None);
    assert forall|k: int| 0 <= k < paths@[i]@.len() implies '\u{1f}' < #[trigger] paths@[i]@[k]
        && paths@[i]@[k] != '\u{7f}' by {
        assert(!registry::is_control(all[i][k]));
    }
}

proof fn good_ones(paths: Seq<Seq<char>>)
    ensures
        registry::good_prefix(paths) <= paths.len(),
        forall|i: int|
            0 <= i < registry::good_prefix(paths) ==> registry::symbol_path_error(
                #[trigger] paths[i],
            ) is None,
    decreases paths.len(),
{
    if paths.len() > 0 && registry::symbol_path_error(paths[0]) is None {
        let rest = paths.drop_first();
        good_ones(rest);
        assert forall|i: int| 0 <= i < registry::good_prefix(paths) implies registry::symbol_path_error(
            #[trigger] paths[i],
        ) is None by {
            if i > 0 {
                assert(rest[i - 1] == paths[i]);
            }
        }
    }
}

/// Arguments are decoded as they were given; none at all count as an empty object.
pub proof fn arguments_are_taken_as_given(arguments: Json, r: Json, name: Seq<char>)
    requires
        call_ensures(tool_arguments, (arguments,), r),
    ensures
        arguments@ !is Null ==> r@ == arguments@,
        arguments@ is Null ==> r@ is Object && r@.get(name) is None,
{
}

/// What a failed call says: a wrong call is told from a tool that failed, and each keeps its text.
pub proof fn failed_calls_keep_their_text(
    error: DbgFlowError,
    failed: ToolCallError,
    why: &str,
    wrong: ToolCallError,
    message: String,
)
    requires
        call_ensures(ToolCallError::execution, (&error,), failed),
        call_ensures(ToolCallError::invalid_arguments, (why,), wrong),
        call_ensures(ToolCallError::message, (&wrong,), message),
    ensures
        failed matches ToolCallError::Execution(m) && m@ == error@.text(),
        wrong is InvalidRequest,
        message@ == "invalid tool arguments: "@ + why@,
{
}

} // verus!
