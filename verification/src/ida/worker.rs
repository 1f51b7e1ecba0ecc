//! The tools of the analysis backend and what it says.

use crate::bytes;
use crate::error::{DbgFlowError, ErrorView};
use crate::ida::model;
use crate::ida::model::{
    DatabaseView, IdaOpenMode, IdaUpstreamSession, UpstreamToolDescriptor, UpstreamView,
};
use crate::json;
use crate::json::{parse_json, parse_json_bytes, Json, JsonView};
use crate::order;
use crate::scan;
use crate::text;
use crate::text::{cat2, cat3, cat5, chars_of, decimal_padded_text, decimal_text, same};
use vstd::prelude::*;

verus! {

pub const UPSTREAM_IDB_OPEN: &'static str = "idb_open";

pub const UPSTREAM_IDB_LIST: &'static str = "idb_list";

pub const UPSTREAM_IDB_SAVE: &'static str = "idb_save";

/// The number of tools of the backend that are offered.
pub const TOOL_COUNT: usize = 65;

/// The tools of the backend that are offered.
#[verifier::opaque]
pub open spec fn offered_tools() -> Seq<Seq<char>> {
    seq![
        "add_bookmark"@,
        "analyze_batch"@,
        "analyze_component"@,
        "analyze_function"@,
        "append_comments"@,
        "basic_blocks"@,
        "callees"@,
        "callgraph"@,
        "declare_stack"@,
        "declare_type"@,
        "decompile"@,
        "define_code"@,
        "define_func"@,
        "delete_stack"@,
        "diff_before_after"@,
        "disasm"@,
        "entity_query"@,
        "enum_upsert"@,
        "export_funcs"@,
        "find"@,
        "find_bytes"@,
        "find_regex"@,
        "find_xref_signatures"@,
        "force_recompile"@,
        "func_profile"@,
        "func_query"@,
        "get_bytes"@,
        "get_global_value"@,
        "get_int"@,
        "get_string"@,
        "idb_save"@,
        "imports"@,
        "imports_query"@,
        "infer_types"@,
        "insn_query"@,
        "int_convert"@,
        "list_funcs"@,
        "list_globals"@,
        "lookup_funcs"@,
        "make_data"@,
        "make_signature"@,
        "make_signature_for_function"@,
        "make_signature_for_range"@,
        "patch"@,
        "patch_asm"@,
        "put_int"@,
        "py_eval"@,
        "read_struct"@,
        "rename"@,
        "search_structs"@,
        "search_text"@,
        "server_health"@,
        "set_comments"@,
        "set_op_type"@,
        "set_type"@,
        "stack_frame"@,
        "survey_binary"@,
        "trace_data_flow"@,
        "type_apply_batch"@,
        "type_inspect"@,
        "type_query"@,
        "undefine"@,
        "xref_query"@,
        "xrefs_to"@,
        "xrefs_to_field"@,
    ]
}

/// The views of a list of texts.
pub open spec fn names(v: Seq<&'static str>) -> Seq<Seq<char>> {
    v.map_values(|s: &'static str| s@)
}

/// The tools of the backend that are offered.
pub fn default_upstream_tools() -> (r: [&'static str; TOOL_COUNT])
    ensures
        names(r@) == offered_tools(),
{
    let r: [&'static str; TOOL_COUNT] = [
        "add_bookmark",
        "analyze_batch",
        "analyze_component",
        "analyze_function",
        "append_comments",
        "basic_blocks",
        "callees",
        "callgraph",
        "declare_stack",
        "declare_type",
        "decompile",
        "define_code",
        "define_func",
        "delete_stack",
        "diff_before_after",
        "disasm",
        "entity_query",
        "enum_upsert",
        "export_funcs",
        "find",
        "find_bytes",
        "find_regex",
        "find_xref_signatures",
        "force_recompile",
        "func_profile",
        "func_query",
        "get_bytes",
        "get_global_value",
        "get_int",
        "get_string",
        "idb_save",
        "imports",
        "imports_query",
        "infer_types",
        "insn_query",
        "int_convert",
        "list_funcs",
        "list_globals",
        "lookup_funcs",
        "make_data",
        "make_signature",
        "make_signature_for_function",
        "make_signature_for_range",
        "patch",
        "patch_asm",
        "put_int",
        "py_eval",
        "read_struct",
        "rename",
        "search_structs",
        "search_text",
        "server_health",
        "set_comments",
        "set_op_type",
        "set_type",
        "stack_frame",
        "survey_binary",
        "trace_data_flow",
        "type_apply_batch",
        "type_inspect",
        "type_query",
        "undefine",
        "xref_query",
        "xrefs_to",
        "xrefs_to_field",
    ];
    assert(names(r@) =~= offered_tools()) by {
        reveal(offered_tools);
    }
    r
}

/// Whether a tool of the backend may be called: it is offered, it neither opens nor lists
/// databases, it runs no files, and it drives no debugger.
pub open spec fn allowed_tool(name: Seq<char>) -> bool {
    &&& offered_tools().contains(name)
    &&& name != "py_exec_file"@
    &&& name != UPSTREAM_IDB_OPEN@
    &&& name != UPSTREAM_IDB_LIST@
    &&& !scan::starts(name, "dbg_"@)
}

/// Whether a tool of the backend may be called.
pub fn is_allowed_upstream_tool(tool_name: &str) -> (r: bool)
    ensures
        r == allowed_tool(tool_name@),
{
    let tools = default_upstream_tools();
    let ghost all = offered_tools();
    let mut found = false;
    let mut i: usize = 0;
    while i < TOOL_COUNT
        invariant
            i <= TOOL_COUNT,
            all == names(tools@),
            all.len() == TOOL_COUNT,
            found <==> exists|j: int| 0 <= j < i && #[trigger] all[j] == tool_name@,
        decreases TOOL_COUNT - i,
    {
        assert(all[i as int] == tools@[i as int]@);
        if same(tools[i], tool_name) {
            found = true;
            assert(all[i as int] == tool_name@);
        }
        i += 1;
    }
    assert(found <==> all.contains(tool_name@));
    found && !same(tool_name, "py_exec_file") && !same(tool_name, UPSTREAM_IDB_OPEN) && !same(
        tool_name,
        UPSTREAM_IDB_LIST,
    ) && !scan::starts_with(tool_name, "dbg_")
}

/// Whether a text is a line of its own that is neither empty nor a comment.
pub open spec fn names_tool(line: Seq<char>) -> bool {
    line.len() > 0 && line[0] != '#'
}

/// Whether a text can stand on a line of its own.
spec fn fits_a_line(line: Seq<char>) -> bool {
    scan::free_from(line, '\n', 0) && (line.len() > 0 ==> line.last() != '\r')
}

/// What the names of the tools that are offered look like.
proof fn offered_names()
    ensures
        forall|i: int|
            #![trigger offered_tools()[i]]
            0 <= i < offered_tools().len() ==> names_tool(offered_tools()[i]) && fits_a_line(
                offered_tools()[i],
            ) && allowed_tool(offered_tools()[i]),
        offered_tools().no_duplicates(),
{
    reveal(offered_tools);
    reveal_strlit("add_bookmark");
    reveal_strlit("analyze_batch");
    reveal_strlit("analyze_component");
    reveal_strlit("analyze_function");
    reveal_strlit("append_comments");
    reveal_strlit("basic_blocks");
    reveal_strlit("callees");
    reveal_strlit("callgraph");
    reveal_strlit("declare_stack");
    reveal_strlit("declare_type");
    reveal_strlit("decompile");
    reveal_strlit("define_code");
    reveal_strlit("define_func");
    reveal_strlit("delete_stack");
    reveal_strlit("diff_before_after");
    reveal_strlit("disasm");
    reveal_strlit("entity_query");
    reveal_strlit("enum_upsert");
    reveal_strlit("export_funcs");
    reveal_strlit("find");
    reveal_strlit("find_bytes");
    reveal_strlit("find_regex");
    reveal_strlit("find_xref_signatures");
    reveal_strlit("force_recompile");
    reveal_strlit("func_profile");
    reveal_strlit("func_query");
    reveal_strlit("get_bytes");
    reveal_strlit("get_global_value");
    reveal_strlit("get_int");
    reveal_strlit("get_string");
    reveal_strlit("idb_save");
    reveal_strlit("imports");
    reveal_strlit("imports_query");
    reveal_strlit("infer_types");
    reveal_strlit("insn_query");
    reveal_strlit("int_convert");
    reveal_strlit("list_funcs");
    reveal_strlit("list_globals");
    reveal_strlit("lookup_funcs");
    reveal_strlit("make_data");
    reveal_strlit("make_signature");
    reveal_strlit("make_signature_for_function");
    reveal_strlit("make_signature_for_range");
    reveal_strlit("patch");
    reveal_strlit("patch_asm");
    reveal_strlit("put_int");
    reveal_strlit("py_eval");
    reveal_strlit("read_struct");
    reveal_strlit("rename");
    reveal_strlit("search_structs");
    reveal_strlit("search_text");
    reveal_strlit("server_health");
    reveal_strlit("set_comments");
    reveal_strlit("set_op_type");
    reveal_strlit("set_type");
    reveal_strlit("stack_frame");
    reveal_strlit("survey_binary");
    reveal_strlit("trace_data_flow");
    reveal_strlit("type_apply_batch");
    reveal_strlit("type_inspect");
    reveal_strlit("type_query");
    reveal_strlit("undefine");
    reveal_strlit("xref_query");
    reveal_strlit("xrefs_to");
    reveal_strlit("xrefs_to_field");
    reveal_strlit("py_exec_file");
    reveal_strlit("idb_open");
    reveal_strlit("idb_list");
    reveal_strlit("dbg_");
    let all = offered_tools();
    assert forall|i: int| 0 <= i < all.len() implies allowed_tool(#[trigger] all[i]) by {
        let t = all[i];
        if scan::starts(t, "dbg_"@) {
            assert(t.take(4)[0] == 'd' && t.take(4)[1] == 'b');
            assert(t[0] == 'd' && t[1] == 'b');
        }
        if t == "py_exec_file"@ {
            assert(t.len() == 12 && t[0] == 'p' && t[1] == 'y');
        }
        if t == "idb_open"@ || t == "idb_list"@ {
            assert(t.len() == 8 && t[0] == 'i' && t[4] != 's');
        }
    }
    assert forall|i: int| 0 <= i < all.len() implies names_tool(#[trigger] all[i]) && fits_a_line(
        all[i],
    ) by {
        reveal_with_fuel(scan::free_from, 29);
    }
    assert forall|i: int| 0 <= i < all.len() - 1 implies order::text_lt(
        #[trigger] all[i],
        all[i + 1],
        0,
    ) by {
        reveal_with_fuel(order::text_lt, 29);
    }
    order::increasing_texts_differ(all);
}

/// Each tool that is offered may be called: none of them opens or lists databases, runs files
/// or drives a debugger.
pub proof fn offered_tools_are_allowed(name: Seq<char>)
    ensures
        allowed_tool(name) <==> offered_tools().contains(name),
{
    offered_names();
    let all = offered_tools();
    if all.contains(name) {
        let i = choose|i: int| 0 <= i < all.len() && all[i] == name;
        assert(allowed_tool(all[i]));
    }
}

/// What the profile for the backend is.
pub const PROFILE_TITLE: &'static str = "# dbgflow default ida-pro-mcp profile";

/// What the profile for the backend leaves out.
pub const PROFILE_NOTE: &'static str = "# Generated by dbgflow; debugger tools and py_exec_file are intentionally excluded.";

/// The lines of the profile for the backend: two comments, an empty line, and the tools that are
/// offered.
pub open spec fn profile_lines() -> Seq<Seq<char>> {
    seq![PROFILE_TITLE@, PROFILE_NOTE@, Seq::empty()] + offered_tools()
}

/// Each text on a line of its own.
pub open spec fn on_lines(texts: Seq<Seq<char>>) -> Seq<char>
    decreases texts.len(),
{
    if texts.len() == 0 {
        Seq::empty()
    } else {
        on_lines(texts.drop_last()) + texts.last() + "\n"@
    }
}

/// Texts that fit a line each are found again as the lines of the text that they make.
proof fn lines_are_found(texts: Seq<Seq<char>>)
    requires
        forall|i: int| 0 <= i < texts.len() ==> fits_a_line(#[trigger] texts[i]),
    ensures
        scan::lines(on_lines(texts)) == texts,
        texts.len() > 0 ==> on_lines(texts).len() > 0 && on_lines(texts).last() == '\n',
    decreases texts.len(),
{
    if texts.len() > 0 {
        reveal_strlit("\n");
        let front = texts.drop_last();
        let last = texts.last();
        assert(fits_a_line(texts[texts.len() - 1]));
        lines_are_found(front);
        scan::free_from_all(last, '\n', 0);
        scan::first_line(last, Seq::empty());
        assert(last.push('\n') + Seq::empty() =~= last + "\n"@);
        assert(scan::lines(last + "\n"@) =~= seq![last]);
        scan::whole_lines_stay(on_lines(front), last + "\n"@);
        assert(on_lines(texts) =~= on_lines(front) + (last + "\n"@));
        assert(front + seq![last] =~= texts);
    } else {
        assert(scan::lines(on_lines(texts)) =~= texts);
    }
}

/// The lines that name tools.
pub open spec fn tools_in(lines: Seq<Seq<char>>) -> Seq<Seq<char>>
    decreases lines.len(),
{
    if lines.len() == 0 {
        Seq::empty()
    } else if names_tool(lines.last()) {
        tools_in(lines.drop_last()).push(lines.last())
    } else {
        tools_in(lines.drop_last())
    }
}

/// The tools that a profile names: its lines that are neither empty nor comments.
pub open spec fn profile_tools(text: Seq<char>) -> Seq<Seq<char>> {
    tools_in(scan::lines(text))
}

/// Where only the last lines name tools, these lines are the tools.
proof fn tools_behind(head: Seq<Seq<char>>, rest: Seq<Seq<char>>)
    requires
        forall|i: int| 0 <= i < head.len() ==> !names_tool(#[trigger] head[i]),
        forall|i: int| 0 <= i < rest.len() ==> names_tool(#[trigger] rest[i]),
    ensures
        tools_in(head + rest) == rest,
    decreases head.len() + rest.len(),
{
    let all = head + rest;
    if rest.len() > 0 {
        assert(all.drop_last() =~= head + rest.drop_last());
        assert(all.last() == rest[rest.len() - 1]);
        tools_behind(head, rest.drop_last());
        assert(rest.drop_last().push(rest.last()) =~= rest);
    } else if head.len() > 0 {
        assert(all.drop_last() =~= head.drop_last() + rest);
        assert(all.last() == head[head.len() - 1]);
        tools_behind(head.drop_last(), rest);
    } else {
        assert(tools_in(all) =~= rest);
    }
}

proof fn head_of_profile()
    ensures
        forall|i: int|
            #![trigger profile_lines()[i]]
            0 <= i < 3 ==> fits_a_line(profile_lines()[i]) && !names_tool(profile_lines()[i]),
{
    reveal_strlit("# dbgflow default ida-pro-mcp profile");
    reveal_strlit(
        "# Generated by dbgflow; debugger tools and py_exec_file are intentionally excluded.",
    );
    let all = profile_lines();
    assert(all[0] == PROFILE_TITLE@ && all[1] == PROFILE_NOTE@);
    assert(all[2] =~= Seq::<char>::empty());
    assert(fits_a_line(PROFILE_TITLE@) && fits_a_line(PROFILE_NOTE@)) by {
        reveal_with_fuel(scan::free_from, 90);
    }
}

/// The profile names each tool that may be called, once, and no other: none that drives a
/// debugger, and none that runs files.
pub proof fn profile_names_the_allowed_tools(name: Seq<char>)
    ensures
        scan::lines(on_lines(profile_lines())) == profile_lines(),
        profile_tools(on_lines(profile_lines())) == offered_tools(),
        profile_tools(on_lines(profile_lines())).no_duplicates(),
        profile_tools(on_lines(profile_lines())).contains(name) <==> allowed_tool(name),
        scan::lines(on_lines(profile_lines())).contains(name) ==> !scan::starts(name, "dbg_"@),
        !profile_tools(on_lines(profile_lines())).contains("py_exec_file"@),
        profile_tools(on_lines(profile_lines())).contains("py_eval"@),
{
    let all = profile_lines();
    let tools = offered_tools();
    let head = seq![PROFILE_TITLE@, PROFILE_NOTE@, Seq::<char>::empty()];
    offered_names();
    head_of_profile();
    assert forall|i: int| 0 <= i < all.len() implies fits_a_line(#[trigger] all[i]) by {
        if i >= 3 {
            assert(all[i] == tools[i - 3]);
        }
    }
    lines_are_found(all);
    assert forall|i: int| 0 <= i < head.len() implies !names_tool(#[trigger] head[i]) by {
        assert(head[i] == all[i]);
    }
    tools_behind(head, tools);
    offered_tools_are_allowed(name);
    offered_tools_are_allowed("py_exec_file"@);
    assert(tools.len() > 46 && tools[46] == "py_eval"@) by {
        reveal(offered_tools);
    }
    if all.contains(name) && scan::starts(name, "dbg_"@) {
        reveal_strlit("dbg_");
        let i = choose|i: int| 0 <= i < all.len() && all[i] == name;
        if i >= 3 {
            assert(all[i] == tools[i - 3]);
            assert(allowed_tool(tools[i - 3]));
        } else {
            assert(name.take(4)[0] == 'd');
            assert(names_tool(all[i]));
        }
    }
}

/// The profile for the backend: it names the tools that are offered.
pub fn default_profile_text() -> (r: String)
    ensures
        r@ == on_lines(profile_lines()),
        profile_tools(r@) == offered_tools(),
{
    let tools = default_upstream_tools();
    let ghost all = profile_lines();
    proof {
        reveal_strlit("");
        profile_names_the_allowed_tools(Seq::empty());
        let none = all.take(0);
        assert(none =~= Seq::<Seq<char>>::empty());
        assert(all.take(1).drop_last() =~= none && all.take(1).last() == PROFILE_TITLE@);
        assert(all.take(2).drop_last() =~= all.take(1) && all.take(2).last() == PROFILE_NOTE@);
        assert(all.take(3).drop_last() =~= all.take(2) && all.take(3).last() =~= ""@);
    }
    let mut out = cat2(PROFILE_TITLE, "\n");
    assert(on_lines(all.take(1)) == on_lines(all.take(0)) + PROFILE_TITLE@ + "\n"@);
    assert(on_lines(all.take(0)) =~= Seq::<char>::empty());
    assert(out@ =~= on_lines(all.take(1)));
    out.append(PROFILE_NOTE);
    out.append("\n");
    assert(out@ =~= on_lines(all.take(2)));
    out.append("\n");
    assert(out@ =~= on_lines(all.take(3)));
    let mut i: usize = 0;
    while i < TOOL_COUNT
        invariant
            i <= TOOL_COUNT,
            all == profile_lines(),
            names(tools@) == offered_tools(),
            offered_tools().len() == TOOL_COUNT,
            out@ == on_lines(all.take(i + 3)),
        decreases TOOL_COUNT - i,
    {
        let ghost before = on_lines(all.take(i + 3));
        assert(all.take(i + 4).drop_last() =~= all.take(i + 3));
        assert(all.take(i + 4).last() == names(tools@)[i as int]);
        out.append(tools[i]);
        out.append("\n");
        assert(out@ =~= before + tools@[i as int]@ + "\n"@);
        i += 1;
    }
    assert(all.take(i + 3) =~= all);
    out
}

/// The schema of a tool that the backend does not describe.
pub open spec fn plain_schema() -> JsonView {
    JsonView::object().with_text("type"@, "object"@).with(
        "properties"@,
        JsonView::object().with(
            "session_id"@,
            JsonView::object().with_text("type"@, "string"@).with_text(
                "description"@,
                "dbgflow IDA session id returned by ida.create_session."@,
            ),
        ),
    ).with("required"@, JsonView::List(seq![JsonView::Text("session_id"@)])).with(
        "additionalProperties"@,
        JsonView::Bool(true),
    )
}

/// The schema of a tool that the backend does not describe.
pub fn default_upstream_input_schema() -> (r: Json)
    ensures
        r@ == plain_schema(),
{
    let mut required: Vec<Json> = Vec::new();
    required.push(Json::text("session_id"));
    assert(json::items_view(required@) =~= seq![JsonView::Text("session_id"@)]);
    Json::object().with_text("type", "object").with(
        "properties",
        Json::object().with(
            "session_id",
            Json::object().with_text("type", "string").with_text(
                "description",
                "dbgflow IDA session id returned by ida.create_session.",
            ),
        ),
    ).with("required", Json::list(required)).with("additionalProperties", Json::Bool(true))
}

/// The views of a list of tools.
pub open spec fn tools_view(v: Seq<UpstreamToolDescriptor>) -> Seq<UpstreamView> {
    v.map_values(|t: UpstreamToolDescriptor| t@)
}

/// A tool that is known by its name alone.
pub open spec fn plain_tool(name: Seq<char>) -> UpstreamView {
    UpstreamView {
        name,
        description: "IDA Pro MCP upstream tool `"@ + name + "`."@,
        input_schema: plain_schema(),
        output_schema: None,
    }
}

/// The tools that are offered when the backend cannot be asked for them.
pub fn fallback_tool_descriptors() -> (r: Vec<UpstreamToolDescriptor>)
    ensures
        tools_view(r@) == offered_tools().map_values(|n: Seq<char>| plain_tool(n)),
{
    let tools = default_upstream_tools();
    let ghost all = offered_tools();
    let mut out: Vec<UpstreamToolDescriptor> = Vec::new();
    let mut i: usize = 0;
    while i < TOOL_COUNT
        invariant
            i <= TOOL_COUNT,
            all == names(tools@),
            all.len() == TOOL_COUNT,
            out@.len() == i,
            forall|j: int| 0 <= j < i ==> (#[trigger] out@[j])@ == plain_tool(all[j]),
        decreases TOOL_COUNT - i,
    {
        assert(all[i as int] == tools@[i as int]@);
        out.push(
            UpstreamToolDescriptor {
                name: tools[i].to_owned(),
                description: cat3("IDA Pro MCP upstream tool `", tools[i], "`."),
                input_schema: default_upstream_input_schema(),
                output_schema: None,
            },
        );
        i += 1;
    }
    assert(tools_view(out@) =~= all.map_values(|n: Seq<char>| plain_tool(n)));
    out
}

/// A text, or another one if it is missing.
pub open spec fn text_or(o: Option<Seq<char>>, other: Seq<char>) -> Seq<char> {
    match o {
        Some(s) => s,
        None => other,
    }
}

/// A tool as the backend describes it, if it has a name.
pub open spec fn described_tool(value: JsonView) -> Option<UpstreamView> {
    match value.text_at("name"@) {
        None => None,
        Some(name) => Some(
            UpstreamView {
                name,
                description: text_or(
                    value.text_at("description"@),
                    "IDA Pro MCP upstream tool"@,
                ),
                input_schema: match value.get("inputSchema"@) {
                    Some(s) => s,
                    None => plain_schema(),
                },
                output_schema: value.get("outputSchema"@),
            },
        ),
    }
}

/// The view of an optional tool.
pub open spec fn tool_opt(o: Option<UpstreamToolDescriptor>) -> Option<UpstreamView> {
    match o {
        Some(t) => Some(t@),
        None => None,
    }
}

/// Reads the description of a tool.
pub fn upstream_tool_descriptor_from_value(value: &Json) -> (r: Option<UpstreamToolDescriptor>)
    ensures
        tool_opt(r) == described_tool(value@),
{
    let name = match value.text_at("name") {
        Some(name) => name.to_owned(),
        None => {
            return None;
        },
    };
    let description = match value.text_at("description") {
        Some(description) => description.to_owned(),
        None => "IDA Pro MCP upstream tool".to_owned(),
    };
    let input_schema = match value.get("inputSchema") {
        Some(schema) => schema.duplicate(),
        None => default_upstream_input_schema(),
    };
    let output_schema = match value.get("outputSchema") {
        Some(schema) => Some(schema.duplicate()),
        None => None,
    };
    Some(UpstreamToolDescriptor { name, description, input_schema, output_schema })
}

/// The tools of a list that may be called.
pub open spec fn listed_tools(items: Seq<JsonView>) -> Seq<UpstreamView>
    decreases items.len(),
{
    if items.len() == 0 {
        Seq::empty()
    } else {
        let before = listed_tools(items.drop_last());
        match described_tool(items.last()) {
            Some(t) => if allowed_tool(t.name) {
                before.push(t)
            } else {
                before
            },
            None => before,
        }
    }
}

/// Reads the answer to the question which tools there are.
pub fn tools_from_response(result: &Json) -> (r: Result<Vec<UpstreamToolDescriptor>, DbgFlowError>)
    ensures
        match result@.get("tools"@) {
            Some(JsonView::List(items)) => r matches Ok(v) && tools_view(v@) == listed_tools(items),
            _ => r matches Err(e) && e@ == ErrorView::Backend(
                "tools/list response missing tools"@,
            ),
        },
{
    let items = match result.get("tools") {
        Some(Json::List(items)) => items,
        _ => {
            return Err(DbgFlowError::backend("tools/list response missing tools"));
        },
    };
    proof {
        json::list_view(*items);
    }
    let ghost all = json::items_view(items@);
    let mut out: Vec<UpstreamToolDescriptor> = Vec::new();
    let mut i: usize = 0;
    assert(all.take(0) =~= Seq::<JsonView>::empty());
    assert(tools_view(out@) =~= listed_tools(all.take(0)));
    while i < items.len()
        invariant
            i <= items@.len(),
            all == json::items_view(items@),
            tools_view(out@) == listed_tools(all.take(i as int)),
        decreases items@.len() - i,
    {
        let ghost before = tools_view(out@);
        assert(all.take(i + 1).drop_last() =~= all.take(i as int));
        assert(all.take(i + 1).last() == items@[i as int]@);
        match upstream_tool_descriptor_from_value(&items[i]) {
            Some(tool) => {
                if is_allowed_upstream_tool(tool.name.as_str()) {
                    out.push(tool);
                    assert(tools_view(out@) =~= before.push(tool@));
                }
            },
            None => {},
        }
        i += 1;
    }
    assert(all.take(i as int) =~= all);
    Ok(out)
}

/// What a tool of the backend answered.
#[derive(Debug)]
pub struct SupervisorToolCallResult {
    pub structured_content: Json,
    pub mcp_result: Json,
    pub is_error: bool,
    pub error_message: Option<String>,
}

/// The mathematical form of what a tool answered.
#[verifier::ext_equal]
pub struct ToolResultView {
    pub structured_content: JsonView,
    pub mcp_result: JsonView,
    pub is_error: bool,
    pub error_message: Option<Seq<char>>,
}

impl View for SupervisorToolCallResult {
    type V = ToolResultView;

    open spec fn view(&self) -> ToolResultView {
        ToolResultView {
            structured_content: self.structured_content@,
            mcp_result: self.mcp_result@,
            is_error: self.is_error,
            error_message: text::view_opt(self.error_message),
        }
    }
}

/// The text of the first piece of content.
pub open spec fn content_text(result: JsonView) -> Option<Seq<char>> {
    match result.get("content"@) {
        Some(JsonView::List(items)) => if items.len() > 0 {
            items[0].text_at("text"@)
        } else {
            None
        },
        _ => None,
    }
}

/// What a tool answered, given what its text content reads as.
pub open spec fn decoded_result(
    result: JsonView,
    content: Option<JsonView>,
) -> ToolResultView {
    let is_error = result.bool_at("isError"@) == Some(true);
    ToolResultView {
        structured_content: match result.get("structuredContent"@) {
            Some(v) => v,
            None => match content {
                Some(v) => v,
                None => JsonView::Null,
            },
        },
        mcp_result: result,
        is_error,
        error_message: if is_error {
            Some(text_or(content_text(result), "ida-pro-mcp tool call failed"@))
        } else {
            None
        },
    }
}

/// What the text content of an answer reads as.
pub open spec fn content_value(result: JsonView) -> Option<JsonView> {
    match content_text(result) {
        Some(t) => match json::json_read(t) {
            Ok(v) => Some(v),
            Err(_) => None,
        },
        None => None,
    }
}

fn first_content_text(result: &Json) -> (r: Option<&str>)
    ensures
        match r {
            Some(s) => content_text(result@) == Some(s@),
            None => content_text(result@) is None,
        },
{
    match result.get("content") {
        Some(Json::List(items)) => {
            proof {
                json::list_view(*items);
            }
            if items.len() > 0 {
                assert(json::items_view(items@)[0] == items@[0]@);
                items[0].text_at("text")
            } else {
                None
            }
        },
        _ => None,
    }
}

/// What the text content of an answer reads as.
pub fn content_text_json(result: &Json) -> (r: Option<Json>)
    ensures
        model::json_opt(r) == content_value(result@),
{
    match first_content_text(result) {
        Some(text) => match parse_json(text) {
            Ok(value) => Some(value),
            Err(_) => None,
        },
        None => None,
    }
}

/// The text with which a tool reports an error.
pub fn tool_error_text(result: &Json) -> (r: String)
    ensures
        r@ == text_or(content_text(result@), "ida-pro-mcp tool call failed"@),
{
    match first_content_text(result) {
        Some(text) => text.to_owned(),
        None => "ida-pro-mcp tool call failed".to_owned(),
    }
}

/// Puts together what a tool answered, given what its text content reads as.
pub fn assemble_tool_result(result: Json, content: Option<Json>) -> (r: SupervisorToolCallResult)
    ensures
        r@ == decoded_result(result@, model::json_opt(content)),
{
    let is_error = match result.bool_at("isError") {
        Some(b) => b,
        None => false,
    };
    let structured_content = match result.get("structuredContent") {
        Some(value) => value.duplicate(),
        None => match content {
            Some(value) => value,
            None => Json::Null,
        },
    };
    let error_message = if is_error {
        Some(tool_error_text(&result))
    } else {
        None
    };
    SupervisorToolCallResult { structured_content, mcp_result: result, is_error, error_message }
}

/// Reads what a tool answered.
pub fn decode_tool_result(result: Json) -> (r: SupervisorToolCallResult)
    ensures
        r@ == decoded_result(result@, content_value(result@)),
{
    let content = content_text_json(&result);
    assemble_tool_result(result, content)
}

/// A process number out of a larger one.
pub open spec fn pid_of(n: Option<u64>) -> Option<u32> {
    match n {
        Some(n) => Some((n % 0x1_0000_0000) as u32),
        None => None,
    }
}

fn to_pid(n: Option<u64>) -> (r: Option<u32>)
    ensures
        r == pid_of(n),
{
    match n {
        Some(n) => Some((n % 0x1_0000_0000) as u32),
        None => None,
    }
}

/// A database as the backend lists it. Only one that the backend has not adopted may lack an
/// identifier.
pub open spec fn listed_database(value: JsonView) -> Result<DatabaseView, Seq<char>> {
    let database_id = text_or(value.text_at("session_id"@), Seq::empty());
    if value !is Object {
        Err("IDA session entry is not an object"@)
    } else if database_id.len() == 0 && value.bool_at("adopted"@) != Some(false) {
        Err("IDA session entry missing session_id"@)
    } else {
        Ok(
            DatabaseView {
                database_id,
                input_path: text_or(value.text_at("input_path"@), Seq::empty()),
                filename: text_or(value.text_at("filename"@), Seq::empty()),
                backend: value.text_at("backend"@),
                adopted: value.bool_at("adopted"@),
                owned: value.bool_at("owned"@),
                pid: pid_of(value.unsigned_at("pid"@)),
                worker_pid: pid_of(value.unsigned_at("worker_pid"@)),
                is_active: value.bool_at("is_active"@),
                is_analyzing: value.bool_at("is_analyzing"@),
                metadata: match value.get("metadata"@) {
                    Some(m) => m,
                    None => JsonView::Null,
                },
            },
        )
    }
}

fn text_at_or_empty(value: &Json, name: &str) -> (r: String)
    ensures
        r@ == text_or(value@.text_at(name@), Seq::empty()),
{
    match value.text_at(name) {
        Some(s) => s.to_owned(),
        None => String::new(),
    }
}

/// Reads a database as the backend lists it.
pub fn ida_session_from_value(value: &Json) -> (r: Result<IdaUpstreamSession, DbgFlowError>)
    ensures
        match r {
            Ok(s) => listed_database(value@) matches Ok(d) && s@ == d,
            Err(e) => listed_database(value@) matches Err(m) && e@ == ErrorView::Backend(m),
        },
{
    if !value.is_object() {
        return Err(DbgFlowError::backend("IDA session entry is not an object"));
    }
    let database_id = text_at_or_empty(value, "session_id");
    let adopted = value.bool_at("adopted");
    let unadopted = match adopted {
        Some(b) => !b,
        None => false,
    };
    if database_id.as_str().is_empty() && !unadopted {
        return Err(DbgFlowError::backend("IDA session entry missing session_id"));
    }
    let backend = match value.text_at("backend") {
        Some(s) => Some(s.to_owned()),
        None => None,
    };
    let metadata = match value.get("metadata") {
        Some(m) => m.duplicate(),
        None => Json::Null,
    };
    let r = IdaUpstreamSession {
        database_id,
        input_path: text_at_or_empty(value, "input_path"),
        filename: text_at_or_empty(value, "filename"),
        backend,
        adopted,
        owned: value.bool_at("owned"),
        pid: to_pid(value.unsigned_at("pid")),
        worker_pid: to_pid(value.unsigned_at("worker_pid")),
        is_active: value.bool_at("is_active"),
        is_analyzing: value.bool_at("is_analyzing"),
        metadata,
    };
    Ok(r)
}

/// The views of a list of databases.
pub open spec fn databases_view(v: Seq<IdaUpstreamSession>) -> Seq<DatabaseView> {
    v.map_values(|s: IdaUpstreamSession| s@)
}

/// The databases of a list, or what is wrong with the first of them with which something is.
pub open spec fn listed_databases(items: Seq<JsonView>) -> Result<Seq<DatabaseView>, Seq<char>>
    decreases items.len(),
{
    if items.len() == 0 {
        Ok(Seq::empty())
    } else {
        match listed_databases(items.drop_last()) {
            Err(e) => Err(e),
            Ok(before) => match listed_database(items.last()) {
                Ok(d) => Ok(before.push(d)),
                Err(e) => Err(e),
            },
        }
    }
}

proof fn wrong_stays_wrong(items: Seq<JsonView>, n: int)
    requires
        0 <= n <= items.len(),
        listed_databases(items.take(n)) is Err,
    ensures
        listed_databases(items) == listed_databases(items.take(n)),
    decreases items.len() - n,
{
    if n == items.len() {
        assert(items.take(n) =~= items);
    } else {
        assert(items.take(n + 1).drop_last() =~= items.take(n));
        wrong_stays_wrong(items, n + 1);
    }
}

/// The databases that the backend reports.
pub open spec fn reported_databases(content: JsonView) -> Result<Seq<DatabaseView>, Seq<char>> {
    match content.text_at("error"@) {
        Some(e) => Err(e),
        None => match content.get("sessions"@) {
            Some(JsonView::List(items)) => listed_databases(items),
            _ => Err("idb_list response missing sessions"@),
        },
    }
}

/// Reads the answer to the question which databases are open.
pub fn sessions_from_content(content: &Json) -> (r: Result<Vec<IdaUpstreamSession>, DbgFlowError>)
    ensures
        match r {
            Ok(v) => reported_databases(content@) matches Ok(d) && databases_view(v@) == d,
            Err(e) => reported_databases(content@) matches Err(m) && e@ == ErrorView::Backend(m),
        },
{
    match content.text_at("error") {
        Some(error) => {
            return Err(DbgFlowError::backend(error));
        },
        None => {},
    }
    let items = match content.get("sessions") {
        Some(Json::List(items)) => items,
        _ => {
            return Err(DbgFlowError::backend("idb_list response missing sessions"));
        },
    };
    proof {
        json::list_view(*items);
    }
    let ghost all = json::items_view(items@);
    let mut out: Vec<IdaUpstreamSession> = Vec::new();
    let mut i: usize = 0;
    assert(all.take(0) =~= Seq::<JsonView>::empty());
    assert(databases_view(out@) =~= Seq::<DatabaseView>::empty());
    while i < items.len()
        invariant
            i <= items@.len(),
            all == json::items_view(items@),
            content@.text_at("error"@) is None,
            content@.get("sessions"@) == Some(JsonView::List(all)),
            listed_databases(all.take(i as int)) matches Ok(d) && d == databases_view(out@),
        decreases items@.len() - i,
    {
        let ghost before = databases_view(out@);
        assert(all.take(i + 1).drop_last() =~= all.take(i as int));
        assert(all.take(i + 1).last() == items@[i as int]@);
        match ida_session_from_value(&items[i]) {
            Ok(session) => {
                out.push(session);
                assert(databases_view(out@) =~= before.push(session@));
            },
            Err(error) => {
                proof {
                    wrong_stays_wrong(all, i + 1);
                }
                return Err(error);
            },
        }
        i += 1;
    }
    assert(all.take(i as int) =~= all);
    Ok(out)
}

/// A request to open a database.
#[derive(Debug)]
pub struct OpenIdaDatabase {
    pub input_path: String,
    pub mode: IdaOpenMode,
    pub run_auto_analysis: bool,
    pub build_caches: bool,
    pub init_hexrays: bool,
    pub idle_ttl_sec: u64,
    pub preferred_session_id: String,
    pub startup_timeout_ms: u64,
}

/// A duration that is not zero.
pub open spec fn at_least_one(ms: u64) -> u64 {
    if ms == 0 {
        1
    } else {
        ms
    }
}

/// A number of milliseconds in seconds, as a decimal fraction.
pub open spec fn seconds(ms: nat) -> Seq<char> {
    let rest = ms % 1000;
    text::decimal(ms / 1000) + "."@ + (if rest % 100 == 0 {
        text::decimal(rest / 100)
    } else if rest % 10 == 0 {
        text::zero_padded(text::decimal(rest / 10), 2)
    } else {
        text::zero_padded(text::decimal(rest), 3)
    })
}

/// A number of milliseconds in seconds, as a decimal fraction.
pub fn seconds_text(ms: u64) -> (r: String)
    ensures
        r@ == seconds(ms as nat),
{
    let rest: u64 = ms % 1000;
    let fraction = if rest % 100 == 0 {
        decimal_text(rest / 100)
    } else if rest % 10 == 0 {
        decimal_padded_text(rest / 10, 2)
    } else {
        decimal_padded_text(rest, 3)
    };
    cat3(decimal_text(ms / 1000).as_str(), ".", fraction.as_str())
}

/// The arguments with which a database is opened.
pub open spec fn open_arguments(request: OpenIdaDatabase) -> JsonView {
    JsonView::object().with_text("input_path"@, request.input_path@).with_text(
        "mode"@,
        model::mode_name(request.mode),
    ).with("run_auto_analysis"@, JsonView::Bool(request.run_auto_analysis)).with(
        "build_caches"@,
        JsonView::Bool(request.build_caches),
    ).with("init_hexrays"@, JsonView::Bool(request.init_hexrays)).with(
        "idle_ttl_sec"@,
        JsonView::Unsigned(request.idle_ttl_sec),
    ).with_text("preferred_session_id"@, request.preferred_session_id@).with(
        "open_timeout_sec"@,
        JsonView::Decimal(seconds(at_least_one(request.startup_timeout_ms) as nat)),
    )
}

impl OpenIdaDatabase {
    fn effective_timeout(&self) -> (r: u64)
        ensures
            r == at_least_one(self.startup_timeout_ms),
    {
        if self.startup_timeout_ms == 0 {
            1
        } else {
            self.startup_timeout_ms
        }
    }

    /// The arguments with which the database is opened.
    pub fn arguments(&self) -> (r: Json)
        ensures
            r@ == open_arguments(*self),
    {
        Json::object().with_text("input_path", self.input_path.as_str()).with_text(
            "mode",
            self.mode.as_upstream(),
        ).with("run_auto_analysis", Json::Bool(self.run_auto_analysis)).with(
            "build_caches",
            Json::Bool(self.build_caches),
        ).with("init_hexrays", Json::Bool(self.init_hexrays)).with(
            "idle_ttl_sec",
            Json::Unsigned(self.idle_ttl_sec),
        ).with_text("preferred_session_id", self.preferred_session_id.as_str()).with(
            "open_timeout_sec",
            Json::Decimal(seconds_text(self.effective_timeout())),
        )
    }

    /// How long the answer is waited for, in milliseconds: half a minute longer than the
    /// database may take.
    pub fn request_timeout_ms(&self) -> (r: u64)
        ensures
            r == if at_least_one(self.startup_timeout_ms) > u64::MAX - 30000 {
                u64::MAX as int
            } else {
                at_least_one(self.startup_timeout_ms) + 30000
            },
    {
        let timeout = self.effective_timeout();
        if timeout > u64::MAX - 30000 {
            u64::MAX
        } else {
            timeout + 30000
        }
    }
}

/// What is known of a database that was opened.
#[derive(Debug)]
pub struct OpenIdaDatabaseResult {
    pub session: IdaUpstreamSession,
    pub warmup: Option<Json>,
    pub message: Option<String>,
}

/// The mathematical form of what is known of a database that was opened.
#[verifier::ext_equal]
pub struct OpenedView {
    pub session: DatabaseView,
    pub warmup: Option<JsonView>,
    pub message: Option<Seq<char>>,
}

impl View for OpenIdaDatabaseResult {
    type V = OpenedView;

    open spec fn view(&self) -> OpenedView {
        OpenedView {
            session: self.session@,
            warmup: model::json_opt(self.warmup),
            message: text::view_opt(self.message),
        }
    }
}

/// The database that the backend says it opened.
pub open spec fn opened_database(content: JsonView) -> Result<OpenedView, Seq<char>> {
    match content.text_at("error"@) {
        Some(e) => Err(e),
        None => match content.get("session"@) {
            None => Err("idb_open response missing session"@),
            Some(value) => match listed_database(value) {
                Err(e) => Err(e),
                Ok(session) => Ok(
                    OpenedView {
                        session,
                        warmup: content.get("warmup"@),
                        message: content.text_at("message"@),
                    },
                ),
            },
        },
    }
}

/// Reads the answer to the request to open a database.
pub fn opened_from_content(content: &Json) -> (r: Result<OpenIdaDatabaseResult, DbgFlowError>)
    ensures
        match r {
            Ok(o) => opened_database(content@) matches Ok(v) && o@ == v,
            Err(e) => opened_database(content@) matches Err(m) && e@ == ErrorView::Backend(m),
        },
{
    match content.text_at("error") {
        Some(error) => {
            return Err(DbgFlowError::backend(error));
        },
        None => {},
    }
    let value = match content.get("session") {
        Some(value) => value,
        None => {
            return Err(DbgFlowError::backend("idb_open response missing session"));
        },
    };
    let session = match ida_session_from_value(value) {
        Ok(session) => session,
        Err(error) => {
            return Err(error);
        },
    };
    let warmup = match content.get("warmup") {
        Some(value) => Some(value.duplicate()),
        None => None,
    };
    let message = match content.text_at("message") {
        Some(message) => Some(message.to_owned()),
        None => None,
    };
    Ok(OpenIdaDatabaseResult { session, warmup, message })
}

/// Where the whole output of a tool can be fetched, if the answer says so.
pub open spec fn download_url(result: JsonView) -> Option<Seq<char>> {
    match result.get("_meta"@) {
        Some(meta) => match meta.get("ida_mcp"@) {
            Some(own) => own.text_at("download_url"@),
            None => None,
        },
        None => None,
    }
}

/// Where the whole output of a tool can be fetched, if the answer says so.
pub fn ida_mcp_download_url(result: &Json) -> (r: Option<&str>)
    ensures
        match r {
            Some(s) => download_url(result@) == Some(s@),
            None => download_url(result@) is None,
        },
{
    match result.get("_meta") {
        Some(meta) => match meta.get("ida_mcp") {
            Some(own) => own.text_at("download_url"),
            None => None,
        },
        None => None,
    }
}

/// The parts of an address.
#[derive(Debug)]
pub struct ParsedHttpUrl {
    pub host: String,
    pub host_header: String,
    pub port: u16,
    pub path: String,
}

/// The mathematical form of the parts of an address.
#[verifier::ext_equal]
pub struct UrlView {
    pub host: Seq<char>,
    pub host_header: Seq<char>,
    pub port: u16,
    pub path: Seq<char>,
}

impl View for ParsedHttpUrl {
    type V = UrlView;

    open spec fn view(&self) -> UrlView {
        UrlView {
            host: self.host@,
            host_header: self.host_header@,
            port: self.port,
            path: self.path@,
        }
    }
}

/// The parts of the address of an output, which must be on this machine.
pub open spec fn output_url(url: Seq<char>) -> Result<UrlView, Seq<char>> {
    if !scan::starts(url, "http://"@) {
        Err("IDA output download URL must use http://"@)
    } else {
        let rest = url.skip(7);
        let (authority, path) = match scan::split_at_first(rest, '/') {
            Some((a, p)) => (a, "/"@ + p),
            None => (rest, "/"@),
        };
        match scan::last_position(authority, ':') {
            None => Err("IDA output download URL missing port"@),
            Some(n) => {
                let host = authority.take(n as int);
                match scan::parse_number(authority.skip(n as int + 1), 10, u16::MAX as nat) {
                    None => Err("IDA output download URL missing port"@),
                    Some(port) => if host != "127.0.0.1"@ && host != "localhost"@ {
                        Err("IDA output download URL must be loopback"@)
                    } else {
                        Ok(UrlView { host, host_header: authority, port: port as u16, path })
                    },
                }
            },
        }
    }
}

/// Reads the address of an output.
pub fn parse_http_url(url: &str) -> (r: Result<ParsedHttpUrl, DbgFlowError>)
    ensures
        match r {
            Ok(u) => output_url(url@) matches Ok(v) && u@ == v,
            Err(e) => output_url(url@) matches Err(m) && e@ == ErrorView::Backend(m),
        },
{
    if !scan::starts_with(url, "http://") {
        return Err(DbgFlowError::backend("IDA output download URL must use http://"));
    }
    proof {
        reveal_strlit("http://");
    }
    let chars = chars_of(url);
    let rest = scan::part(chars.as_slice(), 7, chars.len());
    assert(rest@ =~= url@.skip(7));
    let (authority, path) = match scan::split_once_at(rest.as_str(), '/') {
        Some((authority, path)) => (authority, cat2("/", path.as_str())),
        None => (rest, "/".to_owned()),
    };
    let letters = chars_of(authority.as_str());
    let size: usize = letters.len();
    let colon = match scan::last_position_of(letters.as_slice(), ':') {
        Some(colon) => colon,
        None => {
            return Err(DbgFlowError::backend("IDA output download URL missing port"));
        },
    };
    let host = scan::part(letters.as_slice(), 0, colon);
    let digits = scan::part(letters.as_slice(), colon + 1, size);
    assert(host@ =~= authority@.take(colon as int));
    assert(digits@ =~= authority@.skip(colon as int + 1));
    let port = match scan::parse_text(digits.as_str(), 10, 65535) {
        Some(port) => port as u16,
        None => {
            return Err(DbgFlowError::backend("IDA output download URL missing port"));
        },
    };
    if !same(host.as_str(), "127.0.0.1") && !same(host.as_str(), "localhost") {
        return Err(DbgFlowError::backend("IDA output download URL must be loopback"));
    }
    Ok(ParsedHttpUrl { host, host_header: authority, port, path })
}

/// An output is only ever fetched from this machine.
pub proof fn outputs_come_from_this_machine(url: Seq<char>)
    ensures
        output_url(url) matches Ok(u) ==> u.host == "127.0.0.1"@ || u.host == "localhost"@,
{
}

impl ParsedHttpUrl {
    /// The request that fetches the output.
    pub fn request_text(&self) -> (r: String)
        ensures
            r@ == "GET "@ + self.path@ + " HTTP/1.1\r\nHost: "@ + self.host_header@
                + "\r\nConnection: close\r\nAccept: application/json\r\n\r\n"@,
    {
        cat5(
            "GET ",
            self.path.as_str(),
            " HTTP/1.1\r\nHost: ",
            self.host_header.as_str(),
            "\r\nConnection: close\r\nAccept: application/json\r\n\r\n",
        )
    }
}

/// Whether the head of an answer ends at a position.
pub open spec fn blank_line_at(b: Seq<u8>, i: int) -> bool {
    0 <= i && i + 4 <= b.len() && b[i] == 13 && b[i + 1] == 10 && b[i + 2] == 13 && b[i + 3] == 10
}

/// Where the body of an answer begins.
pub open spec fn body_start(b: Seq<u8>, from: int) -> Option<int>
    decreases b.len() - from,
{
    if from + 4 > b.len() {
        None
    } else if blank_line_at(b, from) {
        Some(from + 4)
    } else {
        body_start(b, from + 1)
    }
}

/// The first line of a text, or another text if there is none.
pub open spec fn first_line_or(s: Seq<char>, other: Seq<char>) -> Seq<char> {
    if scan::lines(s).len() > 0 {
        scan::lines(s)[0]
    } else {
        other
    }
}

/// Whether the head of an answer reports success.
pub open spec fn head_is_good(head: Seq<char>) -> bool {
    scan::starts(head, "HTTP/1.1 200"@) || scan::starts(head, "HTTP/1.0 200"@)
}

/// What a fetched answer holds: its body, read as JSON.
pub open spec fn fetched(response: Seq<u8>) -> Result<JsonView, Seq<char>> {
    match body_start(response, 0) {
        None => Err("invalid HTTP response from IDA output endpoint"@),
        Some(start) => {
            let head = bytes::utf8_lossy(response.take(start));
            if !head_is_good(head) {
                Err("IDA output download failed: "@ + first_line_or(head, "invalid HTTP status"@))
            } else {
                match json::json_read_bytes(response.skip(start)) {
                    Ok(v) => Ok(v),
                    Err(e) => Err("parse IDA output JSON: "@ + e),
                }
            }
        },
    }
}

fn find_body(b: &[u8]) -> (r: Option<usize>)
    ensures
        match r {
            Some(n) => body_start(b@, 0) == Some(n as int) && n <= b@.len(),
            None => body_start(b@, 0) is None,
        },
{
    let mut i: usize = 0;
    let size: usize = b.len();
    while i < size && size - i >= 4
        invariant
            i <= size,
            size == b@.len(),
            body_start(b@, 0) == body_start(b@, i as int),
        decreases size - i,
    {
        if b[i] == 13 && b[i + 1] == 10 && b[i + 2] == 13 && b[i + 3] == 10 {
            return Some(i + 4);
        }
        i += 1;
    }
    None
}

fn part_of(b: &[u8], from: usize, to: usize) -> (r: Vec<u8>)
    requires
        from <= to <= b@.len(),
    ensures
        r@ == b@.subrange(from as int, to as int),
{
    let mut out: Vec<u8> = Vec::new();
    let mut i: usize = from;
    while i < to
        invariant
            from <= i <= to <= b@.len(),
            out@ == b@.subrange(from as int, i as int),
        decreases to - i,
    {
        out.push(b[i]);
        i += 1;
        assert(out@ =~= b@.subrange(from as int, i as int));
    }
    out
}

/// Reads a fetched answer whose head and body were taken apart.
pub fn fetched_parts(head: &str, body: Result<Json, String>) -> (r: Result<Json, DbgFlowError>)
    ensures
        if !head_is_good(head@) {
            r matches Err(e) && e@ == ErrorView::Backend(
                "IDA output download failed: "@ + first_line_or(head@, "invalid HTTP status"@),
            )
        } else {
            match body {
                Ok(v) => r matches Ok(j) && j@ == v@,
                Err(m) => r matches Err(e) && e@ == ErrorView::Backend(
                    "parse IDA output JSON: "@ + m@,
                ),
            }
        },
{
    if !scan::starts_with(head, "HTTP/1.1 200") && !scan::starts_with(head, "HTTP/1.0 200") {
        let lines = scan::lines_of(head);
        let mut message = "IDA output download failed: ".to_owned();
        if lines.len() > 0 {
            assert(text::views(lines@)[0] == lines@[0]@);
            message.append(lines[0].as_str());
        } else {
            message.append("invalid HTTP status");
        }
        return Err(DbgFlowError::Backend(message));
    }
    match body {
        Ok(value) => Ok(value),
        Err(error) => Err(
            DbgFlowError::Backend(cat2("parse IDA output JSON: ", error.as_str())),
        ),
    }
}

/// Reads a fetched answer.
pub fn parse_download_response(response: &[u8]) -> (r: Result<Json, DbgFlowError>)
    ensures
        match r {
            Ok(j) => fetched(response@) matches Ok(v) && j@ == v,
            Err(e) => fetched(response@) matches Err(m) && e@ == ErrorView::Backend(m),
        },
{
    let start = match find_body(response) {
        Some(start) => start,
        None => {
            return Err(DbgFlowError::backend("invalid HTTP response from IDA output endpoint"));
        },
    };
    let head_bytes = part_of(response, 0, start);
    let body = part_of(response, start, response.len());
    assert(head_bytes@ =~= response@.take(start as int));
    assert(body@ =~= response@.skip(start as int));
    let head = bytes::utf8_lossy_text(head_bytes.as_slice());
    fetched_parts(head.as_str(), parse_json_bytes(body.as_slice()))
}

} // verus!
