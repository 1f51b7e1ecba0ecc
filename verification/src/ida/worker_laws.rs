//! Laws of what the backend says: its tools, its lists, its answers and its downloads.

use crate::error::{DbgFlowError, ErrorView};
use crate::bytes;
use crate::ida::model::UpstreamToolDescriptor;
use crate::ida::worker;
use crate::ida::worker::{
    decode_tool_result, default_profile_text, default_upstream_input_schema,
    fallback_tool_descriptors, parse_download_response, seconds_text, tool_error_text,
    tools_from_response, SupervisorToolCallResult,
};
use crate::json;
use crate::json::{Json, JsonView};
use crate::scan;
use crate::text;
use vstd::prelude::*;

verus! {

/// A list of tools that is missing is an error; of the tools that are listed those that may be called
/// are taken, with what the backend says of them.
pub proof fn tools_are_taken_from_the_list(
    result: Json,
    item: JsonView,
    name: Seq<char>,
    r: Result<Vec<UpstreamToolDescriptor>, DbgFlowError>,
)
    requires
        item.text_at("name"@) == Some(name),
        call_ensures(tools_from_response, (&result,), r),
    ensures
        result@.get("tools"@) is None ==> (r matches Err(e) && e@ == ErrorView::Backend(
            "tools/list response missing tools"@,
        )),
        result@.get("tools"@) == Some(JsonView::List(seq![item])) && worker::allowed_tool(name) ==> (
        r matches Ok(v) && v@.len() == 1 && v@[0]@.name == name),
        result@.get("tools"@) == Some(JsonView::List(seq![item])) && !worker::allowed_tool(name)
            ==> (r matches Ok(v) && v@.len() == 0),
        result@.get("tools"@) == Some(JsonView::List(seq![item])) && worker::allowed_tool(name)
            && item.text_at("description"@) is None ==> (r matches Ok(v) && v@[0]@.description
            == "IDA Pro MCP upstream tool"@),
        result@.get("tools"@) == Some(JsonView::List(seq![item])) && worker::allowed_tool(name)
            && item.get("inputSchema"@) is None ==> (r matches Ok(v) && v@[0]@.input_schema
            == worker::plain_schema()),
{
    reveal_with_fuel(worker::listed_tools, 2);
    let one = seq![item];
    assert(one.drop_last().len() == 0);
    assert(one.last() == item);
    if let Ok(v) = r {
        let w = worker::tools_view(v@);
        assert(w.len() == v@.len());
        if v@.len() > 0 {
            assert(w[0] == v@[0]@);
        }
    }
}

/// A tool that nothing more is known of takes a session and whatever else it is given.
pub proof fn unknown_tools_take_a_session(r: Json, tools: Vec<UpstreamToolDescriptor>, i: int)
    requires
        call_ensures(default_upstream_input_schema, (), r),
        call_ensures(fallback_tool_descriptors, (), tools),
        0 <= i < tools@.len(),
    ensures
        r@.text_at("type"@) == Some("object"@),
        r@.bool_at("additionalProperties"@) == Some(true),
        r@.get("required"@) == Some(JsonView::List(seq![JsonView::Text("session_id"@)])),
        r@.get("properties"@) matches Some(p) && (p.get("session_id"@) matches Some(s) && s.text_at(
            "type"@,
        ) == Some("string"@) && s.text_at("description"@) == Some(
            "dbgflow IDA session id returned by ida.create_session."@,
        )),
        tools@[i]@.description == "IDA Pro MCP upstream tool `"@ + tools@[i]@.name + "`."@,
        tools@[i]@.input_schema == r@,
        tools@[i]@.output_schema is None,
        tools@.len() == 65,
{
    broadcast use json::added_members_are_found;

    reveal_strlit("type");
    reveal_strlit("properties");
    reveal_strlit("required");
    reveal_strlit("additionalProperties");
    assert("type"@.len() == 4 && "properties"@.len() == 10 && "required"@.len() == 8 && "additionalProperties"@.len() == 20);
    reveal_strlit("type");
    reveal_strlit("description");
    assert("type"@.len() == 4 && "description"@.len() == 11);
    reveal(worker::offered_tools);
    let w = worker::tools_view(tools@);
    assert(w.len() == tools@.len());
    assert(w[i] == tools@[i]@);
    let all = worker::offered_tools();
    assert(w[i] == worker::plain_tool(all[i]));
}

/// An answer is what it holds as structured content, or what its text stands for, or null; one that
/// is an error says its text.
pub proof fn answers_hold_their_content(result: Json, r: SupervisorToolCallResult, t: String)
    requires
        call_ensures(decode_tool_result, (result,), r),
        call_ensures(tool_error_text, (&result,), t),
    ensures
        result@.get("structuredContent"@) matches Some(v) ==> r@.structured_content == v,
        result@.get("structuredContent"@) is None && result@.get("content"@) is None
            ==> r@.structured_content is Null,
        r@.mcp_result == result@,
        r@.is_error <==> result@.bool_at("isError"@) == Some(true),
        !r@.is_error ==> r@.error_message is None,
        r@.is_error ==> r@.error_message == Some(t@),
        result@.get("content"@) is None ==> t@ == "ida-pro-mcp tool call failed"@,
        result@.get("content"@) matches Some(JsonView::List(items)) ==> (items.len() > 0 ==> (
        items[0].get("text"@) matches Some(JsonView::Text(s)) ==> t@ == s)),
{
}

/// A database that is listed is an object with an id, unless it was not taken over.
pub proof fn listed_databases_have_an_id(value: JsonView)
    ensures
        !(value is Object) ==> (worker::listed_database(value) matches Err(e) && e
            == "IDA session entry is not an object"@),
        value is Object && value.get("session_id"@) is None && value.get("adopted"@) is None
            ==> (worker::listed_database(value) matches Err(e) && e
            == "IDA session entry missing session_id"@),
        value is Object && value.bool_at("adopted"@) == Some(false) ==> worker::listed_database(
            value,
        ) is Ok,
        value.get("error"@) is None && value.get("sessions"@) is None
            ==> (worker::reported_databases(value) matches Err(e) && e
            == "idb_list response missing sessions"@),
{
}

/// An output is fetched from this machine over HTTP and from a port that is named.
pub proof fn outputs_come_from_this_machine(url: Seq<char>, host: Seq<char>)
    ensures
        !scan::starts(url, "http://"@) ==> (worker::output_url(url) matches Err(e) && e
            == "IDA output download URL must use http://"@),
        url == "http://"@ + host && !host.contains('/') && !host.contains(':')
            ==> (worker::output_url(url) matches Err(e) && e
            == "IDA output download URL missing port"@),
        worker::output_url(url) matches Ok(u) ==> u.host == "127.0.0.1"@ || u.host == "localhost"@,
        worker::output_url(url) matches Err(e) ==> e == "IDA output download URL must use http://"@
            || e == "IDA output download URL missing port"@ || e
            == "IDA output download URL must be loopback"@,
{
    reveal_strlit("http://");
    if url == "http://"@ + host && !host.contains('/') && !host.contains(':') {
        assert(url.take(7) =~= "http://"@);
        assert(url.skip(7) =~= host);
        scan::position_facts(host, '/');
        no_colon(host);
    }
}

proof fn no_colon(s: Seq<char>)
    requires
        !s.contains(':'),
    ensures
        scan::last_position(s, ':') is None,
    decreases s.len(),
{
    if s.len() > 0 {
        assert(s.contains(s.last()));
        let left = s.drop_last();
        assert(!left.contains(':')) by {
            if left.contains(':') {
                let i = choose|i: int| 0 <= i < left.len() && left[i] == ':';
                assert(s[i] == ':');
            }
        }
        no_colon(left);
    }
}

/// What is fetched is the value behind the first empty line of a good answer.
pub proof fn downloads_are_read_behind_the_head(
    response: &[u8],
    start: int,
    r: Result<Json, DbgFlowError>,
)
    requires
        worker::body_start(response@, 0) == Some(start),
        call_ensures(parse_download_response, (response,), r),
    ensures
        ({
            let head = bytes::utf8_lossy(response@.take(start));
            let good = scan::starts(head, "HTTP/1.1 200"@) || scan::starts(head, "HTTP/1.0 200"@);
            &&& good ==> (json::json_read_bytes(response@.skip(start)) matches Ok(v) ==> (r matches Ok(
                j,
            ) && j@ == v))
            &&& good ==> (json::json_read_bytes(response@.skip(start)) matches Err(m) ==> (r matches Err(
                e,
            ) && e@ == ErrorView::Backend("parse IDA output JSON: "@ + m)))
            &&& !good && scan::lines(head).len() == 0 ==> (r matches Err(e) && e@
                == ErrorView::Backend("IDA output download failed: "@ + "invalid HTTP status"@))
            &&& !good && scan::lines(head).len() > 0 ==> (r matches Err(e) && e@
                == ErrorView::Backend("IDA output download failed: "@ + scan::lines(head)[0]))
        }),
{
}

/// The head of an answer ends with its first empty line; one without an empty line is no answer.
pub proof fn heads_end_at_the_first_empty_line(
    response: &[u8],
    at: int,
    r: Result<Json, DbgFlowError>,
)
    requires
        call_ensures(parse_download_response, (response,), r),
    ensures
        0 <= at && at + 4 <= response@.len() && response@[at] == 13 && response@[at + 1] == 10
            && response@[at + 2] == 13 && response@[at + 3] == 10 ==> (worker::body_start(
            response@,
            0,
        ) matches Some(s) && s <= at + 4),
        response@.len() < 4 ==> (r matches Err(e) && e@ == ErrorView::Backend(
            "invalid HTTP response from IDA output endpoint"@,
        )),
{
    if 0 <= at && at + 4 <= response@.len() && response@[at] == 13 && response@[at + 1] == 10
        && response@[at + 2] == 13 && response@[at + 3] == 10 {
        found_by(response@, 0, at);
    }
}

proof fn found_by(b: Seq<u8>, from: int, at: int)
    requires
        0 <= from <= at,
        worker::blank_line_at(b, at),
    ensures
        worker::body_start(b, from) matches Some(s) && s <= at + 4,
    decreases at - from,
{
    if !worker::blank_line_at(b, from) {
        found_by(b, from + 1, at);
    }
}

/// The profile for the backend begins with its title and its note, and names each tool on a line of
/// its own.
pub proof fn profiles_begin_with_their_title(r: String, texts: Seq<Seq<char>>, last: Seq<char>)
    requires
        call_ensures(default_profile_text, (), r),
    ensures
        r@ == worker::on_lines(
            seq![
                "# dbgflow default ida-pro-mcp profile"@,
                "# Generated by dbgflow; debugger tools and py_exec_file are intentionally excluded."@,
                Seq::<char>::empty(),
            ] + worker::offered_tools(),
        ),
        worker::on_lines(texts.push(last)) == worker::on_lines(texts) + last + "\n"@,
{
    assert(texts.push(last).drop_last() =~= texts);
}

/// Times are written in seconds: whole ones with one zero behind the point, others without zeros at
/// their end.
pub proof fn times_are_written_in_seconds(ms: u64, r: String)
    requires
        call_ensures(seconds_text, (ms,), r),
    ensures
        ms % 1000 == 0 ==> r@ == text::decimal(ms as nat / 1000) + "."@ + text::decimal(0),
        ms % 100 == 0 && ms % 1000 != 0 ==> r@ == text::decimal(ms as nat / 1000) + "."@
            + text::decimal(ms as nat % 1000 / 100),
        ms % 10 == 0 && ms % 100 != 0 ==> r@ == text::decimal(ms as nat / 1000) + "."@
            + text::zero_padded(text::decimal(ms as nat % 1000 / 10), 2),
        ms % 10 != 0 ==> r@ == text::decimal(ms as nat / 1000) + "."@ + text::zero_padded(
            text::decimal(ms as nat % 1000),
            3,
        ),
{
}

} // verus!
