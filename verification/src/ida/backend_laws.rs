//! Laws of the conversation with the analysis backend: what is asked reaches it under the right
//! name, and what it answers is taken for what it says.

use crate::error::{DbgFlowError, ErrorView};
use crate::ida::install::IdaSupervisorRuntime;
use crate::ida::model;
use crate::ida::model::{
    CloseDatabaseResult, CloseView, DatabaseView, IdaOpenMode, IdaUpstreamSession,
    ReverseSessionState, SaveStatus, SessionView, UpstreamToolDescriptor,
};
use crate::ida::supervisor;
use crate::ida::supervisor::{
    supervisor_arguments, supervisor_env_changes, supervisor_request, tool_arguments,
    tool_call_params, EnvChange, PendingView, SupervisorReply,
};
use crate::ida::table;
use crate::ida::target::{is_ida_database_path, validate_ida_target, IdaTarget};
use crate::ida::worker;
use crate::ida::worker::{
    assemble_tool_result, fetched_parts, ida_mcp_download_url, ida_session_from_value,
    opened_from_content, parse_http_url, sessions_from_content,
    upstream_tool_descriptor_from_value, OpenIdaDatabase, OpenIdaDatabaseResult, OpenedView,
    ParsedHttpUrl, SupervisorToolCallResult,
};
use crate::ids::SessionId;
use crate::json;
use crate::json::{Json, JsonView};
use crate::profile::target::ResolvedExecutable;
use crate::scan;
use crate::search_path;
use crate::text;
use crate::winpath;
use vstd::prelude::*;

verus! {

/// Each option of a request to open a database reaches the backend under its own name and with its
/// own value.
pub proof fn open_options_reach_the_backend(request: OpenIdaDatabase, r: Json)
    requires
        call_ensures(OpenIdaDatabase::arguments, (&request,), r),
    ensures
        r@.get("input_path"@) == Some(JsonView::Text(request.input_path@)),
        r@.get("run_auto_analysis"@) == Some(JsonView::Bool(request.run_auto_analysis)),
        r@.get("build_caches"@) == Some(JsonView::Bool(request.build_caches)),
        r@.get("init_hexrays"@) == Some(JsonView::Bool(request.init_hexrays)),
        r@.get("idle_ttl_sec"@) == Some(JsonView::Unsigned(request.idle_ttl_sec)),
        r@.get("preferred_session_id"@) == Some(JsonView::Text(request.preferred_session_id@)),
        request.mode == IdaOpenMode::PreferHeadless ==> r@.get("mode"@) == Some(
            JsonView::Text("prefer_headless"@),
        ),
        request.mode == IdaOpenMode::ForceHeadless ==> r@.get("mode"@) == Some(
            JsonView::Text("force_headless"@),
        ),
        request.mode == IdaOpenMode::PreferGui ==> r@.get("mode"@) == Some(
            JsonView::Text("prefer_gui"@),
        ),
        request.mode == IdaOpenMode::ForceGui ==> r@.get("mode"@) == Some(
            JsonView::Text("force_gui"@),
        ),
        request.startup_timeout_ms > 0 ==> r@.get("open_timeout_sec"@) == Some(
            JsonView::Decimal(worker::seconds(request.startup_timeout_ms as nat)),
        ),
        request.startup_timeout_ms == 0 ==> r@.get("open_timeout_sec"@) == Some(
            JsonView::Decimal(worker::seconds(1)),
        ),
{
    broadcast use json::added_members_are_found;

    reveal_strlit("input_path");
    reveal_strlit("mode");
    reveal_strlit("run_auto_analysis");
    reveal_strlit("build_caches");
    reveal_strlit("init_hexrays");
    reveal_strlit("idle_ttl_sec");
    reveal_strlit("preferred_session_id");
    reveal_strlit("open_timeout_sec");
    assert("input_path"@.len() == 10 && "mode"@.len() == 4 && "run_auto_analysis"@.len() == 17 && "build_caches"@.len() == 12 && "init_hexrays"@.len() == 12 && "idle_ttl_sec"@.len() == 12 && "preferred_session_id"@.len() == 20 && "open_timeout_sec"@.len() == 16);
    assert("build_caches"@[0] == 'b' && "init_hexrays"@[0] == 'i');
    assert("build_caches"@[0] == 'b' && "idle_ttl_sec"@[0] == 'i');
    assert("init_hexrays"@[1] == 'n' && "idle_ttl_sec"@[1] == 'd');
}

/// Two requests that differ in one option give arguments that differ under that option's name.
pub proof fn different_options_are_told_apart(
    a: OpenIdaDatabase,
    b: OpenIdaDatabase,
    ra: Json,
    rb: Json,
)
    requires
        call_ensures(OpenIdaDatabase::arguments, (&a,), ra),
        call_ensures(OpenIdaDatabase::arguments, (&b,), rb),
    ensures
        ra@.get("run_auto_analysis"@) == rb@.get("run_auto_analysis"@) <==> a.run_auto_analysis
            == b.run_auto_analysis,
        ra@.get("build_caches"@) == rb@.get("build_caches"@) <==> a.build_caches == b.build_caches,
        ra@.get("init_hexrays"@) == rb@.get("init_hexrays"@) <==> a.init_hexrays == b.init_hexrays,
        ra@.get("mode"@) == rb@.get("mode"@) <==> a.mode == b.mode,
{
    open_options_reach_the_backend(a, ra);
    open_options_reach_the_backend(b, rb);
    reveal_strlit("prefer_headless");
    reveal_strlit("force_headless");
    reveal_strlit("prefer_gui");
    reveal_strlit("force_gui");
    assert("prefer_headless"@.len() == 15 && "force_headless"@.len() == 14 && "prefer_gui"@.len() == 10 && "force_gui"@.len() == 9);
}

/// The answer is waited for half a minute longer than the database may take to open.
pub proof fn answers_are_waited_for(request: OpenIdaDatabase, r: u64)
    requires
        call_ensures(OpenIdaDatabase::request_timeout_ms, (&request,), r),
    ensures
        0 < request.startup_timeout_ms <= u64::MAX - 30000 ==> r == request.startup_timeout_ms
            + 30000,
        r >= 30001,
        r >= request.startup_timeout_ms,
{
}

/// Each part of a database is the one that the backend lists under its name.
pub proof fn databases_are_read_as_listed(
    value: Json,
    r: Result<IdaUpstreamSession, DbgFlowError>,
)
    requires
        call_ensures(ida_session_from_value, (&value,), r),
    ensures
        r is Ok <==> value@ is Object && ((value@.text_at("session_id"@) matches Some(id) && id.len()
            > 0) || value@.bool_at("adopted"@) == Some(false)),
        r matches Ok(d) ==> {
            &&& value@.text_at("session_id"@) matches Some(id) ==> d.database_id@ == id
            &&& value@.text_at("session_id"@) is None ==> d.database_id@.len() == 0
            &&& value@.text_at("input_path"@) matches Some(p) ==> d.input_path@ == p
            &&& value@.text_at("filename"@) matches Some(f) ==> d.filename@ == f
            &&& text::view_opt(d.backend) == value@.text_at("backend"@)
            &&& d.adopted == value@.bool_at("adopted"@)
            &&& d.owned == value@.bool_at("owned"@)
            &&& d.is_active == value@.bool_at("is_active"@)
            &&& d.is_analyzing == value@.bool_at("is_analyzing"@)
            &&& value@.unsigned_at("pid"@) matches Some(n) ==> n <= u32::MAX ==> d.pid == Some(
                n as u32,
            )
            &&& value@.unsigned_at("pid"@) is None ==> d.pid is None
            &&& value@.unsigned_at("worker_pid"@) matches Some(n) ==> n <= u32::MAX
                ==> d.worker_pid == Some(n as u32)
            &&& value@.unsigned_at("worker_pid"@) is None ==> d.worker_pid is None
            &&& value@.get("metadata"@) matches Some(m) ==> d.metadata@ == m
            &&& value@.get("metadata"@) is None ==> d.metadata@ is Null
        },
{
}

/// Each part of a database is shown under its own name.
pub proof fn databases_are_shown_as_they_are(d: IdaUpstreamSession, r: Json)
    requires
        call_ensures(IdaUpstreamSession::to_json, (&d,), r),
    ensures
        r@.text_at("database_id"@) == Some(d.database_id@),
        r@.text_at("input_path"@) == Some(d.input_path@),
        r@.text_at("filename"@) == Some(d.filename@),
        r@.text_at("backend"@) == text::view_opt(d.backend),
        r@.bool_at("adopted"@) == d.adopted,
        r@.bool_at("owned"@) == d.owned,
        r@.bool_at("is_active"@) == d.is_active,
        r@.bool_at("is_analyzing"@) == d.is_analyzing,
        d.pid matches Some(n) ==> r@.unsigned_at("pid"@) == Some(n as u64),
        d.pid is None ==> r@.get("pid"@) == Some(JsonView::Null),
        d.worker_pid matches Some(n) ==> r@.unsigned_at("worker_pid"@) == Some(n as u64),
        d.worker_pid is None ==> r@.get("worker_pid"@) == Some(JsonView::Null),
        r@.get("metadata"@) == Some(d.metadata@),
{
    broadcast use json::added_members_are_found;

    reveal_strlit("database_id");
    reveal_strlit("input_path");
    reveal_strlit("filename");
    reveal_strlit("backend");
    reveal_strlit("adopted");
    reveal_strlit("owned");
    reveal_strlit("pid");
    reveal_strlit("worker_pid");
    reveal_strlit("is_active");
    reveal_strlit("is_analyzing");
    reveal_strlit("metadata");
    assert("database_id"@.len() == 11 && "input_path"@.len() == 10 && "filename"@.len() == 8 && "backend"@.len() == 7 && "adopted"@.len() == 7 && "owned"@.len() == 5 && "pid"@.len() == 3 && "worker_pid"@.len() == 10 && "is_active"@.len() == 9 && "is_analyzing"@.len() == 12 && "metadata"@.len() == 8);
    assert("input_path"@[0] == 'i' && "worker_pid"@[0] == 'w');
    assert("filename"@[0] == 'f' && "metadata"@[0] == 'm');
    assert("backend"@[0] == 'b' && "adopted"@[0] == 'a');
}

/// What the backend says of a database that it opened: an error, or the database, with what came
/// with it.
pub proof fn openings_are_read_as_answered(
    content: Json,
    r: Result<OpenIdaDatabaseResult, DbgFlowError>,
)
    requires
        call_ensures(opened_from_content, (&content,), r),
    ensures
        content@.text_at("error"@) matches Some(e) ==> (r matches Err(f) && f@ == ErrorView::Backend(
            e,
        )),
        content@.text_at("error"@) is None && content@.get("session"@) is None ==> (r matches Err(f)
            && f@ == ErrorView::Backend("idb_open response missing session"@)),
        r matches Ok(o) ==> {
            &&& content@.get("session"@) matches Some(s) && (s.text_at("session_id"@) matches Some(
                id,
            ) ==> o.session.database_id@ == id)
            &&& model::json_opt(o.warmup) == content@.get("warmup"@)
            &&& text::view_opt(o.message) == content@.text_at("message"@)
        },
{
}

/// The backend's list of databases is read entry by entry, in order.
pub proof fn lists_are_read_in_order(
    content: Json,
    r: Result<Vec<IdaUpstreamSession>, DbgFlowError>,
)
    requires
        call_ensures(sessions_from_content, (&content,), r),
    ensures
        content@.text_at("error"@) matches Some(e) ==> (r matches Err(f) && f@ == ErrorView::Backend(
            e,
        )),
        r matches Ok(v) ==> (content@.get("sessions"@) matches Some(JsonView::List(items))
            && v@.len() == items.len() && forall|i: int|
            0 <= i < items.len() ==> (items[i].text_at("session_id"@) matches Some(id)
                ==> (#[trigger] v@[i]).database_id@ == id)),
{
    if let Ok(v) = r {
        if let Some(JsonView::List(items)) = content@.get("sessions"@) {
            listed_one_by_one(items);
            let all = worker::databases_view(v@);
            assert forall|i: int| 0 <= i < items.len() implies (items[i].text_at(
                "session_id"@,
            ) matches Some(id) ==> (#[trigger] v@[i]).database_id@ == id) by {
                assert(all[i] == v@[i]@);
                assert(Ok::<DatabaseView, Seq<char>>(all[i]) == worker::listed_database(items[i]));
            }
        }
    }
}

proof fn listed_one_by_one(items: Seq<JsonView>)
    ensures
        worker::listed_databases(items) matches Ok(v) ==> v.len() == items.len() && forall|i: int|
            0 <= i < items.len() ==> Ok::<DatabaseView, Seq<char>>(#[trigger] v[i])
                == worker::listed_database(items[i]),
    decreases items.len(),
{
    if items.len() > 0 {
        listed_one_by_one(items.drop_last());
    }
}

/// A tool of the backend is described by its own words, where it has any.
pub proof fn tools_are_described_by_the_backend(value: Json, r: Option<UpstreamToolDescriptor>)
    requires
        call_ensures(upstream_tool_descriptor_from_value, (&value,), r),
    ensures
        r is Some <==> value@.text_at("name"@) is Some,
        r matches Some(t) ==> {
            &&& value@.text_at("name"@) == Some(t.name@)
            &&& value@.text_at("description"@) matches Some(d) ==> t.description@ == d
            &&& value@.get("inputSchema"@) matches Some(s) ==> t.input_schema@ == s
            &&& model::json_opt(t.output_schema) == value@.get("outputSchema"@)
        },
{
}

/// What a tool answered is an error exactly if it says so. Its content is what it gives as such, or
/// else what its text reads as; the whole answer is kept.
pub proof fn answers_are_taken_for_what_they_say(
    result: Json,
    content: Option<Json>,
    r: SupervisorToolCallResult,
)
    requires
        call_ensures(assemble_tool_result, (result, content), r),
    ensures
        r.is_error <==> result@.get("isError"@) == Some(JsonView::Bool(true)),
        r.error_message is Some <==> r.is_error,
        r.mcp_result@ == result@,
        result@.get("structuredContent"@) matches Some(v) ==> r.structured_content@ == v,
        result@.get("structuredContent"@) is None ==> (content matches Some(v)
            ==> r.structured_content@ == v@),
        result@.get("structuredContent"@) is None && content is None ==> r.structured_content@ is Null,
        r.is_error ==> (result@.get("content"@) matches Some(JsonView::List(items)) ==> items.len()
            > 0 ==> (items[0].text_at("text"@) matches Some(t) ==> (r.error_message matches Some(m)
            && m@ == t))),
        r.is_error ==> (result@.get("content"@) is None ==> (r.error_message matches Some(m) && m@
            == "ida-pro-mcp tool call failed"@)),
{
}

/// The whole output of a tool is fetched from where the answer says, and from nowhere else.
pub proof fn outputs_are_fetched_from_where_it_says(result: Json, r: Option<&str>)
    requires
        call_ensures(ida_mcp_download_url, (&result,), r),
    ensures
        match r {
            Some(url) => result@.get("_meta"@) matches Some(meta) && (meta.get(
                "ida_mcp"@,
            ) matches Some(own) && own.get("download_url"@) == Some(JsonView::Text(url@))),
            None => result@.get("_meta"@) matches Some(meta) ==> (meta.get("ida_mcp"@) matches Some(
                own,
            ) ==> own.text_at("download_url"@) is None),
        },
{
}

/// An address of this machine is taken apart into its host, its port and its path, and the request
/// for it names them.
pub proof fn addresses_are_taken_apart(
    host: Seq<char>,
    port: u16,
    tail: Seq<char>,
    url: &str,
    r: Result<ParsedHttpUrl, DbgFlowError>,
    request: String,
)
    requires
        host == "127.0.0.1"@ || host == "localhost"@,
        url@ == "http://"@ + host + ":"@ + text::decimal(port as nat) + "/"@ + tail,
        call_ensures(parse_http_url, (url,), r),
        r matches Ok(u) ==> call_ensures(ParsedHttpUrl::request_text, (&u,), request),
    ensures
        r matches Ok(u) && u.host@ == host && u.port == port && u.path@ == "/"@ + tail
            && u.host_header@ == host + ":"@ + text::decimal(port as nat),
        request@ == "GET "@ + ("/"@ + tail) + " HTTP/1.1\r\nHost: "@ + (host + ":"@ + text::decimal(
            port as nat,
        )) + "\r\nConnection: close\r\nAccept: application/json\r\n\r\n"@,
{
    reveal_strlit("http://");
    reveal_strlit(":");
    reveal_strlit("/");
    reveal_strlit("127.0.0.1");
    reveal_strlit("localhost");
    let digits = text::decimal(port as nat);
    let authority = host + ":"@ + digits;
    let rest = url@.skip(7);
    assert(url@.take(7) =~= "http://"@);
    assert(rest =~= authority + "/"@ + tail);
    scan::digits_are_digits(port as nat, 10);
    scan::written_number_is_read_back(port as nat, 10, u16::MAX as nat);
    let n = authority.len() as int;
    assert forall|i: int| 0 <= i < n implies rest[i] != '/' by {
        if i > host.len() {
            assert(rest[i] == digits[i - host.len() - 1]);
        }
    }
    scan::position_is_first(rest, '/', n);
    assert(rest.take(n) =~= authority);
    assert(rest.skip(n + 1) =~= tail);
    let k = host.len() as int;
    last_colon(authority, k);
    assert(authority.take(k) =~= host);
    assert(authority.skip(k + 1) =~= digits);
}

proof fn last_colon(s: Seq<char>, k: int)
    requires
        0 <= k < s.len(),
        s[k] == ':',
        forall|i: int| k < i < s.len() ==> #[trigger] s[i] != ':',
    ensures
        scan::last_position(s, ':') == Some(k as nat),
    decreases s.len(),
{
    if k < s.len() - 1 {
        assert(s[s.len() - 1] != ':');
        let front = s.drop_last();
        assert forall|i: int| k < i < front.len() implies #[trigger] front[i] != ':' by {
            assert(s[i] != ':');
        }
        last_colon(front, k);
    }
}

/// Only an answer that reports success is read.
pub proof fn failed_downloads_are_errors(
    head: &str,
    body: Result<Json, String>,
    r: Result<Json, DbgFlowError>,
)
    requires
        call_ensures(fetched_parts, (head, body), r),
    ensures
        r is Ok ==> body is Ok && (scan::starts(head@, "HTTP/1.1 200"@) || scan::starts(
            head@,
            "HTTP/1.0 200"@,
        )),
        r matches Ok(v) ==> v@ == body->Ok_0@,
        body is Ok && (scan::starts(head@, "HTTP/1.1 200"@) || scan::starts(head@, "HTTP/1.0 200"@))
            ==> r is Ok,
{
}

/// A request to the supervisor carries its number, its method and its parameters, and a call of a
/// tool the name of the tool and its arguments.
pub proof fn requests_carry_what_they_ask(
    id: u64,
    method: &str,
    params: Json,
    r: Json,
    name: &str,
    arguments: Json,
    call: Json,
)
    requires
        call_ensures(supervisor_request, (id, method, params), r),
        call_ensures(tool_call_params, (name, arguments), call),
    ensures
        r@.text_at("jsonrpc"@) == Some("2.0"@),
        r@.unsigned_at("id"@) == Some(id),
        r@.text_at("method"@) == Some(method@),
        r@.get("params"@) == Some(params@),
        call@.text_at("name"@) == Some(name@),
        call@.get("arguments"@) == Some(arguments@),
{
    broadcast use json::added_members_are_found;

    reveal_strlit("jsonrpc");
    reveal_strlit("id");
    reveal_strlit("method");
    reveal_strlit("params");
    reveal_strlit("name");
    reveal_strlit("arguments");
    assert("jsonrpc"@.len() == 7 && "id"@.len() == 2 && "method"@.len() == 6 && "params"@.len() == 6 && "name"@.len() == 4 && "arguments"@.len() == 9);
    assert("method"@[0] == 'm' && "params"@[0] == 'p');
}

/// A tool gets the arguments that the user gave, and beside them the database to work on.
pub proof fn arguments_are_handed_on(
    fields: Seq<(Seq<char>, JsonView)>,
    arguments: Json,
    database_id: &str,
    r: Json,
    name: Seq<char>,
)
    requires
        arguments@ == JsonView::Object(fields),
        call_ensures(tool_arguments, (arguments, database_id), r),
    ensures
        r@.text_at("database"@) == Some(database_id@),
        name != "database"@ ==> r@.get(name) == arguments@.get(name),
{
    json::with_field_sets_one(fields, "database"@, JsonView::Text(database_id@), name);
    json::with_field_sets_one(fields, "database"@, JsonView::Text(database_id@), "database"@);
}

/// A response goes to the request whose number it carries, and to no other: with its result, or
/// with its error where it has one.
pub proof fn responses_go_to_their_request(
    before: PendingView,
    after: PendingView,
    response: JsonView,
    reply: SupervisorReply,
    id: u64,
)
    requires
        supervisor::responds(before, after, response, reply),
        response.get("id"@) == Some(JsonView::Unsigned(id)),
        before.waiting.contains(id),
    ensures
        !after.waiting.contains(id),
        forall|other: u64| other != id ==> after.waiting.contains(other) == before.waiting.contains(
            other,
        ),
        reply matches SupervisorReply::Answered { request_id, outcome } && request_id == id
            && (match (response.get("error"@), response.get("result"@)) {
            (Some(error), _) => outcome matches Err(e) && (error.text_at("message"@) matches Some(m)
                ==> e@ == ErrorView::Backend(m)),
            (None, Some(result)) => outcome matches Ok(v) && v@ == result,
            (None, None) => outcome matches Ok(v) && v@ is Null,
        }),
{
}

/// A response that nobody waits for changes nothing.
pub proof fn stray_responses_are_ignored(
    before: PendingView,
    after: PendingView,
    response: JsonView,
    reply: SupervisorReply,
)
    requires
        supervisor::responds(before, after, response, reply),
        response.unsigned_at("id"@) matches Some(id) ==> !before.waiting.contains(id),
    ensures
        after == before,
        reply is Ignored,
{
}

/// The supervisor is started as a module of its interpreter that talks over its standard streams,
/// with the profile and the number of workers that were settled on.
pub proof fn supervisors_are_started_as_settled(
    runtime: IdaSupervisorRuntime,
    profile: &str,
    r: Vec<String>,
)
    requires
        call_ensures(supervisor_arguments, (&runtime, profile), r),
    ensures
        r@.len() == 8,
        r@[0]@ == "-m"@,
        r@[1]@ == "ida_pro_mcp.idalib_supervisor"@,
        r@[2]@ == "--stdio"@,
        r@[3]@ == "--unsafe"@,
        r@[4]@ == "--profile"@,
        r@[5]@ == profile@,
        r@[6]@ == "--max-workers"@,
        r@[7]@ == text::decimal(runtime.max_workers as nat),
{
    let v = text::views(r@);
    assert(v.len() == 8);
    assert(v[0] == r@[0]@ && v[1] == r@[1]@ && v[2] == r@[2]@ && v[3] == r@[3]@);
    assert(v[4] == r@[4]@ && v[5] == r@[5]@ && v[6] == r@[6]@ && v[7] == r@[7]@);
}

/// The supervisor finds its own sources and the installation in front of what the environment
/// lists.
pub proof fn supervisors_find_their_directories(
    runtime: IdaSupervisorRuntime,
    python_path: Option<String>,
    path: Option<String>,
    r: Vec<EnvChange>,
)
    requires
        call_ensures(supervisor_env_changes, (&runtime, &python_path, &path), Ok(r)),
    ensures
        r@.len() == 5,
        r@[0].name@ == "IDADIR"@ && r@[0].value@ == runtime.install.install_dir@,
        r@[1].name@ == "PYTHONPATH"@,
        search_path::entries(r@[1].value@).len() > 0 && search_path::entries(r@[1].value@)[0]
            == runtime.vendor_src_dir@,
        python_path matches Some(p) ==> search_path::entries(r@[1].value@).skip(1)
            == search_path::entries(p@),
        r@[2].name@ == "PATH"@,
        search_path::entries(r@[2].value@).len() > 0 && search_path::entries(r@[2].value@)[0]
            == runtime.install.install_dir@,
        path matches Some(p) ==> search_path::entries(r@[2].value@).skip(1) == search_path::entries(
            p@,
        ),
        r@[3].name@ == "PYTHONUNBUFFERED"@ && r@[3].value@ == "1"@,
        r@[4].name@ == "IDA_MCP_OPEN_TIMEOUT"@ && r@[4].value@ == text::decimal(1800),
{
    let v = supervisor::changes_view(r@);
    assert(v.len() == 5);
    assert(v[0] == (r@[0].name@, r@[0].value@) && v[1] == (r@[1].name@, r@[1].value@));
    assert(v[2] == (r@[2].name@, r@[2].value@) && v[3] == (r@[3].name@, r@[3].value@));
    assert(v[4] == (r@[4].name@, r@[4].value@));
    let a = text::view_opt(python_path);
    let b = text::view_opt(path);
    supervisor::supervisor_directories_come_first(runtime.vendor_src_dir@, a);
    supervisor::supervisor_directories_come_first(runtime.install.install_dir@, b);
    let ea = search_path::entries(r@[1].value@);
    let eb = search_path::entries(r@[2].value@);
    if let Some(p) = python_path {
        assert(ea.skip(1) =~= search_path::entries(p@));
    }
    if let Some(p) = path {
        assert(eb.skip(1) =~= search_path::entries(p@));
    }
}

/// Each state of a session has its own name. Sessions that start or are ready are shared, and those
/// that are closed or failed are over.
pub proof fn states_have_their_names(
    state: ReverseSessionState,
    name: &'static str,
    reusable: bool,
    terminal: bool,
)
    requires
        call_ensures(ReverseSessionState::name, (&state,), name),
        call_ensures(ReverseSessionState::is_reusable, (&state,), reusable),
        call_ensures(ReverseSessionState::is_terminal, (&state,), terminal),
    ensures
        state == ReverseSessionState::Starting ==> name@ == "Starting"@ && reusable && !terminal,
        state == ReverseSessionState::Ready ==> name@ == "Ready"@ && reusable && !terminal,
        state == ReverseSessionState::Closing ==> name@ == "Closing"@ && !reusable && !terminal,
        state == ReverseSessionState::Closed ==> name@ == "Closed"@ && !reusable && terminal,
        state == ReverseSessionState::Error ==> name@ == "Error"@ && !reusable && terminal,
{
}

/// What became of a database that was let go is shown under the right names.
pub proof fn closings_are_shown_as_they_went(c: CloseDatabaseResult, save: bool, r: Json, f: Json)
    requires
        call_ensures(CloseDatabaseResult::to_json, (&c,), r),
        call_ensures(CloseDatabaseResult::close_fields, (&c, save), f),
    ensures
        r@.bool_at("save_requested"@) == Some(c.save_requested),
        f@.bool_at("save_requested"@) == Some(save),
        c.save_status == SaveStatus::NotRequested ==> r@.text_at("save_status"@) == Some(
            "not_requested"@,
        ),
        c.save_status == SaveStatus::Saved ==> r@.text_at("save_status"@) == Some("saved"@),
        c.save_status == SaveStatus::Failed ==> r@.text_at("save_status"@) == Some("failed"@),
        c.save_status == SaveStatus::Unknown ==> r@.text_at("save_status"@) == Some("unknown"@),
        f@.get("save_status"@) == r@.get("save_status"@),
        r@.text_at("warning"@) == text::view_opt(c.warning),
        r@.text_at("error"@) == text::view_opt(c.error),
        f@.get("warning"@) == r@.get("warning"@),
        f@.get("error"@) == r@.get("error"@),
        f@.bool_at("detached"@) == Some(true),
{
    broadcast use json::added_members_are_found;

    reveal_strlit("save_requested");
    reveal_strlit("save_status");
    reveal_strlit("warning");
    reveal_strlit("error");
    reveal_strlit("detached");
    assert("save_requested"@.len() == 14 && "save_status"@.len() == 11 && "warning"@.len() == 7 && "error"@.len() == 5 && "detached"@.len() == 8);
}

/// A target is shown with its kind and its path, and two targets are the same only if their kinds
/// are.
pub proof fn targets_are_told_apart(a: IdaTarget, b: IdaTarget, shown: Json, same: bool)
    requires
        call_ensures(IdaTarget::to_json, (&a,), shown),
        call_ensures(IdaTarget::is_same, (&a, &b), same),
    ensures
        a matches IdaTarget::Binary { path } ==> shown@.text_at("kind"@) == Some("binary"@)
            && shown@.text_at("path"@) == Some(path@),
        a matches IdaTarget::Database { path } ==> shown@.text_at("kind"@) == Some("database"@)
            && shown@.text_at("path"@) == Some(path@),
        same ==> (a is Binary <==> b is Binary),
        a == b ==> same,
{
    broadcast use json::added_members_are_found;

    reveal_strlit("kind");
    reveal_strlit("path");
    assert("kind"@.len() == 4 && "path"@.len() == 4);
    assert("kind"@[0] == 'k' && "path"@[0] == 'p');
}

/// A target is analysed if its path names a file, and one that is said to be a database only if it
/// ends like one. It keeps its kind and gets the path that was found.
pub proof fn targets_are_checked(
    target: IdaTarget,
    found: Result<ResolvedExecutable, String>,
    r: Result<IdaTarget, DbgFlowError>,
    place: &str,
    is_database: bool,
)
    requires
        call_ensures(validate_ida_target, (target, found), r),
        found matches Ok(f) ==> place@ == f.path@,
        call_ensures(is_ida_database_path, (place,), is_database),
    ensures
        r is Ok <==> target@.place().len() > 0 && !target@.place().contains('\0') && (found matches Ok(
            f,
        ) && f.is_file && (target is Database ==> is_database)),
        r matches Ok(t) ==> t@.place() == place@ && (t is Binary <==> target is Binary),
        is_database <==> (winpath::extension(place@) matches Some(e) && (scan::lower_all(e)
            == "idb"@ || scan::lower_all(e) == "i64"@)),
{
}

/// A session begins without a database. When one was opened the session is ready and knows it; when
/// that failed it is over, with the reason.
pub proof fn sessions_follow_their_database(
    id: SessionId,
    s: SessionView,
    o: OpenedView,
    error: Seq<char>,
    now: u64,
)
    ensures
        ({
            let new = table::new_session(id, s.target, now);
            let opened = table::opened_session(s, o, now);
            let failed = table::failed_session(s, error, now);
            &&& new.id == id
            &&& new.target == s.target
            &&& new.state == ReverseSessionState::Starting
            &&& new.database_id is None
            &&& new.backend == "ida-pro-mcp"@
            &&& new.created_at_unix_ms == now
            &&& new.updated_at_unix_ms == now
            &&& new.error is None
            &&& new.warnings.len() == 0
            &&& new.artifacts.len() == 0
            &&& opened.id == s.id
            &&& opened.target == s.target
            &&& opened.created_at_unix_ms == s.created_at_unix_ms
            &&& opened.state == ReverseSessionState::Ready
            &&& opened.database_id == Some(o.session.database_id)
            &&& opened.ida_backend == o.session.backend
            &&& opened.adopted == o.session.adopted
            &&& opened.owned == o.session.owned
            &&& opened.pid == o.session.pid
            &&& opened.worker_pid == o.session.worker_pid
            &&& opened.is_active == o.session.is_active
            &&& opened.error is None
            &&& opened.last_health matches Some(h) && h.reachable
            &&& opened.updated_at_unix_ms == now
            &&& failed.id == s.id
            &&& failed.target == s.target
            &&& failed.state == ReverseSessionState::Error
            &&& failed.error == Some(error)
            &&& failed.last_health matches Some(h) && !h.reachable && h.error == Some(error)
            &&& failed.updated_at_unix_ms == now
        }),
{
}

/// A session whose database the backend still lists shows what is listed of it; one whose database
/// is gone is over. An answer that failed changes nothing but what was last heard.
pub proof fn sessions_follow_what_is_listed(
    s: SessionView,
    database_id: Seq<char>,
    list: Seq<DatabaseView>,
    i: int,
    error: ErrorView,
    now: u64,
)
    ensures
        0 <= i < list.len() && list[i].database_id == database_id && (forall|j: int|
            0 <= j < i ==> (#[trigger] list[j]).database_id != database_id) ==> {
            let after = table::refreshed_session(s, database_id, Ok(list), now);
            &&& after.state == s.state
            &&& after.database_id == s.database_id
            &&& after.ida_backend == list[i].backend
            &&& after.adopted == list[i].adopted
            &&& after.owned == list[i].owned
            &&& after.pid == list[i].pid
            &&& after.worker_pid == list[i].worker_pid
            &&& after.is_active == list[i].is_active
            &&& after.last_health matches Some(h) && h.reachable == (list[i].is_active != Some(
                false,
            ))
            &&& after.error == s.error
        },
        (forall|j: int| 0 <= j < list.len() ==> (#[trigger] list[j]).database_id != database_id) ==> {
            let after = table::refreshed_session(s, database_id, Ok(list), now);
            &&& after.state == ReverseSessionState::Error
            &&& after.error == Some("upstream IDA database session is no longer listed"@)
            &&& after.is_active == Some(false)
            &&& after.last_health matches Some(h) && !h.reachable
            &&& after.warnings == s.warnings.push(
                "upstream IDA database session is no longer listed"@,
            )
        },
        ({
            let after = table::refreshed_session(s, database_id, Err(error), now);
            &&& after.state == s.state
            &&& after.database_id == s.database_id
            &&& after.error == s.error
            &&& after.is_active == s.is_active
            &&& after.last_health matches Some(h) && !h.reachable && h.error == Some(error.text())
        }),
{
    if 0 <= i < list.len() && list[i].database_id == database_id && (forall|j: int|
        0 <= j < i ==> (#[trigger] list[j]).database_id != database_id) {
        found_in_list(list, database_id, i);
    }
    if forall|j: int| 0 <= j < list.len() ==> (#[trigger] list[j]).database_id != database_id {
        not_in_list(list, database_id);
    }
}

proof fn found_in_list(list: Seq<DatabaseView>, id: Seq<char>, i: int)
    requires
        0 <= i < list.len(),
        list[i].database_id == id,
        forall|j: int| 0 <= j < i ==> (#[trigger] list[j]).database_id != id,
    ensures
        table::database_in(list, id) == Some(list[i]),
    decreases i,
{
    if i > 0 {
        assert(list[0].database_id != id);
        let rest = list.drop_first();
        assert forall|j: int| 0 <= j < i - 1 implies (#[trigger] rest[j]).database_id != id by {
            assert(rest[j] == list[j + 1]);
        }
        found_in_list(rest, id, i - 1);
    }
}

proof fn not_in_list(list: Seq<DatabaseView>, id: Seq<char>)
    requires
        forall|j: int| 0 <= j < list.len() ==> (#[trigger] list[j]).database_id != id,
    ensures
        table::database_in(list, id) is None,
    decreases list.len(),
{
    if list.len() > 0 {
        assert(list[0].database_id != id);
        let rest = list.drop_first();
        assert forall|j: int| 0 <= j < rest.len() implies (#[trigger] rest[j]).database_id != id by {
            assert(rest[j] == list[j + 1]);
        }
        not_in_list(rest, id);
    }
}

/// A session that is being closed keeps its database until that is done; then it has none. One
/// whose database could not be saved is as it was before, with the reason.
pub proof fn sessions_are_closed_in_steps(
    s: SessionView,
    previous: ReverseSessionState,
    close: CloseView,
    error: Seq<char>,
    now: u64,
)
    ensures
        ({
            let closing = table::closing_session(s, now);
            let unsaved = table::unsaved_session(s, previous, close, error, now);
            let closed = table::closed_session(s, close, now);
            &&& closing.state == ReverseSessionState::Closing
            &&& closing.database_id == s.database_id
            &&& closing.id == s.id && closing.target == s.target
            &&& unsaved.state == previous
            &&& unsaved.database_id == s.database_id
            &&& unsaved.error == Some(error)
            &&& unsaved.warnings == s.warnings.push(error)
            &&& unsaved.last_health matches Some(h) && h.reachable && h.error == Some(error)
            &&& closed.state == ReverseSessionState::Closed
            &&& closed.database_id is None
            &&& closed.is_active == Some(false)
            &&& closed.error is None
            &&& closed.last_health matches Some(h) && !h.reachable
            &&& close.warning is None ==> closed.warnings == s.warnings
            &&& close.warning matches Some(w) ==> closed.warnings == s.warnings.push(w)
            &&& closed.id == s.id && closed.target == s.target && closed.artifacts == s.artifacts
            &&& closing.updated_at_unix_ms == now
            &&& unsaved.updated_at_unix_ms == now
            &&& closed.updated_at_unix_ms == now
            &&& closed.created_at_unix_ms == s.created_at_unix_ms
        }),
{
}

} // verus!
