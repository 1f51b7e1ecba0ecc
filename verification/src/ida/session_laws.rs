//! Laws of analysis sessions: what a request asks for is what is opened, called, saved and closed.

use crate::artifact::ArtifactView;
use crate::error::ErrorView;
use crate::ida::backend_laws;
use crate::ida::call;
use crate::ida::call::{CallPhaseView, ToolCallView};
use crate::ida::manager;
use crate::ida::manager::{
    make_output, AnswerView, AskView, ClosePhaseView, CreateIdaSession, CreatePhaseView, CreateView,
};
use crate::ida::model::{CloseView, IdaOpenMode, ReverseSessionState, SaveStatus, SessionView};
use crate::ida::table;
use crate::ida::table::TableView;
use crate::ida::target::IdaTarget;
use crate::ida::worker;
use crate::ida::worker::{OpenIdaDatabase, OpenedView, SupervisorToolCallResult, ToolResultView};
use crate::ids;
use crate::ids::SessionId;
use crate::json;
use crate::json::{Json, JsonView};
use crate::text;
use vstd::prelude::*;

verus! {

/// What a user asks for when a session is created reaches the backend: each option, under its own
/// name and with its own value.
pub proof fn requests_reach_the_backend(
    request: CreateView,
    id: SessionId,
    o: OpenIdaDatabase,
    arguments: Json,
)
    requires
        manager::asks(manager::IdaAsk::Open(o), AskView::Open { request, id }),
        call_ensures(OpenIdaDatabase::arguments, (&o,), arguments),
    ensures
        arguments@.text_at("input_path"@) == Some(request.target.place()),
        arguments@.bool_at("run_auto_analysis"@) == Some(request.run_auto_analysis),
        arguments@.bool_at("build_caches"@) == Some(request.build_caches),
        arguments@.bool_at("init_hexrays"@) == Some(request.init_hexrays),
        arguments@.unsigned_at("idle_ttl_sec"@) == Some(request.idle_ttl_sec),
        arguments@.text_at("preferred_session_id"@) == Some("dbgflow-"@ + ids::uuid_text(id.0)),
        request.mode == IdaOpenMode::PreferHeadless ==> arguments@.text_at("mode"@) == Some(
            "prefer_headless"@,
        ),
        request.mode == IdaOpenMode::ForceHeadless ==> arguments@.text_at("mode"@) == Some(
            "force_headless"@,
        ),
        request.mode == IdaOpenMode::PreferGui ==> arguments@.text_at("mode"@) == Some(
            "prefer_gui"@,
        ),
        request.mode == IdaOpenMode::ForceGui ==> arguments@.text_at("mode"@) == Some("force_gui"@),
        request.startup_timeout_ms is None ==> o.startup_timeout_ms == 1800000,
        request.startup_timeout_ms matches Some(ms) ==> ms > 0 ==> o.startup_timeout_ms == ms,
        request.startup_timeout_ms == Some(0u64) ==> o.startup_timeout_ms == 1,
{
    backend_laws::open_options_reach_the_backend(o, arguments);
}

/// A request is written down as it was asked. What is left open in a request is full analysis,
/// without a user interface, for an hour of idleness.
pub proof fn requests_are_written_down(
    request: CreateIdaSession,
    value: Json,
    target: IdaTarget,
    plain: CreateIdaSession,
)
    requires
        call_ensures(CreateIdaSession::to_json, (&request,), value),
        call_ensures(CreateIdaSession::with_defaults, (target,), plain),
    ensures
        value@.bool_at("run_auto_analysis"@) == Some(request.run_auto_analysis),
        value@.bool_at("build_caches"@) == Some(request.build_caches),
        value@.bool_at("init_hexrays"@) == Some(request.init_hexrays),
        value@.unsigned_at("idle_ttl_sec"@) == Some(request.idle_ttl_sec),
        value@.unsigned_at("startup_timeout_ms"@) == request.startup_timeout_ms,
        value@.get("target"@) matches Some(t) && t.text_at("path"@) == Some(request.target@.place())
            && (request.target is Binary ==> t.text_at("kind"@) == Some("binary"@)) && (
        request.target is Database ==> t.text_at("kind"@) == Some("database"@)),
        request.mode == IdaOpenMode::PreferHeadless ==> value@.text_at("mode"@) == Some(
            "prefer_headless"@,
        ),
        request.mode == IdaOpenMode::ForceHeadless ==> value@.text_at("mode"@) == Some(
            "force_headless"@,
        ),
        request.mode == IdaOpenMode::PreferGui ==> value@.text_at("mode"@) == Some("prefer_gui"@),
        request.mode == IdaOpenMode::ForceGui ==> value@.text_at("mode"@) == Some("force_gui"@),
        plain@.target == target@,
        plain.run_auto_analysis && plain.build_caches && plain.init_hexrays,
        plain.mode == IdaOpenMode::PreferHeadless,
        plain.idle_ttl_sec == 3600,
        plain.startup_timeout_ms is None,
{
    broadcast use json::added_members_are_found;

    reveal_strlit("target");
    reveal_strlit("run_auto_analysis");
    reveal_strlit("build_caches");
    reveal_strlit("init_hexrays");
    reveal_strlit("mode");
    reveal_strlit("idle_ttl_sec");
    reveal_strlit("startup_timeout_ms");
    reveal_strlit("kind");
    reveal_strlit("path");
    assert("target"@.len() == 6 && "run_auto_analysis"@.len() == 17 && "build_caches"@.len() == 12 && "init_hexrays"@.len() == 12 && "mode"@.len() == 4 && "idle_ttl_sec"@.len() == 12 && "startup_timeout_ms"@.len() == 18 && "kind"@.len() == 4 && "path"@.len() == 4);
    assert("build_caches"@[0] == 'b' && "init_hexrays"@[0] == 'i');
    assert("build_caches"@[0] == 'b' && "idle_ttl_sec"@[0] == 'i');
    assert("init_hexrays"@[1] == 'n' && "idle_ttl_sec"@[1] == 'd');
    assert("mode"@[0] == 'm' && "kind"@[0] == 'k');
    assert("mode"@[0] == 'm' && "path"@[0] == 'p');
    assert("kind"@[0] == 'k' && "path"@[0] == 'p');
}

/// A session is created in steps: it is written down, its database is opened with what was asked
/// for, and the session is given out with its database; where opening failed it is kept as failed
/// and the error is given.
pub proof fn sessions_are_created_in_steps(
    t: TableView,
    request: CreateView,
    session: SessionView,
    a: ArtifactView,
    b: ArtifactView,
    o: OpenedView,
    error: ErrorView,
    now: u64,
)
    ensures
        ({
            let audited = manager::create_after(
                t,
                CreatePhaseView::Audit { request, session },
                AnswerView::Audited(Ok((a, b))),
                now,
            );
            let refused = manager::create_after(
                t,
                CreatePhaseView::Audit { request, session },
                AnswerView::Audited(Err(error)),
                now,
            );
            let id = session.id;
            let opened = manager::create_after(
                audited.table,
                audited.phase,
                AnswerView::Opened(Ok(o)),
                now,
            );
            let failed = manager::create_after(
                audited.table,
                audited.phase,
                AnswerView::Opened(Err(error)),
                now,
            );
            &&& audited.ask == (AskView::Open { request, id })
            &&& audited.phase == (CreatePhaseView::Open { id })
            &&& audited.table.sessions.contains_key(id.0)
            &&& audited.table.sessions[id.0].artifacts == session.artifacts.push(a).push(b)
            &&& audited.table.sessions[id.0].target == session.target
            &&& refused.table == t
            &&& refused.phase == CreatePhaseView::Done(Err(error))
            &&& opened.table.databases.contains_key(id.0)
            &&& opened.table.databases[id.0] == o.session.database_id
            &&& opened.table.sessions[id.0].state == ReverseSessionState::Ready
            &&& opened.table.sessions[id.0].database_id == Some(o.session.database_id)
            &&& opened.ask == AskView::List
            &&& opened.phase == (CreatePhaseView::Refresh {
                id,
                database_id: o.session.database_id,
            })
            &&& failed.table.sessions[id.0].state == ReverseSessionState::Error
            &&& failed.table.sessions[id.0].error == Some(error.text())
            &&& failed.phase == CreatePhaseView::Done(Err(error))
            &&& failed.table.databases == t.databases
        }),
{
}

/// What is written about the creation of a session says what happened.
pub proof fn creations_are_recorded(
    t: TableView,
    request: CreateView,
    session: SessionView,
    a: ArtifactView,
    b: ArtifactView,
    database: Seq<char>,
)
    ensures
        ({
            let begun = manager::create_audited(t, request, session, Ok((a, b))).record;
            let done = manager::opened_record(database);
            &&& begun matches Some(r) && r.event == "create_session_started"@ && r.new_state == Some(
                ReverseSessionState::Starting,
            ) && r.previous_state is None && r.operation == Some("ida.create_session"@)
                && r.artifact_path == Some(a.path) && r.error is None && r.fields.text_at("backend"@)
                == Some("ida-pro-mcp"@)
            &&& done.event == "create_session_finished"@
            &&& done.previous_state == Some(ReverseSessionState::Starting)
            &&& done.new_state == Some(ReverseSessionState::Ready)
            &&& done.operation == Some("ida.create_session"@)
            &&& done.error is None
            &&& done.fields.text_at("database_id"@) == Some(database)
        }),
{
    broadcast use json::added_members_are_found;

    reveal_strlit("backend");
    reveal_strlit("target");
    reveal_strlit("database_id");
    assert("backend"@.len() == 7 && "target"@.len() == 6 && "database_id"@.len() == 11);
}

/// A session is only closed if it is there, is not closed and has a database; each other case has
/// its own error and changes nothing.
pub proof fn closings_are_judged(t: TableView, id: SessionId, save: bool, now: u64)
    ensures
        ({
            let step = manager::close_judged(t, id, save, now);
            let there = t.sessions.contains_key(id.0);
            let over = there && t.sessions[id.0].state == ReverseSessionState::Closed;
            let bound = t.databases.contains_key(id.0);
            &&& !there ==> step.phase == ClosePhaseView::Done(
                Err(ErrorView::SessionNotFound(ids::uuid_text(id.0))),
            ) && step.table == t
            &&& over ==> step.phase == ClosePhaseView::Done(
                Err(ErrorView::SessionClosed(ids::uuid_text(id.0))),
            ) && step.table == t
            &&& there && !over && !bound ==> step.phase == ClosePhaseView::Done(
                Err(
                    ErrorView::Backend(
                        "IDA session "@ + ids::uuid_text(id.0)
                            + " is not bound to an upstream database"@,
                    ),
                ),
            ) && step.table == t
        }),
{
}

/// The database of a session that is closed is saved if that is wanted, and only then: the tool that
/// saves is called on that database without arguments.
pub proof fn databases_are_saved_if_wanted(
    t: TableView,
    id: SessionId,
    save: bool,
    previous: ReverseSessionState,
    bound: Seq<char>,
    now: u64,
)
    requires
        t.sessions.contains_key(id.0),
        t.sessions[id.0].id == id,
    ensures
        ({
            let step = manager::close_marked(t, id, save, previous, bound, now);
            &&& save ==> step.ask == (AskView::CallTool {
                database_id: bound,
                tool: "idb_save"@,
                arguments: JsonView::Object(Seq::empty()),
            }) && step.phase == (ClosePhaseView::Save { previous })
                && step.table.sessions[id.0].state == ReverseSessionState::Closing
            &&& !save ==> step.ask == AskView::Nothing && (step.phase matches ClosePhaseView::Done(
                Ok(s),
            ) && s.state == ReverseSessionState::Closed && s.id == id)
                && step.table.sessions[id.0].state == ReverseSessionState::Closed
                && !step.table.databases.contains_key(id.0)
            &&& step.records.len() > 0 && step.records[0].event == "state_changed"@
            &&& step.records[0].new_state == Some(ReverseSessionState::Closing)
            &&& step.records[0].previous_state == Some(t.sessions[id.0].state)
        }),
{
}

/// A save went wrong exactly if the backend says so, in its answer or in the content of it, or
/// could not be asked.
pub proof fn saves_are_judged(result: ToolResultView, error: Seq<char>)
    ensures
        ({
            let c = manager::saved(result);
            let f = manager::save_failed(error);
            let n = manager::save_not_requested();
            &&& c.save_requested && f.save_requested && !n.save_requested
            &&& c.save_status == SaveStatus::Failed <==> result.is_error
                || result.structured_content.get("ok"@) == Some(JsonView::Bool(false))
            &&& c.save_status == SaveStatus::Failed || c.save_status == SaveStatus::Saved
            &&& result.error_message is Some ==> c.error == result.error_message
            &&& result.error_message is None ==> c.error == result.structured_content.text_at(
                "error"@,
            )
            &&& f.save_status == SaveStatus::Failed
            &&& f.error == Some(error)
            &&& n.save_status == SaveStatus::NotRequested
            &&& n.error is None
            &&& c.warning is None && f.warning is None && n.warning is None
        }),
{
}

/// A session whose database could not be saved stays open in the state it was in, and the error is
/// given; any other is closed and has no database any more. Either is recorded.
pub proof fn closings_are_concluded(
    t: TableView,
    id: SessionId,
    save: bool,
    previous: ReverseSessionState,
    close: CloseView,
    now: u64,
)
    requires
        t.sessions.contains_key(id.0),
        t.sessions[id.0].id == id,
    ensures
        ({
            let step = manager::close_concluded(t, id, save, previous, close, now, Seq::empty());
            let failed = close.save_status == SaveStatus::Failed || close.error is Some;
            &&& step.ask == AskView::Nothing
            &&& step.records.len() == 1
            &&& step.records[0].operation == Some("ida.close_session"@)
            &&& failed ==> {
                &&& step.phase matches ClosePhaseView::Done(Err(ErrorView::Backend(m))) && (
                close.error matches Some(e) ==> m == e) && (close.error is None ==> m
                    == "ida-pro-mcp idb_save failed"@)
                &&& step.table.databases == t.databases
                &&& step.table.sessions[id.0].state == previous
                &&& step.table.sessions[id.0].database_id == t.sessions[id.0].database_id
                &&& step.records[0].event == "close_session_failed"@
                &&& step.records[0].new_state == Some(previous)
            }
            &&& !failed ==> {
                &&& step.phase matches ClosePhaseView::Done(Ok(s)) && s.state
                    == ReverseSessionState::Closed && s.database_id is None && s.id == id
                &&& !step.table.databases.contains_key(id.0)
                &&& step.table.sessions[id.0].state == ReverseSessionState::Closed
                &&& step.records[0].event == "close_session_finished"@
                &&& step.records[0].previous_state == Some(previous)
                &&& step.records[0].new_state == Some(ReverseSessionState::Closed)
            }
        }),
{
}

/// A tool is called on the database of its session, with the arguments that were given, if the
/// session is ready; each other state of the session has its own error.
pub proof fn calls_go_to_the_database_of_the_session(t: TableView, c: ToolCallView)
    ensures
        ({
            let step = call::call_judged(t, c);
            let there = t.sessions.contains_key(c.id.0);
            let state = t.sessions[c.id.0].state;
            let ready = there && state == ReverseSessionState::Ready;
            let bound = t.databases.contains_key(c.id.0);
            &&& step.table == t
            &&& !there ==> step.phase == CallPhaseView::Done(
                Err(ErrorView::SessionNotFound(ids::uuid_text(c.id.0))),
            )
            &&& there && state == ReverseSessionState::Closed ==> step.phase == CallPhaseView::Done(
                Err(ErrorView::SessionClosed(ids::uuid_text(c.id.0))),
            )
            &&& there && state == ReverseSessionState::Starting ==> step.phase
                == CallPhaseView::Done(
                Err(
                    ErrorView::Backend(
                        c.tool + " requires Ready IDA session; current state is "@ + "Starting"@,
                    ),
                ),
            )
            &&& there && state == ReverseSessionState::Closing ==> step.phase
                == CallPhaseView::Done(
                Err(
                    ErrorView::Backend(
                        c.tool + " requires Ready IDA session; current state is "@ + "Closing"@,
                    ),
                ),
            )
            &&& there && state == ReverseSessionState::Error ==> step.phase == CallPhaseView::Done(
                Err(
                    ErrorView::Backend(
                        c.tool + " requires Ready IDA session; current state is "@ + "Error"@,
                    ),
                ),
            )
            &&& ready && bound ==> step.phase is Call && step.ask == (AskView::CallTool {
                database_id: t.databases[c.id.0],
                tool: c.tool,
                arguments: c.arguments,
            })
            &&& ready && !bound ==> (step.phase matches CallPhaseView::Done(Err(_)))
        }),
{
}

/// A call names a session and not a database of the backend, and a tool that is offered; what is
/// not is refused before anything is asked.
pub proof fn wrong_calls_are_refused(t: TableView, c: ToolCallView)
    ensures
        ({
            let step = call::call_begun(t, c);
            &&& !worker::allowed_tool(c.tool) ==> step.phase == CallPhaseView::Done(
                Err(
                    ErrorView::Backend(
                        "IDA upstream tool is not exposed by dbgflow: "@ + c.tool,
                    ),
                ),
            ) && step.ask == AskView::Nothing && step.table == t
            &&& worker::allowed_tool(c.tool) && c.arguments.get("database"@) is Some ==> step.phase
                == CallPhaseView::Done(
                Err(
                    ErrorView::Backend(
                        "IDA tools accept dbgflow session_id, not upstream database"@,
                    ),
                ),
            ) && step.ask == AskView::Nothing && step.table == t
        }),
{
}

/// What a tool answered is written down with the request, under its name, and given back; where the
/// answer says that there is more, that is fetched first.
pub proof fn outputs_are_kept_and_given(
    t: TableView,
    c: ToolCallView,
    result: ToolResultView,
    full: JsonView,
    error: ErrorView,
    warning: Option<Seq<char>>,
    file: ArtifactView,
    now: u64,
)
    requires
        t.sessions.contains_key(c.id.0),
    ensures
        ({
            let answered = call::call_after(
                t,
                c,
                CallPhaseView::Call,
                AnswerView::Called(Ok(result)),
                now,
            );
            let broken = call::call_after(
                t,
                c,
                CallPhaseView::Call,
                AnswerView::Called(Err(error)),
                now,
            );
            let fetched = call::call_after(
                t,
                c,
                CallPhaseView::Download { result },
                AnswerView::Downloaded(Ok(full)),
                now,
            );
            let missed = call::call_after(
                t,
                c,
                CallPhaseView::Download { result },
                AnswerView::Downloaded(Err(error)),
                now,
            );
            let kept = call::call_after(
                t,
                c,
                CallPhaseView::Write { result, warning },
                AnswerView::Written(Ok(file)),
                now,
            );
            let more = worker::download_url(result.mcp_result);
            &&& more matches Some(url) ==> answered.ask == AskView::Download(url)
            &&& more is None ==> (answered.ask matches AskView::WriteOutput { name, value }
                && name == table::output_name(t.sequence, c.tool + ".json"@) && holds_output(
                value,
                c,
                result,
            ))
            &&& broken.ask matches AskView::WriteOutput { name, value } && name
                == table::output_name(t.sequence, c.tool + ".error.json"@) && value.text_at(
                "error"@,
            ) == Some(error.text()) && value.text_at("tool"@) == Some("ida."@ + c.tool)
                && value.get("request"@) == Some(c.arguments)
            &&& fetched.ask matches AskView::WriteOutput { name, value } && holds_output(
                value,
                c,
                result,
            ) && value.get("downloaded_full_output"@) == Some(full) && value.get(
                "download_warning"@,
            ) is None
            &&& missed.ask matches AskView::WriteOutput { name, value } && holds_output(
                value,
                c,
                result,
            ) && value.get("downloaded_full_output"@) is None && value.text_at("download_warning"@)
                == Some("download full ida-pro-mcp output failed: "@ + error.text())
            &&& result.is_error ==> (kept.phase matches CallPhaseView::Done(
                Err(ErrorView::Backend(m)),
            ) && (result.error_message matches Some(e) ==> m == e))
            &&& !result.is_error ==> (kept.phase matches CallPhaseView::Done(Ok(r)) && r.session_id
                == c.id && r.tool == "ida."@ + c.tool && r.result == result.structured_content
                && r.artifact == file && (warning is None ==> r.warnings.len() == 0) && (
            warning matches Some(w) ==> r.warnings == seq![w]))
            &&& kept.record matches Some(r) && r.operation == Some("ida."@ + c.tool)
                && r.artifact_path == Some(file.path) && (result.is_error ==> r.event
                == "upstream_tool_failed"@) && (!result.is_error ==> r.event
                == "upstream_tool_finished"@ && r.error is None)
        }),
{
    broadcast use json::added_members_are_found;

    reveal_strlit("tool");
    reveal_strlit("request");
    reveal_strlit("structured_content");
    reveal_strlit("mcp_result");
    reveal_strlit("downloaded_full_output");
    reveal_strlit("download_warning");
    reveal_strlit("error");
    assert("tool"@.len() == 4 && "request"@.len() == 7 && "structured_content"@.len() == 18 && "mcp_result"@.len() == 10 && "downloaded_full_output"@.len() == 22 && "download_warning"@.len() == 16 && "error"@.len() == 5);
}

/// Whether a value holds the output of a call.
pub open spec fn holds_output(value: JsonView, c: ToolCallView, result: ToolResultView) -> bool {
    &&& value.text_at("tool"@) == Some("ida."@ + c.tool)
    &&& value.get("request"@) == Some(c.arguments)
    &&& value.get("structured_content"@) == Some(result.structured_content)
    &&& value.get("mcp_result"@) == Some(result.mcp_result)
}

/// Output files have names of sixteen digits, which count up, and of what is harmless in the name
/// they are given.
pub proof fn output_files_are_numbered(t: TableView, base: Seq<char>, i: int)
    requires
        0 <= i < base.len(),
    ensures
        ({
            let name = table::output_name(t.sequence, base);
            let n = name.len() - base.len();
            let c = base[i];
            &&& name.take(n - 1) == text::zero_padded(text::hex(t.sequence as nat), 16)
            &&& name[n - 1] == '-'
            &&& 'a' <= c <= 'z' || 'A' <= c <= 'Z' || '0' <= c <= '9' || c == '.' || c == '-' || c
                == '_' ==> name[n + i] == c
            &&& !('a' <= c <= 'z' || 'A' <= c <= 'Z' || '0' <= c <= '9' || c == '.' || c == '-' || c
                == '_') ==> name[n + i] == '_'
            &&& t.sequence < u64::MAX ==> t.counted().sequence == t.sequence + 1
        }),
{
    reveal_strlit("-");
    let number = text::zero_padded(text::hex(t.sequence as nat), 16);
    let name = table::output_name(t.sequence, base);
    assert(name.take(number.len() as int) =~= number);
}

/// What a tool wrote is put together from the call and the answer.
pub proof fn outputs_are_put_together(
    tool: &str,
    request: Json,
    result: SupervisorToolCallResult,
    r: Json,
)
    requires
        call_ensures(make_output, (tool, &request, &result), r),
    ensures
        r@.text_at("tool"@) == Some("ida."@ + tool@),
        r@.get("request"@) == Some(request@),
        r@.get("structured_content"@) == Some(result.structured_content@),
        r@.get("mcp_result"@) == Some(result.mcp_result@),
{
    broadcast use json::added_members_are_found;

    reveal_strlit("tool");
    reveal_strlit("request");
    reveal_strlit("structured_content");
    reveal_strlit("mcp_result");
    assert("tool"@.len() == 4 && "request"@.len() == 7 && "structured_content"@.len() == 18 && "mcp_result"@.len() == 10);
}

} // verus!
