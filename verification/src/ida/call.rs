//! Calls of backend tools on the database of a session.

use crate::artifact::{ArtifactRef, ArtifactView};
use crate::error::{DbgFlowError, ErrorView};
use crate::ida::manager;
use crate::ida::manager::{
    make_output, make_whole_output, AnswerView, AskView, IdaAnswer, IdaAsk, SessionRecord,
    SessionRecordView,
};
use crate::ida::model;
use crate::ida::model::{CallView, IdaToolCallResult, ReverseSessionState};
use crate::ida::table;
use crate::ida::table::{IdaSessions, TableView};
use crate::ida::worker;
use crate::ida::worker::{
    ida_mcp_download_url, is_allowed_upstream_tool, SupervisorToolCallResult, ToolResultView,
};
use crate::ids::SessionId;
use crate::json;
use crate::json::{Json, JsonView};
use crate::text;
use crate::text::{cat2, cat3};
use vstd::prelude::*;

verus! {

/// A call of a tool on the database of a session.
#[derive(Debug)]
pub struct ToolCall {
    pub id: SessionId,
    pub tool: String,
    pub arguments: Json,
}

/// The mathematical form of a call.
#[verifier::ext_equal]
pub struct ToolCallView {
    pub id: SessionId,
    pub tool: Seq<char>,
    pub arguments: JsonView,
}

impl View for ToolCall {
    type V = ToolCallView;

    open spec fn view(&self) -> ToolCallView {
        ToolCallView { id: self.id, tool: self.tool@, arguments: self.arguments@ }
    }
}

/// What a call waits for.
#[derive(Debug)]
pub enum CallPhase {
    /// That the backend lists its databases.
    Refresh { database_id: String },
    /// That the tool answers.
    Call,
    /// That the full output is fetched.
    Download { result: SupervisorToolCallResult },
    /// That the output is written.
    Write { result: SupervisorToolCallResult, warning: Option<String> },
    /// That the error is written.
    WriteError { error: DbgFlowError },
    Done(Result<IdaToolCallResult, DbgFlowError>),
}

/// The mathematical form of what a call waits for.
pub enum CallPhaseView {
    Refresh { database_id: Seq<char> },
    Call,
    Download { result: ToolResultView },
    Write { result: ToolResultView, warning: Option<Seq<char>> },
    WriteError { error: ErrorView },
    Done(Result<CallView, ErrorView>),
}

/// The view of the outcome of a call.
pub open spec fn outcome_view(r: Result<IdaToolCallResult, DbgFlowError>) -> Result<
    CallView,
    ErrorView,
> {
    match r {
        Ok(c) => Ok(c@),
        Err(e) => Err(e@),
    }
}

impl View for CallPhase {
    type V = CallPhaseView;

    open spec fn view(&self) -> CallPhaseView {
        match *self {
            CallPhase::Refresh { database_id } => CallPhaseView::Refresh {
                database_id: database_id@,
            },
            CallPhase::Call => CallPhaseView::Call,
            CallPhase::Download { result } => CallPhaseView::Download { result: result@ },
            CallPhase::Write { result, warning } => CallPhaseView::Write {
                result: result@,
                warning: text::view_opt(warning),
            },
            CallPhase::WriteError { error } => CallPhaseView::WriteError { error: error@ },
            CallPhase::Done(r) => CallPhaseView::Done(outcome_view(r)),
        }
    }
}

/// A step of a call.
#[derive(Debug)]
pub struct CallStep {
    pub phase: CallPhase,
    pub ask: IdaAsk,
    pub record: Option<SessionRecord>,
}

/// The mathematical form of a step of a call, with the table after it.
pub struct CallStepView {
    pub table: TableView,
    pub phase: CallPhaseView,
    pub ask: AskView,
    pub record: Option<SessionRecordView>,
}

/// Whether a step is what it should be.
pub open spec fn calls(step: CallStep, t: TableView, v: CallStepView) -> bool {
    &&& t == v.table
    &&& step.phase@ == v.phase
    &&& manager::asks(step.ask, v.ask)
    &&& manager::record_opt(step.record) == v.record
}

/// The call is over.
pub open spec fn call_done(t: TableView, r: Result<CallView, ErrorView>) -> CallStepView {
    CallStepView { table: t, phase: CallPhaseView::Done(r), ask: AskView::Nothing, record: None }
}

/// The error for a tool that is not offered.
pub open spec fn not_exposed(tool: Seq<char>) -> ErrorView {
    ErrorView::Backend("IDA upstream tool is not exposed by dbgflow: "@ + tool)
}

/// The error for a call that names a database of the backend.
pub open spec fn names_database() -> ErrorView {
    ErrorView::Backend("IDA tools accept dbgflow session_id, not upstream database"@)
}

/// The error for a session that is not ready.
pub open spec fn not_ready(tool: Seq<char>, state: ReverseSessionState) -> ErrorView {
    ErrorView::Backend(
        tool + " requires Ready IDA session; current state is "@ + model::state_name(state),
    )
}

/// The session is judged, and the tool is called on its database.
pub open spec fn call_judged(t: TableView, call: ToolCallView) -> CallStepView {
    if !t.sessions.contains_key(call.id.0) {
        call_done(t, Err(table::not_found(call.id)))
    } else if t.sessions[call.id.0].state == ReverseSessionState::Closed {
        call_done(t, Err(table::is_closed(call.id)))
    } else if t.sessions[call.id.0].state != ReverseSessionState::Ready {
        call_done(t, Err(not_ready(call.tool, t.sessions[call.id.0].state)))
    } else if !t.databases.contains_key(call.id.0) {
        call_done(t, Err(table::not_bound(call.id)))
    } else {
        CallStepView {
            table: t,
            phase: CallPhaseView::Call,
            ask: AskView::CallTool {
                database_id: t.databases[call.id.0],
                tool: call.tool,
                arguments: call.arguments,
            },
            record: None,
        }
    }
}

/// The start of a call.
pub open spec fn call_begun(t: TableView, call: ToolCallView) -> CallStepView {
    if !worker::allowed_tool(call.tool) {
        call_done(t, Err(not_exposed(call.tool)))
    } else if call.arguments.get("database"@) is Some {
        call_done(t, Err(names_database()))
    } else {
        match table::asked_for(t, call.id.0) {
            Some(database_id) => CallStepView {
                table: t,
                phase: CallPhaseView::Refresh { database_id },
                ask: AskView::List,
                record: None,
            },
            None => call_judged(t, call),
        }
    }
}

/// The error of a tool as it is kept.
pub open spec fn error_value(call: ToolCallView, error: ErrorView) -> JsonView {
    JsonView::object().with_text("tool"@, "ida."@ + call.tool).with(
        "request"@,
        call.arguments,
    ).with_text("error"@, error.text())
}

/// The output is written.
pub open spec fn call_written(
    t: TableView,
    call: ToolCallView,
    result: ToolResultView,
    value: JsonView,
    warning: Option<Seq<char>>,
) -> CallStepView {
    CallStepView {
        table: t.counted(),
        phase: CallPhaseView::Write { result, warning },
        ask: AskView::WriteOutput {
            name: table::output_name(t.sequence, call.tool + ".json"@),
            value,
        },
        record: None,
    }
}

/// After the tool answered, or could not be called.
pub open spec fn call_answered(
    t: TableView,
    call: ToolCallView,
    r: Result<ToolResultView, ErrorView>,
) -> CallStepView {
    match r {
        Err(error) => CallStepView {
            table: t.counted(),
            phase: CallPhaseView::WriteError { error },
            ask: AskView::WriteOutput {
                name: table::output_name(t.sequence, call.tool + ".error.json"@),
                value: error_value(call, error),
            },
            record: None,
        },
        Ok(result) => match worker::download_url(result.mcp_result) {
            Some(url) => CallStepView {
                table: t,
                phase: CallPhaseView::Download { result },
                ask: AskView::Download(url),
                record: None,
            },
            None => call_written(
                t,
                call,
                result,
                manager::output_value(call.tool, call.arguments, result),
                None,
            ),
        },
    }
}

/// An entry about a call.
pub open spec fn call_record(
    event: Seq<char>,
    call: ToolCallView,
    file: ArtifactView,
    error: Option<Seq<char>>,
    fields: JsonView,
) -> SessionRecordView {
    SessionRecordView {
        event,
        previous_state: None,
        new_state: None,
        operation: Some("ida."@ + call.tool),
        artifact_path: Some(file.path),
        error,
        fields,
    }
}

/// The warnings of a call.
pub open spec fn warnings_of(warning: Option<Seq<char>>) -> Seq<Seq<char>> {
    match warning {
        Some(w) => seq![w],
        None => Seq::empty(),
    }
}

/// The warnings of a call as a value.
pub open spec fn warnings_value(warning: Option<Seq<char>>) -> JsonView {
    match warning {
        Some(w) => JsonView::List(seq![JsonView::Text(w)]),
        None => JsonView::List(Seq::empty()),
    }
}

/// The fields of an entry about a call that was answered.
pub open spec fn call_fields(call: ToolCallView, warning: Option<Seq<char>>) -> JsonView {
    JsonView::object().with_text("tool"@, call.tool).with("warnings"@, warnings_value(warning))
}

/// After the output was written: the call succeeds, or fails with the error of the tool.
pub open spec fn call_kept(
    t: TableView,
    call: ToolCallView,
    result: ToolResultView,
    warning: Option<Seq<char>>,
    file: ArtifactView,
    now: u64,
) -> CallStepView {
    if !t.sessions.contains_key(call.id.0) {
        call_done(t, Err(table::not_found(call.id)))
    } else {
        let kept = t.with_session(
            table::session_with_artifact(t.sessions[call.id.0], file, now),
        );
        if result.is_error {
            let error = worker::text_or(
                result.error_message,
                "ida-pro-mcp upstream tool failed"@,
            );
            CallStepView {
                record: Some(
                    call_record(
                        "upstream_tool_failed"@,
                        call,
                        file,
                        Some(error),
                        call_fields(call, warning),
                    ),
                ),
                ..call_done(kept, Err(ErrorView::Backend(error)))
            }
        } else {
            CallStepView {
                record: Some(
                    call_record(
                        "upstream_tool_finished"@,
                        call,
                        file,
                        None,
                        call_fields(call, warning),
                    ),
                ),
                ..call_done(
                    kept,
                    Ok(
                        CallView {
                            session_id: call.id,
                            tool: "ida."@ + call.tool,
                            result: result.structured_content,
                            artifact: file,
                            warnings: warnings_of(warning),
                        },
                    ),
                )
            }
        }
    }
}

/// After the error was written: the call fails with it.
pub open spec fn call_error_kept(
    t: TableView,
    call: ToolCallView,
    error: ErrorView,
    file: ArtifactView,
    now: u64,
) -> CallStepView {
    if !t.sessions.contains_key(call.id.0) {
        call_done(t, Err(table::not_found(call.id)))
    } else {
        CallStepView {
            record: Some(
                call_record(
                    "upstream_tool_failed"@,
                    call,
                    file,
                    Some(error.text()),
                    JsonView::object().with_text("tool"@, call.tool),
                ),
            ),
            ..call_done(
                t.with_session(table::session_with_artifact(t.sessions[call.id.0], file, now)),
                Err(error),
            )
        }
    }
}

/// What an answer leads to. An answer that is not waited for changes nothing.
pub open spec fn call_after(
    t: TableView,
    call: ToolCallView,
    phase: CallPhaseView,
    answer: AnswerView,
    now: u64,
) -> CallStepView {
    match (phase, answer) {
        (CallPhaseView::Refresh { database_id }, AnswerView::Listed(r)) => call_judged(
            table::refreshed(t, call.id.0, database_id, r, now),
            call,
        ),
        (CallPhaseView::Call, AnswerView::Called(r)) => call_answered(t, call, r),
        (CallPhaseView::Download { result }, AnswerView::Downloaded(r)) => call_written(
            t,
            call,
            result,
            manager::whole_output(call.tool, call.arguments, result, r),
            match r {
                Ok(_) => None,
                Err(e) => Some(manager::fetch_warning(e)),
            },
        ),
        (CallPhaseView::Write { result, warning }, AnswerView::Written(Ok(file))) => call_kept(
            t,
            call,
            result,
            warning,
            file,
            now,
        ),
        (CallPhaseView::WriteError { error }, AnswerView::Written(Ok(file))) => call_error_kept(
            t,
            call,
            error,
            file,
            now,
        ),
        (CallPhaseView::Write { .. }, AnswerView::Written(Err(e))) => call_done(t, Err(e)),
        (CallPhaseView::WriteError { .. }, AnswerView::Written(Err(e))) => call_done(t, Err(e)),
        _ => CallStepView { table: t, phase, ask: AskView::Nothing, record: None },
    }
}

fn call_ended(r: Result<IdaToolCallResult, DbgFlowError>) -> (step: CallStep)
    ensures
        step.phase@ == CallPhaseView::Done(outcome_view(r)),
        step.ask is Nothing,
        step.record is None,
{
    CallStep { phase: CallPhase::Done(r), ask: IdaAsk::Nothing, record: None }
}

fn make_warnings(warning: &Option<String>) -> (r: Json)
    ensures
        r@ == warnings_value(text::view_opt(*warning)),
{
    let mut items: Vec<Json> = Vec::new();
    match warning {
        Some(warning) => {
            items.push(Json::text(warning.as_str()));
        },
        None => {},
    }
    assert(warnings_value(text::view_opt(*warning)) == JsonView::List(
        json::items_view(items@),
    )) by {
        match *warning {
            Some(w) => {
                assert(json::items_view(items@) =~= seq![JsonView::Text(w@)]);
            },
            None => {
                assert(json::items_view(items@) =~= Seq::<JsonView>::empty());
            },
        }
    }
    Json::list(items)
}

fn listed_warnings(warning: Option<String>) -> (r: Vec<String>)
    ensures
        text::views(r@) == warnings_of(text::view_opt(warning)),
{
    let mut r: Vec<String> = Vec::new();
    match warning {
        Some(warning) => {
            r.push(warning);
        },
        None => {},
    }
    assert(text::views(r@) =~= warnings_of(text::view_opt(warning)));
    r
}

impl ToolCall {
    fn make_record(&self, event: &str, file: &ArtifactRef, error: Option<String>, fields: Json) -> (r:
        SessionRecord)
        ensures
            r@ == call_record(event@, self@, file@, text::view_opt(error), fields@),
    {
        SessionRecord {
            event: event.to_owned(),
            previous_state: None,
            new_state: None,
            operation: Some(cat2("ida.", self.tool.as_str())),
            artifact_path: Some(file.path.clone()),
            error,
            fields,
        }
    }

    fn judge(&self, sessions: &IdaSessions) -> (step: CallStep)
        ensures
            calls(step, sessions@, call_judged(sessions@, self@)),
    {
        let session = match sessions.get(self.id) {
            Ok(session) => session,
            Err(missing) => {
                return call_ended(Err(missing));
            },
        };
        match session.state {
            ReverseSessionState::Ready => {},
            ReverseSessionState::Closed => {
                return call_ended(Err(DbgFlowError::SessionClosed(self.id.to_text())));
            },
            _ => {
                let message = cat3(
                    self.tool.as_str(),
                    " requires Ready IDA session; current state is ",
                    session.state.name(),
                );
                return call_ended(Err(DbgFlowError::Backend(message)));
            },
        }
        match sessions.database_id(self.id) {
            Ok(database_id) => CallStep {
                phase: CallPhase::Call,
                ask: IdaAsk::CallTool {
                    database_id,
                    tool: self.tool.clone(),
                    arguments: self.arguments.duplicate(),
                },
                record: None,
            },
            Err(error) => call_ended(Err(error)),
        }
    }

    /// Begins a call. A tool that is not offered, or arguments that name a database of the
    /// backend, are refused.
    pub fn begin(&self, sessions: &IdaSessions) -> (step: CallStep)
        ensures
            calls(step, sessions@, call_begun(sessions@, self@)),
    {
        if !is_allowed_upstream_tool(self.tool.as_str()) {
            let message = cat2(
                "IDA upstream tool is not exposed by dbgflow: ",
                self.tool.as_str(),
            );
            return call_ended(Err(DbgFlowError::Backend(message)));
        }
        if self.arguments.get("database").is_some() {
            return call_ended(
                Err(
                    DbgFlowError::Backend(
                        "IDA tools accept dbgflow session_id, not upstream database".to_owned(),
                    ),
                ),
            );
        }
        match sessions.listing_for(self.id) {
            Some(database_id) => CallStep {
                phase: CallPhase::Refresh { database_id },
                ask: IdaAsk::List,
                record: None,
            },
            None => self.judge(sessions),
        }
    }

    fn write(
        &self,
        sessions: &mut IdaSessions,
        result: SupervisorToolCallResult,
        value: Json,
        warning: Option<String>,
    ) -> (step: CallStep)
        ensures
            calls(
                step,
                final(sessions)@,
                call_written(old(sessions)@, self@, result@, value@, text::view_opt(warning)),
            ),
    {
        let base = cat2(self.tool.as_str(), ".json");
        let name = sessions.unique_output_name(base.as_str());
        CallStep {
            phase: CallPhase::Write { result, warning },
            ask: IdaAsk::WriteOutput { name, value },
            record: None,
        }
    }

    fn after_call(
        &self,
        sessions: &mut IdaSessions,
        r: Result<SupervisorToolCallResult, DbgFlowError>,
    ) -> (step: CallStep)
        ensures
            calls(
                step,
                final(sessions)@,
                call_answered(old(sessions)@, self@, manager::called_view(r)),
            ),
    {
        let result = match r {
            Ok(result) => result,
            Err(error) => {
                let value = Json::object().with_text(
                    "tool",
                    cat2("ida.", self.tool.as_str()).as_str(),
                ).with("request", self.arguments.duplicate()).with_text(
                    "error",
                    error.message().as_str(),
                );
                let base = cat2(self.tool.as_str(), ".error.json");
                let name = sessions.unique_output_name(base.as_str());
                return CallStep {
                    phase: CallPhase::WriteError { error },
                    ask: IdaAsk::WriteOutput { name, value },
                    record: None,
                };
            },
        };
        let url: Option<String> = match ida_mcp_download_url(&result.mcp_result) {
            Some(url) => Some(url.to_owned()),
            None => None,
        };
        match url {
            Some(url) => CallStep {
                phase: CallPhase::Download { result },
                ask: IdaAsk::Download(url),
                record: None,
            },
            None => {
                let value = make_output(self.tool.as_str(), &self.arguments, &result);
                self.write(sessions, result, value, None)
            },
        }
    }

    fn after_write(
        &self,
        sessions: &mut IdaSessions,
        result: SupervisorToolCallResult,
        warning: Option<String>,
        file: ArtifactRef,
        now: u64,
    ) -> (step: CallStep)
        requires
            table::keyed(old(sessions)@),
        ensures
            calls(
                step,
                final(sessions)@,
                call_kept(
                    old(sessions)@,
                    self@,
                    result@,
                    text::view_opt(warning),
                    file@,
                    now,
                ),
            ),
    {
        match sessions.append_artifact_to_session(self.id, file.duplicate(), now) {
            Ok(()) => {},
            Err(missing) => {
                return call_ended(Err(missing));
            },
        }
        let fields = Json::object().with_text("tool", self.tool.as_str()).with(
            "warnings",
            make_warnings(&warning),
        );
        if result.is_error {
            let error = match result.error_message {
                Some(error) => error,
                None => "ida-pro-mcp upstream tool failed".to_owned(),
            };
            let record = self.make_record(
                "upstream_tool_failed",
                &file,
                Some(error.clone()),
                fields,
            );
            return CallStep {
                phase: CallPhase::Done(Err(DbgFlowError::Backend(error))),
                ask: IdaAsk::Nothing,
                record: Some(record),
            };
        }
        let record = self.make_record("upstream_tool_finished", &file, None, fields);
        let outcome = IdaToolCallResult {
            session_id: self.id,
            tool: cat2("ida.", self.tool.as_str()),
            result: result.structured_content,
            artifact: file,
            warnings: listed_warnings(warning),
        };
        CallStep { phase: CallPhase::Done(Ok(outcome)), ask: IdaAsk::Nothing, record: Some(record) }
    }

    fn after_error_write(
        &self,
        sessions: &mut IdaSessions,
        error: DbgFlowError,
        file: ArtifactRef,
        now: u64,
    ) -> (step: CallStep)
        requires
            table::keyed(old(sessions)@),
        ensures
            calls(
                step,
                final(sessions)@,
                call_error_kept(old(sessions)@, self@, error@, file@, now),
            ),
    {
        let record = self.make_record(
            "upstream_tool_failed",
            &file,
            Some(error.message()),
            Json::object().with_text("tool", self.tool.as_str()),
        );
        match sessions.append_artifact_to_session(self.id, file, now) {
            Ok(()) => CallStep {
                phase: CallPhase::Done(Err(error)),
                ask: IdaAsk::Nothing,
                record: Some(record),
            },
            Err(missing) => call_ended(Err(missing)),
        }
    }

    /// Takes an answer of the outside in.
    pub fn answer(
        &self,
        phase: CallPhase,
        sessions: &mut IdaSessions,
        answer: IdaAnswer,
        now: u64,
    ) -> (step: CallStep)
        requires
            table::keyed(old(sessions)@),
        ensures
            calls(
                step,
                final(sessions)@,
                call_after(old(sessions)@, self@, phase@, answer@, now),
            ),
            table::keyed(final(sessions)@),
    {
        match (phase, answer) {
            (CallPhase::Refresh { database_id }, IdaAnswer::Listed(r)) => {
                sessions.refresh(self.id, database_id.as_str(), r, now);
                self.judge(sessions)
            },
            (CallPhase::Call, IdaAnswer::Called(r)) => self.after_call(sessions, r),
            (CallPhase::Download { result }, IdaAnswer::Downloaded(r)) => {
                let (value, warning) = make_whole_output(
                    self.tool.as_str(),
                    &self.arguments,
                    &result,
                    r,
                );
                self.write(sessions, result, value, warning)
            },
            (CallPhase::Write { result, warning }, IdaAnswer::Written(Ok(file))) => {
                self.after_write(sessions, result, warning, file, now)
            },
            (CallPhase::WriteError { error }, IdaAnswer::Written(Ok(file))) => {
                self.after_error_write(sessions, error, file, now)
            },
            (CallPhase::Write { .. }, IdaAnswer::Written(Err(error))) => call_ended(Err(error)),
            (CallPhase::WriteError { .. }, IdaAnswer::Written(Err(error))) => {
                call_ended(Err(error))
            },
            (phase, _) => CallStep { phase, ask: IdaAsk::Nothing, record: None },
        }
    }
}

} // verus!
