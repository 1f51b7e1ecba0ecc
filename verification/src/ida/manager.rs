//! Operations on analysis sessions: the outside does what it is asked to, and each answer is a
//! step.

use crate::artifact;
use crate::artifact::{ArtifactRef, ArtifactView};
use crate::error::{DbgFlowError, ErrorView};
use crate::ida::model;
use crate::ida::model::{
    CloseDatabaseResult, CloseView, DatabaseView, IdaOpenMode, IdaUpstreamSession, ReverseSession,
    ReverseSessionState, SaveStatus, SessionView,
};
use crate::ida::table;
use crate::ida::table::{make_session, IdaSessions, TableView, BACKEND_NAME};
use crate::ida::target::{IdaTarget, TargetView};
use crate::ida::worker;
use crate::ida::worker::{
    ida_mcp_download_url, OpenIdaDatabase, OpenIdaDatabaseResult,
    OpenedView, SupervisorToolCallResult, ToolResultView, UPSTREAM_IDB_SAVE,
};
use crate::ids;
use crate::ids::SessionId;
use crate::json;
use crate::json::{Json, JsonView};
use crate::text;
use crate::text::cat2;
use vstd::prelude::*;

verus! {

pub const DEFAULT_STARTUP_TIMEOUT_MS: u64 = 1800000;

pub const DEFAULT_IDLE_TTL_SEC: u64 = 3600;

/// An entry in the log of a session.
#[derive(Debug)]
pub struct SessionRecord {
    pub event: String,
    pub previous_state: Option<ReverseSessionState>,
    pub new_state: Option<ReverseSessionState>,
    pub operation: Option<String>,
    pub artifact_path: Option<String>,
    pub error: Option<String>,
    pub fields: Json,
}

/// The mathematical form of an entry.
#[verifier::ext_equal]
pub struct SessionRecordView {
    pub event: Seq<char>,
    pub previous_state: Option<ReverseSessionState>,
    pub new_state: Option<ReverseSessionState>,
    pub operation: Option<Seq<char>>,
    pub artifact_path: Option<Seq<char>>,
    pub error: Option<Seq<char>>,
    pub fields: JsonView,
}

impl View for SessionRecord {
    type V = SessionRecordView;

    open spec fn view(&self) -> SessionRecordView {
        SessionRecordView {
            event: self.event@,
            previous_state: self.previous_state,
            new_state: self.new_state,
            operation: text::view_opt(self.operation),
            artifact_path: text::view_opt(self.artifact_path),
            error: text::view_opt(self.error),
            fields: self.fields@,
        }
    }
}

/// The view of an optional entry.
pub open spec fn record_opt(o: Option<SessionRecord>) -> Option<SessionRecordView> {
    match o {
        Some(r) => Some(r@),
        None => None,
    }
}

/// A request for a session.
#[derive(Debug)]
pub struct CreateIdaSession {
    pub target: IdaTarget,
    pub run_auto_analysis: bool,
    pub build_caches: bool,
    pub init_hexrays: bool,
    pub mode: IdaOpenMode,
    pub idle_ttl_sec: u64,
    pub startup_timeout_ms: Option<u64>,
}

/// The mathematical form of a request for a session.
#[verifier::ext_equal]
pub struct CreateView {
    pub target: TargetView,
    pub run_auto_analysis: bool,
    pub build_caches: bool,
    pub init_hexrays: bool,
    pub mode: IdaOpenMode,
    pub idle_ttl_sec: u64,
    pub startup_timeout_ms: Option<u64>,
}

impl View for CreateIdaSession {
    type V = CreateView;

    open spec fn view(&self) -> CreateView {
        CreateView {
            target: self.target@,
            run_auto_analysis: self.run_auto_analysis,
            build_caches: self.build_caches,
            init_hexrays: self.init_hexrays,
            mode: self.mode,
            idle_ttl_sec: self.idle_ttl_sec,
            startup_timeout_ms: self.startup_timeout_ms,
        }
    }
}

impl CreateView {
    /// The request as a value.
    pub open spec fn value(self) -> JsonView {
        JsonView::object().with("target"@, self.target.value()).with(
            "run_auto_analysis"@,
            JsonView::Bool(self.run_auto_analysis),
        ).with("build_caches"@, JsonView::Bool(self.build_caches)).with(
            "init_hexrays"@,
            JsonView::Bool(self.init_hexrays),
        ).with_text("mode"@, model::mode_name(self.mode)).with(
            "idle_ttl_sec"@,
            JsonView::Unsigned(self.idle_ttl_sec),
        ).with("startup_timeout_ms"@, json::opt_unsigned_view(self.startup_timeout_ms))
    }

    /// How long the database may take to open, in milliseconds.
    pub open spec fn startup_timeout(self) -> u64 {
        match self.startup_timeout_ms {
            Some(ms) => worker::at_least_one(ms),
            None => DEFAULT_STARTUP_TIMEOUT_MS,
        }
    }
}

impl CreateIdaSession {
    /// A request that leaves everything but the target open.
    pub fn with_defaults(target: IdaTarget) -> (r: CreateIdaSession)
        ensures
            r@ == (CreateView {
                target: target@,
                run_auto_analysis: true,
                build_caches: true,
                init_hexrays: true,
                mode: IdaOpenMode::PreferHeadless,
                idle_ttl_sec: DEFAULT_IDLE_TTL_SEC,
                startup_timeout_ms: None,
            }),
    {
        CreateIdaSession {
            target,
            run_auto_analysis: true,
            build_caches: true,
            init_hexrays: true,
            mode: IdaOpenMode::PreferHeadless,
            idle_ttl_sec: DEFAULT_IDLE_TTL_SEC,
            startup_timeout_ms: None,
        }
    }

    /// The request as a value.
    pub fn to_json(&self) -> (r: Json)
        ensures
            r@ == self@.value(),
    {
        Json::object().with("target", self.target.to_json()).with(
            "run_auto_analysis",
            Json::Bool(self.run_auto_analysis),
        ).with("build_caches", Json::Bool(self.build_caches)).with(
            "init_hexrays",
            Json::Bool(self.init_hexrays),
        ).with_text("mode", self.mode.as_upstream()).with(
            "idle_ttl_sec",
            Json::Unsigned(self.idle_ttl_sec),
        ).with("startup_timeout_ms", Json::unsigned_opt(self.startup_timeout_ms))
    }
}

/// Whether a request to open a database is the one that a request for a session leads to.
pub open spec fn opens(o: OpenIdaDatabase, request: CreateView, id: SessionId) -> bool {
    &&& o.input_path@ == request.target.place()
    &&& o.mode == request.mode
    &&& o.run_auto_analysis == request.run_auto_analysis
    &&& o.build_caches == request.build_caches
    &&& o.init_hexrays == request.init_hexrays
    &&& o.idle_ttl_sec == request.idle_ttl_sec
    &&& o.preferred_session_id@ == "dbgflow-"@ + ids::uuid_text(id.0)
    &&& o.startup_timeout_ms == request.startup_timeout()
}

/// What the outside is asked to do.
#[derive(Debug)]
pub enum IdaAsk {
    /// List the open databases.
    List,
    /// Write down a request and the session that was made for it.
    Audit { request: Json, session: ReverseSession },
    /// Open a database.
    Open(OpenIdaDatabase),
    /// Call a tool of the backend.
    CallTool { database_id: String, tool: String, arguments: Json },
    /// Fetch an output.
    Download(String),
    /// Write an output file.
    WriteOutput { name: String, value: Json },
    Nothing,
}

/// The mathematical form of what the outside is asked to do.
pub enum AskView {
    List,
    Audit { value: JsonView, session: SessionView },
    Open { request: CreateView, id: SessionId },
    CallTool { database_id: Seq<char>, tool: Seq<char>, arguments: JsonView },
    Download(Seq<char>),
    WriteOutput { name: Seq<char>, value: JsonView },
    Nothing,
}

/// Whether an ask says what it should.
pub open spec fn asks(ask: IdaAsk, v: AskView) -> bool {
    match (ask, v) {
        (IdaAsk::List, AskView::List) => true,
        (IdaAsk::Audit { request, session }, AskView::Audit { value: r, session: s }) => {
            request@ == r && session@ == s
        },
        (IdaAsk::Open(o), AskView::Open { request, id }) => opens(o, request, id),
        (
            IdaAsk::CallTool { database_id, tool, arguments },
            AskView::CallTool { database_id: d, tool: t, arguments: a },
        ) => database_id@ == d && tool@ == t && arguments@ == a,
        (IdaAsk::Download(url), AskView::Download(u)) => url@ == u,
        (IdaAsk::WriteOutput { name, value }, AskView::WriteOutput { name: n, value: w }) => {
            name@ == n && value@ == w
        },
        (IdaAsk::Nothing, AskView::Nothing) => true,
        _ => false,
    }
}

/// An answer of the outside.
#[derive(Debug)]
pub enum IdaAnswer {
    Listed(Result<Vec<IdaUpstreamSession>, DbgFlowError>),
    /// The files that hold the request and the session.
    Audited(Result<(ArtifactRef, ArtifactRef), DbgFlowError>),
    Opened(Result<OpenIdaDatabaseResult, DbgFlowError>),
    Called(Result<SupervisorToolCallResult, DbgFlowError>),
    Downloaded(Result<Json, DbgFlowError>),
    Written(Result<ArtifactRef, DbgFlowError>),
}

/// The mathematical form of an answer.
pub enum AnswerView {
    Listed(Result<Seq<DatabaseView>, ErrorView>),
    Audited(Result<(ArtifactView, ArtifactView), ErrorView>),
    Opened(Result<OpenedView, ErrorView>),
    Called(Result<ToolResultView, ErrorView>),
    Downloaded(Result<JsonView, ErrorView>),
    Written(Result<ArtifactView, ErrorView>),
}

/// The view of what was fetched.
pub open spec fn fetched_view(r: Result<Json, DbgFlowError>) -> Result<JsonView, ErrorView> {
    match r {
        Ok(j) => Ok(j@),
        Err(e) => Err(e@),
    }
}

/// The view of a file that was written.
pub open spec fn written_view(r: Result<ArtifactRef, DbgFlowError>) -> Result<
    ArtifactView,
    ErrorView,
> {
    match r {
        Ok(a) => Ok(a@),
        Err(e) => Err(e@),
    }
}

/// The view of what a tool answered.
pub open spec fn called_view(r: Result<SupervisorToolCallResult, DbgFlowError>) -> Result<
    ToolResultView,
    ErrorView,
> {
    match r {
        Ok(v) => Ok(v@),
        Err(e) => Err(e@),
    }
}

impl View for IdaAnswer {
    type V = AnswerView;

    open spec fn view(&self) -> AnswerView {
        match *self {
            IdaAnswer::Listed(r) => AnswerView::Listed(table::listed_view(r)),
            IdaAnswer::Audited(r) => AnswerView::Audited(
                match r {
                    Ok((a, b)) => Ok((a@, b@)),
                    Err(e) => Err(e@),
                },
            ),
            IdaAnswer::Opened(r) => AnswerView::Opened(
                match r {
                    Ok(o) => Ok(o@),
                    Err(e) => Err(e@),
                },
            ),
            IdaAnswer::Called(r) => AnswerView::Called(called_view(r)),
            IdaAnswer::Downloaded(r) => AnswerView::Downloaded(fetched_view(r)),
            IdaAnswer::Written(r) => AnswerView::Written(written_view(r)),
        }
    }
}

/// The view of the session that an operation ends with.
pub open spec fn session_result(r: Result<ReverseSession, DbgFlowError>) -> Result<
    SessionView,
    ErrorView,
> {
    match r {
        Ok(s) => Ok(s@),
        Err(e) => Err(e@),
    }
}

/// What looking a session up gives.
pub open spec fn looked_up(t: TableView, id: SessionId) -> Result<SessionView, ErrorView> {
    if t.sessions.contains_key(id.0) {
        Ok(t.sessions[id.0])
    } else {
        Err(table::not_found(id))
    }
}

/// What the creation of a session waits for.
#[derive(Debug)]
pub enum CreatePhase {
    Audit { request: CreateIdaSession, session: ReverseSession },
    Open { id: SessionId },
    Refresh { id: SessionId, database_id: String },
    Done(Result<ReverseSession, DbgFlowError>),
}

/// The mathematical form of what the creation of a session waits for.
pub enum CreatePhaseView {
    Audit { request: CreateView, session: SessionView },
    Open { id: SessionId },
    Refresh { id: SessionId, database_id: Seq<char> },
    Done(Result<SessionView, ErrorView>),
}

impl View for CreatePhase {
    type V = CreatePhaseView;

    open spec fn view(&self) -> CreatePhaseView {
        match *self {
            CreatePhase::Audit { request, session } => CreatePhaseView::Audit {
                request: request@,
                session: session@,
            },
            CreatePhase::Open { id } => CreatePhaseView::Open { id },
            CreatePhase::Refresh { id, database_id } => CreatePhaseView::Refresh {
                id,
                database_id: database_id@,
            },
            CreatePhase::Done(r) => CreatePhaseView::Done(session_result(r)),
        }
    }
}

/// A step of the creation of a session.
#[derive(Debug)]
pub struct CreateStep {
    pub phase: CreatePhase,
    pub ask: IdaAsk,
    pub record: Option<SessionRecord>,
}

/// The mathematical form of a step of the creation of a session, with the table after it.
pub struct CreateStepView {
    pub table: TableView,
    pub phase: CreatePhaseView,
    pub ask: AskView,
    pub record: Option<SessionRecordView>,
}

/// Whether a step is what it should be.
pub open spec fn creates(step: CreateStep, t: TableView, v: CreateStepView) -> bool {
    &&& t == v.table
    &&& step.phase@ == v.phase
    &&& asks(step.ask, v.ask)
    &&& record_opt(step.record) == v.record
}

/// The creation of a session is over.
pub open spec fn create_done(t: TableView, r: Result<SessionView, ErrorView>) -> CreateStepView {
    CreateStepView { table: t, phase: CreatePhaseView::Done(r), ask: AskView::Nothing, record: None }
}

/// The start of a session for a target that no session can be shared for: the request and the
/// session are written down.
pub open spec fn create_begun(
    t: TableView,
    request: CreateView,
    id: SessionId,
    now: u64,
) -> CreateStepView {
    let session = table::new_session(id, request.target, now);
    CreateStepView {
        table: t,
        phase: CreatePhaseView::Audit { request, session },
        ask: AskView::Audit { value: request.value(), session },
        record: None,
    }
}

/// Whether a session can be given out for a target.
pub open spec fn sharable(t: TableView, k: u128, target: TargetView) -> bool {
    t.sessions.contains_key(k) && t.sessions[k].target.same_as(target)
        && t.sessions[k].state.reusable()
}

/// Whether the creation of a session may begin with a step: a session that can be shared is
/// given out at once, whatever else is asked for; if there is none, a new one is begun.
pub open spec fn create_begins(
    t: TableView,
    request: CreateView,
    id: SessionId,
    now: u64,
    v: CreateStepView,
) -> bool {
    if exists|k: u128| sharable(t, k, request.target) {
        exists|k: u128| #[trigger]
            sharable(t, k, request.target) && v == create_done(t, Ok(t.sessions[k]))
    } else {
        v == create_begun(t, request, id, now)
    }
}

/// After the request and the session were written down: the session is kept and its database
/// is opened.
pub open spec fn create_audited(
    t: TableView,
    request: CreateView,
    session: SessionView,
    r: Result<(ArtifactView, ArtifactView), ErrorView>,
) -> CreateStepView {
    match r {
        Err(e) => create_done(t, Err(e)),
        Ok((request_file, session_file)) => CreateStepView {
            table: t.with_session(
                SessionView {
                    artifacts: session.artifacts.push(request_file).push(session_file),
                    ..session
                },
            ),
            phase: CreatePhaseView::Open { id: session.id },
            ask: AskView::Open { request, id: session.id },
            record: Some(
                SessionRecordView {
                    event: "create_session_started"@,
                    previous_state: None,
                    new_state: Some(ReverseSessionState::Starting),
                    operation: Some("ida.create_session"@),
                    artifact_path: Some(request_file.path),
                    error: None,
                    fields: JsonView::object().with_text("backend"@, BACKEND_NAME@).with(
                        "target"@,
                        session.target.value(),
                    ),
                },
            ),
        },
    }
}

/// The entry about a session whose database was opened.
pub open spec fn opened_record(database_id: Seq<char>) -> SessionRecordView {
    SessionRecordView {
        event: "create_session_finished"@,
        previous_state: Some(ReverseSessionState::Starting),
        new_state: Some(ReverseSessionState::Ready),
        operation: Some("ida.create_session"@),
        artifact_path: None,
        error: None,
        fields: JsonView::object().with_text("database_id"@, database_id),
    }
}

/// After the database was opened, or could not be. Before the session is given out, the
/// backend is asked once more.
pub open spec fn create_opened(
    t: TableView,
    id: SessionId,
    r: Result<OpenedView, ErrorView>,
    now: u64,
) -> CreateStepView {
    match r {
        Ok(o) => {
            let bound = t.bound(id.0, o.session.database_id);
            if !t.sessions.contains_key(id.0) {
                create_done(bound, Err(table::not_found(id)))
            } else {
                CreateStepView {
                    table: bound.with_session(
                        table::opened_session(t.sessions[id.0], o, now),
                    ),
                    phase: CreatePhaseView::Refresh { id, database_id: o.session.database_id },
                    ask: AskView::List,
                    record: Some(opened_record(o.session.database_id)),
                }
            }
        },
        Err(e) => if !t.sessions.contains_key(id.0) {
            create_done(t, Err(table::not_found(id)))
        } else {
            create_done(
                t.with_session(table::failed_session(t.sessions[id.0], e.text(), now)),
                Err(e),
            )
        },
    }
}

/// What an answer leads to. An answer that is not waited for changes nothing.
pub open spec fn create_after(
    t: TableView,
    phase: CreatePhaseView,
    answer: AnswerView,
    now: u64,
) -> CreateStepView {
    match (phase, answer) {
        (CreatePhaseView::Audit { request, session }, AnswerView::Audited(r)) => create_audited(
            t,
            request,
            session,
            r,
        ),
        (CreatePhaseView::Open { id }, AnswerView::Opened(r)) => create_opened(t, id, r, now),
        (CreatePhaseView::Refresh { id, database_id }, AnswerView::Listed(r)) => {
            let after = table::refreshed(t, id.0, database_id, r, now);
            create_done(after, looked_up(after, id))
        },
        _ => CreateStepView { table: t, phase, ask: AskView::Nothing, record: None },
    }
}

fn created(r: Result<ReverseSession, DbgFlowError>) -> (step: CreateStep)
    ensures
        step.phase@ == CreatePhaseView::Done(session_result(r)),
        step.ask is Nothing,
        step.record is None,
{
    CreateStep { phase: CreatePhase::Done(r), ask: IdaAsk::Nothing, record: None }
}

/// Begins to create a session: one that can be shared is given out at once.
pub fn begin_create(
    sessions: &IdaSessions,
    request: CreateIdaSession,
    id: SessionId,
    now: u64,
) -> (step: CreateStep)
    ensures
        exists|v: CreateStepView| #[trigger]
            create_begins(sessions@, request@, id, now, v) && creates(step, sessions@, v),
{
    match sessions.reusable_session_for_target(&request.target) {
        Some(existing) => {
            proof {
                let k = choose|k: u128| #[trigger]
                    sessions@.sessions.contains_key(k) && sessions@.sessions[k] == existing@
                        && existing@.target.same_as(request@.target) && existing@.state.reusable();
                assert(sharable(sessions@, k, request@.target));
                assert(create_begins(
                    sessions@,
                    request@,
                    id,
                    now,
                    create_done(sessions@, Ok(sessions@.sessions[k])),
                ));
            }
            created(Ok(existing))
        },
        None => {
            let ghost begun = create_begun(sessions@, request@, id, now);
            assert(create_begins(sessions@, request@, id, now, begun));
            let session = make_session(id, request.target.duplicate(), now);
            let ask = IdaAsk::Audit { request: request.to_json(), session: session.duplicate() };
            CreateStep { phase: CreatePhase::Audit { request, session }, ask, record: None }
        },
    }
}

fn open_request(request: &CreateIdaSession, id: SessionId) -> (r: OpenIdaDatabase)
    ensures
        opens(r, request@, id),
{
    let startup_timeout_ms: u64 = match request.startup_timeout_ms {
        Some(ms) => if ms == 0 {
            1
        } else {
            ms
        },
        None => DEFAULT_STARTUP_TIMEOUT_MS,
    };
    OpenIdaDatabase {
        input_path: request.target.path().clone(),
        mode: request.mode,
        run_auto_analysis: request.run_auto_analysis,
        build_caches: request.build_caches,
        init_hexrays: request.init_hexrays,
        idle_ttl_sec: request.idle_ttl_sec,
        preferred_session_id: cat2("dbgflow-", id.to_text().as_str()),
        startup_timeout_ms,
    }
}

fn create_after_audit(
    sessions: &mut IdaSessions,
    request: CreateIdaSession,
    session: ReverseSession,
    r: Result<(ArtifactRef, ArtifactRef), DbgFlowError>,
) -> (step: CreateStep)
    ensures
        creates(
            step,
            final(sessions)@,
            create_audited(
                old(sessions)@,
                request@,
                session@,
                match r {
                    Ok((a, b)) => Ok((a@, b@)),
                    Err(e) => Err(e@),
                },
            ),
        ),
{
    let (request_file, session_file) = match r {
        Ok(files) => files,
        Err(error) => {
            return created(Err(error));
        },
    };
    let mut session = session;
    let ghost was = session@;
    let id = session.id;
    let artifact_path = Some(request_file.path.clone());
    let fields = Json::object().with_text("backend", BACKEND_NAME).with(
        "target",
        session.target.to_json(),
    );
    session.artifacts.push(request_file);
    session.artifacts.push(session_file);
    assert(artifact::artifacts_view(session.artifacts@) =~= was.artifacts.push(
        request_file@,
    ).push(session_file@));
    assert(session@ =~= (SessionView {
        artifacts: was.artifacts.push(request_file@).push(session_file@),
        ..was
    }));
    sessions.insert_session(session);
    let record = SessionRecord {
        event: "create_session_started".to_owned(),
        previous_state: None,
        new_state: Some(ReverseSessionState::Starting),
        operation: Some("ida.create_session".to_owned()),
        artifact_path,
        error: None,
        fields,
    };
    CreateStep {
        phase: CreatePhase::Open { id },
        ask: IdaAsk::Open(open_request(&request, id)),
        record: Some(record),
    }
}

fn create_after_open(
    sessions: &mut IdaSessions,
    id: SessionId,
    r: Result<OpenIdaDatabaseResult, DbgFlowError>,
    now: u64,
) -> (step: CreateStep)
    requires
        table::keyed(old(sessions)@),
    ensures
        creates(
            step,
            final(sessions)@,
            create_opened(
                old(sessions)@,
                id,
                match r {
                    Ok(o) => Ok(o@),
                    Err(e) => Err(e@),
                },
                now,
            ),
        ),
{
    match r {
        Ok(opened) => {
            match sessions.bind(id, &opened, now) {
                Ok(()) => {},
                Err(error) => {
                    return created(Err(error));
                },
            }
            let database_id = opened.session.database_id;
            let record = SessionRecord {
                event: "create_session_finished".to_owned(),
                previous_state: Some(ReverseSessionState::Starting),
                new_state: Some(ReverseSessionState::Ready),
                operation: Some("ida.create_session".to_owned()),
                artifact_path: None,
                error: None,
                fields: Json::object().with_text("database_id", database_id.as_str()),
            };
            CreateStep {
                phase: CreatePhase::Refresh { id, database_id },
                ask: IdaAsk::List,
                record: Some(record),
            }
        },
        Err(error) => match sessions.fail(id, error.message().as_str(), now) {
            Ok(()) => created(Err(error)),
            Err(missing) => created(Err(missing)),
        },
    }
}

impl CreatePhase {
    /// Takes an answer of the outside in.
    pub fn answer(self, sessions: &mut IdaSessions, answer: IdaAnswer, now: u64) -> (step: CreateStep)
        requires
            table::keyed(old(sessions)@),
        ensures
            creates(
                step,
                final(sessions)@,
                create_after(old(sessions)@, self@, answer@, now),
            ),
            table::keyed(final(sessions)@),
    {
        match (self, answer) {
            (CreatePhase::Audit { request, session }, IdaAnswer::Audited(r)) => {
                create_after_audit(sessions, request, session, r)
            },
            (CreatePhase::Open { id }, IdaAnswer::Opened(r)) => {
                create_after_open(sessions, id, r, now)
            },
            (CreatePhase::Refresh { id, database_id }, IdaAnswer::Listed(r)) => {
                sessions.refresh(id, database_id.as_str(), r, now);
                created(sessions.get(id))
            },
            (phase, _) => CreateStep { phase, ask: IdaAsk::Nothing, record: None },
        }
    }
}

/// The output of a tool as it is kept.
pub open spec fn output_value(
    tool: Seq<char>,
    request: JsonView,
    result: ToolResultView,
) -> JsonView {
    JsonView::object().with_text("tool"@, "ida."@ + tool).with("request"@, request).with(
        "structured_content"@,
        result.structured_content,
    ).with("mcp_result"@, result.mcp_result)
}

/// What is said of an output that could not be fetched.
pub open spec fn fetch_warning(error: ErrorView) -> Seq<char> {
    "download full ida-pro-mcp output failed: "@ + error.text()
}

/// The output of a tool with what was fetched.
pub open spec fn whole_output(
    tool: Seq<char>,
    request: JsonView,
    result: ToolResultView,
    fetched: Result<JsonView, ErrorView>,
) -> JsonView {
    let output = output_value(tool, request, result);
    match fetched {
        Ok(full) => output.with("downloaded_full_output"@, full),
        Err(e) => output.with_text("download_warning"@, fetch_warning(e)),
    }
}

pub fn make_output(tool: &str, request: &Json, result: &SupervisorToolCallResult) -> (r: Json)
    ensures
        r@ == output_value(tool@, request@, result@),
{
    Json::object().with_text("tool", cat2("ida.", tool).as_str()).with(
        "request",
        request.duplicate(),
    ).with("structured_content", result.structured_content.duplicate()).with(
        "mcp_result",
        result.mcp_result.duplicate(),
    )
}

pub fn make_whole_output(
    tool: &str,
    request: &Json,
    result: &SupervisorToolCallResult,
    fetched: Result<Json, DbgFlowError>,
) -> (r: (Json, Option<String>))
    ensures
        r.0@ == whole_output(tool@, request@, result@, fetched_view(fetched)),
        text::view_opt(r.1) == match fetched_view(fetched) {
            Ok(_) => None,
            Err(e) => Some(fetch_warning(e)),
        },
{
    let output = make_output(tool, request, result);
    match fetched {
        Ok(full) => (output.with("downloaded_full_output", full), None),
        Err(error) => {
            let warning = cat2(
                "download full ida-pro-mcp output failed: ",
                error.message().as_str(),
            );
            (output.with_text("download_warning", warning.as_str()), Some(warning))
        },
    }
}

/// What the end of a session waits for.
#[derive(Debug)]
pub enum ClosePhase {
    /// That the backend lists its databases, before the session is judged.
    FirstRefresh { database_id: String },
    /// That the backend lists its databases, before the session is marked.
    SecondRefresh { database_id: String, previous: ReverseSessionState, bound: String },
    /// That the database is saved.
    Save { previous: ReverseSessionState },
    /// That the output of the save is fetched.
    Download { previous: ReverseSessionState, result: SupervisorToolCallResult },
    /// That the output of the save is written.
    Write { previous: ReverseSessionState, result: SupervisorToolCallResult },
    Done(Result<ReverseSession, DbgFlowError>),
}

/// The mathematical form of what the end of a session waits for.
pub enum ClosePhaseView {
    FirstRefresh { database_id: Seq<char> },
    SecondRefresh { database_id: Seq<char>, previous: ReverseSessionState, bound: Seq<char> },
    Save { previous: ReverseSessionState },
    Download { previous: ReverseSessionState, result: ToolResultView },
    Write { previous: ReverseSessionState, result: ToolResultView },
    Done(Result<SessionView, ErrorView>),
}

impl View for ClosePhase {
    type V = ClosePhaseView;

    open spec fn view(&self) -> ClosePhaseView {
        match *self {
            ClosePhase::FirstRefresh { database_id } => ClosePhaseView::FirstRefresh {
                database_id: database_id@,
            },
            ClosePhase::SecondRefresh { database_id, previous, bound } => {
                ClosePhaseView::SecondRefresh {
                    database_id: database_id@,
                    previous,
                    bound: bound@,
                }
            },
            ClosePhase::Save { previous } => ClosePhaseView::Save { previous },
            ClosePhase::Download { previous, result } => ClosePhaseView::Download {
                previous,
                result: result@,
            },
            ClosePhase::Write { previous, result } => ClosePhaseView::Write {
                previous,
                result: result@,
            },
            ClosePhase::Done(r) => ClosePhaseView::Done(session_result(r)),
        }
    }
}

/// A step of the end of a session.
#[derive(Debug)]
pub struct CloseStep {
    pub phase: ClosePhase,
    pub ask: IdaAsk,
    pub records: Vec<SessionRecord>,
}

/// The views of a list of entries.
pub open spec fn records_view(v: Seq<SessionRecord>) -> Seq<SessionRecordView> {
    v.map_values(|r: SessionRecord| r@)
}

/// The mathematical form of a step of the end of a session, with the table after it.
pub struct CloseStepView {
    pub table: TableView,
    pub phase: ClosePhaseView,
    pub ask: AskView,
    pub records: Seq<SessionRecordView>,
}

/// Whether a step is what it should be.
pub open spec fn closes(step: CloseStep, t: TableView, v: CloseStepView) -> bool {
    &&& t == v.table
    &&& step.phase@ == v.phase
    &&& asks(step.ask, v.ask)
    &&& records_view(step.records@) == v.records
}

/// The end of a session is over.
pub open spec fn close_done(t: TableView, r: Result<SessionView, ErrorView>) -> CloseStepView {
    CloseStepView {
        table: t,
        phase: ClosePhaseView::Done(r),
        ask: AskView::Nothing,
        records: Seq::empty(),
    }
}

/// What became of the database, given what the backend answered to the request to save it.
pub open spec fn saved(result: ToolResultView) -> CloseView {
    CloseView {
        save_requested: true,
        save_status: if result.is_error || result.structured_content.bool_at("ok"@) == Some(false) {
            SaveStatus::Failed
        } else {
            SaveStatus::Saved
        },
        warning: None,
        error: match result.error_message {
            Some(e) => Some(e),
            None => result.structured_content.text_at("error"@),
        },
    }
}

/// What became of a database that could not even be asked to be saved.
pub open spec fn save_failed(error: Seq<char>) -> CloseView {
    CloseView {
        save_requested: true,
        save_status: SaveStatus::Failed,
        warning: None,
        error: Some(error),
    }
}

/// What became of a database that was not to be saved.
pub open spec fn save_not_requested() -> CloseView {
    CloseView {
        save_requested: false,
        save_status: SaveStatus::NotRequested,
        warning: None,
        error: None,
    }
}

/// An entry about the end of a session.
pub open spec fn close_record(
    event: Seq<char>,
    previous: ReverseSessionState,
    new: ReverseSessionState,
    error: Option<Seq<char>>,
    fields: JsonView,
) -> SessionRecordView {
    SessionRecordView {
        event,
        previous_state: Some(previous),
        new_state: Some(new),
        operation: Some("ida.close_session"@),
        artifact_path: None,
        error,
        fields,
    }
}

/// When it is known what became of the database: a session whose database could not be saved
/// stays open, any other is closed.
pub open spec fn close_concluded(
    t: TableView,
    id: SessionId,
    save: bool,
    previous: ReverseSessionState,
    close: CloseView,
    now: u64,
    records: Seq<SessionRecordView>,
) -> CloseStepView {
    if close.save_status == SaveStatus::Failed || close.error is Some {
        let error = worker::text_or(close.error, "ida-pro-mcp idb_save failed"@);
        if !t.sessions.contains_key(id.0) {
            CloseStepView { records, ..close_done(t, Err(table::not_found(id))) }
        } else {
            CloseStepView {
                records: records.push(
                    close_record(
                        "close_session_failed"@,
                        ReverseSessionState::Closing,
                        previous,
                        Some(error),
                        close.fields(save),
                    ),
                ),
                ..close_done(
                    t.with_session(
                        table::unsaved_session(t.sessions[id.0], previous, close, error, now),
                    ),
                    Err(ErrorView::Backend(error)),
                )
            }
        }
    } else if !t.sessions.contains_key(id.0) {
        CloseStepView { records, ..close_done(t.unbound(id.0), Err(table::not_found(id))) }
    } else {
        let closed = table::closed_session(t.sessions[id.0], close, now);
        CloseStepView {
            records: records.push(
                close_record(
                    "close_session_finished"@,
                    previous,
                    ReverseSessionState::Closed,
                    None,
                    close.fields(save),
                ),
            ),
            ..close_done(t.unbound(id.0).with_session(closed), Ok(closed))
        }
    }
}

/// The session is marked as being closed, and its database is saved if that is wanted.
pub open spec fn close_marked(
    t: TableView,
    id: SessionId,
    save: bool,
    previous: ReverseSessionState,
    bound: Seq<char>,
    now: u64,
) -> CloseStepView {
    if !t.sessions.contains_key(id.0) {
        close_done(t, Err(table::not_found(id)))
    } else {
        let marked = t.with_session(table::closing_session(t.sessions[id.0], now));
        let changed = close_record(
            "state_changed"@,
            t.sessions[id.0].state,
            ReverseSessionState::Closing,
            None,
            JsonView::object(),
        );
        if save {
            CloseStepView {
                table: marked,
                phase: ClosePhaseView::Save { previous },
                ask: AskView::CallTool {
                    database_id: bound,
                    tool: UPSTREAM_IDB_SAVE@,
                    arguments: JsonView::object(),
                },
                records: seq![changed],
            }
        } else {
            close_concluded(marked, id, save, previous, save_not_requested(), now, seq![changed])
        }
    }
}

/// The session is judged: it must be there, not closed, and bound to a database.
pub open spec fn close_judged(t: TableView, id: SessionId, save: bool, now: u64) -> CloseStepView {
    if !t.sessions.contains_key(id.0) {
        close_done(t, Err(table::not_found(id)))
    } else if t.sessions[id.0].state == ReverseSessionState::Closed {
        close_done(t, Err(table::is_closed(id)))
    } else if !t.databases.contains_key(id.0) {
        close_done(t, Err(table::not_bound(id)))
    } else {
        match table::asked_for(t, id.0) {
            Some(database_id) => CloseStepView {
                table: t,
                phase: ClosePhaseView::SecondRefresh {
                    database_id,
                    previous: t.sessions[id.0].state,
                    bound: t.databases[id.0],
                },
                ask: AskView::List,
                records: Seq::empty(),
            },
            None => close_marked(t, id, save, t.sessions[id.0].state, t.databases[id.0], now),
        }
    }
}

/// The start of the end of a session.
pub open spec fn close_begun(t: TableView, id: SessionId, save: bool, now: u64) -> CloseStepView {
    match table::asked_for(t, id.0) {
        Some(database_id) => CloseStepView {
            table: t,
            phase: ClosePhaseView::FirstRefresh { database_id },
            ask: AskView::List,
            records: Seq::empty(),
        },
        None => close_judged(t, id, save, now),
    }
}

/// After the backend answered to the request to save the database.
pub open spec fn close_saved(
    t: TableView,
    id: SessionId,
    save: bool,
    previous: ReverseSessionState,
    r: Result<ToolResultView, ErrorView>,
    now: u64,
) -> CloseStepView {
    match r {
        Err(e) => close_concluded(t, id, save, previous, save_failed(e.text()), now, Seq::empty()),
        Ok(result) => match worker::download_url(result.mcp_result) {
            Some(url) => CloseStepView {
                table: t,
                phase: ClosePhaseView::Download { previous, result },
                ask: AskView::Download(url),
                records: Seq::empty(),
            },
            None => close_written(
                t,
                previous,
                result,
                output_value(UPSTREAM_IDB_SAVE@, JsonView::object(), result),
            ),
        },
    }
}

/// The output of the save is written.
pub open spec fn close_written(
    t: TableView,
    previous: ReverseSessionState,
    result: ToolResultView,
    value: JsonView,
) -> CloseStepView {
    CloseStepView {
        table: t.counted(),
        phase: ClosePhaseView::Write { previous, result },
        ask: AskView::WriteOutput {
            name: table::output_name(t.sequence, "idb_save.json"@),
            value,
        },
        records: Seq::empty(),
    }
}

/// What an answer leads to. An answer that is not waited for changes nothing.
pub open spec fn close_after(
    t: TableView,
    id: SessionId,
    save: bool,
    phase: ClosePhaseView,
    answer: AnswerView,
    now: u64,
) -> CloseStepView {
    match (phase, answer) {
        (ClosePhaseView::FirstRefresh { database_id }, AnswerView::Listed(r)) => close_judged(
            table::refreshed(t, id.0, database_id, r, now),
            id,
            save,
            now,
        ),
        (ClosePhaseView::SecondRefresh { database_id, previous, bound }, AnswerView::Listed(r)) => {
            close_marked(
                table::refreshed(t, id.0, database_id, r, now),
                id,
                save,
                previous,
                bound,
                now,
            )
        },
        (ClosePhaseView::Save { previous }, AnswerView::Called(r)) => close_saved(
            t,
            id,
            save,
            previous,
            r,
            now,
        ),
        (ClosePhaseView::Download { previous, result }, AnswerView::Downloaded(r)) => close_written(
            t,
            previous,
            result,
            whole_output(UPSTREAM_IDB_SAVE@, JsonView::object(), result, r),
        ),
        (ClosePhaseView::Write { previous, result }, AnswerView::Written(Ok(file))) => {
            if !t.sessions.contains_key(id.0) {
                close_done(t, Err(table::not_found(id)))
            } else {
                close_concluded(
                    t.with_session(table::session_with_artifact(t.sessions[id.0], file, now)),
                    id,
                    save,
                    previous,
                    saved(result),
                    now,
                    Seq::empty(),
                )
            }
        },
        (ClosePhaseView::Write { .. }, AnswerView::Written(Err(e))) => close_done(t, Err(e)),
        _ => CloseStepView { table: t, phase, ask: AskView::Nothing, records: Seq::empty() },
    }
}

fn no_session_records() -> (r: Vec<SessionRecord>)
    ensures
        records_view(r@) == Seq::<SessionRecordView>::empty(),
{
    let r: Vec<SessionRecord> = Vec::new();
    assert(records_view(r@) =~= Seq::<SessionRecordView>::empty());
    r
}

fn note_close(
    records: &mut Vec<SessionRecord>,
    event: &str,
    previous: ReverseSessionState,
    new: ReverseSessionState,
    error: Option<String>,
    fields: Json,
)
    ensures
        records_view(final(records)@) == records_view(old(records)@).push(
            close_record(event@, previous, new, text::view_opt(error), fields@),
        ),
{
    let record = SessionRecord {
        event: event.to_owned(),
        previous_state: Some(previous),
        new_state: Some(new),
        operation: Some("ida.close_session".to_owned()),
        artifact_path: None,
        error,
        fields,
    };
    records.push(record);
    assert(records_view(records@) =~= records_view(old(records)@).push(
        close_record(event@, previous, new, text::view_opt(error), fields@),
    ));
}

fn close_ended(r: Result<ReverseSession, DbgFlowError>, records: Vec<SessionRecord>) -> (step:
    CloseStep)
    ensures
        step.phase@ == ClosePhaseView::Done(session_result(r)),
        step.ask is Nothing,
        step.records == records,
{
    CloseStep { phase: ClosePhase::Done(r), ask: IdaAsk::Nothing, records }
}

fn save_outcome(result: &SupervisorToolCallResult) -> (r: CloseDatabaseResult)
    ensures
        r@ == saved(result@),
{
    let refused = match result.structured_content.bool_at("ok") {
        Some(ok) => !ok,
        None => false,
    };
    let error = match &result.error_message {
        Some(message) => Some(message.clone()),
        None => match result.structured_content.text_at("error") {
            Some(message) => Some(message.to_owned()),
            None => None,
        },
    };
    CloseDatabaseResult {
        save_requested: true,
        save_status: if result.is_error || refused {
            SaveStatus::Failed
        } else {
            SaveStatus::Saved
        },
        warning: None,
        error,
    }
}

/// The end of a session: which one, and whether its database is saved.
#[derive(Debug, Clone, Copy)]
pub struct CloseJob {
    pub id: SessionId,
    pub save: bool,
}

impl CloseJob {
    fn conclude(
        &self,
        sessions: &mut IdaSessions,
        previous: ReverseSessionState,
        close: CloseDatabaseResult,
        now: u64,
        records: Vec<SessionRecord>,
    ) -> (step: CloseStep)
        requires
            table::keyed(old(sessions)@),
        ensures
            closes(
                step,
                final(sessions)@,
                close_concluded(
                    old(sessions)@,
                    self.id,
                    self.save,
                    previous,
                    close@,
                    now,
                    records_view(records@),
                ),
            ),
    {
        let mut records = records;
        let failed = match close.save_status {
            SaveStatus::Failed => true,
            _ => false,
        };
        if failed || close.error.is_some() {
            let error = match &close.error {
                Some(error) => error.clone(),
                None => "ida-pro-mcp idb_save failed".to_owned(),
            };
            match sessions.keep_open(self.id, previous, &close, error.as_str(), now) {
                Ok(()) => {},
                Err(missing) => {
                    return close_ended(Err(missing), records);
                },
            }
            note_close(
                &mut records,
                "close_session_failed",
                ReverseSessionState::Closing,
                previous,
                Some(error.clone()),
                close.close_fields(self.save),
            );
            return close_ended(Err(DbgFlowError::Backend(error)), records);
        }
        match sessions.close(self.id, &close, now) {
            Ok(session) => {
                note_close(
                    &mut records,
                    "close_session_finished",
                    previous,
                    ReverseSessionState::Closed,
                    None,
                    close.close_fields(self.save),
                );
                close_ended(Ok(session), records)
            },
            Err(missing) => close_ended(Err(missing), records),
        }
    }

    fn mark(
        &self,
        sessions: &mut IdaSessions,
        previous: ReverseSessionState,
        bound: String,
        now: u64,
    ) -> (step: CloseStep)
        requires
            table::keyed(old(sessions)@),
        ensures
            closes(
                step,
                final(sessions)@,
                close_marked(old(sessions)@, self.id, self.save, previous, bound@, now),
            ),
    {
        let mut records = no_session_records();
        let was = match sessions.mark_closing(self.id, now) {
            Ok(was) => was,
            Err(missing) => {
                return close_ended(Err(missing), records);
            },
        };
        note_close(
            &mut records,
            "state_changed",
            was,
            ReverseSessionState::Closing,
            None,
            Json::object(),
        );
        assert(records_view(records@) =~= seq![
            close_record(
                "state_changed"@,
                was,
                ReverseSessionState::Closing,
                None,
                JsonView::object(),
            ),
        ]);
        if self.save {
            return CloseStep {
                phase: ClosePhase::Save { previous },
                ask: IdaAsk::CallTool {
                    database_id: bound,
                    tool: UPSTREAM_IDB_SAVE.to_owned(),
                    arguments: Json::object(),
                },
                records,
            };
        }
        let close = CloseDatabaseResult {
            save_requested: false,
            save_status: SaveStatus::NotRequested,
            warning: None,
            error: None,
        };
        self.conclude(sessions, previous, close, now, records)
    }

    fn judge(&self, sessions: &mut IdaSessions, now: u64) -> (step: CloseStep)
        requires
            table::keyed(old(sessions)@),
        ensures
            closes(
                step,
                final(sessions)@,
                close_judged(old(sessions)@, self.id, self.save, now),
            ),
    {
        let session = match sessions.get(self.id) {
            Ok(session) => session,
            Err(missing) => {
                return close_ended(Err(missing), no_session_records());
            },
        };
        let closed = match session.state {
            ReverseSessionState::Closed => true,
            _ => false,
        };
        if closed {
            return close_ended(
                Err(DbgFlowError::SessionClosed(self.id.to_text())),
                no_session_records(),
            );
        }
        let bound = match sessions.database_id(self.id) {
            Ok(bound) => bound,
            Err(error) => {
                return close_ended(Err(error), no_session_records());
            },
        };
        match sessions.listing_for(self.id) {
            Some(database_id) => CloseStep {
                phase: ClosePhase::SecondRefresh { database_id, previous: session.state, bound },
                ask: IdaAsk::List,
                records: no_session_records(),
            },
            None => self.mark(sessions, session.state, bound, now),
        }
    }

    /// Begins to close a session.
    pub fn begin(&self, sessions: &mut IdaSessions, now: u64) -> (step: CloseStep)
        requires
            table::keyed(old(sessions)@),
        ensures
            closes(
                step,
                final(sessions)@,
                close_begun(old(sessions)@, self.id, self.save, now),
            ),
            table::keyed(final(sessions)@),
    {
        match sessions.listing_for(self.id) {
            Some(database_id) => CloseStep {
                phase: ClosePhase::FirstRefresh { database_id },
                ask: IdaAsk::List,
                records: no_session_records(),
            },
            None => self.judge(sessions, now),
        }
    }

    fn write(
        &self,
        sessions: &mut IdaSessions,
        previous: ReverseSessionState,
        result: SupervisorToolCallResult,
        value: Json,
    ) -> (step: CloseStep)
        ensures
            closes(
                step,
                final(sessions)@,
                close_written(old(sessions)@, previous, result@, value@),
            ),
    {
        let name = sessions.unique_output_name("idb_save.json");
        CloseStep {
            phase: ClosePhase::Write { previous, result },
            ask: IdaAsk::WriteOutput { name, value },
            records: no_session_records(),
        }
    }

    fn after_save(
        &self,
        sessions: &mut IdaSessions,
        previous: ReverseSessionState,
        r: Result<SupervisorToolCallResult, DbgFlowError>,
        now: u64,
    ) -> (step: CloseStep)
        requires
            table::keyed(old(sessions)@),
        ensures
            closes(
                step,
                final(sessions)@,
                close_saved(old(sessions)@, self.id, self.save, previous, called_view(r), now),
            ),
    {
        let result = match r {
            Ok(result) => result,
            Err(error) => {
                let close = CloseDatabaseResult {
                    save_requested: true,
                    save_status: SaveStatus::Failed,
                    warning: None,
                    error: Some(error.message()),
                };
                return self.conclude(sessions, previous, close, now, no_session_records());
            },
        };
        let url: Option<String> = match ida_mcp_download_url(&result.mcp_result) {
            Some(url) => Some(url.to_owned()),
            None => None,
        };
        match url {
            Some(url) => CloseStep {
                phase: ClosePhase::Download { previous, result },
                ask: IdaAsk::Download(url),
                records: no_session_records(),
            },
            None => {
                let value = make_output(UPSTREAM_IDB_SAVE, &Json::object(), &result);
                self.write(sessions, previous, result, value)
            },
        }
    }

    fn after_write(
        &self,
        sessions: &mut IdaSessions,
        previous: ReverseSessionState,
        result: SupervisorToolCallResult,
        r: Result<ArtifactRef, DbgFlowError>,
        now: u64,
    ) -> (step: CloseStep)
        requires
            table::keyed(old(sessions)@),
        ensures
            closes(
                step,
                final(sessions)@,
                close_after(
                    old(sessions)@,
                    self.id,
                    self.save,
                    ClosePhaseView::Write { previous, result: result@ },
                    AnswerView::Written(written_view(r)),
                    now,
                ),
            ),
    {
        let file = match r {
            Ok(file) => file,
            Err(error) => {
                return close_ended(Err(error), no_session_records());
            },
        };
        match sessions.append_artifact_to_session(self.id, file, now) {
            Ok(()) => {},
            Err(missing) => {
                return close_ended(Err(missing), no_session_records());
            },
        }
        let close = save_outcome(&result);
        self.conclude(sessions, previous, close, now, no_session_records())
    }

    /// Takes an answer of the outside in.
    pub fn answer(
        &self,
        phase: ClosePhase,
        sessions: &mut IdaSessions,
        answer: IdaAnswer,
        now: u64,
    ) -> (step: CloseStep)
        requires
            table::keyed(old(sessions)@),
        ensures
            closes(
                step,
                final(sessions)@,
                close_after(old(sessions)@, self.id, self.save, phase@, answer@, now),
            ),
            table::keyed(final(sessions)@),
    {
        match (phase, answer) {
            (ClosePhase::FirstRefresh { database_id }, IdaAnswer::Listed(r)) => {
                sessions.refresh(self.id, database_id.as_str(), r, now);
                self.judge(sessions, now)
            },
            (ClosePhase::SecondRefresh { database_id, previous, bound }, IdaAnswer::Listed(r)) => {
                sessions.refresh(self.id, database_id.as_str(), r, now);
                self.mark(sessions, previous, bound, now)
            },
            (ClosePhase::Save { previous }, IdaAnswer::Called(r)) => {
                self.after_save(sessions, previous, r, now)
            },
            (ClosePhase::Download { previous, result }, IdaAnswer::Downloaded(r)) => {
                let (value, _) = make_whole_output(
                    UPSTREAM_IDB_SAVE,
                    &Json::object(),
                    &result,
                    r,
                );
                self.write(sessions, previous, result, value)
            },
            (ClosePhase::Write { previous, result }, IdaAnswer::Written(r)) => {
                self.after_write(sessions, previous, result, r, now)
            },
            (phase, _) => CloseStep {
                phase,
                ask: IdaAsk::Nothing,
                records: no_session_records(),
            },
        }
    }
}

} // verus!
