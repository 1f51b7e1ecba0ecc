//! Analysis sessions and what is known of them.

use crate::artifact;
use crate::artifact::{ArtifactRef, ArtifactView};
use crate::ida::target;
use crate::ida::target::IdaTarget;
use crate::ids::SessionId;
use crate::json;
use crate::json::{Json, JsonView};
use crate::text;
use vstd::prelude::*;

verus! {

/// How a session is.
#[derive(Debug, Clone, Copy, PartialEq, Eq, Structural)]
pub enum ReverseSessionState {
    Starting,
    Ready,
    Closing,
    Closed,
    Error,
}

impl ReverseSessionState {
    /// Whether a session in this state is given to others who ask for its target.
    pub open spec fn reusable(self) -> bool {
        self == ReverseSessionState::Starting || self == ReverseSessionState::Ready
    }

    /// Whether a session in this state is over.
    pub open spec fn terminal(self) -> bool {
        self == ReverseSessionState::Closed || self == ReverseSessionState::Error
    }

    /// Whether a session in this state is given to others who ask for its target.
    pub fn is_reusable(&self) -> (r: bool)
        ensures
            r == self.reusable(),
    {
        match self {
            ReverseSessionState::Starting => true,
            ReverseSessionState::Ready => true,
            _ => false,
        }
    }

    /// Whether a session in this state is over.
    pub fn is_terminal(&self) -> (r: bool)
        ensures
            r == self.terminal(),
    {
        match self {
            ReverseSessionState::Closed => true,
            ReverseSessionState::Error => true,
            _ => false,
        }
    }

    /// The name of the state.
    pub fn name(&self) -> (r: &'static str)
        ensures
            r@ == state_name(*self),
    {
        match self {
            ReverseSessionState::Starting => "Starting",
            ReverseSessionState::Ready => "Ready",
            ReverseSessionState::Closing => "Closing",
            ReverseSessionState::Closed => "Closed",
            ReverseSessionState::Error => "Error",
        }
    }
}

/// The name of a state.
pub open spec fn state_name(state: ReverseSessionState) -> Seq<char> {
    match state {
        ReverseSessionState::Starting => "Starting"@,
        ReverseSessionState::Ready => "Ready"@,
        ReverseSessionState::Closing => "Closing"@,
        ReverseSessionState::Closed => "Closed"@,
        ReverseSessionState::Error => "Error"@,
    }
}

/// With or without a user interface.
#[derive(Debug, Clone, Copy, PartialEq, Eq, Structural)]
pub enum IdaOpenMode {
    PreferHeadless,
    ForceHeadless,
    PreferGui,
    ForceGui,
}

/// The name of a mode.
pub open spec fn mode_name(mode: IdaOpenMode) -> Seq<char> {
    match mode {
        IdaOpenMode::PreferHeadless => "prefer_headless"@,
        IdaOpenMode::ForceHeadless => "force_headless"@,
        IdaOpenMode::PreferGui => "prefer_gui"@,
        IdaOpenMode::ForceGui => "force_gui"@,
    }
}

impl IdaOpenMode {
    /// The name of the mode.
    pub fn as_upstream(&self) -> (r: &'static str)
        ensures
            r@ == mode_name(*self),
    {
        match self {
            IdaOpenMode::PreferHeadless => "prefer_headless",
            IdaOpenMode::ForceHeadless => "force_headless",
            IdaOpenMode::PreferGui => "prefer_gui",
            IdaOpenMode::ForceGui => "force_gui",
        }
    }
}

impl Default for IdaOpenMode {
    fn default() -> (r: Self)
        ensures
            r == IdaOpenMode::PreferHeadless,
    {
        IdaOpenMode::PreferHeadless
    }
}

/// A tool of the analysis backend, as the backend describes it.
#[derive(Debug)]
pub struct UpstreamToolDescriptor {
    pub name: String,
    pub description: String,
    pub input_schema: Json,
    pub output_schema: Option<Json>,
}

/// The mathematical form of a backend tool.
pub struct UpstreamView {
    pub name: Seq<char>,
    pub description: Seq<char>,
    pub input_schema: JsonView,
    pub output_schema: Option<JsonView>,
}

impl View for UpstreamToolDescriptor {
    type V = UpstreamView;

    open spec fn view(&self) -> UpstreamView {
        UpstreamView {
            name: self.name@,
            description: self.description@,
            input_schema: self.input_schema@,
            output_schema: match self.output_schema {
                Some(j) => Some(j@),
                None => None,
            },
        }
    }
}

/// The view of an optional value.
pub open spec fn json_opt(o: Option<Json>) -> Option<JsonView> {
    match o {
        Some(j) => Some(j@),
        None => None,
    }
}

/// A copy of an optional value.
pub fn copy_json(o: &Option<Json>) -> (r: Option<Json>)
    ensures
        json_opt(r) == json_opt(*o),
{
    match o {
        Some(j) => Some(j.duplicate()),
        None => None,
    }
}

/// A database that the supervisor keeps open.
#[derive(Debug)]
pub struct IdaUpstreamSession {
    pub database_id: String,
    pub input_path: String,
    pub filename: String,
    pub backend: Option<String>,
    pub adopted: Option<bool>,
    pub owned: Option<bool>,
    pub pid: Option<u32>,
    pub worker_pid: Option<u32>,
    pub is_active: Option<bool>,
    pub is_analyzing: Option<bool>,
    pub metadata: Json,
}

/// The mathematical form of a database that is kept open.
#[verifier::ext_equal]
pub struct DatabaseView {
    pub database_id: Seq<char>,
    pub input_path: Seq<char>,
    pub filename: Seq<char>,
    pub backend: Option<Seq<char>>,
    pub adopted: Option<bool>,
    pub owned: Option<bool>,
    pub pid: Option<u32>,
    pub worker_pid: Option<u32>,
    pub is_active: Option<bool>,
    pub is_analyzing: Option<bool>,
    pub metadata: JsonView,
}

impl View for IdaUpstreamSession {
    type V = DatabaseView;

    open spec fn view(&self) -> DatabaseView {
        DatabaseView {
            database_id: self.database_id@,
            input_path: self.input_path@,
            filename: self.filename@,
            backend: text::view_opt(self.backend),
            adopted: self.adopted,
            owned: self.owned,
            pid: self.pid,
            worker_pid: self.worker_pid,
            is_active: self.is_active,
            is_analyzing: self.is_analyzing,
            metadata: self.metadata@,
        }
    }
}

/// A process number that may be missing, as a value.
pub open spec fn pid_value(pid: Option<u32>) -> JsonView {
    match pid {
        Some(n) => JsonView::Unsigned(n as u64),
        None => JsonView::Null,
    }
}

fn pid_json(pid: Option<u32>) -> (r: Json)
    ensures
        r@ == pid_value(pid),
{
    match pid {
        Some(n) => Json::Unsigned(n as u64),
        None => Json::Null,
    }
}

impl DatabaseView {
    /// The database as a value.
    pub open spec fn value(self) -> JsonView {
        JsonView::object().with_text("database_id"@, self.database_id).with_text(
            "input_path"@,
            self.input_path,
        ).with_text("filename"@, self.filename).with(
            "backend"@,
            json::opt_text_view(self.backend),
        ).with("adopted"@, json::opt_bool_view(self.adopted)).with(
            "owned"@,
            json::opt_bool_view(self.owned),
        ).with("pid"@, pid_value(self.pid)).with("worker_pid"@, pid_value(self.worker_pid)).with(
            "is_active"@,
            json::opt_bool_view(self.is_active),
        ).with("is_analyzing"@, json::opt_bool_view(self.is_analyzing)).with(
            "metadata"@,
            self.metadata,
        )
    }
}

impl IdaUpstreamSession {
    /// The database as a value.
    pub fn to_json(&self) -> (r: Json)
        ensures
            r@ == self@.value(),
    {
        Json::object().with_text("database_id", self.database_id.as_str()).with_text(
            "input_path",
            self.input_path.as_str(),
        ).with_text("filename", self.filename.as_str()).with(
            "backend",
            Json::text_opt(&self.backend),
        ).with("adopted", Json::bool_opt(self.adopted)).with(
            "owned",
            Json::bool_opt(self.owned),
        ).with("pid", pid_json(self.pid)).with("worker_pid", pid_json(self.worker_pid)).with(
            "is_active",
            Json::bool_opt(self.is_active),
        ).with("is_analyzing", Json::bool_opt(self.is_analyzing)).with(
            "metadata",
            self.metadata.duplicate(),
        )
    }
}

/// What was last heard of a session.
#[derive(Debug)]
pub struct IdaSessionHealth {
    pub reachable: bool,
    pub detail: Option<Json>,
    pub error: Option<String>,
}

/// The mathematical form of what was last heard.
#[verifier::ext_equal]
pub struct HealthView {
    pub reachable: bool,
    pub detail: Option<JsonView>,
    pub error: Option<Seq<char>>,
}

impl View for IdaSessionHealth {
    type V = HealthView;

    open spec fn view(&self) -> HealthView {
        HealthView {
            reachable: self.reachable,
            detail: json_opt(self.detail),
            error: text::view_opt(self.error),
        }
    }
}

/// The view of what was last heard, if anything.
pub open spec fn health_opt(o: Option<IdaSessionHealth>) -> Option<HealthView> {
    match o {
        Some(h) => Some(h@),
        None => None,
    }
}

/// An analysis session.
#[derive(Debug)]
pub struct ReverseSession {
    pub id: SessionId,
    pub backend: String,
    pub target: IdaTarget,
    pub state: ReverseSessionState,
    pub database_id: Option<String>,
    pub ida_backend: Option<String>,
    pub adopted: Option<bool>,
    pub owned: Option<bool>,
    pub pid: Option<u32>,
    pub worker_pid: Option<u32>,
    pub is_active: Option<bool>,
    pub last_health: Option<IdaSessionHealth>,
    pub created_at_unix_ms: u64,
    pub updated_at_unix_ms: u64,
    pub warnings: Vec<String>,
    pub artifacts: Vec<ArtifactRef>,
    pub error: Option<String>,
}

/// The mathematical form of a session.
#[verifier::ext_equal]
pub struct SessionView {
    pub id: SessionId,
    pub backend: Seq<char>,
    pub target: target::TargetView,
    pub state: ReverseSessionState,
    pub database_id: Option<Seq<char>>,
    pub ida_backend: Option<Seq<char>>,
    pub adopted: Option<bool>,
    pub owned: Option<bool>,
    pub pid: Option<u32>,
    pub worker_pid: Option<u32>,
    pub is_active: Option<bool>,
    pub last_health: Option<HealthView>,
    pub created_at_unix_ms: u64,
    pub updated_at_unix_ms: u64,
    pub warnings: Seq<Seq<char>>,
    pub artifacts: Seq<ArtifactView>,
    pub error: Option<Seq<char>>,
}

impl View for ReverseSession {
    type V = SessionView;

    open spec fn view(&self) -> SessionView {
        SessionView {
            id: self.id,
            backend: self.backend@,
            target: self.target@,
            state: self.state,
            database_id: text::view_opt(self.database_id),
            ida_backend: text::view_opt(self.ida_backend),
            adopted: self.adopted,
            owned: self.owned,
            pid: self.pid,
            worker_pid: self.worker_pid,
            is_active: self.is_active,
            last_health: health_opt(self.last_health),
            created_at_unix_ms: self.created_at_unix_ms,
            updated_at_unix_ms: self.updated_at_unix_ms,
            warnings: text::views(self.warnings@),
            artifacts: artifact::artifacts_view(self.artifacts@),
            error: text::view_opt(self.error),
        }
    }
}

fn copy_artifacts(v: &[ArtifactRef]) -> (r: Vec<ArtifactRef>)
    ensures
        artifact::artifacts_view(r@) == artifact::artifacts_view(v@),
{
    let mut out: Vec<ArtifactRef> = Vec::new();
    let mut i: usize = 0;
    while i < v.len()
        invariant
            i <= v@.len(),
            out@.len() == i,
            forall|j: int| 0 <= j < i ==> (#[trigger] out@[j])@ == v@[j]@,
        decreases v@.len() - i,
    {
        out.push(v[i].duplicate());
        i += 1;
    }
    assert(artifact::artifacts_view(out@) =~= artifact::artifacts_view(v@));
    out
}

impl ReverseSession {
    /// A copy of the session.
    pub fn duplicate(&self) -> (r: ReverseSession)
        ensures
            r@ == self@,
    {
        let last_health = match &self.last_health {
            Some(health) => Some(
                IdaSessionHealth {
                    reachable: health.reachable,
                    detail: copy_json(&health.detail),
                    error: text::copy_opt(&health.error),
                },
            ),
            None => None,
        };
        let r = ReverseSession {
            id: self.id,
            backend: self.backend.clone(),
            target: self.target.duplicate(),
            state: self.state,
            database_id: text::copy_opt(&self.database_id),
            ida_backend: text::copy_opt(&self.ida_backend),
            adopted: self.adopted,
            owned: self.owned,
            pid: self.pid,
            worker_pid: self.worker_pid,
            is_active: self.is_active,
            last_health,
            created_at_unix_ms: self.created_at_unix_ms,
            updated_at_unix_ms: self.updated_at_unix_ms,
            warnings: text::copy_texts(self.warnings.as_slice()),
            artifacts: copy_artifacts(self.artifacts.as_slice()),
            error: text::copy_opt(&self.error),
        };
        assert(r@ =~= self@);
        r
    }
}

/// What became of a request to save a database.
#[derive(Debug, Clone, Copy, PartialEq, Eq, Structural)]
pub enum SaveStatus {
    NotRequested,
    Saved,
    Failed,
    Unknown,
}

/// The name of a status.
pub open spec fn save_name(status: SaveStatus) -> Seq<char> {
    match status {
        SaveStatus::NotRequested => "not_requested"@,
        SaveStatus::Saved => "saved"@,
        SaveStatus::Failed => "failed"@,
        SaveStatus::Unknown => "unknown"@,
    }
}

/// What became of a database that is let go.
#[derive(Debug)]
pub struct CloseDatabaseResult {
    pub save_requested: bool,
    pub save_status: SaveStatus,
    pub warning: Option<String>,
    pub error: Option<String>,
}

/// The mathematical form of what became of a database.
#[verifier::ext_equal]
pub struct CloseView {
    pub save_requested: bool,
    pub save_status: SaveStatus,
    pub warning: Option<Seq<char>>,
    pub error: Option<Seq<char>>,
}

impl View for CloseDatabaseResult {
    type V = CloseView;

    open spec fn view(&self) -> CloseView {
        CloseView {
            save_requested: self.save_requested,
            save_status: self.save_status,
            warning: text::view_opt(self.warning),
            error: text::view_opt(self.error),
        }
    }
}

impl CloseView {
    /// What became of the database, as a value.
    pub open spec fn value(self) -> JsonView {
        JsonView::object().with("save_requested"@, JsonView::Bool(self.save_requested)).with_text(
            "save_status"@,
            save_name(self.save_status),
        ).with("warning"@, json::opt_text_view(self.warning)).with(
            "error"@,
            json::opt_text_view(self.error),
        )
    }

    /// The fields of an entry about the end of a session.
    pub open spec fn fields(self, save: bool) -> JsonView {
        JsonView::object().with("save_requested"@, JsonView::Bool(save)).with_text(
            "save_status"@,
            save_name(self.save_status),
        ).with("warning"@, json::opt_text_view(self.warning)).with(
            "error"@,
            json::opt_text_view(self.error),
        ).with("detached"@, JsonView::Bool(true))
    }
}

impl CloseDatabaseResult {
    fn status_text(&self) -> (r: &'static str)
        ensures
            r@ == save_name(self.save_status),
    {
        match self.save_status {
            SaveStatus::NotRequested => "not_requested",
            SaveStatus::Saved => "saved",
            SaveStatus::Failed => "failed",
            SaveStatus::Unknown => "unknown",
        }
    }

    /// What became of the database, as a value.
    pub fn to_json(&self) -> (r: Json)
        ensures
            r@ == self@.value(),
    {
        Json::object().with("save_requested", Json::Bool(self.save_requested)).with_text(
            "save_status",
            self.status_text(),
        ).with("warning", Json::text_opt(&self.warning)).with(
            "error",
            Json::text_opt(&self.error),
        )
    }

    /// The fields of an entry about the end of a session.
    pub fn close_fields(&self, save: bool) -> (r: Json)
        ensures
            r@ == self@.fields(save),
    {
        Json::object().with("save_requested", Json::Bool(save)).with_text(
            "save_status",
            self.status_text(),
        ).with("warning", Json::text_opt(&self.warning)).with(
            "error",
            Json::text_opt(&self.error),
        ).with("detached", Json::Bool(true))
    }
}

/// The outcome of a call of a backend tool.
#[derive(Debug)]
pub struct IdaToolCallResult {
    pub session_id: SessionId,
    pub tool: String,
    pub result: Json,
    pub artifact: ArtifactRef,
    pub warnings: Vec<String>,
}

/// The mathematical form of the outcome of a call.
#[verifier::ext_equal]
pub struct CallView {
    pub session_id: SessionId,
    pub tool: Seq<char>,
    pub result: JsonView,
    pub artifact: ArtifactView,
    pub warnings: Seq<Seq<char>>,
}

impl View for IdaToolCallResult {
    type V = CallView;

    open spec fn view(&self) -> CallView {
        CallView {
            session_id: self.session_id,
            tool: self.tool@,
            result: self.result@,
            artifact: self.artifact@,
            warnings: text::views(self.warnings@),
        }
    }
}

} // verus!
