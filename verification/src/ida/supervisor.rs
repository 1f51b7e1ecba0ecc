//! The conversation with the supervisor of the backend: requests with numbers, and one line
//! for each response.

use crate::error::{DbgFlowError, ErrorView};
use crate::ida::install::{IdaSupervisorRuntime, IDA_INSTALL_ENV};
use crate::ida::worker;
use crate::json;
use crate::json::{parse_json, set_field, Json, JsonView};
use crate::search_path;
use crate::search_path::{join_search_path, split_search_path};
use crate::text;
use crate::text::{cat2, cat3, cat4, decimal_text};
use crate::winpath;
use crate::winpath::join;
use std::collections::BTreeSet;
use vstd::prelude::*;

verus! {

/// How long a request may take, in milliseconds.
pub const SUPERVISOR_REQUEST_TIMEOUT_MS: u64 = 120000;

/// How long opening a database may take, in seconds, as the supervisor is told.
pub const OPEN_TIMEOUT_SECONDS: u64 = 1800;

pub const SUPERVISOR_EXITED: &'static str = "ida-pro-mcp supervisor exited before responding";

pub const SUPERVISOR_KILLED: &'static str = "ida-pro-mcp supervisor was killed";

/// A request to the supervisor.
pub open spec fn request_value(id: u64, method: Seq<char>, params: JsonView) -> JsonView {
    JsonView::object().with_text("jsonrpc"@, "2.0"@).with("id"@, JsonView::Unsigned(id)).with_text(
        "method"@,
        method,
    ).with("params"@, params)
}

/// A request to the supervisor.
pub fn supervisor_request(id: u64, method: &str, params: Json) -> (r: Json)
    ensures
        r@ == request_value(id, method@, params@),
{
    Json::object().with_text("jsonrpc", "2.0").with("id", Json::Unsigned(id)).with_text(
        "method",
        method,
    ).with("params", params)
}

/// The parameters of a request to call a tool.
pub fn tool_call_params(tool_name: &str, arguments: Json) -> (r: Json)
    ensures
        r@ == JsonView::object().with_text("name"@, tool_name@).with("arguments"@, arguments@),
{
    Json::object().with_text("name", tool_name).with("arguments", arguments)
}

/// Arguments with the database that a tool works on.
pub open spec fn with_database(arguments: JsonView, database_id: Seq<char>) -> JsonView {
    match arguments {
        JsonView::Object(fields) => JsonView::Object(
            json::with_field(fields, "database"@, JsonView::Text(database_id)),
        ),
        _ => arguments,
    }
}

/// Arguments with the database that a tool works on.
pub fn tool_arguments(arguments: Json, database_id: &str) -> (r: Json)
    ensures
        r@ == with_database(arguments@, database_id@),
{
    match arguments {
        Json::Object(fields) => {
            let mut fields = fields;
            proof {
                json::object_view(fields);
            }
            set_field(&mut fields, "database", Json::text(database_id));
            proof {
                json::object_view(fields);
            }
            Json::Object(fields)
        },
        other => other,
    }
}

/// What the tool is told to work on is the database that the session is bound to.
pub proof fn calls_name_their_database(
    fields: Seq<(Seq<char>, JsonView)>,
    database_id: Seq<char>,
)
    ensures
        with_database(JsonView::Object(fields), database_id).get("database"@) == Some(
            JsonView::Text(database_id),
        ),
{
    json::with_field_sets_one(fields, "database"@, JsonView::Text(database_id), "database"@);
}

/// The requests that wait for a response, and the number of the next one.
#[derive(Debug)]
pub struct PendingRequests {
    waiting: BTreeSet<u64>,
    next: u64,
}

/// The mathematical form of the requests that wait for a response.
#[verifier::ext_equal]
pub struct PendingView {
    pub waiting: Set<u64>,
    pub next: u64,
}

impl View for PendingRequests {
    type V = PendingView;

    closed spec fn view(&self) -> PendingView {
        PendingView { waiting: self.waiting@, next: self.next }
    }
}

/// What a line of the supervisor leads to.
#[derive(Debug)]
pub enum SupervisorReply {
    /// Nobody waits for it.
    Ignored,
    /// A request gets its outcome.
    Answered { request_id: u64, outcome: Result<Json, DbgFlowError> },
    /// All requests that waited fail, and no more lines are read.
    Failed { request_ids: Vec<u64>, error: DbgFlowError },
}

/// The outcome that a response carries.
pub open spec fn response_outcome(response: JsonView) -> Result<JsonView, ErrorView> {
    match response.get("error"@) {
        Some(error) => Err(
            ErrorView::Backend(
                worker::text_or(
                    error.text_at("message"@),
                    "ida-pro-mcp supervisor request failed"@,
                ),
            ),
        ),
        None => match response.get("result"@) {
            Some(result) => Ok(result),
            None => Ok(JsonView::Null),
        },
    }
}

/// The view of an outcome.
pub open spec fn outcome_view(r: Result<Json, DbgFlowError>) -> Result<JsonView, ErrorView> {
    match r {
        Ok(v) => Ok(v@),
        Err(e) => Err(e@),
    }
}

/// Whether a reply is what a response leads to, and the requests are those that wait after it.
pub open spec fn responds(
    before: PendingView,
    after: PendingView,
    response: JsonView,
    reply: SupervisorReply,
) -> bool {
    match response.unsigned_at("id"@) {
        Some(id) if before.waiting.contains(id) => {
            &&& after == (PendingView { waiting: before.waiting.remove(id), ..before })
            &&& reply matches SupervisorReply::Answered { request_id, outcome }
                && request_id == id && outcome_view(outcome) == response_outcome(response)
        },
        _ => after == before && reply is Ignored,
    }
}

/// Whether a reply fails all requests that waited with an error.
pub open spec fn fails_all(
    before: PendingView,
    after: PendingView,
    error: Seq<char>,
    reply: SupervisorReply,
) -> bool {
    &&& after == (PendingView { waiting: Set::empty(), ..before })
    &&& reply matches SupervisorReply::Failed { request_ids, error: e } && request_ids@.to_set()
        == before.waiting && request_ids@.no_duplicates() && e@ == ErrorView::Backend(error)
}

fn outcome_of(response: &Json) -> (r: Result<Json, DbgFlowError>)
    ensures
        outcome_view(r) == response_outcome(response@),
{
    match response.get("error") {
        Some(error) => {
            let message = match error.text_at("message") {
                Some(message) => message.to_owned(),
                None => "ida-pro-mcp supervisor request failed".to_owned(),
            };
            Err(DbgFlowError::Backend(message))
        },
        None => match response.get("result") {
            Some(result) => Ok(result.duplicate()),
            None => Ok(Json::Null),
        },
    }
}

impl PendingRequests {
    /// No request waits, and the first one has number one.
    pub fn new() -> (r: PendingRequests)
        ensures
            r@ == (PendingView { waiting: Set::empty(), next: 1 }),
    {
        let r = PendingRequests { waiting: BTreeSet::new(), next: 1 };
        assert(r@.waiting =~= Set::empty());
        r
    }

    /// Takes the number of a new request, which then waits.
    pub fn begin(&mut self) -> (r: u64)
        ensures
            r == old(self)@.next,
            final(self)@ == (PendingView {
                waiting: old(self)@.waiting.insert(r),
                next: if r == u64::MAX {
                    0
                } else {
                    (r + 1) as u64
                },
            }),
    {
        let id: u64 = self.next;
        self.waiting.insert(id);
        self.next = if id == u64::MAX {
            0
        } else {
            id + 1
        };
        id
    }

    /// Gives a request up.
    pub fn cancel(&mut self, request_id: u64)
        ensures
            final(self)@ == (PendingView {
                waiting: old(self)@.waiting.remove(request_id),
                ..old(self)@
            }),
    {
        self.waiting.remove(&request_id);
    }

    /// Fails all requests that wait.
    pub fn fail_pending(&mut self, error: &str) -> (r: SupervisorReply)
        ensures
            fails_all(old(self)@, final(self)@, error@, r),
    {
        let mut request_ids: Vec<u64> = Vec::new();
        let ghost waiting = self.waiting@;
        for id in it: self.waiting.iter()
            invariant
                it.seq().unref().to_set() == waiting,
                it.seq().no_duplicates(),
                request_ids@.len() == it.index(),
                request_ids@.no_duplicates(),
                forall|j: int|
                    0 <= j < it.index() ==> request_ids@.contains(#[trigger] it.seq().unref()[j]),
                forall|j: int|
                    0 <= j < it.index() ==> #[trigger] request_ids@[j] == it.seq().unref()[j],
        {
            let ghost all = it.seq();
            let ghost n = it.index() as int;
            let ghost before = request_ids@;
            request_ids.push(*id);
            assert forall|i: int, j: int| 0 <= i < j < n + 1 implies request_ids@[i]
                != request_ids@[j] by {
                assert(all[i] != all[j]);
                assert(request_ids@[i] == all.unref()[i]);
                assert(j < n ==> before[j] == all.unref()[j]);
            }
            assert forall|j: int| 0 <= j < n + 1 implies request_ids@.contains(
                #[trigger] all.unref()[j],
            ) by {
                assert(j < n ==> before[j] == all.unref()[j]);
                assert(request_ids@[j] == all.unref()[j]);
            }
        }
        assert forall|x: u64| waiting.contains(x) implies request_ids@.contains(x) by {}
        assert(request_ids@.to_set() =~= waiting);
        self.waiting.clear();
        SupervisorReply::Failed { request_ids, error: DbgFlowError::Backend(error.to_owned()) }
    }

    /// Takes a response in.
    pub fn take_response(&mut self, response: &Json) -> (r: SupervisorReply)
        ensures
            responds(old(self)@, final(self)@, response@, r),
    {
        let request_id: u64 = match response.unsigned_at("id") {
            Some(id) => id,
            None => {
                return SupervisorReply::Ignored;
            },
        };
        if !self.waiting.contains(&request_id) {
            return SupervisorReply::Ignored;
        }
        self.waiting.remove(&request_id);
        SupervisorReply::Answered { request_id, outcome: outcome_of(response) }
    }

    /// Takes a line in. A line that is no value fails all requests that wait.
    pub fn take_line(&mut self, line: &str) -> (r: SupervisorReply)
        ensures
            match json::json_read(line@) {
                Ok(response) => responds(old(self)@, final(self)@, response, r),
                Err(e) => fails_all(
                    old(self)@,
                    final(self)@,
                    "parse supervisor response: "@ + e + ": "@ + line@,
                    r,
                ),
            },
    {
        match parse_json(line) {
            Ok(response) => self.take_response(&response),
            Err(error) => {
                let message = cat4("parse supervisor response: ", error.as_str(), ": ", line);
                self.fail_pending(message.as_str())
            },
        }
    }
}

/// What is said of a line that could not be read.
pub fn read_error_text(error: &str) -> (r: String)
    ensures
        r@ == "read supervisor response: "@ + error@,
{
    cat2("read supervisor response: ", error)
}

/// What is said of a request that took too long.
pub fn timeout_text(timeout_ms: u64) -> (r: String)
    ensures
        r@ == "ida-pro-mcp supervisor request timed out after "@ + text::decimal(timeout_ms as nat)
            + " ms"@,
{
    cat3(
        "ida-pro-mcp supervisor request timed out after ",
        decimal_text(timeout_ms).as_str(),
        " ms",
    )
}

/// The arguments that the supervisor is started with.
pub open spec fn launch_arguments(max_workers: u64, profile_path: Seq<char>) -> Seq<Seq<char>> {
    seq![
        "-m"@,
        "ida_pro_mcp.idalib_supervisor"@,
        "--stdio"@,
        "--unsafe"@,
        "--profile"@,
        profile_path,
        "--max-workers"@,
        text::decimal(max_workers as nat),
    ]
}

/// The arguments that the supervisor is started with.
pub fn supervisor_arguments(runtime: &IdaSupervisorRuntime, profile_path: &str) -> (r: Vec<String>)
    ensures
        text::views(r@) == launch_arguments(runtime.max_workers, profile_path@),
{
    let r: Vec<String> = vec![
        "-m".to_owned(),
        "ida_pro_mcp.idalib_supervisor".to_owned(),
        "--stdio".to_owned(),
        "--unsafe".to_owned(),
        "--profile".to_owned(),
        profile_path.to_owned(),
        "--max-workers".to_owned(),
        decimal_text(runtime.max_workers),
    ];
    assert(text::views(r@) =~= launch_arguments(runtime.max_workers, profile_path@));
    r
}

/// What is said of a directory that cannot stand in a list.
pub const BAD_DIRECTORY: &'static str = "path segment contains `\"`";

/// A list of directories with one more before them, unless that one cannot stand in a list.
pub open spec fn extended_path(first: Seq<char>, rest: Option<Seq<char>>) -> Option<Seq<char>> {
    search_path::joined_entries(
        match rest {
            Some(rest) => seq![first] + search_path::entries(rest),
            None => seq![first],
        },
    )
}

fn extend_path(first: &str, rest: &Option<String>) -> (r: Option<String>)
    ensures
        text::view_opt(r) == extended_path(first@, text::view_opt(*rest)),
{
    let mut entries: Vec<String> = vec![first.to_owned()];
    assert(text::views(entries@) =~= seq![first@]);
    if let Some(rest) = rest {
        let mut known = split_search_path(rest.as_str());
        let ghost all = text::views(known@);
        entries.append(&mut known);
        assert(text::views(entries@) =~= seq![first@] + all);
    }
    join_search_path(entries.as_slice())
}

/// A variable of the environment that is set.
#[derive(Debug)]
pub struct EnvChange {
    pub name: String,
    pub value: String,
}

/// The views of a list of variables.
pub open spec fn changes_view(v: Seq<EnvChange>) -> Seq<(Seq<char>, Seq<char>)> {
    v.map_values(|c: EnvChange| (c.name@, c.value@))
}

fn change(name: &str, value: &str) -> (r: EnvChange)
    ensures
        r.name@ == name@,
        r.value@ == value@,
{
    EnvChange { name: name.to_owned(), value: value.to_owned() }
}

/// The variables that the supervisor is started with: its own directories come before those
/// of the environment.
pub open spec fn launch_environment(
    runtime: IdaSupervisorRuntime,
    python_path: Option<Seq<char>>,
    path: Option<Seq<char>>,
) -> Result<Seq<(Seq<char>, Seq<char>)>, ErrorView> {
    match (
        extended_path(runtime.vendor_src_dir@, python_path),
        extended_path(runtime.install.install_dir@, path),
    ) {
        (None, _) => Err(ErrorView::Backend("construct PYTHONPATH: "@ + BAD_DIRECTORY@)),
        (_, None) => Err(ErrorView::Backend("construct PATH: "@ + BAD_DIRECTORY@)),
        (Some(python), Some(programs)) => Ok(
            seq![
                (IDA_INSTALL_ENV@, runtime.install.install_dir@),
                ("PYTHONPATH"@, python),
                ("PATH"@, programs),
                ("PYTHONUNBUFFERED"@, "1"@),
                ("IDA_MCP_OPEN_TIMEOUT"@, text::decimal(OPEN_TIMEOUT_SECONDS as nat)),
            ],
        ),
    }
}

/// The variables that the supervisor is started with, given two of the environment.
pub fn supervisor_env_changes(
    runtime: &IdaSupervisorRuntime,
    python_path: &Option<String>,
    path: &Option<String>,
) -> (r: Result<Vec<EnvChange>, DbgFlowError>)
    ensures
        ({
            let expected = launch_environment(
                *runtime,
                text::view_opt(*python_path),
                text::view_opt(*path),
            );
            match r {
                Ok(changes) => expected matches Ok(v) && v == changes_view(changes@),
                Err(error) => expected matches Err(e) && e == error@,
            }
        }),
{
    let python = match extend_path(runtime.vendor_src_dir.as_str(), python_path) {
        Some(python) => python,
        None => {
            return Err(DbgFlowError::Backend(cat2("construct PYTHONPATH: ", BAD_DIRECTORY)));
        },
    };
    let programs = match extend_path(runtime.install.install_dir.as_str(), path) {
        Some(programs) => programs,
        None => {
            return Err(DbgFlowError::Backend(cat2("construct PATH: ", BAD_DIRECTORY)));
        },
    };
    let r: Vec<EnvChange> = vec![
        change(IDA_INSTALL_ENV, runtime.install.install_dir.as_str()),
        change("PYTHONPATH", python.as_str()),
        change("PATH", programs.as_str()),
        change("PYTHONUNBUFFERED", "1"),
        change("IDA_MCP_OPEN_TIMEOUT", decimal_text(OPEN_TIMEOUT_SECONDS).as_str()),
    ];
    assert(changes_view(r@) =~= launch_environment(
        *runtime,
        text::view_opt(*python_path),
        text::view_opt(*path),
    )->Ok_0);
    Ok(r)
}

/// The directories that the supervisor is given are its own and then those of the environment, as
/// they are listed there, whatever they hold.
pub proof fn supervisor_directories_come_first(first: Seq<char>, rest: Option<Seq<char>>)
    ensures
        extended_path(first, rest) matches Some(list) ==> search_path::entries(list) == seq![first]
            + (match rest {
            Some(rest) => search_path::entries(rest),
            None => Seq::empty(),
        }),
{
    let all = match rest {
        Some(rest) => seq![first] + search_path::entries(rest),
        None => seq![first],
    };
    search_path::joined_entries_are_split(all);
    assert(seq![first] + Seq::<Seq<char>>::empty() =~= seq![first]);
}

/// The file that holds the profile of the supervisor.
pub fn profile_path(artifact_root: &str) -> (r: String)
    ensures
        r@ == winpath::joined_path(
            winpath::joined_path(artifact_root@, "reverse_sessions"@),
            "ida-pro-mcp-dbgflow-profile.txt"@,
        ),
{
    join(join(artifact_root, "reverse_sessions").as_str(), "ida-pro-mcp-dbgflow-profile.txt")
}

/// The file that the supervisor logs to.
pub fn supervisor_log_path(artifact_root: &str) -> (r: String)
    ensures
        r@ == winpath::joined_path(
            winpath::joined_path(artifact_root@, "reverse_sessions"@),
            "ida-pro-mcp-supervisor.log"@,
        ),
{
    join(join(artifact_root, "reverse_sessions").as_str(), "ida-pro-mcp-supervisor.log")
}

} // verus!
