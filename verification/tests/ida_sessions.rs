//! Sessions of the analysis backend, driven with a backend that is played.

use dbgflow::artifact::{ArtifactKind, ArtifactRef};
use dbgflow::error::DbgFlowError;
use dbgflow::ida::call::{CallPhase, ToolCall};
use dbgflow::ida::install::{
    resolve_install_dir, resolve_max_workers, resolve_python_executable, resolve_vendor_src_dir,
    supervisor_source_file, validate_ida_install_dir, vendor_src_dir, IdaRuntimeConfig,
    InstallFacts, VendorCandidate,
};
use dbgflow::ida::manager::{
    begin_create, CloseJob, ClosePhase, CreateIdaSession, CreatePhase, IdaAnswer, IdaAsk,
};
use dbgflow::ida::model::{
    IdaOpenMode, IdaToolCallResult, IdaUpstreamSession, ReverseSession, ReverseSessionState,
};
use dbgflow::ida::table::IdaSessions;
use dbgflow::ida::target::{validate_ida_target, IdaTarget};
use dbgflow::ida::worker::{
    OpenIdaDatabase, OpenIdaDatabaseResult, SupervisorToolCallResult,
};
use dbgflow::ids::SessionId;
use dbgflow::json::{parse_json, Json};
use dbgflow::profile::target::ResolvedExecutable;

const NOW: u64 = 1_780_560_000_000;

#[derive(Default)]
struct MockSupervisor {
    opened: Vec<OpenIdaDatabase>,
    calls: Vec<(String, String, Json)>,
    written: Vec<(String, Json)>,
    list_missing: bool,
    open_fails: bool,
    save_fails: bool,
    tool_error: bool,
    write_fails: bool,
}

fn value(text: &str) -> Json {
    parse_json(text).expect("json")
}

fn upstream_session() -> IdaUpstreamSession {
    IdaUpstreamSession {
        database_id: "upstream-db".to_string(),
        input_path: r"C:\sample.exe".to_string(),
        filename: "sample.exe".to_string(),
        backend: Some("worker".to_string()),
        adopted: Some(true),
        owned: Some(true),
        pid: Some(1234),
        worker_pid: Some(1234),
        is_active: Some(true),
        is_analyzing: Some(false),
        metadata: value("{}"),
    }
}

impl MockSupervisor {
    fn call_tool(&mut self, database_id: String, tool: String, arguments: Json) -> SupervisorToolCallResult {
        let saves = tool == "idb_save";
        let answer = format!(r#"{{"ok": true, "tool": "{tool}"}}"#);
        self.calls.push((database_id, tool, arguments));
        if saves && self.save_fails {
            return SupervisorToolCallResult {
                structured_content: value(r#"{"ok": false, "error": "fake save failed"}"#),
                mcp_result: value(
                    r#"{"structuredContent": {"ok": false, "error": "fake save failed"}, "isError": false}"#,
                ),
                is_error: false,
                error_message: None,
            };
        }
        if self.tool_error {
            return SupervisorToolCallResult {
                structured_content: value(r#"{"error": "fake upstream tool failed"}"#),
                mcp_result: value(
                    r#"{"content": [{"type": "text", "text": "{\"error\":\"fake upstream tool failed\"}"}], "isError": true}"#,
                ),
                is_error: true,
                error_message: Some("fake upstream tool failed".to_string()),
            };
        }
        SupervisorToolCallResult {
            structured_content: value(&answer),
            mcp_result: value(r#"{"structuredContent": {"ok": true}, "isError": false}"#),
            is_error: false,
            error_message: None,
        }
    }

    fn does(&mut self, ask: IdaAsk) -> IdaAnswer {
        match ask {
            IdaAsk::List => IdaAnswer::Listed(Ok(if self.list_missing {
                Vec::new()
            } else {
                vec![upstream_session()]
            })),
            IdaAsk::Audit { .. } => IdaAnswer::Audited(Ok((
                artifact(ArtifactKind::ReverseSessionMetadata, "request.json"),
                artifact(ArtifactKind::ReverseSessionMetadata, "session.json"),
            ))),
            IdaAsk::Open(request) => {
                self.opened.push(request);
                if self.open_fails {
                    IdaAnswer::Opened(Err(DbgFlowError::Backend("fake open failed".to_string())))
                } else {
                    IdaAnswer::Opened(Ok(OpenIdaDatabaseResult {
                        session: upstream_session(),
                        warmup: Some(value(r#"{"ok": true}"#)),
                        message: Some("opened".to_string()),
                    }))
                }
            }
            IdaAsk::CallTool { database_id, tool, arguments } => {
                IdaAnswer::Called(Ok(self.call_tool(database_id, tool, arguments)))
            }
            IdaAsk::Download(url) => {
                IdaAnswer::Downloaded(Err(DbgFlowError::Backend(format!("no output at {url}"))))
            }
            IdaAsk::WriteOutput { name, value } => {
                if self.write_fails {
                    IdaAnswer::Written(Err(DbgFlowError::Artifact("disk full".to_string())))
                } else {
                    let path = format!(r"C:\artifacts\outputs\{name}");
                    self.written.push((name, value));
                    IdaAnswer::Written(Ok(ArtifactRef {
                        kind: ArtifactKind::ReverseSessionOutput,
                        path,
                    }))
                }
            }
            IdaAsk::Nothing => panic!("nothing is asked"),
        }
    }
}

fn artifact(kind: ArtifactKind, name: &str) -> ArtifactRef {
    ArtifactRef { kind, path: format!(r"C:\artifacts\{name}") }
}

fn request(path: &str) -> CreateIdaSession {
    CreateIdaSession {
        target: IdaTarget::Binary { path: path.to_string() },
        run_auto_analysis: true,
        build_caches: true,
        init_hexrays: true,
        mode: IdaOpenMode::PreferHeadless,
        idle_ttl_sec: 3600,
        startup_timeout_ms: None,
    }
}

fn create(
    sessions: &mut IdaSessions,
    supervisor: &mut MockSupervisor,
    request: CreateIdaSession,
    id: u128,
) -> Result<ReverseSession, DbgFlowError> {
    let mut step = begin_create(sessions, request, SessionId(id), NOW);
    loop {
        match step.phase {
            CreatePhase::Done(outcome) => return outcome,
            phase => {
                let answer = supervisor.does(step.ask);
                step = phase.answer(sessions, answer, NOW);
            }
        }
    }
}

fn call(
    sessions: &mut IdaSessions,
    supervisor: &mut MockSupervisor,
    id: SessionId,
    tool: &str,
    arguments: &str,
) -> Result<IdaToolCallResult, DbgFlowError> {
    let call = ToolCall { id, tool: tool.to_string(), arguments: value(arguments) };
    let mut step = call.begin(sessions);
    loop {
        match step.phase {
            CallPhase::Done(outcome) => return outcome,
            phase => {
                let answer = supervisor.does(step.ask);
                step = call.answer(phase, sessions, answer, NOW);
            }
        }
    }
}

fn close(
    sessions: &mut IdaSessions,
    supervisor: &mut MockSupervisor,
    id: SessionId,
    save: bool,
) -> Result<ReverseSession, DbgFlowError> {
    let job = CloseJob { id, save };
    let mut step = job.begin(sessions, NOW);
    loop {
        match step.phase {
            ClosePhase::Done(outcome) => return outcome,
            phase => {
                let answer = supervisor.does(step.ask);
                step = job.answer(phase, sessions, answer, NOW);
            }
        }
    }
}

fn get(
    sessions: &mut IdaSessions,
    supervisor: &mut MockSupervisor,
    id: SessionId,
) -> Result<ReverseSession, DbgFlowError> {
    if let Some(database_id) = sessions.listing_for(id) {
        if let IdaAnswer::Listed(listed) = supervisor.does(IdaAsk::List) {
            sessions.refresh(id, &database_id, listed, NOW);
        }
    }
    sessions.get(id)
}

fn ready(sessions: &mut IdaSessions, supervisor: &mut MockSupervisor) -> ReverseSession {
    create(sessions, supervisor, request(r"C:\work\sample.exe"), 1).expect("create")
}

#[test]
fn create_session_maps_dbgflow_id_to_upstream_database() {
    let mut sessions = IdaSessions::new();
    let mut supervisor = MockSupervisor::default();
    let mut wanted = request(r"C:\work\sample.exe");
    wanted.startup_timeout_ms = Some(10_000);

    let session = create(&mut sessions, &mut supervisor, wanted, 1).expect("create");

    assert_eq!(session.state, ReverseSessionState::Ready);
    assert_eq!(session.database_id.as_deref(), Some("upstream-db"));
    assert_eq!(
        sessions.database_id(session.id).expect("database id"),
        "upstream-db"
    );
    assert_eq!(supervisor.opened.len(), 1);
    assert!(supervisor.opened[0].preferred_session_id.starts_with("dbgflow-"));
    assert_eq!(supervisor.opened[0].startup_timeout_ms, 10_000);
}

#[test]
fn create_session_reuses_same_target() {
    let mut sessions = IdaSessions::new();
    let mut supervisor = MockSupervisor::default();

    let first = create(&mut sessions, &mut supervisor, request(r"C:\work\sample.exe"), 1)
        .expect("first");
    let second = create(&mut sessions, &mut supervisor, request(r"C:\work\sample.exe"), 2)
        .expect("second");

    assert_eq!(first.id, second.id);
    assert_eq!(supervisor.opened.len(), 1);
}

#[test]
fn other_targets_get_other_sessions() {
    let mut sessions = IdaSessions::new();
    let mut supervisor = MockSupervisor::default();
    let first = ready(&mut sessions, &mut supervisor);
    let second = create(&mut sessions, &mut supervisor, request(r"C:\work\other.exe"), 2)
        .expect("second");

    assert_ne!(first.id, second.id);
    assert_eq!(supervisor.opened.len(), 2);
    assert_eq!(sessions.list().len(), 2);
}

#[test]
fn a_database_that_does_not_open_is_an_error() {
    let mut sessions = IdaSessions::new();
    let mut supervisor = MockSupervisor { open_fails: true, ..MockSupervisor::default() };
    let error = create(&mut sessions, &mut supervisor, request(r"C:\work\sample.exe"), 1)
        .expect_err("open fails");

    assert!(error.message().contains("fake open failed"));
    let session = sessions.get(SessionId(1)).expect("session");
    assert_eq!(session.state, ReverseSessionState::Error);
    assert!(sessions.database_id(SessionId(1)).is_err());
}

#[test]
fn upstream_tool_injects_database_and_writes_artifact() {
    let mut sessions = IdaSessions::new();
    let mut supervisor = MockSupervisor::default();
    let session = ready(&mut sessions, &mut supervisor);

    let result = call(&mut sessions, &mut supervisor, session.id, "decompile", r#"{"addr": "main"}"#)
        .expect("tool");

    assert_eq!(result.tool, "ida.decompile");
    assert_eq!(result.result.bool_at("ok"), Some(true));
    let called = &supervisor.calls[0];
    assert_eq!(called.0, "upstream-db");
    assert_eq!(called.1, "decompile");
    assert_eq!(called.2.text_at("addr"), Some("main"));
    assert!(supervisor
        .written
        .iter()
        .any(|(name, _)| result.artifact.path.ends_with(name.as_str())));
}

#[test]
fn upstream_tool_error_writes_artifact_before_returning_error() {
    let mut sessions = IdaSessions::new();
    let mut supervisor = MockSupervisor { tool_error: true, ..MockSupervisor::default() };
    let session = ready(&mut sessions, &mut supervisor);

    let error = call(&mut sessions, &mut supervisor, session.id, "decompile", r#"{"addr": "main"}"#)
        .expect_err("tool error");

    assert!(error.message().contains("fake upstream tool failed"));
    let refreshed = get(&mut sessions, &mut supervisor, session.id).expect("get");
    assert!(refreshed
        .artifacts
        .iter()
        .any(|artifact| artifact.path.contains("decompile")));
}

#[test]
fn upstream_tool_rejects_database_argument() {
    let mut sessions = IdaSessions::new();
    let mut supervisor = MockSupervisor::default();
    let session = ready(&mut sessions, &mut supervisor);
    let error = call(&mut sessions, &mut supervisor, session.id, "decompile", r#"{"database": "raw"}"#)
        .expect_err("reject");

    assert!(error.message().contains("session_id"));
    assert!(supervisor.calls.is_empty());
}

#[test]
fn tools_that_are_not_offered_are_not_called() {
    let mut sessions = IdaSessions::new();
    let mut supervisor = MockSupervisor::default();
    let session = ready(&mut sessions, &mut supervisor);
    let error = call(&mut sessions, &mut supervisor, session.id, "py_exec_file", "{}")
        .expect_err("reject");

    assert!(error.message().contains("not exposed by dbgflow: py_exec_file"));
    assert!(supervisor.calls.is_empty());
}

#[test]
fn close_session_saves_then_detaches_without_killing_supervisor() {
    let mut sessions = IdaSessions::new();
    let mut supervisor = MockSupervisor::default();
    let session = ready(&mut sessions, &mut supervisor);

    let closed = close(&mut sessions, &mut supervisor, session.id, true).expect("close");

    assert_eq!(closed.state, ReverseSessionState::Closed);
    assert!(closed.database_id.is_none());
    assert!(supervisor.calls.iter().any(|(_, tool, _)| tool == "idb_save"));
}

#[test]
fn close_session_save_failure_keeps_session_open() {
    let mut sessions = IdaSessions::new();
    let mut supervisor = MockSupervisor { save_fails: true, ..MockSupervisor::default() };
    let session = ready(&mut sessions, &mut supervisor);

    let error = close(&mut sessions, &mut supervisor, session.id, true).expect_err("save failure");
    let refreshed = get(&mut sessions, &mut supervisor, session.id).expect("get");

    assert!(error.message().contains("fake save failed"));
    assert_eq!(refreshed.state, ReverseSessionState::Ready);
    assert_eq!(refreshed.database_id.as_deref(), Some("upstream-db"));
    assert_eq!(
        sessions.database_id(session.id).expect("database id"),
        "upstream-db"
    );
}

#[test]
fn close_without_save_calls_no_tool() {
    let mut sessions = IdaSessions::new();
    let mut supervisor = MockSupervisor::default();
    let session = ready(&mut sessions, &mut supervisor);
    let closed = close(&mut sessions, &mut supervisor, session.id, false).expect("close");

    assert_eq!(closed.state, ReverseSessionState::Closed);
    assert!(supervisor.calls.is_empty());
    assert!(call(&mut sessions, &mut supervisor, session.id, "decompile", "{}").is_err());
    let again = create(&mut sessions, &mut supervisor, request(r"C:\work\sample.exe"), 2)
        .expect("create again");
    assert_ne!(again.id, session.id);
}

#[test]
fn missing_upstream_session_marks_error_on_refresh() {
    let mut sessions = IdaSessions::new();
    let mut supervisor = MockSupervisor::default();
    let session = ready(&mut sessions, &mut supervisor);
    supervisor.list_missing = true;

    let refreshed = get(&mut sessions, &mut supervisor, session.id).expect("get");

    assert_eq!(refreshed.state, ReverseSessionState::Error);
    assert!(refreshed.error.unwrap().contains("no longer listed"));
}

#[test]
fn unknown_sessions_are_not_found() {
    let mut sessions = IdaSessions::new();
    let mut supervisor = MockSupervisor::default();
    assert!(matches!(sessions.get(SessionId(9)), Err(DbgFlowError::SessionNotFound(_))));
    assert!(matches!(
        close(&mut sessions, &mut supervisor, SessionId(9), true),
        Err(DbgFlowError::SessionNotFound(_))
    ));
}

#[test]
fn output_names_are_not_used_twice() {
    let mut sessions = IdaSessions::new();
    let mut supervisor = MockSupervisor::default();
    let session = ready(&mut sessions, &mut supervisor);
    call(&mut sessions, &mut supervisor, session.id, "decompile", "{}").expect("first");
    call(&mut sessions, &mut supervisor, session.id, "decompile", "{}").expect("second");
    assert_eq!(supervisor.written.len(), 2);
    assert_ne!(supervisor.written[0].0, supervisor.written[1].0);
}

#[test]
fn validates_binary_file() {
    let resolved = ResolvedExecutable { path: r"C:\work\sample.exe".to_string(), is_file: true };
    let validated = validate_ida_target(
        IdaTarget::Binary { path: r"work\sample.exe".to_string() },
        Ok(resolved),
    )
    .expect("validate target");

    assert_eq!(validated.path(), r"C:\work\sample.exe");
}

#[test]
fn rejects_missing_target() {
    let error = validate_ida_target(
        IdaTarget::Binary { path: r"C:\does-not-exist\missing.exe".to_string() },
        Err("The system cannot find the path specified. (os error 3)".to_string()),
    )
    .expect_err("reject missing");

    assert!(error.message().contains("invalid IDA target path"));
}

#[test]
fn rejects_database_without_idb_extension() {
    let error = validate_ida_target(
        IdaTarget::Database { path: r"C:\work\sample.exe".to_string() },
        Ok(ResolvedExecutable { path: r"C:\work\sample.exe".to_string(), is_file: true }),
    )
    .expect_err("reject non-database");

    assert!(error.message().contains("expected .idb or .i64"));
    assert!(validate_ida_target(
        IdaTarget::Database { path: r"C:\work\sample.I64".to_string() },
        Ok(ResolvedExecutable { path: r"C:\work\sample.I64".to_string(), is_file: true }),
    )
    .is_ok());
}

fn facts(canonical: &str, has_idalib_dll: bool) -> InstallFacts {
    InstallFacts {
        canonical: canonical.to_string(),
        is_dir: true,
        has_ida_exe: true,
        has_ida_dll: true,
        has_idalib_dll,
        has_ida_hlp: true,
    }
}

#[test]
fn validates_install_dir_with_required_files() {
    let install = validate_ida_install_dir(r"C:\IDA", r"C:\IDA", Ok(facts(r"\\?\C:\IDA", true)))
        .expect("validate install");

    assert_eq!(install.install_dir, r"C:\IDA");
    assert_eq!(install.idalib_dll, r"C:\IDA\idalib.dll");
}

#[test]
fn rejects_install_dir_missing_idalib() {
    let error = validate_ida_install_dir(r"C:\IDA", r"C:\IDA", Ok(facts(r"C:\IDA", false)))
        .expect_err("reject missing idalib");

    assert!(error.message().contains("missing idalib.dll"));
}

#[test]
fn settings_come_before_the_environment() {
    let mut config = IdaRuntimeConfig::default();
    let environment = Some(r"D:\IDA".to_string());
    assert_eq!(resolve_install_dir(&config, &environment), r"D:\IDA");
    assert_eq!(resolve_python_executable(&config, &None), "python");
    assert_eq!(resolve_max_workers(&config), 4);
    config.install_dir = Some(r"E:\IDA".to_string());
    config.max_workers = Some(2);
    assert_eq!(resolve_install_dir(&config, &environment), r"E:\IDA");
    assert_eq!(resolve_max_workers(&config), 2);

    let found = resolve_vendor_src_dir(&[
        VendorCandidate { path: r"C:\a".to_string(), holds_supervisor: false },
        VendorCandidate { path: r"C:\b".to_string(), holds_supervisor: true },
    ])
    .expect("vendor dir");
    assert_eq!(found, r"C:\b");
    assert!(resolve_vendor_src_dir(&[]).is_err());
    assert_eq!(vendor_src_dir(r"C:\b"), r"C:\b\vendor\ida-pro-mcp\src");
    assert_eq!(
        supervisor_source_file(r"C:\b"),
        r"C:\b\ida_pro_mcp\idalib_supervisor.py"
    );
}
