//! The tools of the analysis backend and its outputs.

use dbgflow::ida::install::{normalize_ida_runtime_path, IdaInstall, IdaSupervisorRuntime};
use dbgflow::ida::manager::CreateIdaSession;
use dbgflow::ida::model::IdaOpenMode;
use dbgflow::ida::supervisor::{
    profile_path, read_error_text, supervisor_arguments, supervisor_env_changes,
    supervisor_log_path, tool_call_params, PendingRequests, SupervisorReply,
};
use dbgflow::ida::target::IdaTarget;
use dbgflow::ida::worker::{
    default_profile_text, default_upstream_tools, ida_mcp_download_url, is_allowed_upstream_tool,
    opened_from_content, parse_http_url, sessions_from_content, tools_from_response,
    OpenIdaDatabase, UPSTREAM_IDB_OPEN,
};
use dbgflow::json::{parse_json, Json};
use dbgflow::search_path::split_search_path;

fn value(text: &str) -> Json {
    parse_json(text).expect("value")
}

#[test]
fn default_profile_includes_py_eval_and_excludes_debugger() {
    let text = default_profile_text();
    assert!(text.lines().any(|line| line == "py_eval"));
    assert!(!text.lines().any(|line| line == "py_exec_file"));
    assert!(!text.lines().any(|line| line.starts_with("dbg_")));
}

#[test]
fn allowed_tool_filter_matches_default_surface() {
    assert!(is_allowed_upstream_tool("decompile"));
    assert!(is_allowed_upstream_tool("py_eval"));
    assert!(!is_allowed_upstream_tool("py_exec_file"));
    assert!(!is_allowed_upstream_tool("dbg_start"));
    assert!(!is_allowed_upstream_tool(UPSTREAM_IDB_OPEN));
}

#[test]
fn parses_loopback_download_url() {
    let parsed = parse_http_url("http://127.0.0.1:1234/output/abc.json").expect("parse");
    assert_eq!(parsed.host, "127.0.0.1");
    assert_eq!(parsed.port, 1234);
    assert_eq!(parsed.path, "/output/abc.json");
}

#[test]
fn strips_windows_verbatim_paths_for_ida_runtime() {
    assert_eq!(
        normalize_ida_runtime_path(r"\\?\C:\IDA\sample.exe"),
        r"C:\IDA\sample.exe"
    );
    assert_eq!(
        normalize_ida_runtime_path(r"\\?\UNC\server\share\sample.exe"),
        r"\\server\share\sample.exe"
    );
}

#[test]
fn every_default_tool_is_allowed() {
    assert!(default_upstream_tools().iter().all(|name| is_allowed_upstream_tool(name)));
}

#[test]
fn tool_lists_are_read() {
    let listed = value(
        r#"{"tools":[{"name":"decompile"},{"name":"py_exec_file"},{"nameless":1},{"name":"callees","description":"d"}]}"#,
    );
    let tools = tools_from_response(&listed).expect("tools");
    let names: Vec<&str> = tools.iter().map(|tool| tool.name.as_str()).collect();
    assert_eq!(names, ["decompile", "callees"]);
    assert_eq!(tools[0].description, "IDA Pro MCP upstream tool");
    assert_eq!(tools[1].description, "d");
    assert_eq!(
        tools_from_response(&value("{}")).expect_err("missing").message(),
        "tools/list response missing tools"
    );
}

#[test]
fn database_lists_are_read() {
    let listed = value(
        r#"{"sessions":[{"session_id":"a","input_path":"p","pid":7},{"adopted":false,"filename":"f"}]}"#,
    );
    let sessions = sessions_from_content(&listed).expect("sessions");
    assert_eq!(sessions[0].database_id, "a");
    assert_eq!(sessions[0].pid, Some(7));
    assert_eq!(sessions[1].filename, "f");
    let error = |text: &str| sessions_from_content(&value(text)).expect_err("error").message();
    assert_eq!(error(r#"{"error":"gone"}"#), "gone");
    assert_eq!(error("{}"), "idb_list response missing sessions");
    assert_eq!(error(r#"{"sessions":[1]}"#), "IDA session entry is not an object");
    assert_eq!(error(r#"{"sessions":[{}]}"#), "IDA session entry missing session_id");
}

#[test]
fn opened_databases_are_read() {
    let opened = opened_from_content(&value(
        r#"{"session":{"session_id":"a"},"warmup":{"x":1},"message":"m"}"#,
    ))
    .expect("opened");
    assert_eq!(opened.session.database_id, "a");
    assert_eq!(opened.message.as_deref(), Some("m"));
    assert_eq!(opened.warmup.expect("warmup").unsigned_at("x"), Some(1));
    let error = |text: &str| opened_from_content(&value(text)).expect_err("error").message();
    assert_eq!(error(r#"{"error":"no"}"#), "no");
    assert_eq!(error("{}"), "idb_open response missing session");
}

#[test]
fn requests_to_open_wait_longer_than_the_backend() {
    let request = |startup_timeout_ms| OpenIdaDatabase {
        input_path: "p".to_string(),
        mode: IdaOpenMode::PreferHeadless,
        run_auto_analysis: true,
        build_caches: false,
        init_hexrays: true,
        idle_ttl_sec: 60,
        preferred_session_id: "id".to_string(),
        startup_timeout_ms,
    };
    assert_eq!(request(1500).request_timeout_ms(), 31_500);
    assert_eq!(request(0).request_timeout_ms(), 30_001);
    assert_eq!(request(u64::MAX).request_timeout_ms(), u64::MAX);
    let arguments = request(1500).arguments();
    assert_eq!(arguments.text_at("input_path"), Some("p"));
    assert_eq!(arguments.unsigned_at("idle_ttl_sec"), Some(60));
    assert!(matches!(arguments.get("open_timeout_sec"), Some(Json::Decimal(text)) if text == "1.5"));
    let defaults = CreateIdaSession::with_defaults(IdaTarget::Binary { path: "p".to_string() });
    assert!(defaults.run_auto_analysis && defaults.build_caches && defaults.init_hexrays);
    assert_eq!(defaults.startup_timeout_ms, None);
}

#[test]
fn whole_outputs_are_fetched_from_this_machine() {
    let answer = value(r#"{"_meta":{"ida_mcp":{"download_url":"http://127.0.0.1:9/o"}}}"#);
    let url = ida_mcp_download_url(&answer).expect("url");
    let parsed = parse_http_url(url).expect("parsed");
    assert_eq!(
        parsed.request_text(),
        "GET /o HTTP/1.1\r\nHost: 127.0.0.1:9\r\nConnection: close\r\nAccept: application/json\r\n\r\n"
    );
    assert!(ida_mcp_download_url(&value("{}")).is_none());
    assert!(parse_http_url("https://127.0.0.1/o").is_err());
    assert!(parse_http_url("http://example.com/o").is_err());
}

#[test]
fn the_supervisor_is_started_with_its_installation() {
    let runtime = IdaSupervisorRuntime {
        install: IdaInstall {
            install_dir: r"C:\IDA".to_string(),
            ida_dll: r"C:\IDA\ida.dll".to_string(),
            idalib_dll: r"C:\IDA\idalib.dll".to_string(),
        },
        python_executable: "python".to_string(),
        vendor_src_dir: r"C:\v\src".to_string(),
        max_workers: 4,
    };
    assert_eq!(
        supervisor_arguments(&runtime, "p.txt"),
        ["-m", "ida_pro_mcp.idalib_supervisor", "--stdio", "--unsafe", "--profile", "p.txt", "--max-workers", "4"]
    );
    let changes = supervisor_env_changes(&runtime, &None, &Some(r"C:\bin".to_string()))
        .expect("variables");
    let find = |name: &str| {
        changes.iter().find(|change| change.name == name).map(|change| change.value.as_str())
    };
    assert_eq!(find("PYTHONPATH"), Some(r"C:\v\src"));
    assert_eq!(find("PATH"), Some(r"C:\IDA;C:\bin"));
    assert_eq!(find("IDA_MCP_OPEN_TIMEOUT"), Some("1800"));
    assert_eq!(
        profile_path(r"C:\a"),
        r"C:\a\reverse_sessions\ida-pro-mcp-dbgflow-profile.txt"
    );
    assert_eq!(
        supervisor_log_path(r"C:\a"),
        r"C:\a\reverse_sessions\ida-pro-mcp-supervisor.log"
    );
    assert_eq!(read_error_text("eof"), "read supervisor response: eof");
    assert_eq!(tool_call_params("t", Json::object()).text_at("name"), Some("t"));
}

#[test]
fn directories_with_semicolons_are_quoted() {
    let mut runtime = IdaSupervisorRuntime {
        install: IdaInstall {
            install_dir: r"C:\a;b".to_string(),
            ida_dll: r"C:\a;b\ida.dll".to_string(),
            idalib_dll: r"C:\a;b\idalib.dll".to_string(),
        },
        python_executable: "python".to_string(),
        vendor_src_dir: r"C:\v".to_string(),
        max_workers: 4,
    };
    let path = Some(r#"C:\foo;c:\som"e;di"r;"#.to_string());
    let changes = supervisor_env_changes(&runtime, &None, &path).expect("variables");
    assert_eq!(changes[2].name, "PATH");
    assert_eq!(changes[2].value, r#""C:\a;b";C:\foo;"c:\some;dir";"#);
    assert_eq!(split_search_path(&changes[2].value), [r"C:\a;b", r"C:\foo", r"c:\some;dir", ""]);
    assert_eq!(split_search_path(""), [""]);

    runtime.vendor_src_dir = r#"C:\v"w"#.to_string();
    let error = supervisor_env_changes(&runtime, &None, &path).expect_err("quotation mark");
    assert!(error.message().ends_with("construct PYTHONPATH: path segment contains `\"`"));
    runtime.vendor_src_dir = r"C:\v".to_string();
    runtime.install.install_dir = r#"C:\a"b"#.to_string();
    let error = supervisor_env_changes(&runtime, &None, &path).expect_err("quotation mark");
    assert!(error.message().ends_with("construct PATH: path segment contains `\"`"));
}

#[test]
fn the_profile_names_the_allowed_tools() {
    let text = default_profile_text();
    let tools: Vec<&str> =
        text.lines().filter(|line| !line.is_empty() && !line.starts_with('#')).collect();
    assert_eq!(tools, default_upstream_tools());
    assert!(tools.iter().all(|tool| is_allowed_upstream_tool(tool)));
    assert!(text.starts_with("# dbgflow default ida-pro-mcp profile\n# Generated by dbgflow; debugger tools and py_exec_file are intentionally excluded.\n\nadd_bookmark\n"));
}

#[test]
fn cancelled_requests_are_not_answered() {
    let mut pending = PendingRequests::new();
    let id = pending.begin();
    pending.cancel(id);
    let line = format!("{{\"id\": {id}, \"result\": 1}}");
    assert!(matches!(pending.take_line(&line), SupervisorReply::Ignored));
}
