//! Texts, values, identifiers and paths.

use dbgflow::etw::session::trace_event_info_string;
use dbgflow::ida::supervisor::{
    supervisor_request, timeout_text, tool_arguments, PendingRequests, SupervisorReply,
};
use dbgflow::ida::target::IdaTarget;
use dbgflow::ida::worker::{
    decode_tool_result, parse_download_response, seconds_text, upstream_tool_descriptor_from_value,
};
use dbgflow::ids::SessionId;
use dbgflow::json::{parse_json, parse_json_bytes, Json};
use dbgflow::order::sort_texts;
use dbgflow::process::{ProcessLaunchConfig, ProcessLaunchContext, ToolCallContext};
use dbgflow::text::{decimal_text, hex_text};
use dbgflow::winpath::{
    extension_of, file_name, join, normalize_absolute_required, normalize_path_lexically,
    path_eq_case_insensitive, path_starts_with_case_insensitive, same_path,
};

#[test]
fn values_are_written_and_read() {
    let value = parse_json(r#"{"b": [1, -2, 0.5, null], "a": {"x": "é\n", "t": true}}"#).expect("value");
    assert_eq!(value.to_compact(), r#"{"a":{"t":true,"x":"é\n"},"b":[1,-2,0.5,null]}"#);
    assert_eq!(
        parse_json(r#"{"a":[]}"#).expect("value").to_pretty(),
        "{\n  \"a\": []\n}"
    );
    assert!(parse_json("{").is_err());
    assert!(parse_json_bytes(b"\xff").is_err());
    assert_eq!(
        parse_json_bytes(br#"{"n": 18446744073709551615}"#).expect("value").unsigned_at("n"),
        Some(u64::MAX)
    );
    assert!(matches!(parse_json("-9223372036854775808"), Ok(Json::Negative(i64::MIN))));
}

#[test]
fn identifiers_are_written_and_read() {
    let id = SessionId(0x67e5504410b1426f9247bb680e5fe0c8);
    assert_eq!(id.to_text(), "67e55044-10b1-426f-9247-bb680e5fe0c8");
    assert_eq!(SessionId::parse(&id.to_text()), Ok(id));
    assert_eq!(SessionId::parse("67E5504410B1426F9247BB680E5FE0C8"), Ok(id));
    assert!(SessionId::parse("67e55044").is_err());
    let fresh = SessionId::new();
    assert_ne!(fresh, SessionId::new());
    assert_eq!(&fresh.to_text()[14..15], "4");
    assert!("89ab".contains(&fresh.to_text()[19..20]));
}

#[test]
fn texts_of_events_are_read() {
    let mut info: Vec<u8> = vec![0, 0];
    info.extend("ab".encode_utf16().flat_map(|unit| unit.to_le_bytes()));
    info.extend([0, 0]);
    assert_eq!(trace_event_info_string(&info, 2).as_deref(), Some("ab"));
    assert_eq!(trace_event_info_string(&info, 0), None);
}

#[test]
fn numbers_are_written() {
    assert_eq!(decimal_text(u64::MAX), "18446744073709551615");
    assert_eq!(hex_text(0xbeef), "beef");
    assert_eq!(seconds_text(1500), "1.5");
    assert_eq!(
        sort_texts(&["b".to_string(), "a".to_string(), "B".to_string()]),
        vec!["B".to_string(), "a".to_string(), "b".to_string()]
    );
}

#[test]
fn paths_are_taken_apart() {
    assert_eq!(join(r"C:\a", "b"), r"C:\a\b");
    assert_eq!(join(r"C:\a\", "b"), r"C:\a\b");
    assert_eq!(join("C:", "b"), "C:b");
    assert_eq!(file_name(r"C:\a\b.txt").as_deref(), Some("b.txt"));
    assert_eq!(file_name(r"C:\a\..").as_deref(), None);
    assert_eq!(extension_of(r"C:\a\b.tar.GZ").as_deref(), Some("GZ"));
    assert_eq!(extension_of(r"C:\a\.hidden").as_deref(), None);
    assert_eq!(normalize_path_lexically(r"C:\a\.\b\..\c").as_deref(), Ok(r"C:\a\c"));
    assert!(normalize_path_lexically(r"C:\..\a").is_err());
    assert!(same_path(r"C:\a\b", r"C:/a/./b"));
    assert!(path_eq_case_insensitive(r"C:\AB", r"c:\ab"));
    assert!(!path_eq_case_insensitive(r"C:\ÄB", r"c:\äb"));
    assert!(path_starts_with_case_insensitive(r"C:\ÄB\x", r"c:\äb"));
    assert!(path_starts_with_case_insensitive(r"C:\Users\DEV\x", r"c:\users\dev"));
    assert!(!path_starts_with_case_insensitive(r"C:\Users\developer", r"C:\Users\dev"));
    assert!(normalize_absolute_required("relative", "label").is_err());
}

#[test]
fn supervisor_lines_find_their_request() {
    let mut pending = PendingRequests::new();
    let first = pending.begin();
    let second = pending.begin();
    assert_ne!(first, second);
    match pending.take_line(&format!(r#"{{"id": {second}, "result": {{"ok": true}}}}"#)) {
        SupervisorReply::Answered { request_id, outcome } => {
            assert_eq!(request_id, second);
            assert_eq!(outcome.expect("result").bool_at("ok"), Some(true));
        }
        other => panic!("not answered: {other:?}"),
    }
    assert!(matches!(
        pending.take_line(&format!(r#"{{"id": {second}, "result": 1}}"#)),
        SupervisorReply::Ignored
    ));
    match pending.take_line(&format!(r#"{{"id": {first}, "error": {{"message": "no"}}}}"#)) {
        SupervisorReply::Answered { outcome, .. } => {
            assert!(outcome.expect_err("error").message().contains("no"));
        }
        other => panic!("not answered: {other:?}"),
    }
    let third = pending.begin();
    match pending.fail_pending("gone") {
        SupervisorReply::Failed { request_ids, error } => {
            assert_eq!(request_ids, vec![third]);
            assert!(error.message().contains("gone"));
        }
        other => panic!("not failed: {other:?}"),
    }
    assert_eq!(supervisor_request(3, "ping", Json::object()).unsigned_at("id"), Some(3));
    assert!(timeout_text(1500).contains("1500"));
    let arguments = tool_arguments(parse_json(r#"{"addr":"main"}"#).expect("arguments"), "db");
    assert_eq!(arguments.text_at("database"), Some("db"));
    assert_eq!(arguments.text_at("addr"), Some("main"));
}

#[test]
fn tool_answers_are_decoded() {
    let result = decode_tool_result(
        parse_json(r#"{"content":[{"type":"text","text":"{\"error\":\"bad\"}"}],"isError":true}"#)
            .expect("value"),
    );
    assert!(result.is_error);
    assert_eq!(result.structured_content.text_at("error"), Some("bad"));
    assert!(result.error_message.expect("message").contains("bad"));

    let tool = upstream_tool_descriptor_from_value(
        &parse_json(r#"{"name":"decompile","description":"d","inputSchema":{"type":"object"}}"#)
            .expect("value"),
    )
    .expect("descriptor");
    assert_eq!(tool.name, "decompile");

    let body = parse_download_response(b"HTTP/1.1 200 OK\r\nX: y\r\n\r\n{\"ok\":true}").expect("body");
    assert_eq!(body.bool_at("ok"), Some(true));
    assert!(parse_download_response(b"HTTP/1.1 404 Not Found\r\n\r\n{}").is_err());
}

#[test]
fn normal_drive_paths_stay() {
    for path in [r"C:\a\.\b\..\c", "d:/x//y/", r"C:\", "C:x/y"] {
        let once = normalize_path_lexically(path).expect("normal");
        assert_eq!(normalize_path_lexically(&once).expect("normal"), once);
    }
    assert_eq!(normalize_path_lexically(r"C:\a\.\b\..\c").expect("normal"), r"C:\a\c");
    assert!(normalize_path_lexically(r"C:\..").is_err());
}

#[test]
fn normal_paths_stay() {
    for (path, normal) in [
        (r"\\server\share\a\..\b", r"\\server\share\b"),
        (r"\\server\share", r"\\server\share\"),
        ("//server/share/./x", r"//server/share\x"),
        (r"\\.\pipe\a\.\b", r"\\.\pipe\a\b"),
        (r"\\?\C:\a\..\b", r"\\?\C:\b"),
        (r"\\?\UNC\server\share\a\.\b", r"\\?\UNC\server\share\a\b"),
        ("/a/./b/../c", r"\a\c"),
        ("a/./b/..", "a"),
        (r"D:\a\C:b\c", r"C:b\c"),
        ("", ""),
    ] {
        let once = normalize_path_lexically(path).expect("normal");
        assert_eq!(once, normal);
        assert_eq!(normalize_path_lexically(&once).expect("normal"), once);
    }
    for path in ["/a/../..", r"D:\a\C:\..\b", r"\\server\share\..", r"\\?\C:\..", ".."] {
        let error = normalize_path_lexically(path).expect_err("outside");
        assert_eq!(error, format!("path escapes its root: {path}"));
    }
}

#[test]
fn dots_in_front_count() {
    assert!(!same_path("./a.exe", "a.exe"));
    assert!(same_path("./a.exe", r".\.\a.exe"));
    assert!(same_path("a/./b", r"a\b\."));
    assert!(!same_path(r"C:.\a", "C:a"));
    assert!(same_path(r"C:\.\a", r"c:\a"));
    assert!(!same_path(r"\\?\C:\a\.\b", r"\\?\C:\a\b"));
    assert!(same_path(r"\\server\share\.\a", r"//server/share/a"));
    assert!(!path_starts_with_case_insensitive(r"x\y", "."));
    assert!(path_starts_with_case_insensitive(r".\y", "."));
    assert_eq!(file_name("."), None);
    assert_eq!(file_name(r"\\?\C:\a\."), None);
    assert_eq!(file_name(r"a\."), Some("a".to_string()));
    assert_eq!(normalize_path_lexically("./a"), Ok("a".to_string()));
    assert_eq!(normalize_path_lexically(r"\\?\C:\a\.\b"), Ok(r"\\?\C:\a\b".to_string()));

    let one = IdaTarget::Binary { path: "./a.exe".to_string() };
    let other = IdaTarget::Binary { path: "a.exe".to_string() };
    assert!(one.is_same(&one) && !one.is_same(&other));
}

#[test]
fn processes_start_directly_by_default() {
    assert_eq!(ProcessLaunchConfig::default(), ProcessLaunchConfig::Direct);
    assert_ne!(ProcessLaunchConfig::installed_service_default(), ProcessLaunchConfig::default());
    assert_eq!(
        ToolCallContext::default(),
        ToolCallContext { peer_pid: None, peer_session_id: None }
    );
    let context = ToolCallContext { peer_pid: Some(7), peer_session_id: Some(2) };
    let launch = ProcessLaunchContext::new(ProcessLaunchConfig::InstalledService, context);
    assert_eq!(launch.config, ProcessLaunchConfig::InstalledService);
    assert_eq!(launch.tool_call, context);
}
