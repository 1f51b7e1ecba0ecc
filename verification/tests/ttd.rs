//! Recordings, driven with a recorder that is played.

use dbgflow::error::DbgFlowError;
use dbgflow::ids::SessionId;
use dbgflow::json::Json;
use dbgflow::profile::request::SingleActiveJob;
use dbgflow::profile::target::ResolvedExecutable;
use dbgflow::ttd::args::{
    build_ttd_args, ttd_stop_target, ProcessTtdRecorderRunner, RecorderWait,
};
use dbgflow::ttd::options::{
    find_ttd_exe_in_path, RecordTtd, TtdRecordMode, TtdRecorderExit, TtdRecorderRuntime,
    TtdRecordingCompletionReason, TtdRecordingOptions, TtdRecordingStatus, TtdReplayCpuSupport,
    TtdTarget,
};
use dbgflow::ttd::output::{
    discover_ttd_artifacts, last_non_empty_line, parse_first_recorded_pid, recorder_error_summary,
};
use dbgflow::ttd::record::{
    admit_recording, TtdAnswer, TtdAsk, TtdJob, TtdPaths, TtdPhase, TtdRecordingResult, TtdRun,
};
use dbgflow::ttd::validation::{validate_ttd_options, validate_ttd_target};

fn launch() -> TtdTarget {
    TtdTarget::Launch {
        executable: r"C:\Windows\System32\cmd.exe".to_string(),
        args: vec!["/C".to_string(), "echo dbgflow".to_string()],
    }
}

fn paths() -> TtdPaths {
    TtdPaths {
        recording_dir: r"C:\r".to_string(),
        traces_dir: r"C:\r\traces".to_string(),
        events: r"C:\r\events.jsonl".to_string(),
        stdout: r"C:\r\stdout.txt".to_string(),
        stderr: r"C:\r\stderr.txt".to_string(),
        stop_stdout: r"C:\r\stop-stdout.txt".to_string(),
        stop_stderr: r"C:\r\stop-stderr.txt".to_string(),
    }
}

fn run(
    exit: TtdRecorderExit,
    stdout: &[u8],
    files: &[&str],
) -> (Result<TtdRecordingResult, DbgFlowError>, Vec<String>) {
    let stopped = TtdRecorderExit { exit_code: Some(0), timed_out: false };
    play(Ok(exit), Ok(stopped), stdout, files)
}

fn backend(text: &str) -> DbgFlowError {
    DbgFlowError::Backend(text.to_string())
}

fn play(
    exit: Result<TtdRecorderExit, &str>,
    stopped: Result<TtdRecorderExit, &str>,
    stdout: &[u8],
    files: &[&str],
) -> (Result<TtdRecordingResult, DbgFlowError>, Vec<String>) {
    let job = TtdJob {
        id: SessionId(9),
        request: RecordTtd {
            target: launch(),
            timeout_ms: 1000,
            options: TtdRecordingOptions::default(),
        },
        ttd_exe: r"C:\ttd\TTD.exe".to_string(),
        paths: paths(),
    };
    let mut step = TtdRun::begin(job, Json::object());
    let mut asks = Vec::new();
    loop {
        let ask = step.run.ask();
        asks.push(format!("{ask:?}").split('(').next().expect("name").to_string());
        let answer = match ask {
            TtdAsk::Run(run) => {
                assert_eq!(run.ttd_exe, r"C:\ttd\TTD.exe");
                assert_eq!(run.timeout_ms, 1000);
                assert_eq!(run.stdout_path, r"C:\r\stdout.txt");
                assert_eq!(run.stderr_path, r"C:\r\stderr.txt");
                assert_eq!(run.args.last().map(String::as_str), Some("echo dbgflow"));
                TtdAnswer::Ran(exit.map_err(backend))
            }
            TtdAsk::ReadOutput => TtdAnswer::Output { stdout: stdout.to_vec(), stderr: Vec::new() },
            TtdAsk::Stop(stop) => {
                assert_eq!(stop.ttd_exe, r"C:\ttd\TTD.exe");
                assert_eq!(stop.stop_target, "cmd.exe");
                assert_eq!(stop.timeout_ms, 15_000);
                assert_eq!(stop.stdout_path, r"C:\r\stop-stdout.txt");
                assert_eq!(stop.stderr_path, r"C:\r\stop-stderr.txt");
                TtdAnswer::Stopped(stopped.map_err(backend))
            }
            TtdAsk::Discover => {
                TtdAnswer::Files(Ok(files.iter().map(|file| file.to_string()).collect()))
            }
            TtdAsk::Report => TtdAnswer::Written(Ok(r"C:\r\recording.json".to_string())),
            TtdAsk::Nothing => match step.run.phase {
                TtdPhase::Done(outcome) => return (outcome, asks),
                other => panic!("not over: {other:?}"),
            },
        };
        step = step.run.answer(answer, 42);
    }
}

#[test]
fn a_recording_has_a_trace() {
    let (outcome, asks) = run(
        TtdRecorderExit { exit_code: Some(0), timed_out: false },
        b"Launching 'cmd.exe'\r\n",
        &[r"C:\r\traces\cmd01.run", r"C:\r\traces\cmd01.out"],
    );
    let result = outcome.expect("recording");
    assert_eq!(result.recording_id, SessionId(9));
    assert_eq!(result.status, TtdRecordingStatus::Completed);
    assert_eq!(result.artifacts.traces.len(), 1);
    assert_eq!(result.artifacts.recorder_logs.len(), 1);
    assert_eq!(asks, vec!["Run", "ReadOutput", "Discover", "Report", "Nothing"]);
}

#[test]
fn a_recorder_that_takes_too_long_is_told_to_stop() {
    let (outcome, asks) = run(
        TtdRecorderExit { exit_code: None, timed_out: true },
        b"",
        &[r"C:\r\traces\cmd01.run"],
    );
    assert!(asks.contains(&"Stop".to_string()));
    let result = outcome.expect("recording");
    assert_eq!(result.completion_reason, TtdRecordingCompletionReason::Timeout);
    assert!(result.artifacts.recorder_stop_stdout.is_some());
}

#[test]
fn a_recorder_that_cannot_be_stopped_leaves_a_warning() {
    let (outcome, _) = play(
        Ok(TtdRecorderExit { exit_code: None, timed_out: true }),
        Err("no such process"),
        b"",
        &[],
    );
    let result = outcome.expect("recording");
    assert_eq!(result.status, TtdRecordingStatus::TimedOut);
    assert_eq!(result.error, None);
    assert_eq!(result.warnings.len(), 1);
    assert!(result.warnings[0].starts_with("TTD stop failed after recorder timeout: "));
    assert!(result.warnings[0].ends_with("no such process"));
}

#[test]
fn a_recorder_that_does_not_run_fails_the_recording() {
    let stopped = TtdRecorderExit { exit_code: Some(0), timed_out: false };
    let (outcome, asks) = play(Err("no recorder"), Ok(stopped), b"", &[r"C:\r\traces\a.run"]);
    let result = outcome.expect("recording");
    assert_eq!(result.status, TtdRecordingStatus::Failed);
    assert_eq!(result.completion_reason, TtdRecordingCompletionReason::RecorderError);
    assert_eq!(result.error, Some(backend("no recorder").message()));
    assert_eq!(result.artifacts.traces.len(), 1);
    assert_eq!(asks, vec!["Run", "Discover", "Report", "Nothing"]);
}

#[test]
fn a_recorder_that_fails_says_why() {
    let (outcome, _) = run(
        TtdRecorderExit { exit_code: Some(5), timed_out: false },
        b"first\r\nAccess is denied \xff\r\n\r\n",
        &[],
    );
    let text = match outcome {
        Ok(result) => result.error.expect("error"),
        Err(error) => error.message(),
    };
    assert!(text.contains("TTD recorder exited with code Some(5): Access is denied \u{fffd}"));
}

#[test]
fn arguments_follow_the_options() {
    let options = TtdRecordingOptions {
        accept_eula: true,
        ring: true,
        max_file_mb: 256,
        modules: vec!["cmd.exe".to_string()],
        record_mode: TtdRecordMode::Manual,
        replay_cpu_support: TtdReplayCpuSupport::IntelAvx2Required,
        ..TtdRecordingOptions::default()
    };
    assert_eq!(
        build_ttd_args(&launch(), &options, r"C:\r\traces"),
        vec![
            "-out", r"C:\r\traces", "-noUI", "-accepteula", "-ring", "-maxFile", "256", "-module",
            "cmd.exe", "-recordmode", "Manual", "-replayCpuSupport", "IntelAvx2Required",
            "-launch", r"C:\Windows\System32\cmd.exe", "/C", "echo dbgflow",
        ]
    );
    let plain = build_ttd_args(
        &TtdTarget::Attach { pid: 7 },
        &TtdRecordingOptions::default(),
        "t",
    );
    assert_eq!(plain, vec!["-out", "t", "-noUI", "-maxFile", "2048", "-attach", "7"]);
}

#[test]
fn recordings_are_stopped_by_what_they_record() {
    assert_eq!(ttd_stop_target(&launch(), Some(9)).as_deref(), Some("9"));
    assert_eq!(ttd_stop_target(&launch(), None).as_deref(), Some("cmd.exe"));
    assert_eq!(
        ttd_stop_target(&TtdTarget::Attach { pid: 7 }, None).as_deref(),
        Some("7")
    );
    let monitor = TtdTarget::Monitor { program: "cmd.exe".to_string(), cmd_line_filter: None };
    assert_eq!(ttd_stop_target(&monitor, Some(9)).as_deref(), Some("all"));
    let runner = ProcessTtdRecorderRunner;
    assert_eq!(runner.poll(None, true), RecorderWait::Kill);
    assert!(runner.killed(Some(1)).timed_out);
    assert!(runner.stop_args("all").contains(&"all".to_string()));
}

#[test]
fn targets_and_options_are_checked() {
    let found = ResolvedExecutable { path: r"C:\Windows\System32\cmd.exe".to_string(), is_file: true };
    assert!(validate_ttd_target(launch(), Ok(found)).is_ok());
    assert_eq!(
        validate_ttd_target(TtdTarget::Attach { pid: 0 }, Err(String::new()))
            .expect_err("no process")
            .message(),
        "TTD attach pid must be greater than zero"
    );
    let broken = TtdRecordingOptions { max_file_mb: 0, ..TtdRecordingOptions::default() };
    assert_eq!(
        validate_ttd_options(&broken, &launch()).expect_err("no size").message(),
        "TTD max_file_mb must be greater than zero"
    );
    let ring = TtdRecordingOptions { ring: true, max_file_mb: 32_769, ..TtdRecordingOptions::default() };
    assert!(validate_ttd_options(&ring, &launch()).is_err());
    let limit = TtdRecordingOptions { ring: true, max_file_mb: 32_768, ..TtdRecordingOptions::default() };
    assert!(validate_ttd_options(&limit, &launch()).is_ok());
    let line = TtdRecordingOptions { modules: vec!["a\nb".to_string()], ..TtdRecordingOptions::default() };
    assert!(validate_ttd_options(&line, &launch()).is_err());
}

#[test]
fn one_recording_is_active_at_a_time() {
    let mut jobs = SingleActiveJob::new();
    let exe = || Ok(r"C:\ttd\TTD.exe".to_string());
    assert!(admit_recording(
        &mut jobs, SessionId(1), Ok(launch()), 1, TtdRecordingOptions::default(), exe(),
    )
    .is_ok());
    assert_eq!(
        admit_recording(
            &mut jobs, SessionId(2), Ok(launch()), 1, TtdRecordingOptions::default(), exe(),
        )
        .expect_err("busy")
        .message(),
        "another TTD recording job is already active: 00000000-0000-0000-0000-000000000001"
    );
}

#[test]
fn the_recorder_is_looked_for() {
    let runtime = TtdRecorderRuntime::with_ttd_dir(r"C:\ttd".to_string());
    assert_eq!(runtime.ttd_exe_candidate().as_deref(), Some(r"C:\ttd\TTD.exe"));
    assert_eq!(
        runtime.ttd_exe(true, Err(DbgFlowError::Backend(String::new()))).expect("there"),
        r"C:\ttd\TTD.exe"
    );
    assert!(runtime.ttd_exe(false, Ok("x".to_string())).is_err());
    let dirs = vec!["C:\\a".to_string(), "C:\\b".to_string()];
    assert_eq!(
        find_ttd_exe_in_path(&dirs, &[false, true]).expect("found"),
        r"C:\b\TTD.exe"
    );
    assert!(find_ttd_exe_in_path(&dirs, &[false, false]).is_err());
    assert_eq!(runtime.ttd_dir().map(String::as_str), Some(r"C:\ttd"));
    assert_eq!(TtdRecorderRuntime::unavailable().ttd_dir(), None);
    assert_eq!(TtdRecorderRuntime::default().ttd_dir(), None);
}

#[test]
fn outputs_are_read() {
    assert_eq!(last_non_empty_line("a\nb\n\n"), "b");
    assert_eq!(
        recorder_error_summary("", "", Some(-1)),
        "TTD recorder exited with code Some(-1)"
    );
    assert_eq!(parse_first_recorded_pid("no process here"), None);
    let found = discover_ttd_artifacts(&[
        "b.run".to_string(),
        "a.RUN".to_string(),
        "a.idx".to_string(),
        "x.txt".to_string(),
    ]);
    assert_eq!(found.traces.len(), 2);
    assert_eq!(found.traces[0].path, "a.RUN");
    assert_eq!(found.trace_indexes.len(), 1);
    assert!(found.recorder_logs.is_empty());
}
