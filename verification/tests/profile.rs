//! Profiles, driven with collectors and targets that are played.

use dbgflow::artifact::{ArtifactKind, ArtifactRef};
use dbgflow::error::DbgFlowError;
use dbgflow::etw::settings::{EtwEventSet, EtwProfileScope, EtwStackConfig, ProfileCollectorConfig};
use dbgflow::ids::SessionId;
use dbgflow::json::Json;
use dbgflow::process::{ProcessLaunchConfig, ProcessLaunchContext, ToolCallContext};
use dbgflow::profile::model::{
    CollectorStop, CreatedCollector, ProfileAnswer, ProfileAsk, ProfileCollectorStatus,
    ProfileCompletionReason, ProfilePaths, ProfilePhase, ProfileResult, ProfileStatus,
};
use dbgflow::profile::request::{
    admit_profile, reject_duplicate_collectors, ProfileCollectorKind, RunProfile, SingleActiveJob,
};
use dbgflow::profile::run::{legacy_trace_artifact, reason_text, status_text, ProfileRun};
use dbgflow::profile::target::{
    validate_profile_target, ProcessTargetRunner, ProfileTarget, ResolvedExecutable, TargetExit,
    WaitStep,
};

fn launch() -> ProfileTarget {
    ProfileTarget::Launch {
        executable: r"C:\Windows\System32\cmd.exe".to_string(),
        args: vec!["/C".to_string(), "echo dbgflow".to_string()],
    }
}

fn collector() -> ProfileCollectorConfig {
    ProfileCollectorConfig::NativeEtw {
        scope: EtwProfileScope::TargetProcess,
        event_sets: vec![EtwEventSet::Process],
        stacks: EtwStackConfig { enabled: false },
    }
}

fn paths() -> ProfilePaths {
    ProfilePaths {
        events: r"C:\p\events.jsonl".to_string(),
        stdout: r"C:\p\stdout.txt".to_string(),
        stderr: r"C:\p\stderr.txt".to_string(),
    }
}

fn context() -> ProcessLaunchContext {
    let tool_call = ToolCallContext { peer_pid: Some(2001), peer_session_id: Some(33) };
    ProcessLaunchContext::new(ProcessLaunchConfig::installed_service_default(), tool_call)
}

struct Play {
    start: Result<Vec<String>, DbgFlowError>,
    exit: Result<TargetExit, DbgFlowError>,
    stop: Result<(), DbgFlowError>,
}

fn run(play: Play) -> (Result<ProfileResult, DbgFlowError>, Vec<ProfileAsk>, Vec<String>) {
    let request = RunProfile { target: launch(), timeout_ms: 1000, collectors: vec![collector()] };
    let mut step = ProfileRun::begin(SessionId(5), request, paths(), context(), Json::object());
    let mut asks = Vec::new();
    let mut events = Vec::new();
    let mut start = Some(play.start);
    let mut exit = Some(play.exit);
    let mut stop = Some(play.stop);
    loop {
        events.extend(step.records.iter().map(|record| record.event.clone()));
        if let ProfilePhase::Done(outcome) = step.run.phase {
            return (outcome, asks, events);
        }
        let ask = step.run.ask();
        asks.push(ask);
        let answer = match ask {
            ProfileAsk::ClearStdout | ProfileAsk::ClearStderr => ProfileAnswer::Cleared(Ok(())),
            ProfileAsk::Directory(_) => {
                ProfileAnswer::Directory(Ok(r"C:\p\collectors\native_etw".to_string()))
            }
            ProfileAsk::Create(_) => ProfileAnswer::Created(Ok(CreatedCollector {
                kind: ProfileCollectorKind::NativeEtw,
                name: "native_etw".to_string(),
            })),
            ProfileAsk::Start(_) => ProfileAnswer::Started(start.take().expect("one start")),
            ProfileAsk::CleanUp(_) => ProfileAnswer::CleanedUp(Ok(())),
            ProfileAsk::Launch { .. } => ProfileAnswer::Exited(exit.take().expect("one run")),
            ProfileAsk::Stop(_, _) => {
                ProfileAnswer::Stopped(stop.take().expect("one stop").map(|_| CollectorStop {
                    artifacts: vec![ArtifactRef {
                        kind: ArtifactKind::ProfileCollectorTrace,
                        path: r"C:\p\collectors\native_etw\trace.etl".to_string(),
                    }],
                    warnings: vec!["lost 1 event".to_string()],
                }))
            }
            ProfileAsk::Report => ProfileAnswer::Written(Ok(r"C:\p\profile.json".to_string())),
            ProfileAsk::Nothing => panic!("nothing is asked"),
        };
        step = step.run.answer(answer, 42);
    }
}

fn backend(text: &str) -> DbgFlowError {
    DbgFlowError::Backend(text.to_string())
}

#[test]
fn a_profile_runs_the_target_under_its_collectors() {
    let (outcome, asks, events) = run(Play {
        start: Ok(Vec::new()),
        exit: Ok(TargetExit::Exited { pid: 7, exit_code: Some(0) }),
        stop: Ok(()),
    });
    assert_eq!(
        asks,
        vec![
            ProfileAsk::ClearStdout,
            ProfileAsk::ClearStderr,
            ProfileAsk::Directory(0),
            ProfileAsk::Create(0),
            ProfileAsk::Start(0),
            ProfileAsk::Launch { context: context(), timeout_ms: 1000 },
            ProfileAsk::Stop(0, Some(7)),
            ProfileAsk::Report,
        ]
    );
    let result = outcome.expect("profile");
    assert_eq!(result.status, ProfileStatus::Completed);
    assert_eq!(result.completion_reason, ProfileCompletionReason::TargetExited);
    assert_eq!(result.target_pid, Some(7));
    assert_eq!(result.duration_ms, 42);
    assert_eq!(result.collector_results.len(), 1);
    assert_eq!(result.collector_results[0].status, ProfileCollectorStatus::Completed);
    assert_eq!(result.artifacts.profile.path, r"C:\p\profile.json");
    assert!(events.contains(&"profile_created".to_string()));
}

#[test]
fn a_target_that_takes_too_long_times_out() {
    let (outcome, _, _) = run(Play {
        start: Ok(Vec::new()),
        exit: Ok(TargetExit::TimedOut { pid: 7 }),
        stop: Ok(()),
    });
    let result = outcome.expect("profile");
    assert_eq!(result.status, ProfileStatus::TimedOut);
    assert_eq!(result.completion_reason, ProfileCompletionReason::Timeout);
    assert_eq!(result.target_exit_code, None);
}

#[test]
fn a_collector_that_does_not_start_stops_the_profile() {
    let (outcome, asks, _) = run(Play {
        start: Err(backend("access denied")),
        exit: Ok(TargetExit::TimedOut { pid: 7 }),
        stop: Ok(()),
    });
    assert!(outcome.expect_err("no profile").message().contains("access denied"));
    assert!(!asks.iter().any(|ask| matches!(ask, ProfileAsk::Launch { .. })));
    assert!(asks.contains(&ProfileAsk::CleanUp(0)));
}

#[test]
fn a_collector_is_stopped_when_the_target_does_not_start() {
    let (outcome, asks, _) = run(Play {
        start: Ok(Vec::new()),
        exit: Err(backend("not found")),
        stop: Ok(()),
    });
    let result = outcome.expect("profile");
    assert_eq!(result.status, ProfileStatus::Failed);
    assert_eq!(result.completion_reason, ProfileCompletionReason::TargetLaunchFailed);
    assert_eq!(result.error.as_deref(), Some("not found"));
    assert!(asks.contains(&ProfileAsk::Stop(0, None)));
}

#[test]
fn a_collector_that_does_not_stop_is_cleaned_up() {
    let (outcome, asks, _) = run(Play {
        start: Ok(Vec::new()),
        exit: Ok(TargetExit::Exited { pid: 7, exit_code: None }),
        stop: Err(backend("no session")),
    });
    assert!(asks.contains(&ProfileAsk::CleanUp(0)));
    let error = match outcome {
        Ok(result) => result.error.expect("error"),
        Err(error) => error.message(),
    };
    assert!(error.contains("no session"));
}

#[test]
fn one_profile_is_active_at_a_time() {
    let mut jobs = SingleActiveJob::new();
    let admitted = admit_profile(&mut jobs, SessionId(1), Ok(launch()), 1000, Vec::new())
        .expect("admitted");
    assert_eq!(admitted.collectors.len(), 1);
    let error = admit_profile(&mut jobs, SessionId(2), Ok(launch()), 1000, Vec::new())
        .expect_err("busy");
    assert_eq!(
        error.message(),
        "another profile job is already active: 00000000-0000-0000-0000-000000000001"
    );
    jobs.finish();
    assert!(admit_profile(&mut jobs, SessionId(2), Ok(launch()), 0, Vec::new())
        .expect_err("no time")
        .message()
        .contains("timeout_ms must be greater than zero"));
    assert!(admit_profile(
        &mut jobs,
        SessionId(2),
        Ok(launch()),
        1000,
        vec![collector(), collector()],
    )
    .expect_err("twice")
    .message()
    .contains("duplicate profile collector kind"));
    assert!(reject_duplicate_collectors(&[collector()]).is_ok());
}

#[test]
fn targets_must_be_files() {
    let found = ResolvedExecutable { path: r"C:\Windows\System32\cmd.exe".to_string(), is_file: true };
    assert!(validate_profile_target(launch(), Ok(found)).is_ok());
    let folder = ResolvedExecutable { path: r"C:\Windows".to_string(), is_file: false };
    assert!(validate_profile_target(launch(), Ok(folder)).is_err());
    assert!(validate_profile_target(launch(), Err("gone".to_string())).is_err());
    let runner = ProcessTargetRunner;
    assert_eq!(runner.poll(7, None, false), WaitStep::Pause(25));
    assert_eq!(
        runner.poll(7, Some(Some(3)), true),
        WaitStep::Finished(TargetExit::Exited { pid: 7, exit_code: Some(3) })
    );
}

#[test]
fn outcomes_have_names() {
    assert_eq!(status_text(ProfileStatus::TimedOut), "TimedOut");
    assert_eq!(reason_text(ProfileCompletionReason::CollectorError), "CollectorError");
    assert!(legacy_trace_artifact(&[]).is_none());
}

#[test]
fn run_profile_with_context_passes_process_launch_context_to_target_runner() {
    let process_launch = ProcessLaunchConfig::installed_service_default();
    let tool_context = ToolCallContext { peer_pid: Some(2001), peer_session_id: Some(33) };
    let request = RunProfile { target: launch(), timeout_ms: 1000, collectors: Vec::new() };
    let mut step = ProfileRun::begin(
        SessionId(5),
        request,
        paths(),
        ProcessLaunchContext::new(process_launch, tool_context),
        Json::object(),
    );
    let mut recorded = None;
    let outcome = loop {
        if let ProfilePhase::Done(outcome) = step.run.phase {
            break outcome;
        }
        let answer = match step.run.ask() {
            ProfileAsk::ClearStdout | ProfileAsk::ClearStderr => ProfileAnswer::Cleared(Ok(())),
            ProfileAsk::Launch { context, .. } => {
                recorded = Some(context);
                ProfileAnswer::Exited(Ok(TargetExit::Exited { pid: 99, exit_code: Some(0) }))
            }
            ProfileAsk::Report => ProfileAnswer::Written(Ok(r"C:\p\profile.json".to_string())),
            other => panic!("not asked without collectors: {other:?}"),
        };
        step = step.run.answer(answer, 1);
    };

    assert_eq!(outcome.expect("run profile").profile_id, SessionId(5));
    let recorded = recorded.expect("context");
    assert_eq!(recorded.config, process_launch);
    assert_eq!(recorded.tool_call, tool_context);
}
