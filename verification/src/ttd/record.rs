//! The course of a recording: the outside does what it is asked to, and each answer is a step.

use crate::artifact;
use crate::artifact::{ArtifactKind, ArtifactRef, ArtifactView};
use crate::bytes;
use crate::error::{DbgFlowError, ErrorView};
use crate::ids;
use crate::ids::SessionId;
use crate::journal;
use crate::journal::{no_records, note, note_at, Record, RecordView};
use crate::json;
use crate::json::{Json, JsonView};
use crate::profile::request::SingleActiveJob;
use crate::scan;
use crate::text;
use crate::text::{cat2, cat3};
use crate::ttd::args;
use crate::ttd::options;
use crate::ttd::options::{
    RecordTtd, TtdRecorderExit, TtdRecordingCompletionReason, TtdRecordingOptions,
    TtdRecordingStatus, TtdTarget,
};
use crate::ttd::output;
use crate::ttd::output::{DiscoveredTtdArtifacts, DiscoveredView};
use crate::ttd::validation;
use vstd::prelude::*;

verus! {

/// Where the files of a recording are.
#[derive(Debug)]
pub struct TtdPaths {
    pub recording_dir: String,
    pub traces_dir: String,
    pub events: String,
    pub stdout: String,
    pub stderr: String,
    pub stop_stdout: String,
    pub stop_stderr: String,
}

/// A recording that was admitted.
#[derive(Debug)]
pub struct TtdJob {
    pub id: SessionId,
    pub request: RecordTtd,
    pub ttd_exe: String,
    pub paths: TtdPaths,
}

/// What is known of a recording when the recorder is done.
#[derive(Debug)]
pub struct TtdProgress {
    /// Why the recorder could not be run.
    pub failure: Option<String>,
    pub exit: TtdRecorderExit,
    pub target_pid: Option<u32>,
    pub stdout: String,
    pub stderr: String,
    /// Whether the recorder was told to stop.
    pub stop_tried: bool,
    pub warnings: Vec<String>,
}

/// The mathematical form of what is known.
#[verifier::ext_equal]
pub struct ProgressView {
    pub failure: Option<Seq<char>>,
    pub exit: TtdRecorderExit,
    pub target_pid: Option<u32>,
    pub stdout: Seq<char>,
    pub stderr: Seq<char>,
    pub stop_tried: bool,
    pub warnings: Seq<Seq<char>>,
}

impl View for TtdProgress {
    type V = ProgressView;

    open spec fn view(&self) -> ProgressView {
        ProgressView {
            failure: text::view_opt(self.failure),
            exit: self.exit,
            target_pid: self.target_pid,
            stdout: self.stdout@,
            stderr: self.stderr@,
            stop_tried: self.stop_tried,
            warnings: text::views(self.warnings@),
        }
    }
}

/// What is written down about a recording that is over.
#[derive(Debug)]
pub struct TtdMetadata {
    pub status: TtdRecordingStatus,
    pub completion_reason: TtdRecordingCompletionReason,
    pub target_pid: Option<u32>,
    pub recorder_exit_code: Option<i32>,
    pub duration_ms: u64,
    pub discovered: DiscoveredTtdArtifacts,
    pub warnings: Vec<String>,
    pub error: Option<String>,
}

/// The mathematical form of what is written down.
#[verifier::ext_equal]
pub struct MetadataView {
    pub status: TtdRecordingStatus,
    pub completion_reason: TtdRecordingCompletionReason,
    pub target_pid: Option<u32>,
    pub recorder_exit_code: Option<i32>,
    pub duration_ms: u64,
    pub discovered: DiscoveredView,
    pub warnings: Seq<Seq<char>>,
    pub error: Option<Seq<char>>,
}

impl View for TtdMetadata {
    type V = MetadataView;

    open spec fn view(&self) -> MetadataView {
        MetadataView {
            status: self.status,
            completion_reason: self.completion_reason,
            target_pid: self.target_pid,
            recorder_exit_code: self.recorder_exit_code,
            duration_ms: self.duration_ms,
            discovered: self.discovered@,
            warnings: text::views(self.warnings@),
            error: text::view_opt(self.error),
        }
    }
}

/// The files of a finished recording.
#[derive(Debug)]
pub struct TtdRecordingArtifacts {
    pub metadata: ArtifactRef,
    pub events: ArtifactRef,
    pub traces: Vec<ArtifactRef>,
    pub trace_indexes: Vec<ArtifactRef>,
    pub recorder_stdout: ArtifactRef,
    pub recorder_stderr: ArtifactRef,
    pub recorder_stop_stdout: Option<ArtifactRef>,
    pub recorder_stop_stderr: Option<ArtifactRef>,
    pub recorder_logs: Vec<ArtifactRef>,
}

/// The outcome of a recording.
#[derive(Debug)]
pub struct TtdRecordingResult {
    pub recording_id: SessionId,
    pub status: TtdRecordingStatus,
    pub completion_reason: TtdRecordingCompletionReason,
    pub duration_ms: u64,
    pub target_pid: Option<u32>,
    pub recorder_exit_code: Option<i32>,
    pub artifacts: TtdRecordingArtifacts,
    pub warnings: Vec<String>,
    pub error: Option<String>,
}

/// The mathematical form of an outcome.
#[verifier::ext_equal]
pub struct OutcomeView {
    pub recording_id: SessionId,
    pub summary: MetadataView,
    pub metadata: ArtifactView,
    pub events: ArtifactView,
    pub recorder_stdout: ArtifactView,
    pub recorder_stderr: ArtifactView,
    pub recorder_stop_stdout: Option<ArtifactView>,
    pub recorder_stop_stderr: Option<ArtifactView>,
}

/// The view of an optional reference.
pub open spec fn artifact_opt(o: Option<ArtifactRef>) -> Option<ArtifactView> {
    match o {
        Some(a) => Some(a@),
        None => None,
    }
}

impl View for TtdRecordingResult {
    type V = OutcomeView;

    open spec fn view(&self) -> OutcomeView {
        OutcomeView {
            recording_id: self.recording_id,
            summary: MetadataView {
                status: self.status,
                completion_reason: self.completion_reason,
                target_pid: self.target_pid,
                recorder_exit_code: self.recorder_exit_code,
                duration_ms: self.duration_ms,
                discovered: DiscoveredView {
                    traces: artifact::artifacts_view(self.artifacts.traces@),
                    trace_indexes: artifact::artifacts_view(self.artifacts.trace_indexes@),
                    recorder_logs: artifact::artifacts_view(self.artifacts.recorder_logs@),
                },
                warnings: text::views(self.warnings@),
                error: text::view_opt(self.error),
            },
            metadata: self.artifacts.metadata@,
            events: self.artifacts.events@,
            recorder_stdout: self.artifacts.recorder_stdout@,
            recorder_stderr: self.artifacts.recorder_stderr@,
            recorder_stop_stdout: artifact_opt(self.artifacts.recorder_stop_stdout),
            recorder_stop_stderr: artifact_opt(self.artifacts.recorder_stop_stderr),
        }
    }
}

/// What a recording waits for.
#[derive(Debug)]
pub enum TtdPhase {
    /// That the recorder runs.
    Run,
    /// What the recorder wrote to its output.
    ReadOutput { exit: TtdRecorderExit },
    /// That the recorder stops.
    Stop { progress: TtdProgress, stop_target: String },
    /// The files that the recorder wrote.
    Discover { progress: TtdProgress },
    /// That the outcome is written down.
    Report { metadata: TtdMetadata, stop_tried: bool, ran: bool },
    /// Nothing: the recording is over.
    Done(Result<TtdRecordingResult, DbgFlowError>),
}

/// The mathematical form of what a recording waits for.
pub enum PhaseView {
    Run,
    ReadOutput { exit: TtdRecorderExit },
    Stop { progress: ProgressView, stop_target: Seq<char> },
    Discover { progress: ProgressView },
    Report { metadata: MetadataView, stop_tried: bool, ran: bool },
    Done(Result<OutcomeView, ErrorView>),
}

impl View for TtdPhase {
    type V = PhaseView;

    open spec fn view(&self) -> PhaseView {
        match *self {
            TtdPhase::Run => PhaseView::Run,
            TtdPhase::ReadOutput { exit } => PhaseView::ReadOutput { exit },
            TtdPhase::Stop { progress, stop_target } => PhaseView::Stop {
                progress: progress@,
                stop_target: stop_target@,
            },
            TtdPhase::Discover { progress } => PhaseView::Discover { progress: progress@ },
            TtdPhase::Report { metadata, stop_tried, ran } => PhaseView::Report {
                metadata: metadata@,
                stop_tried,
                ran,
            },
            TtdPhase::Done(outcome) => PhaseView::Done(
                match outcome {
                    Ok(r) => Ok(r@),
                    Err(e) => Err(e@),
                },
            ),
        }
    }
}

/// An answer of the outside.
#[derive(Debug)]
pub enum TtdAnswer {
    /// The recorder ran.
    Ran(Result<TtdRecorderExit, DbgFlowError>),
    /// What the recorder wrote; a file that cannot be read counts as empty.
    Output { stdout: Vec<u8>, stderr: Vec<u8> },
    /// The recorder was told to stop.
    Stopped(Result<TtdRecorderExit, DbgFlowError>),
    /// The files in the directory of the traces.
    Files(Result<Vec<String>, DbgFlowError>),
    /// The outcome was written to this file.
    Written(Result<String, DbgFlowError>),
}

/// The mathematical form of an answer.
pub enum AnswerView {
    Ran(Result<TtdRecorderExit, ErrorView>),
    Output { stdout: Seq<char>, stderr: Seq<char> },
    Stopped(Result<TtdRecorderExit, ErrorView>),
    Files(Result<Seq<Seq<char>>, ErrorView>),
    Written(Result<Seq<char>, ErrorView>),
}

/// The view of the end of a run.
pub open spec fn exit_view(r: Result<TtdRecorderExit, DbgFlowError>) -> Result<
    TtdRecorderExit,
    ErrorView,
> {
    match r {
        Ok(x) => Ok(x),
        Err(e) => Err(e@),
    }
}

impl View for TtdAnswer {
    type V = AnswerView;

    open spec fn view(&self) -> AnswerView {
        match *self {
            TtdAnswer::Ran(r) => AnswerView::Ran(exit_view(r)),
            TtdAnswer::Output { stdout, stderr } => AnswerView::Output {
                stdout: bytes::utf8_lossy(stdout@),
                stderr: bytes::utf8_lossy(stderr@),
            },
            TtdAnswer::Stopped(r) => AnswerView::Stopped(exit_view(r)),
            TtdAnswer::Files(r) => AnswerView::Files(
                match r {
                    Ok(v) => Ok(text::views(v@)),
                    Err(e) => Err(e@),
                },
            ),
            TtdAnswer::Written(r) => AnswerView::Written(
                match r {
                    Ok(s) => Ok(s@),
                    Err(e) => Err(e@),
                },
            ),
        }
    }
}

/// A recording after a step, with the entries that the step adds to its log.
#[verifier::ext_equal]
pub struct StepView {
    pub phase: PhaseView,
    pub records: Seq<RecordView>,
}

/// The fields of an entry about the end of the recorder.
pub open spec fn exit_fields(exit: TtdRecorderExit) -> JsonView {
    JsonView::object().with("timed_out"@, JsonView::Bool(exit.timed_out)).with(
        "exit_code"@,
        match exit.exit_code {
            Some(n) => if n < 0 {
                JsonView::Negative(n as i64)
            } else {
                JsonView::Unsigned(n as u64)
            },
            None => JsonView::Null,
        },
    )
}

/// The start of a recording.
pub open spec fn begun(job: TtdJob, request_fields: JsonView) -> StepView {
    let command = args::recorder_args(
        job.request.target,
        job.request.options,
        job.paths.traces_dir@,
    );
    StepView {
        phase: PhaseView::Run,
        records: seq![
            journal::entry_at(
                "ttd_recording_started"@,
                job.paths.recording_dir@,
                None,
                request_fields,
            ),
            journal::entry(
                "recorder_starting"@,
                None,
                JsonView::object().with_text("ttd_exe"@, job.ttd_exe@).with(
                    "args"@,
                    JsonView::List(command.map_values(|a: Seq<char>| JsonView::Text(a))),
                ),
            ),
        ],
    }
}

/// What is known when the output of the recorder was read.
pub open spec fn read_progress(
    exit: TtdRecorderExit,
    stdout: Seq<char>,
    stderr: Seq<char>,
) -> ProgressView {
    ProgressView {
        failure: None,
        exit,
        target_pid: match output::first_pid(scan::lines(stdout + "\n"@ + stderr)) {
            Some(pid) => Some(pid as u32),
            None => None,
        },
        stdout,
        stderr,
        stop_tried: false,
        warnings: Seq::empty(),
    }
}

/// After the output was read: a recorder that timed out is told to stop, if it is known what.
pub open spec fn after_output(job: TtdJob, progress: ProgressView) -> StepView {
    let reached = journal::entry("timeout_reached"@, None, JsonView::object());
    if !progress.exit.timed_out {
        StepView { phase: PhaseView::Discover { progress }, records: Seq::empty() }
    } else {
        match args::stop_target(job.request.target, progress.target_pid) {
            Some(stop_target) => StepView {
                phase: PhaseView::Stop { progress, stop_target },
                records: seq![reached],
            },
            None => StepView {
                phase: PhaseView::Discover {
                    progress: ProgressView {
                        warnings: progress.warnings.push(
                            "TTD recorder timed out, but dbgflow could not determine a safe stop target"@,
                        ),
                        ..progress
                    },
                },
                records: seq![
                    reached,
                    journal::entry(
                        "recorder_stop_skipped"@,
                        Some("could not determine a safe stop target"@),
                        JsonView::object(),
                    ),
                ],
            },
        }
    }
}

/// After the recorder was told to stop.
pub open spec fn after_stop(
    progress: ProgressView,
    stop_target: Seq<char>,
    answer: Result<TtdRecorderExit, ErrorView>,
) -> StepView {
    let tried = ProgressView { stop_tried: true, ..progress };
    match answer {
        Ok(exit) => StepView {
            phase: PhaseView::Discover { progress: tried },
            records: seq![
                journal::entry(
                    "recorder_stop_finished"@,
                    None,
                    exit_fields(exit).with_text("stop_target"@, stop_target),
                ),
            ],
        },
        Err(e) => StepView {
            phase: PhaseView::Discover {
                progress: ProgressView {
                    warnings: progress.warnings.push(
                        "TTD stop failed after recorder timeout: "@ + e.text(),
                    ),
                    ..tried
                },
            },
            records: seq![
                journal::entry(
                    "recorder_stop_failed"@,
                    Some(e.text()),
                    JsonView::object().with_text("stop_target"@, stop_target),
                ),
            ],
        },
    }
}

/// The outcome of a recording, given the files that were found.
pub open spec fn outcome(
    progress: ProgressView,
    discovered: DiscoveredView,
    duration_ms: u64,
) -> MetadataView {
    let code = progress.exit.exit_code;
    let failed_code = code is Some && code != Some(0i32);
    MetadataView {
        status: if progress.failure is Some {
            TtdRecordingStatus::Failed
        } else if progress.exit.timed_out {
            TtdRecordingStatus::TimedOut
        } else if failed_code || discovered.traces.len() == 0 {
            TtdRecordingStatus::Failed
        } else {
            TtdRecordingStatus::Completed
        },
        completion_reason: if progress.failure is Some {
            TtdRecordingCompletionReason::RecorderError
        } else if progress.exit.timed_out {
            TtdRecordingCompletionReason::Timeout
        } else if failed_code || discovered.traces.len() == 0 {
            TtdRecordingCompletionReason::RecorderError
        } else {
            TtdRecordingCompletionReason::TargetExited
        },
        target_pid: progress.target_pid,
        recorder_exit_code: code,
        duration_ms,
        discovered,
        warnings: progress.warnings,
        error: if progress.failure is Some {
            progress.failure
        } else if progress.exit.timed_out {
            None
        } else if failed_code {
            Some(output::error_summary(progress.stdout, progress.stderr, code))
        } else if discovered.traces.len() == 0 {
            Some("TTD recorder completed but no .run trace was created"@)
        } else {
            None
        },
    }
}

/// The name of the kind of a file that the recorder wrote.
pub open spec fn kind_name(kind: ArtifactKind) -> Seq<char> {
    match kind {
        ArtifactKind::TtdTrace => "TtdTrace"@,
        ArtifactKind::TtdTraceIndex => "TtdTraceIndex"@,
        _ => "TtdRecorderOutput"@,
    }
}

/// The entry about a file that was found.
pub open spec fn found_entry(a: ArtifactView) -> RecordView {
    journal::entry_at(
        "trace_detected"@,
        a.path,
        None,
        JsonView::object().with_text("kind"@, kind_name(a.kind)),
    )
}

/// The entries about files that were found.
pub open spec fn found_entries(files: Seq<ArtifactView>) -> Seq<RecordView> {
    files.map_values(|a: ArtifactView| found_entry(a))
}

/// After the files of the recorder were looked for.
pub open spec fn after_discovery(
    progress: ProgressView,
    answer: Result<Seq<Seq<char>>, ErrorView>,
    duration_ms: u64,
) -> StepView {
    match answer {
        Err(e) => StepView { phase: PhaseView::Done(Err(e)), records: Seq::empty() },
        Ok(files) => {
            let found = output::discovered(files);
            StepView {
                phase: PhaseView::Report {
                    metadata: outcome(progress, found, duration_ms),
                    stop_tried: progress.stop_tried,
                    ran: progress.failure is None,
                },
                records: if progress.failure is Some {
                    Seq::empty()
                } else {
                    found_entries(found.traces + found.trace_indexes + found.recorder_logs)
                },
            }
        },
    }
}

/// A reference to output of the recorder.
pub open spec fn recorder_output(path: Seq<char>) -> ArtifactView {
    ArtifactView { kind: ArtifactKind::TtdRecorderOutput, path }
}

/// The result of a finished recording.
pub open spec fn result_of(
    job: TtdJob,
    summary: MetadataView,
    stop_tried: bool,
    path: Seq<char>,
) -> OutcomeView {
    OutcomeView {
        recording_id: job.id,
        summary,
        metadata: ArtifactView { kind: ArtifactKind::TtdRecordingMetadata, path },
        events: ArtifactView { kind: ArtifactKind::TtdRecordingEvents, path: job.paths.events@ },
        recorder_stdout: recorder_output(job.paths.stdout@),
        recorder_stderr: recorder_output(job.paths.stderr@),
        recorder_stop_stdout: if stop_tried {
            Some(recorder_output(job.paths.stop_stdout@))
        } else {
            None
        },
        recorder_stop_stderr: if stop_tried {
            Some(recorder_output(job.paths.stop_stderr@))
        } else {
            None
        },
    }
}

/// The fields of the entry about the end of a recording.
pub open spec fn end_fields(m: MetadataView) -> JsonView {
    JsonView::object().with_text("status"@, options::status_name(m.status)).with_text(
        "completion_reason"@,
        options::reason_name(m.completion_reason),
    ).with("duration_ms"@, JsonView::Unsigned(m.duration_ms)).with(
        "trace_count"@,
        JsonView::Unsigned(m.discovered.traces.len() as u64),
    )
}

/// After the outcome was written down.
pub open spec fn after_report(
    job: TtdJob,
    metadata: MetadataView,
    stop_tried: bool,
    ran: bool,
    answer: Result<Seq<char>, ErrorView>,
) -> StepView {
    match answer {
        Err(e) => StepView { phase: PhaseView::Done(Err(e)), records: Seq::empty() },
        Ok(path) => StepView {
            phase: PhaseView::Done(Ok(result_of(job, metadata, stop_tried, path))),
            records: if ran {
                seq![journal::entry("recording_completed"@, metadata.error, end_fields(metadata))]
            } else {
                Seq::empty()
            },
        },
    }
}

/// What an answer leads to. An answer that the recording does not wait for changes nothing.
pub open spec fn after(
    job: TtdJob,
    phase: PhaseView,
    answer: AnswerView,
    duration_ms: u64,
) -> StepView {
    match (phase, answer) {
        (PhaseView::Run, AnswerView::Ran(Ok(exit))) => StepView {
            phase: PhaseView::ReadOutput { exit },
            records: seq![journal::entry("recorder_finished"@, None, exit_fields(exit))],
        },
        (PhaseView::Run, AnswerView::Ran(Err(e))) => StepView {
            phase: PhaseView::Discover {
                progress: ProgressView {
                    failure: Some(e.text()),
                    exit: TtdRecorderExit { exit_code: None, timed_out: false },
                    target_pid: None,
                    stdout: Seq::empty(),
                    stderr: Seq::empty(),
                    stop_tried: false,
                    warnings: Seq::empty(),
                },
            },
            records: seq![
                journal::entry("recording_failed"@, Some(e.text()), JsonView::object()),
            ],
        },
        (PhaseView::ReadOutput { exit }, AnswerView::Output { stdout, stderr }) => after_output(
            job,
            read_progress(exit, stdout, stderr),
        ),
        (PhaseView::Stop { progress, stop_target }, AnswerView::Stopped(r)) => after_stop(
            progress,
            stop_target,
            r,
        ),
        (PhaseView::Discover { progress }, AnswerView::Files(r)) => after_discovery(
            progress,
            r,
            duration_ms,
        ),
        (PhaseView::Report { metadata, stop_tried, ran }, AnswerView::Written(r)) => after_report(
            job,
            metadata,
            stop_tried,
            ran,
            r,
        ),
        _ => StepView { phase, records: Seq::empty() },
    }
}

/// A recording that runs.
#[derive(Debug)]
pub struct TtdRun {
    pub job: TtdJob,
    pub phase: TtdPhase,
}

/// A recording after a step, with the entries that the step adds to its log.
#[derive(Debug)]
pub struct TtdStep {
    pub run: TtdRun,
    pub records: Vec<Record>,
}

/// The mathematical form of a recording after a step.
#[verifier::ext_equal]
pub struct RunView {
    pub job: TtdJob,
    pub step: StepView,
}

impl View for TtdStep {
    type V = RunView;

    open spec fn view(&self) -> RunView {
        RunView {
            job: self.run.job,
            step: StepView {
                phase: self.run.phase@,
                records: journal::records_view(self.records@),
            },
        }
    }
}

/// How long the recorder may take to stop, in milliseconds.
pub const STOP_TIMEOUT_MS: u64 = 15000;

/// How the recorder is run.
#[derive(Debug)]
pub struct TtdRecorderInvocation {
    pub ttd_exe: String,
    pub args: Vec<String>,
    pub timeout_ms: u64,
    pub stdout_path: String,
    pub stderr_path: String,
}

/// The mathematical form of how the recorder is run.
#[verifier::ext_equal]
pub struct InvocationView {
    pub ttd_exe: Seq<char>,
    pub args: Seq<Seq<char>>,
    pub timeout_ms: u64,
    pub stdout_path: Seq<char>,
    pub stderr_path: Seq<char>,
}

impl View for TtdRecorderInvocation {
    type V = InvocationView;

    open spec fn view(&self) -> InvocationView {
        InvocationView {
            ttd_exe: self.ttd_exe@,
            args: text::views(self.args@),
            timeout_ms: self.timeout_ms,
            stdout_path: self.stdout_path@,
            stderr_path: self.stderr_path@,
        }
    }
}

/// How the recorder is run for a job.
pub open spec fn invocation(job: TtdJob) -> InvocationView {
    InvocationView {
        ttd_exe: job.ttd_exe@,
        args: args::recorder_args(job.request.target, job.request.options, job.paths.traces_dir@),
        timeout_ms: job.request.timeout_ms,
        stdout_path: job.paths.stdout@,
        stderr_path: job.paths.stderr@,
    }
}

/// How the recorder is told to stop.
#[derive(Debug)]
pub struct TtdStopInvocation {
    pub ttd_exe: String,
    pub stop_target: String,
    pub timeout_ms: u64,
    pub stdout_path: String,
    pub stderr_path: String,
}

/// The mathematical form of how the recorder is told to stop.
#[verifier::ext_equal]
pub struct StopView {
    pub ttd_exe: Seq<char>,
    pub stop_target: Seq<char>,
    pub timeout_ms: u64,
    pub stdout_path: Seq<char>,
    pub stderr_path: Seq<char>,
}

impl View for TtdStopInvocation {
    type V = StopView;

    open spec fn view(&self) -> StopView {
        StopView {
            ttd_exe: self.ttd_exe@,
            stop_target: self.stop_target@,
            timeout_ms: self.timeout_ms,
            stdout_path: self.stdout_path@,
            stderr_path: self.stderr_path@,
        }
    }
}

/// How the recorder of a job is told to stop.
pub open spec fn stop_invocation(job: TtdJob, stop_target: Seq<char>) -> StopView {
    StopView {
        ttd_exe: job.ttd_exe@,
        stop_target,
        timeout_ms: STOP_TIMEOUT_MS,
        stdout_path: job.paths.stop_stdout@,
        stderr_path: job.paths.stop_stderr@,
    }
}

/// What the outside is asked to do.
#[derive(Debug)]
pub enum TtdAsk {
    /// Run the recorder.
    Run(TtdRecorderInvocation),
    ReadOutput,
    /// Tell the recorder to stop.
    Stop(TtdStopInvocation),
    Discover,
    Report,
    Nothing,
}

/// Admits a request: its target is good, it allows for some time, its options are good, the
/// recorder is there, and no other recording is active. They are looked at in this order.
pub fn admit_recording(
    jobs: &mut SingleActiveJob,
    id: SessionId,
    target: Result<TtdTarget, DbgFlowError>,
    timeout_ms: u64,
    options: TtdRecordingOptions,
    ttd_exe: Result<String, DbgFlowError>,
) -> (r: Result<(RecordTtd, String), DbgFlowError>)
    ensures
        r is Ok <==> target is Ok && timeout_ms != 0 && validation::options_error(
            options,
            target->Ok_0 is Monitor,
        ) is None && ttd_exe is Ok && old(jobs).active is None,
        r matches Ok((request, exe)) ==> {
            &&& target == Ok::<TtdTarget, DbgFlowError>(request.target)
            &&& request.timeout_ms == timeout_ms
            &&& request.options == options
            &&& ttd_exe == Ok::<String, DbgFlowError>(exe)
            &&& final(jobs).active == Some(id)
        },
        r matches Err(e) ==> {
            &&& *final(jobs) == *old(jobs)
            &&& match target {
                Err(error) => e == error,
                Ok(t) => if timeout_ms == 0 {
                    e@ == ErrorView::Backend("TTD recording timeout_ms must be greater than zero"@)
                } else {
                    match validation::options_error(options, t is Monitor) {
                        Some(m) => e@ == ErrorView::Backend(m),
                        None => match ttd_exe {
                            Err(error) => e == error,
                            Ok(_) => old(jobs).active matches Some(other) && e@
                                == ErrorView::Backend(
                                "another TTD recording job is already active: "@ + ids::uuid_text(
                                    other.0,
                                ),
                            ),
                        },
                    }
                },
            }
        },
{
    let target = match target {
        Ok(target) => target,
        Err(error) => {
            return Err(error);
        },
    };
    if timeout_ms == 0 {
        return Err(DbgFlowError::backend("TTD recording timeout_ms must be greater than zero"));
    }
    match validation::validate_ttd_options(&options, &target) {
        Ok(()) => {},
        Err(error) => {
            return Err(error);
        },
    }
    let exe = match ttd_exe {
        Ok(exe) => exe,
        Err(error) => {
            return Err(error);
        },
    };
    match jobs.start(id, "another TTD recording job is already active: ") {
        Ok(()) => Ok((RecordTtd { target, timeout_ms, options }, exe)),
        Err(error) => Err(error),
    }
}

fn write_exit_fields(exit: TtdRecorderExit) -> (r: Json)
    ensures
        r@ == exit_fields(exit),
{
    let code = match exit.exit_code {
        Some(n) => if n < 0 {
            Json::Negative(n as i64)
        } else {
            Json::Unsigned(n as u64)
        },
        None => Json::Null,
    };
    Json::object().with("timed_out", Json::Bool(exit.timed_out)).with("exit_code", code)
}

fn text_list(items: &[String]) -> (r: Json)
    ensures
        r@ == JsonView::List(
            text::views(items@).map_values(|a: Seq<char>| JsonView::Text(a)),
        ),
{
    let ghost all = text::views(items@);
    let mut list: Vec<Json> = Vec::new();
    let mut i: usize = 0;
    while i < items.len()
        invariant
            i <= items@.len(),
            list@.len() == i,
            all == text::views(items@),
            forall|j: int| 0 <= j < i ==> (#[trigger] list@[j])@ == JsonView::Text(all[j]),
        decreases items@.len() - i,
    {
        list.push(Json::text(items[i].as_str()));
        i += 1;
    }
    assert(json::items_view(list@) =~= all.map_values(|a: Seq<char>| JsonView::Text(a)));
    Json::list(list)
}

fn note_found(records: &mut Vec<Record>, files: &[ArtifactRef])
    ensures
        journal::records_view(final(records)@) == journal::records_view(old(records)@)
            + found_entries(artifact::artifacts_view(files@)),
{
    let ghost before = journal::records_view(records@);
    let ghost all = artifact::artifacts_view(files@);
    let mut i: usize = 0;
    assert(before =~= before + found_entries(all.take(0)));
    while i < files.len()
        invariant
            i <= files@.len(),
            all == artifact::artifacts_view(files@),
            journal::records_view(records@) == before + found_entries(all.take(i as int)),
        decreases files@.len() - i,
    {
        let kind: &str = match files[i].kind {
            ArtifactKind::TtdTrace => "TtdTrace",
            ArtifactKind::TtdTraceIndex => "TtdTraceIndex",
            _ => "TtdRecorderOutput",
        };
        note_at(
            records,
            "trace_detected",
            files[i].path.as_str(),
            None,
            Json::object().with_text("kind", kind),
        );
        assert(found_entries(all.take(i + 1)) =~= found_entries(all.take(i as int)).push(
            found_entry(all[i as int]),
        ));
        assert(journal::records_view(records@) =~= before + found_entries(all.take(i + 1)));
        i += 1;
    }
    assert(all.take(i as int) =~= all);
}

fn after_output_read(job: &TtdJob, exit: TtdRecorderExit, stdout: String, stderr: String) -> (r: (
    TtdPhase,
    Vec<Record>,
))
    ensures
        r.0@ == after_output(*job, read_progress(exit, stdout@, stderr@)).phase,
        journal::records_view(r.1@) == after_output(
            *job,
            read_progress(exit, stdout@, stderr@),
        ).records,
{
    let all = cat3(stdout.as_str(), "\n", stderr.as_str());
    let target_pid = output::parse_first_recorded_pid(all.as_str());
    let mut progress = TtdProgress {
        failure: None,
        exit,
        target_pid,
        stdout,
        stderr,
        stop_tried: false,
        warnings: Vec::new(),
    };
    let ghost known = read_progress(exit, stdout@, stderr@);
    assert(progress@ =~= known);
    let mut records = no_records();
    if !exit.timed_out {
        return (TtdPhase::Discover { progress }, records);
    }
    note(&mut records, "timeout_reached", None, Json::object());
    let ghost reached = journal::entry("timeout_reached"@, None, JsonView::object());
    assert(journal::records_view(records@) =~= seq![reached]);
    match args::ttd_stop_target(&job.request.target, target_pid) {
        Some(stop_target) => (TtdPhase::Stop { progress, stop_target }, records),
        None => {
            progress.warnings.push(
                "TTD recorder timed out, but dbgflow could not determine a safe stop target".to_owned(),
            );
            note(
                &mut records,
                "recorder_stop_skipped",
                Some("could not determine a safe stop target".to_owned()),
                Json::object(),
            );
            assert(journal::records_view(records@) =~= after_output(*job, known).records);
            assert(progress@ =~= (ProgressView {
                warnings: known.warnings.push(
                    "TTD recorder timed out, but dbgflow could not determine a safe stop target"@,
                ),
                ..known
            }));
            (TtdPhase::Discover { progress }, records)
        },
    }
}

fn after_stop_tried(
    progress: TtdProgress,
    stop_target: String,
    answer: Result<TtdRecorderExit, DbgFlowError>,
) -> (r: (TtdPhase, Vec<Record>))
    ensures
        r.0@ == after_stop(progress@, stop_target@, exit_view(answer)).phase,
        journal::records_view(r.1@) == after_stop(
            progress@,
            stop_target@,
            exit_view(answer),
        ).records,
{
    let ghost step = after_stop(progress@, stop_target@, exit_view(answer));
    let ghost before = progress@;
    let mut progress = progress;
    progress.stop_tried = true;
    let mut records = no_records();
    match answer {
        Ok(exit) => {
            note(
                &mut records,
                "recorder_stop_finished",
                None,
                write_exit_fields(exit).with_text("stop_target", stop_target.as_str()),
            );
        },
        Err(error) => {
            let message = error.message();
            progress.warnings.push(
                cat2("TTD stop failed after recorder timeout: ", message.as_str()),
            );
            note(
                &mut records,
                "recorder_stop_failed",
                Some(message),
                Json::object().with_text("stop_target", stop_target.as_str()),
            );
            assert(progress@ =~= (ProgressView {
                stop_tried: true,
                warnings: before.warnings.push(
                    "TTD stop failed after recorder timeout: "@ + error@.text(),
                ),
                ..before
            }));
        },
    }
    assert(journal::records_view(records@) =~= step.records);
    (TtdPhase::Discover { progress }, records)
}

fn after_files(
    progress: TtdProgress,
    answer: Result<Vec<String>, DbgFlowError>,
    duration_ms: u64,
) -> (r: (TtdPhase, Vec<Record>))
    ensures
        ({
            let step = after_discovery(
                progress@,
                match answer {
                    Ok(v) => Ok(text::views(v@)),
                    Err(e) => Err(e@),
                },
                duration_ms,
            );
            r.0@ == step.phase && journal::records_view(r.1@) == step.records
        }),
{
    let mut records = no_records();
    let files = match answer {
        Ok(files) => files,
        Err(error) => {
            return (TtdPhase::Done(Err(error)), records);
        },
    };
    let ghost known = progress@;
    let discovered = output::discover_ttd_artifacts(files.as_slice());
    let ghost found = discovered@;
    let ran = progress.failure.is_none();
    let stop_tried = progress.stop_tried;
    let failed_code = match progress.exit.exit_code {
        Some(code) => code != 0,
        None => false,
    };
    if ran {
        note_found(&mut records, discovered.traces.as_slice());
        note_found(&mut records, discovered.trace_indexes.as_slice());
        note_found(&mut records, discovered.recorder_logs.as_slice());
        assert(journal::records_view(records@) =~= found_entries(
            found.traces + found.trace_indexes + found.recorder_logs,
        ));
    }
    let no_trace = discovered.traces.len() == 0;
    let (status, completion_reason, error) = match progress.failure {
        Some(message) => (
            TtdRecordingStatus::Failed,
            TtdRecordingCompletionReason::RecorderError,
            Some(message),
        ),
        None => if progress.exit.timed_out {
            (TtdRecordingStatus::TimedOut, TtdRecordingCompletionReason::Timeout, None)
        } else if failed_code {
            let summary = output::recorder_error_summary(
                progress.stdout.as_str(),
                progress.stderr.as_str(),
                progress.exit.exit_code,
            );
            (
                TtdRecordingStatus::Failed,
                TtdRecordingCompletionReason::RecorderError,
                Some(summary),
            )
        } else if no_trace {
            (
                TtdRecordingStatus::Failed,
                TtdRecordingCompletionReason::RecorderError,
                Some("TTD recorder completed but no .run trace was created".to_owned()),
            )
        } else {
            (TtdRecordingStatus::Completed, TtdRecordingCompletionReason::TargetExited, None)
        },
    };
    let metadata = TtdMetadata {
        status,
        completion_reason,
        target_pid: progress.target_pid,
        recorder_exit_code: progress.exit.exit_code,
        duration_ms,
        discovered,
        warnings: progress.warnings,
        error,
    };
    assert(metadata@ =~= outcome(known, found, duration_ms));
    (TtdPhase::Report { metadata, stop_tried, ran }, records)
}

fn status_text(status: TtdRecordingStatus) -> (r: &'static str)
    ensures
        r@ == options::status_name(status),
{
    match status {
        TtdRecordingStatus::Completed => "Completed",
        TtdRecordingStatus::TimedOut => "TimedOut",
        TtdRecordingStatus::Failed => "Failed",
    }
}

fn reason_text(reason: TtdRecordingCompletionReason) -> (r: &'static str)
    ensures
        r@ == options::reason_name(reason),
{
    match reason {
        TtdRecordingCompletionReason::TargetExited => "TargetExited",
        TtdRecordingCompletionReason::Timeout => "Timeout",
        TtdRecordingCompletionReason::RecorderError => "RecorderError",
        TtdRecordingCompletionReason::RecorderUnavailable => "RecorderUnavailable",
    }
}

fn after_written(
    job: &TtdJob,
    metadata: TtdMetadata,
    stop_tried: bool,
    ran: bool,
    answer: Result<String, DbgFlowError>,
) -> (r: (TtdPhase, Vec<Record>))
    ensures
        ({
            let step = after_report(
                *job,
                metadata@,
                stop_tried,
                ran,
                match answer {
                    Ok(s) => Ok(s@),
                    Err(e) => Err(e@),
                },
            );
            r.0@ == step.phase && journal::records_view(r.1@) == step.records
        }),
{
    let mut records = no_records();
    let path = match answer {
        Ok(path) => path,
        Err(error) => {
            return (TtdPhase::Done(Err(error)), records);
        },
    };
    if ran {
        let fields = Json::object().with_text("status", status_text(metadata.status)).with_text(
            "completion_reason",
            reason_text(metadata.completion_reason),
        ).with("duration_ms", Json::Unsigned(metadata.duration_ms)).with(
            "trace_count",
            Json::Unsigned(metadata.discovered.traces.len() as u64),
        );
        note(&mut records, "recording_completed", text::copy_opt(&metadata.error), fields);
        assert(journal::records_view(records@) =~= seq![
            journal::entry("recording_completed"@, metadata@.error, end_fields(metadata@)),
        ]);
    }
    let kind = ArtifactKind::TtdRecorderOutput;
    let stop_outputs = if stop_tried {
        (
            Some(ArtifactRef { kind, path: job.paths.stop_stdout.clone() }),
            Some(ArtifactRef { kind, path: job.paths.stop_stderr.clone() }),
        )
    } else {
        (None, None)
    };
    let result = TtdRecordingResult {
        recording_id: job.id,
        status: metadata.status,
        completion_reason: metadata.completion_reason,
        duration_ms: metadata.duration_ms,
        target_pid: metadata.target_pid,
        recorder_exit_code: metadata.recorder_exit_code,
        artifacts: TtdRecordingArtifacts {
            metadata: ArtifactRef { kind: ArtifactKind::TtdRecordingMetadata, path },
            events: ArtifactRef {
                kind: ArtifactKind::TtdRecordingEvents,
                path: job.paths.events.clone(),
            },
            traces: metadata.discovered.traces,
            trace_indexes: metadata.discovered.trace_indexes,
            recorder_stdout: ArtifactRef { kind, path: job.paths.stdout.clone() },
            recorder_stderr: ArtifactRef { kind, path: job.paths.stderr.clone() },
            recorder_stop_stdout: stop_outputs.0,
            recorder_stop_stderr: stop_outputs.1,
            recorder_logs: metadata.discovered.recorder_logs,
        },
        warnings: metadata.warnings,
        error: metadata.error,
    };
    assert(result@ =~= result_of(*job, metadata@, stop_tried, path@));
    (TtdPhase::Done(Ok(result)), records)
}

impl TtdRun {
    /// Begins a recording whose files have their places. `request_fields` describes the
    /// request.
    pub fn begin(job: TtdJob, request_fields: Json) -> (r: TtdStep)
        ensures
            r@ == (RunView { job, step: begun(job, request_fields@) }),
    {
        let mut records = no_records();
        note_at(
            &mut records,
            "ttd_recording_started",
            job.paths.recording_dir.as_str(),
            None,
            request_fields,
        );
        let command = args::build_ttd_args(
            &job.request.target,
            &job.request.options,
            job.paths.traces_dir.as_str(),
        );
        let fields = Json::object().with_text("ttd_exe", job.ttd_exe.as_str()).with(
            "args",
            text_list(command.as_slice()),
        );
        note(&mut records, "recorder_starting", None, fields);
        let r = TtdStep { run: TtdRun { job, phase: TtdPhase::Run }, records };
        assert(r@.step =~= begun(job, request_fields@));
        r
    }

    /// What the outside is asked to do.
    pub fn ask(&self) -> (r: TtdAsk)
        ensures
            match self.phase@ {
                PhaseView::Run => r matches TtdAsk::Run(run) && run@ == invocation(self.job),
                PhaseView::ReadOutput { .. } => r is ReadOutput,
                PhaseView::Stop { stop_target, .. } => r matches TtdAsk::Stop(stop) && stop@
                    == stop_invocation(self.job, stop_target),
                PhaseView::Discover { .. } => r is Discover,
                PhaseView::Report { .. } => r is Report,
                PhaseView::Done(_) => r is Nothing,
            },
    {
        match &self.phase {
            TtdPhase::Run => TtdAsk::Run(
                TtdRecorderInvocation {
                    ttd_exe: self.job.ttd_exe.clone(),
                    args: args::build_ttd_args(
                        &self.job.request.target,
                        &self.job.request.options,
                        self.job.paths.traces_dir.as_str(),
                    ),
                    timeout_ms: self.job.request.timeout_ms,
                    stdout_path: self.job.paths.stdout.clone(),
                    stderr_path: self.job.paths.stderr.clone(),
                },
            ),
            TtdPhase::ReadOutput { .. } => TtdAsk::ReadOutput,
            TtdPhase::Stop { stop_target, .. } => TtdAsk::Stop(
                TtdStopInvocation {
                    ttd_exe: self.job.ttd_exe.clone(),
                    stop_target: stop_target.clone(),
                    timeout_ms: STOP_TIMEOUT_MS,
                    stdout_path: self.job.paths.stop_stdout.clone(),
                    stderr_path: self.job.paths.stop_stderr.clone(),
                },
            ),
            TtdPhase::Discover { .. } => TtdAsk::Discover,
            TtdPhase::Report { .. } => TtdAsk::Report,
            TtdPhase::Done(_) => TtdAsk::Nothing,
        }
    }

    /// Takes an answer of the outside in. The duration is that since the recording began.
    pub fn answer(self, answer: TtdAnswer, duration_ms: u64) -> (r: TtdStep)
        ensures
            r@ == (RunView {
                job: self.job,
                step: after(self.job, self.phase@, answer@, duration_ms),
            }),
    {
        let job = self.job;
        let ghost step = after(self.job, self.phase@, answer@, duration_ms);
        let (phase, records) = match (self.phase, answer) {
            (TtdPhase::Run, TtdAnswer::Ran(ran)) => {
                let mut records = no_records();
                match ran {
                    Ok(exit) => {
                        note(&mut records, "recorder_finished", None, write_exit_fields(exit));
                        assert(journal::records_view(records@) =~= step.records);
                        (TtdPhase::ReadOutput { exit }, records)
                    },
                    Err(error) => {
                        note(
                            &mut records,
                            "recording_failed",
                            Some(error.message()),
                            Json::object(),
                        );
                        assert(journal::records_view(records@) =~= step.records);
                        let progress = TtdProgress {
                            failure: Some(error.message()),
                            exit: TtdRecorderExit { exit_code: None, timed_out: false },
                            target_pid: None,
                            stdout: String::new(),
                            stderr: String::new(),
                            stop_tried: false,
                            warnings: Vec::new(),
                        };
                        assert(progress@ =~= step.phase->Discover_progress);
                        (TtdPhase::Discover { progress }, records)
                    },
                }
            },
            (TtdPhase::ReadOutput { exit }, TtdAnswer::Output { stdout, stderr }) => {
                let out = bytes::utf8_lossy_text(stdout.as_slice());
                let err = bytes::utf8_lossy_text(stderr.as_slice());
                after_output_read(&job, exit, out, err)
            },
            (TtdPhase::Stop { progress, stop_target }, TtdAnswer::Stopped(stopped)) => {
                after_stop_tried(progress, stop_target, stopped)
            },
            (TtdPhase::Discover { progress }, TtdAnswer::Files(files)) => {
                after_files(progress, files, duration_ms)
            },
            (TtdPhase::Report { metadata, stop_tried, ran }, TtdAnswer::Written(written)) => {
                after_written(&job, metadata, stop_tried, ran, written)
            },
            (phase, _) => (phase, no_records()),
        };
        let r = TtdStep { run: TtdRun { job, phase }, records };
        assert(r@.step =~= step);
        r
    }
}

/// A recording that counts as completed has a trace, ran to its end in time, and reports no
/// error; one that does not complete and did not time out says why.
pub proof fn completed_recording_has_a_trace(
    progress: ProgressView,
    discovered: DiscoveredView,
    duration_ms: u64,
)
    ensures
        ({
            let m = outcome(progress, discovered, duration_ms);
            &&& m.status == TtdRecordingStatus::Completed ==> m.discovered.traces.len() > 0
                && !progress.exit.timed_out && m.error is None && (m.recorder_exit_code is None
                || m.recorder_exit_code == Some(0i32))
            &&& m.status == TtdRecordingStatus::Failed ==> m.error is Some
            &&& m.status == TtdRecordingStatus::TimedOut <==> progress.failure is None
                && progress.exit.timed_out
        }),
{
}

/// A recorder that ran past its time is told to stop, if it is known what. Whatever comes of it,
/// and whatever files are found, the recording is reported as timed out, without an error; it has
/// a warning if and only if the stop failed or could not be tried.
pub proof fn late_recorders_are_stopped(
    job: TtdJob,
    exit: TtdRecorderExit,
    stdout: Seq<char>,
    stderr: Seq<char>,
    answer: Result<TtdRecorderExit, ErrorView>,
    files: Seq<Seq<char>>,
    duration_ms: u64,
)
    requires
        exit.timed_out,
    ensures
        ({
            let progress = read_progress(exit, stdout, stderr);
            let step = after(
                job,
                PhaseView::ReadOutput { exit },
                AnswerView::Output { stdout, stderr },
                duration_ms,
            );
            match args::stop_target(job.request.target, progress.target_pid) {
                Some(target) => {
                    let stopped = after(job, step.phase, AnswerView::Stopped(answer), duration_ms);
                    &&& step.phase == (PhaseView::Stop { progress, stop_target: target })
                    &&& ends_late(job, stopped.phase, files, duration_ms, answer is Err)
                },
                None => ends_late(job, step.phase, files, duration_ms, true),
            }
        }),
{
}

/// Whether a recording goes on to report that it has timed out, with a warning or without.
pub open spec fn ends_late(
    job: TtdJob,
    phase: PhaseView,
    files: Seq<Seq<char>>,
    duration_ms: u64,
    warned: bool,
) -> bool {
    after(job, phase, AnswerView::Files(Ok(files)), duration_ms).phase matches PhaseView::Report {
        metadata,
        ..
    } && metadata.status == TtdRecordingStatus::TimedOut && metadata.completion_reason
        == TtdRecordingCompletionReason::Timeout && metadata.error is None && (
    metadata.warnings.len() > 0 <==> warned)
}

/// A recorder that could not be run makes the recording fail, and the reason is reported.
pub proof fn recorders_that_do_not_run_fail(
    job: TtdJob,
    error: ErrorView,
    files: Seq<Seq<char>>,
    duration_ms: u64,
)
    ensures
        ({
            let step = after(job, PhaseView::Run, AnswerView::Ran(Err(error)), duration_ms);
            after(job, step.phase, AnswerView::Files(Ok(files)), duration_ms).phase matches
                PhaseView::Report { metadata, .. } && metadata.status
                == TtdRecordingStatus::Failed && metadata.error == Some(error.text())
        }),
{
}

} // verus!
