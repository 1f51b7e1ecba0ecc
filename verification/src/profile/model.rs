//! The course of a profile as a function: what each answer of the outside leads to.

use crate::artifact;
use crate::artifact::{ArtifactKind, ArtifactRef, ArtifactView};
use crate::error::{DbgFlowError, ErrorView};
use crate::ids::SessionId;
use crate::journal;
use crate::journal::RecordView;
use crate::json::JsonView;
use crate::process::ProcessLaunchContext;
use crate::profile::request;
use crate::profile::request::{ProfileCollectorKind, RunProfile};
use crate::profile::target::TargetExit;
use crate::text;
use vstd::prelude::*;

verus! {

/// How a collector did.
#[derive(Debug, Clone, Copy, PartialEq, Eq, Structural)]
pub enum ProfileCollectorStatus {
    Completed,
    Failed,
}

/// How a profile did.
#[derive(Debug, Clone, Copy, PartialEq, Eq, Structural)]
pub enum ProfileStatus {
    Completed,
    TimedOut,
    Failed,
}

/// The name of a status.
pub open spec fn status_name(status: ProfileStatus) -> Seq<char> {
    match status {
        ProfileStatus::Completed => "Completed"@,
        ProfileStatus::TimedOut => "TimedOut"@,
        ProfileStatus::Failed => "Failed"@,
    }
}

/// Why a profile ended.
#[derive(Debug, Clone, Copy, PartialEq, Eq, Structural)]
pub enum ProfileCompletionReason {
    TargetExited,
    Timeout,
    TargetLaunchFailed,
    CollectorError,
}

/// The name of a reason.
pub open spec fn reason_name(reason: ProfileCompletionReason) -> Seq<char> {
    match reason {
        ProfileCompletionReason::TargetExited => "TargetExited"@,
        ProfileCompletionReason::Timeout => "Timeout"@,
        ProfileCompletionReason::TargetLaunchFailed => "TargetLaunchFailed"@,
        ProfileCompletionReason::CollectorError => "CollectorError"@,
    }
}

/// A collector that was created.
#[derive(Debug)]
pub struct CreatedCollector {
    pub kind: ProfileCollectorKind,
    pub name: String,
}

/// The mathematical form of a collector.
#[verifier::ext_equal]
pub struct CollectorView {
    pub kind: ProfileCollectorKind,
    pub name: Seq<char>,
}

impl View for CreatedCollector {
    type V = CollectorView;

    open spec fn view(&self) -> CollectorView {
        CollectorView { kind: self.kind, name: self.name@ }
    }
}

/// The views of a list of collectors.
pub open spec fn collectors_view(v: Seq<CreatedCollector>) -> Seq<CollectorView> {
    v.map_values(|c: CreatedCollector| c@)
}

/// What a collector leaves behind when it stops.
#[derive(Debug)]
pub struct CollectorStop {
    pub artifacts: Vec<ArtifactRef>,
    pub warnings: Vec<String>,
}

/// What became of a collector.
#[derive(Debug)]
pub struct ProfileCollectorResult {
    pub kind: ProfileCollectorKind,
    pub name: String,
    pub status: ProfileCollectorStatus,
    pub artifacts: Vec<ArtifactRef>,
    pub warnings: Vec<String>,
    pub error: Option<String>,
}

/// The mathematical form of what became of a collector.
#[verifier::ext_equal]
pub struct ResultView {
    pub kind: ProfileCollectorKind,
    pub name: Seq<char>,
    pub status: ProfileCollectorStatus,
    pub artifacts: Seq<ArtifactView>,
    pub warnings: Seq<Seq<char>>,
    pub error: Option<Seq<char>>,
}

impl View for ProfileCollectorResult {
    type V = ResultView;

    open spec fn view(&self) -> ResultView {
        ResultView {
            kind: self.kind,
            name: self.name@,
            status: self.status,
            artifacts: artifact::artifacts_view(self.artifacts@),
            warnings: text::views(self.warnings@),
            error: text::view_opt(self.error),
        }
    }
}

/// The views of a list of results.
pub open spec fn results_view(v: Seq<ProfileCollectorResult>) -> Seq<ResultView> {
    v.map_values(|c: ProfileCollectorResult| c@)
}

/// The result of a collector that stopped.
pub open spec fn completed_result(
    collector: CollectorView,
    artifacts: Seq<ArtifactView>,
    warnings: Seq<Seq<char>>,
) -> ResultView {
    ResultView {
        kind: collector.kind,
        name: collector.name,
        status: ProfileCollectorStatus::Completed,
        artifacts,
        warnings,
        error: None,
    }
}

/// The result of a collector that failed.
pub open spec fn failed_result(collector: CollectorView, error: Seq<char>) -> ResultView {
    ResultView {
        kind: collector.kind,
        name: collector.name,
        status: ProfileCollectorStatus::Failed,
        artifacts: Seq::empty(),
        warnings: Seq::empty(),
        error: Some(error),
    }
}

/// Where the files of a profile are.
#[derive(Debug)]
pub struct ProfilePaths {
    pub events: String,
    pub stdout: String,
    pub stderr: String,
}

/// What is written down about a profile that is over.
#[derive(Debug)]
pub struct ProfileMetadata {
    pub status: ProfileStatus,
    pub completion_reason: ProfileCompletionReason,
    pub target_pid: Option<u32>,
    pub target_exit_code: Option<i32>,
    pub duration_ms: u64,
    pub trace: Option<ArtifactRef>,
    pub collector_results: Vec<ProfileCollectorResult>,
    pub warnings: Vec<String>,
    pub error: Option<String>,
}

/// The mathematical form of what is written down.
#[verifier::ext_equal]
pub struct MetadataView {
    pub status: ProfileStatus,
    pub completion_reason: ProfileCompletionReason,
    pub target_pid: Option<u32>,
    pub target_exit_code: Option<i32>,
    pub duration_ms: u64,
    pub trace: Option<ArtifactView>,
    pub collector_results: Seq<ResultView>,
    pub warnings: Seq<Seq<char>>,
    pub error: Option<Seq<char>>,
}

/// The view of an optional reference.
pub open spec fn artifact_opt(o: Option<ArtifactRef>) -> Option<ArtifactView> {
    match o {
        Some(a) => Some(a@),
        None => None,
    }
}

impl View for ProfileMetadata {
    type V = MetadataView;

    open spec fn view(&self) -> MetadataView {
        MetadataView {
            status: self.status,
            completion_reason: self.completion_reason,
            target_pid: self.target_pid,
            target_exit_code: self.target_exit_code,
            duration_ms: self.duration_ms,
            trace: artifact_opt(self.trace),
            collector_results: results_view(self.collector_results@),
            warnings: text::views(self.warnings@),
            error: text::view_opt(self.error),
        }
    }
}

/// The files of a finished profile.
#[derive(Debug)]
pub struct ProfileArtifacts {
    pub trace: Option<ArtifactRef>,
    pub profile: ArtifactRef,
    pub events: ArtifactRef,
    pub stdout: ArtifactRef,
    pub stderr: ArtifactRef,
}

/// The outcome of a profile.
#[derive(Debug)]
pub struct ProfileResult {
    pub profile_id: SessionId,
    pub status: ProfileStatus,
    pub completion_reason: ProfileCompletionReason,
    pub target_pid: Option<u32>,
    pub target_exit_code: Option<i32>,
    pub duration_ms: u64,
    pub artifacts: ProfileArtifacts,
    pub collector_results: Vec<ProfileCollectorResult>,
    pub warnings: Vec<String>,
    pub error: Option<String>,
}

/// The mathematical form of an outcome.
#[verifier::ext_equal]
pub struct OutcomeView {
    pub profile_id: SessionId,
    pub metadata: MetadataView,
    pub profile: ArtifactView,
    pub events: ArtifactView,
    pub stdout: ArtifactView,
    pub stderr: ArtifactView,
}

impl View for ProfileResult {
    type V = OutcomeView;

    open spec fn view(&self) -> OutcomeView {
        OutcomeView {
            profile_id: self.profile_id,
            metadata: MetadataView {
                status: self.status,
                completion_reason: self.completion_reason,
                target_pid: self.target_pid,
                target_exit_code: self.target_exit_code,
                duration_ms: self.duration_ms,
                trace: artifact_opt(self.artifacts.trace),
                collector_results: results_view(self.collector_results@),
                warnings: text::views(self.warnings@),
                error: text::view_opt(self.error),
            },
            profile: self.artifacts.profile@,
            events: self.artifacts.events@,
            stdout: self.artifacts.stdout@,
            stderr: self.artifacts.stderr@,
        }
    }
}

/// What is known of a profile while it runs.
#[derive(Debug)]
pub struct ProfileJob {
    pub id: SessionId,
    pub request: RunProfile,
    pub paths: ProfilePaths,
    /// How the target is started, and for whom.
    pub launch: ProcessLaunchContext,
    /// The collector that is being started, by its place in the request.
    pub next: usize,
    /// The collectors that run, in the order in which they were started.
    pub started: Vec<CreatedCollector>,
    pub results: Vec<ProfileCollectorResult>,
    pub warnings: Vec<String>,
    /// Why the first collector that could not be stopped failed.
    pub stop_error: Option<String>,
}

/// The mathematical form of what is known.
#[verifier::ext_equal]
pub struct JobView {
    pub id: SessionId,
    pub request: RunProfile,
    pub paths: ProfilePaths,
    pub launch: ProcessLaunchContext,
    pub next: nat,
    pub started: Seq<CollectorView>,
    pub results: Seq<ResultView>,
    pub warnings: Seq<Seq<char>>,
    pub stop_error: Option<Seq<char>>,
}

impl View for ProfileJob {
    type V = JobView;

    open spec fn view(&self) -> JobView {
        JobView {
            id: self.id,
            request: self.request,
            paths: self.paths,
            launch: self.launch,
            next: self.next as nat,
            started: collectors_view(self.started@),
            results: results_view(self.results@),
            warnings: text::views(self.warnings@),
            stop_error: text::view_opt(self.stop_error),
        }
    }
}

/// What a profile waits for.
#[derive(Debug)]
pub enum ProfilePhase {
    /// That the file for the standard output of the target is made empty.
    ClearStdout,
    /// That the file for the error output of the target is made empty.
    ClearStderr,
    /// A directory for the next collector.
    Directory,
    /// The next collector.
    Create { dir: String },
    /// That the collector that was created starts.
    Start { dir: String, collector: CreatedCollector },
    /// That the collector that did not start is cleaned up.
    CleanUpStart { dir: String, error: DbgFlowError },
    /// That the collector that was started last stops, because another did not start.
    Unwind { error: DbgFlowError, reported: bool },
    /// That the target runs.
    Launch,
    /// That the collector that was started last stops.
    Stop { exit: Result<TargetExit, String> },
    /// That the collector that did not stop is cleaned up.
    CleanUpStop { exit: Result<TargetExit, String>, message: String },
    /// That the outcome is written down.
    Report { metadata: ProfileMetadata, failure: Option<DbgFlowError> },
    /// Nothing: the profile is over.
    Done(Result<ProfileResult, DbgFlowError>),
}

/// The mathematical form of what a profile waits for.
pub enum PhaseView {
    ClearStdout,
    ClearStderr,
    Directory,
    Create { dir: Seq<char> },
    Start { dir: Seq<char>, collector: CollectorView },
    CleanUpStart { dir: Seq<char>, error: ErrorView },
    Unwind { error: ErrorView, reported: bool },
    Launch,
    Stop { exit: Result<TargetExit, Seq<char>> },
    CleanUpStop { exit: Result<TargetExit, Seq<char>>, message: Seq<char> },
    Report { metadata: MetadataView, failure: Option<ErrorView> },
    Done(Result<OutcomeView, ErrorView>),
}

/// The view of the end of a run.
pub open spec fn exit_view(exit: Result<TargetExit, String>) -> Result<TargetExit, Seq<char>> {
    match exit {
        Ok(e) => Ok(e),
        Err(m) => Err(m@),
    }
}

/// The view of an optional error.
pub open spec fn error_opt(o: Option<DbgFlowError>) -> Option<ErrorView> {
    match o {
        Some(e) => Some(e@),
        None => None,
    }
}

impl View for ProfilePhase {
    type V = PhaseView;

    open spec fn view(&self) -> PhaseView {
        match *self {
            ProfilePhase::ClearStdout => PhaseView::ClearStdout,
            ProfilePhase::ClearStderr => PhaseView::ClearStderr,
            ProfilePhase::Directory => PhaseView::Directory,
            ProfilePhase::Create { dir } => PhaseView::Create { dir: dir@ },
            ProfilePhase::Start { dir, collector } => PhaseView::Start {
                dir: dir@,
                collector: collector@,
            },
            ProfilePhase::CleanUpStart { dir, error } => PhaseView::CleanUpStart {
                dir: dir@,
                error: error@,
            },
            ProfilePhase::Unwind { error, reported } => PhaseView::Unwind {
                error: error@,
                reported,
            },
            ProfilePhase::Launch => PhaseView::Launch,
            ProfilePhase::Stop { exit } => PhaseView::Stop { exit: exit_view(exit) },
            ProfilePhase::CleanUpStop { exit, message } => PhaseView::CleanUpStop {
                exit: exit_view(exit),
                message: message@,
            },
            ProfilePhase::Report { metadata, failure } => PhaseView::Report {
                metadata: metadata@,
                failure: error_opt(failure),
            },
            ProfilePhase::Done(outcome) => PhaseView::Done(
                match outcome {
                    Ok(r) => Ok(r@),
                    Err(e) => Err(e@),
                },
            ),
        }
    }
}

/// An answer of the outside.
#[derive(Debug)]
pub enum ProfileAnswer {
    /// A file was made empty.
    Cleared(Result<(), DbgFlowError>),
    /// The directory for a collector.
    Directory(Result<String, DbgFlowError>),
    /// A collector.
    Created(Result<CreatedCollector, DbgFlowError>),
    /// A collector started, with these warnings.
    Started(Result<Vec<String>, DbgFlowError>),
    /// A collector was cleaned up.
    CleanedUp(Result<(), DbgFlowError>),
    /// The target ran.
    Exited(Result<TargetExit, DbgFlowError>),
    /// A collector stopped.
    Stopped(Result<CollectorStop, DbgFlowError>),
    /// The outcome was written to this file.
    Written(Result<String, DbgFlowError>),
}

/// The mathematical form of an answer.
pub enum AnswerView {
    Cleared(Result<(), ErrorView>),
    Directory(Result<Seq<char>, ErrorView>),
    Created(Result<CollectorView, ErrorView>),
    Started(Result<Seq<Seq<char>>, ErrorView>),
    CleanedUp(Result<(), ErrorView>),
    Exited(Result<TargetExit, ErrorView>),
    Stopped(Result<(Seq<ArtifactView>, Seq<Seq<char>>), ErrorView>),
    Written(Result<Seq<char>, ErrorView>),
}

/// The view of an outcome without a value.
pub open spec fn unit_view(r: Result<(), DbgFlowError>) -> Result<(), ErrorView> {
    match r {
        Ok(()) => Ok(()),
        Err(e) => Err(e@),
    }
}

/// The view of an outcome with a text.
pub open spec fn text_view(r: Result<String, DbgFlowError>) -> Result<Seq<char>, ErrorView> {
    match r {
        Ok(s) => Ok(s@),
        Err(e) => Err(e@),
    }
}

/// The view of what a collector left behind.
pub open spec fn stop_view(r: Result<CollectorStop, DbgFlowError>) -> Result<
    (Seq<ArtifactView>, Seq<Seq<char>>),
    ErrorView,
> {
    match r {
        Ok(s) => Ok((artifact::artifacts_view(s.artifacts@), text::views(s.warnings@))),
        Err(e) => Err(e@),
    }
}

impl View for ProfileAnswer {
    type V = AnswerView;

    open spec fn view(&self) -> AnswerView {
        match *self {
            ProfileAnswer::Cleared(r) => AnswerView::Cleared(unit_view(r)),
            ProfileAnswer::Directory(r) => AnswerView::Directory(text_view(r)),
            ProfileAnswer::Created(r) => AnswerView::Created(
                match r {
                    Ok(c) => Ok(c@),
                    Err(e) => Err(e@),
                },
            ),
            ProfileAnswer::Started(r) => AnswerView::Started(
                match r {
                    Ok(w) => Ok(text::views(w@)),
                    Err(e) => Err(e@),
                },
            ),
            ProfileAnswer::CleanedUp(r) => AnswerView::CleanedUp(unit_view(r)),
            ProfileAnswer::Exited(r) => AnswerView::Exited(
                match r {
                    Ok(x) => Ok(x),
                    Err(e) => Err(e@),
                },
            ),
            ProfileAnswer::Stopped(r) => AnswerView::Stopped(stop_view(r)),
            ProfileAnswer::Written(r) => AnswerView::Written(text_view(r)),
        }
    }
}

/// A profile after a step, with the entries that the step adds to its log.
#[verifier::ext_equal]
pub struct StepView {
    pub job: JobView,
    pub phase: PhaseView,
    pub records: Seq<RecordView>,
}

/// The fields of an entry about a collector.
pub open spec fn collector_fields(name: Seq<char>) -> JsonView {
    JsonView::object().with_text("collector"@, name)
}

/// The fields of an entry about a collector that could not be cleaned up.
pub open spec fn cleanup_fields(name: Seq<char>, error: Seq<char>) -> JsonView {
    collector_fields(name).with_text("cleanup_error"@, error)
}

/// The collector that is being started, as the request names it.
pub open spec fn wanted(job: JobView) -> CollectorView {
    let config = job.request.collectors@[job.next as int];
    CollectorView { kind: request::config_kind(config), name: request::config_name(config) }
}

/// The fields of the entry about the end of a profile.
pub open spec fn end_fields(
    status: ProfileStatus,
    reason: ProfileCompletionReason,
    duration_ms: u64,
) -> JsonView {
    JsonView::object().with_text("status"@, status_name(status)).with_text(
        "completion_reason"@,
        reason_name(reason),
    ).with("duration_ms"@, JsonView::Unsigned(duration_ms))
}

/// A profile that failed before its target ran goes on to write its outcome down.
pub open spec fn failed(
    job: JobView,
    error: ErrorView,
    duration_ms: u64,
    records: Seq<RecordView>,
) -> StepView {
    StepView {
        job: JobView { results: Seq::empty(), warnings: Seq::empty(), ..job },
        phase: PhaseView::Report {
            metadata: MetadataView {
                status: ProfileStatus::Failed,
                completion_reason: ProfileCompletionReason::CollectorError,
                target_pid: None,
                target_exit_code: None,
                duration_ms,
                trace: None,
                collector_results: job.results,
                warnings: job.warnings,
                error: Some(error.text()),
            },
            failure: Some(error),
        },
        records: records.push(
            journal::entry(
                "profile_failed"@,
                Some(error.text()),
                end_fields(
                    ProfileStatus::Failed,
                    ProfileCompletionReason::CollectorError,
                    duration_ms,
                ),
            ),
        ),
    }
}

/// After a collector did not start: the ones that run are stopped, the last one first, and
/// then the profile has failed.
pub open spec fn unwound(
    job: JobView,
    error: ErrorView,
    reported: bool,
    duration_ms: u64,
    records: Seq<RecordView>,
) -> StepView {
    if job.started.len() > 0 {
        StepView {
            job,
            phase: PhaseView::Unwind { error, reported },
            records: records.push(
                journal::entry(
                    "collector_stopping"@,
                    None,
                    collector_fields(job.started.last().name),
                ),
            ),
        }
    } else {
        let all = if reported {
            records
        } else {
            records.push(
                journal::entry(
                    "profile_error"@,
                    Some(error.text()),
                    collector_fields(wanted(job).name),
                ),
            )
        };
        failed(
            JobView { results: job.results.push(failed_result(wanted(job), error.text())), ..job },
            error,
            duration_ms,
            all,
        )
    }
}

/// Before the next collector: if there is none, the target is launched.
pub open spec fn next_collector(job: JobView, records: Seq<RecordView>) -> StepView {
    if job.next < job.request.collectors@.len() {
        StepView { job, phase: PhaseView::Directory, records }
    } else {
        StepView {
            job,
            phase: PhaseView::Launch,
            records: records.push(journal::entry("target_launching"@, None, JsonView::object())),
        }
    }
}

/// The first element of a list of results that has a name.
pub open spec fn result_named(results: Seq<ResultView>, name: Seq<char>) -> Option<ResultView>
    decreases results.len(),
{
    if results.len() == 0 {
        None
    } else if results[0].name == name {
        Some(results[0])
    } else {
        result_named(results.drop_first(), name)
    }
}

/// The first reference of a kind.
pub open spec fn artifact_of_kind(artifacts: Seq<ArtifactView>, kind: ArtifactKind) -> Option<
    ArtifactView,
>
    decreases artifacts.len(),
{
    if artifacts.len() == 0 {
        None
    } else if artifacts[0].kind == kind {
        Some(artifacts[0])
    } else {
        artifact_of_kind(artifacts.drop_first(), kind)
    }
}

/// The trace of a profile: that of the event trace collector.
pub open spec fn trace_of(results: Seq<ResultView>) -> Option<ArtifactView> {
    match result_named(results, "native_etw"@) {
        Some(r) => match artifact_of_kind(r.artifacts, ArtifactKind::ProfileCollectorTrace) {
            Some(a) => Some(ArtifactView { kind: ArtifactKind::ProfileTrace, path: a.path }),
            None => None,
        },
        None => None,
    }
}

/// The outcome of a profile whose target ran, or could not be launched.
pub open spec fn outcome(
    job: JobView,
    exit: Result<TargetExit, Seq<char>>,
    duration_ms: u64,
) -> MetadataView {
    let results = job.results.reverse();
    MetadataView {
        status: match exit {
            Ok(TargetExit::Exited { .. }) => ProfileStatus::Completed,
            Ok(TargetExit::TimedOut { .. }) => ProfileStatus::TimedOut,
            Err(_) => ProfileStatus::Failed,
        },
        completion_reason: match exit {
            Ok(TargetExit::Exited { .. }) => ProfileCompletionReason::TargetExited,
            Ok(TargetExit::TimedOut { .. }) => ProfileCompletionReason::Timeout,
            Err(_) => ProfileCompletionReason::TargetLaunchFailed,
        },
        target_pid: exit_pid(exit),
        target_exit_code: match exit {
            Ok(TargetExit::Exited { exit_code, .. }) => exit_code,
            _ => None,
        },
        duration_ms,
        trace: trace_of(results),
        collector_results: results,
        warnings: job.warnings,
        error: match exit {
            Ok(_) => job.stop_error,
            Err(m) => match job.stop_error {
                Some(e) => Some(e),
                None => Some(m),
            },
        },
    }
}

/// The process of a target that ran.
pub open spec fn exit_pid(exit: Result<TargetExit, Seq<char>>) -> Option<u32> {
    match exit {
        Ok(e) => Some(e.process()),
        Err(_) => None,
    }
}

/// The entry about the end of the target.
pub open spec fn exit_entry(exit: Result<TargetExit, Seq<char>>) -> RecordView {
    match exit {
        Ok(TargetExit::Exited { .. }) => journal::entry("target_exited"@, None, JsonView::object()),
        Ok(TargetExit::TimedOut { .. }) => journal::entry("timeout_reached"@, None, JsonView::object()),
        Err(m) => journal::entry("profile_error"@, Some(m), JsonView::object()),
    }
}

/// After the target ran: the collectors are stopped, the last one first, and then the outcome
/// is written down.
pub open spec fn next_stop(
    job: JobView,
    exit: Result<TargetExit, Seq<char>>,
    duration_ms: u64,
    records: Seq<RecordView>,
) -> StepView {
    if job.started.len() > 0 {
        StepView {
            job,
            phase: PhaseView::Stop { exit },
            records: records.push(
                journal::entry(
                    "collector_stopping"@,
                    None,
                    collector_fields(job.started.last().name),
                ),
            ),
        }
    } else {
        StepView {
            job: JobView { results: Seq::empty(), warnings: Seq::empty(), stop_error: None, ..job },
            phase: PhaseView::Report { metadata: outcome(job, exit, duration_ms), failure: None },
            records: records.push(exit_entry(exit)),
        }
    }
}

/// The job without the collector that was started last, and with what became of it.
pub open spec fn stopped(job: JobView, result: ResultView) -> JobView {
    JobView { started: job.started.drop_last(), results: job.results.push(result), ..job }
}

/// The result of a finished profile.
pub open spec fn result_of(job: JobView, metadata: MetadataView, path: Seq<char>) -> OutcomeView {
    OutcomeView {
        profile_id: job.id,
        metadata,
        profile: ArtifactView { kind: ArtifactKind::ProfileMetadata, path },
        events: ArtifactView { kind: ArtifactKind::ProfileEvents, path: job.paths.events@ },
        stdout: ArtifactView { kind: ArtifactKind::ProfileStdout, path: job.paths.stdout@ },
        stderr: ArtifactView { kind: ArtifactKind::ProfileStderr, path: job.paths.stderr@ },
    }
}

/// The start of a profile: its files are made empty first.
pub open spec fn begun(
    id: SessionId,
    request: RunProfile,
    paths: ProfilePaths,
    launch: ProcessLaunchContext,
    target: JsonView,
) -> StepView {
    StepView {
        job: JobView {
            id,
            request,
            paths,
            launch,
            next: 0,
            started: Seq::empty(),
            results: Seq::empty(),
            warnings: Seq::empty(),
            stop_error: None,
        },
        phase: PhaseView::ClearStdout,
        records: seq![
            journal::entry(
                "profile_created"@,
                None,
                JsonView::object().with("target"@, target).with(
                    "timeout_ms"@,
                    JsonView::Unsigned(request.timeout_ms),
                ).with(
                    "collectors"@,
                    JsonView::List(
                        request.collectors@.map_values(
                            |c| JsonView::Text(request::config_name(c)),
                        ),
                    ),
                ),
            ),
        ],
    }
}

/// What follows an answer to the question whether a collector started.
pub open spec fn after_start(
    job: JobView,
    dir: Seq<char>,
    collector: CollectorView,
    answer: Result<Seq<Seq<char>>, ErrorView>,
) -> StepView {
    match answer {
        Ok(warnings) => next_collector(
            JobView {
                next: job.next + 1,
                started: job.started.push(collector),
                warnings: job.warnings + warnings,
                ..job
            },
            seq![
                journal::entry_at(
                    "collector_started"@,
                    dir,
                    None,
                    collector_fields(wanted(job).name),
                ),
            ],
        ),
        Err(error) => StepView {
            job,
            phase: PhaseView::CleanUpStart { dir, error },
            records: Seq::empty(),
        },
    }
}

/// What follows the end of a collector that is stopped because another did not start.
pub open spec fn after_unwind(
    job: JobView,
    error: ErrorView,
    reported: bool,
    answer: Result<(Seq<ArtifactView>, Seq<Seq<char>>), ErrorView>,
    duration_ms: u64,
) -> StepView {
    let last = job.started.last();
    match answer {
        Ok((artifacts, warnings)) => unwound(
            stopped(job, completed_result(last, artifacts, warnings)),
            error,
            reported,
            duration_ms,
            seq![journal::entry("collector_stopped"@, None, collector_fields(last.name))],
        ),
        Err(e) => unwound(
            stopped(job, failed_result(last, e.text())),
            error,
            reported,
            duration_ms,
            seq![journal::entry("profile_error"@, Some(e.text()), collector_fields(last.name))],
        ),
    }
}

/// What follows the end of a collector after the target ran.
pub open spec fn after_stop(
    job: JobView,
    exit: Result<TargetExit, Seq<char>>,
    answer: Result<(Seq<ArtifactView>, Seq<Seq<char>>), ErrorView>,
    duration_ms: u64,
) -> StepView {
    let last = job.started.last();
    match answer {
        Ok((artifacts, warnings)) => next_stop(
            JobView {
                warnings: job.warnings + warnings,
                ..stopped(job, completed_result(last, artifacts, warnings))
            },
            exit,
            duration_ms,
            seq![journal::entry("collector_stopped"@, None, collector_fields(last.name))],
        ),
        Err(e) => StepView {
            job: JobView {
                warnings: job.warnings.push(
                    "collector "@ + last.name + " stop failed: "@ + e.text(),
                ),
                stop_error: match job.stop_error {
                    Some(first) => Some(first),
                    None => Some(e.text()),
                },
                ..job
            },
            phase: PhaseView::CleanUpStop { exit, message: e.text() },
            records: Seq::empty(),
        },
    }
}

/// What follows the cleanup of a collector that did not stop.
pub open spec fn after_cleanup(
    job: JobView,
    exit: Result<TargetExit, Seq<char>>,
    error: Seq<char>,
    answer: Result<(), ErrorView>,
    duration_ms: u64,
) -> StepView {
    let last = job.started.last();
    let over = stopped(job, failed_result(last, error));
    match answer {
        Ok(_) => next_stop(
            over,
            exit,
            duration_ms,
            seq![
                journal::entry("collector_cleanup_finished"@, None, collector_fields(last.name)),
                journal::entry("profile_error"@, Some(error), collector_fields(last.name)),
            ],
        ),
        Err(e) => next_stop(
            JobView {
                warnings: job.warnings.push(
                    "collector "@ + last.name + " cleanup after stop failure failed: "@ + e.text(),
                ),
                ..over
            },
            exit,
            duration_ms,
            seq![
                journal::entry(
                    "collector_cleanup_failed"@,
                    Some(e.text()),
                    cleanup_fields(last.name, e.text()),
                ),
                journal::entry("profile_error"@, Some(error), cleanup_fields(last.name, e.text())),
            ],
        ),
    }
}

/// What follows when the outcome was written down, or could not be.
pub open spec fn after_report(
    job: JobView,
    metadata: MetadataView,
    failure: Option<ErrorView>,
    answer: Result<Seq<char>, ErrorView>,
) -> StepView {
    match (failure, answer) {
        (Some(error), Ok(path)) => StepView {
            job,
            phase: PhaseView::Done(Err(error)),
            records: seq![
                journal::entry_at("profile_metadata_written"@, path, None, JsonView::object()),
            ],
        },
        (Some(error), Err(_)) => StepView {
            job,
            phase: PhaseView::Done(Err(error)),
            records: Seq::empty(),
        },
        (None, Ok(path)) => StepView {
            job,
            phase: PhaseView::Done(Ok(result_of(job, metadata, path))),
            records: seq![
                journal::entry(
                    "profile_completed"@,
                    None,
                    end_fields(metadata.status, metadata.completion_reason, metadata.duration_ms),
                ),
            ],
        },
        (None, Err(error)) => StepView {
            job,
            phase: PhaseView::Done(Err(error)),
            records: Seq::empty(),
        },
    }
}

/// What an answer leads to. An answer that the profile does not wait for changes nothing.
pub open spec fn after(
    job: JobView,
    phase: PhaseView,
    answer: AnswerView,
    duration_ms: u64,
) -> StepView {
    match (phase, answer) {
        (PhaseView::ClearStdout, AnswerView::Cleared(Ok(_))) => StepView {
            job,
            phase: PhaseView::ClearStderr,
            records: Seq::empty(),
        },
        (PhaseView::ClearStdout, AnswerView::Cleared(Err(e))) => failed(
            job,
            e,
            duration_ms,
            Seq::empty(),
        ),
        (PhaseView::ClearStderr, AnswerView::Cleared(Ok(_))) => next_collector(job, Seq::empty()),
        (PhaseView::ClearStderr, AnswerView::Cleared(Err(e))) => failed(
            job,
            e,
            duration_ms,
            Seq::empty(),
        ),
        (PhaseView::Directory, AnswerView::Directory(Ok(dir))) => StepView {
            job,
            phase: PhaseView::Create { dir },
            records: seq![
                journal::entry_at(
                    "collector_starting"@,
                    dir,
                    None,
                    collector_fields(wanted(job).name),
                ),
            ],
        },
        (PhaseView::Directory, AnswerView::Directory(Err(e))) => unwound(
            job,
            e,
            true,
            duration_ms,
            seq![
                journal::entry(
                    "profile_error"@,
                    Some(e.text()),
                    collector_fields(wanted(job).name),
                ),
            ],
        ),
        (PhaseView::Create { dir }, AnswerView::Created(Ok(collector))) => StepView {
            job,
            phase: PhaseView::Start { dir, collector },
            records: Seq::empty(),
        },
        (PhaseView::Create { dir }, AnswerView::Created(Err(e))) => unwound(
            job,
            e,
            true,
            duration_ms,
            seq![
                journal::entry_at(
                    "profile_error"@,
                    dir,
                    Some(e.text()),
                    collector_fields(wanted(job).name),
                ),
            ],
        ),
        (PhaseView::Start { dir, collector }, AnswerView::Started(r)) => after_start(
            job,
            dir,
            collector,
            r,
        ),
        (PhaseView::CleanUpStart { dir, error }, AnswerView::CleanedUp(Ok(_))) => unwound(
            job,
            error,
            false,
            duration_ms,
            seq![
                journal::entry_at(
                    "collector_cleanup_finished"@,
                    dir,
                    None,
                    collector_fields(wanted(job).name),
                ),
            ],
        ),
        (PhaseView::CleanUpStart { dir, error }, AnswerView::CleanedUp(Err(e))) => unwound(
            job,
            error,
            false,
            duration_ms,
            seq![
                journal::entry_at(
                    "collector_cleanup_failed"@,
                    dir,
                    Some(e.text()),
                    cleanup_fields(wanted(job).name, e.text()),
                ),
            ],
        ),
        (PhaseView::Unwind { error, reported }, AnswerView::Stopped(r)) => after_unwind(
            job,
            error,
            reported,
            r,
            duration_ms,
        ),
        (PhaseView::Launch, AnswerView::Exited(Ok(exit))) => next_stop(
            job,
            Ok(exit),
            duration_ms,
            Seq::empty(),
        ),
        (PhaseView::Launch, AnswerView::Exited(Err(e))) => next_stop(
            job,
            Err(e.text()),
            duration_ms,
            Seq::empty(),
        ),
        (PhaseView::Stop { exit }, AnswerView::Stopped(r)) => after_stop(job, exit, r, duration_ms),
        (PhaseView::CleanUpStop { exit, message }, AnswerView::CleanedUp(r)) => after_cleanup(
            job,
            exit,
            message,
            r,
            duration_ms,
        ),
        (PhaseView::Report { metadata, failure }, AnswerView::Written(r)) => after_report(
            job,
            metadata,
            failure,
            r,
        ),
        _ => StepView { job, phase, records: Seq::empty() },
    }
}

/// Whether a profile is in order: while one is being started there is a next collector, and
/// while one is being stopped there is one that runs.
pub open spec fn in_order(job: JobView, phase: PhaseView) -> bool {
    &&& job.next <= job.request.collectors@.len()
    &&& match phase {
        PhaseView::Directory => job.next < job.request.collectors@.len(),
        PhaseView::Create { .. } => job.next < job.request.collectors@.len(),
        PhaseView::Start { .. } => job.next < job.request.collectors@.len(),
        PhaseView::CleanUpStart { .. } => job.next < job.request.collectors@.len(),
        PhaseView::Unwind { .. } => job.next < job.request.collectors@.len() && job.started.len()
            > 0,
        PhaseView::Stop { .. } => job.started.len() > 0,
        PhaseView::CleanUpStop { .. } => job.started.len() > 0,
        _ => true,
    }
}

/// What the outside is asked to do.
#[derive(Debug, Clone, Copy, PartialEq, Eq, Structural)]
pub enum ProfileAsk {
    ClearStdout,
    ClearStderr,
    /// Make the directory of the collector at this place of the request.
    Directory(usize),
    /// Create the collector at this place of the request.
    Create(usize),
    /// Start the collector at this place of those that were created.
    Start(usize),
    /// Clean up the collector at this place of those that were created.
    CleanUp(usize),
    /// Run the target of the request, in this way and for so long at most.
    Launch { context: ProcessLaunchContext, timeout_ms: u64 },
    /// Stop the collector at this place of those that were created, for the process that ran.
    Stop(usize, Option<u32>),
    /// Write the outcome down.
    Report,
    Nothing,
}

/// What the outside is asked to do.
pub open spec fn ask(job: JobView, phase: PhaseView) -> ProfileAsk {
    match phase {
        PhaseView::ClearStdout => ProfileAsk::ClearStdout,
        PhaseView::ClearStderr => ProfileAsk::ClearStderr,
        PhaseView::Directory => ProfileAsk::Directory(job.next as usize),
        PhaseView::Create { .. } => ProfileAsk::Create(job.next as usize),
        PhaseView::Start { .. } => ProfileAsk::Start(job.started.len() as usize),
        PhaseView::CleanUpStart { .. } => ProfileAsk::CleanUp(job.started.len() as usize),
        PhaseView::Unwind { .. } => ProfileAsk::Stop((job.started.len() - 1) as usize, None),
        PhaseView::Launch => ProfileAsk::Launch {
            context: job.launch,
            timeout_ms: job.request.timeout_ms,
        },
        PhaseView::Stop { exit } => ProfileAsk::Stop(
            (job.started.len() - 1) as usize,
            exit_pid(exit),
        ),
        PhaseView::CleanUpStop { .. } => ProfileAsk::CleanUp((job.started.len() - 1) as usize),
        PhaseView::Report { .. } => ProfileAsk::Report,
        PhaseView::Done(_) => ProfileAsk::Nothing,
    }
}

} // verus!
