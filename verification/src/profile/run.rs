//! Running a profile: the outside does what it is asked to, and each answer is a step.

use crate::artifact;
use crate::artifact::{ArtifactKind, ArtifactRef};
use crate::error::DbgFlowError;
use crate::ids::SessionId;
use crate::journal;
use crate::journal::{no_records, note, note_at, Record};
use crate::json;
use crate::json::{Json, JsonView};
use crate::process::ProcessLaunchContext;
use crate::profile::model;
use crate::profile::model::{
    CollectorStop, CollectorView, CreatedCollector, ProfileAnswer, ProfileArtifacts, ProfileAsk,
    ProfileCollectorResult, ProfileCollectorStatus, ProfileCompletionReason, ProfileJob,
    ProfileMetadata, ProfilePaths, ProfilePhase, ProfileResult, ProfileStatus, StepView,
};
use crate::profile::request;
use crate::profile::request::{ProfileCollectorKind, RunProfile};
use crate::profile::target::TargetExit;
use crate::text;
use crate::text::{cat4, same};
use vstd::prelude::*;

verus! {

/// A profile that runs.
#[derive(Debug)]
pub struct ProfileRun {
    pub job: ProfileJob,
    pub phase: ProfilePhase,
}

/// A profile after a step, with the entries that the step adds to its log.
#[derive(Debug)]
pub struct ProfileStep {
    pub run: ProfileRun,
    pub records: Vec<Record>,
}

impl View for ProfileStep {
    type V = StepView;

    open spec fn view(&self) -> StepView {
        StepView {
            job: self.run.job@,
            phase: self.run.phase@,
            records: journal::records_view(self.records@),
        }
    }
}

/// The name of a status.
pub fn status_text(status: ProfileStatus) -> (r: &'static str)
    ensures
        r@ == model::status_name(status),
{
    match status {
        ProfileStatus::Completed => "Completed",
        ProfileStatus::TimedOut => "TimedOut",
        ProfileStatus::Failed => "Failed",
    }
}

/// The name of a reason.
pub fn reason_text(reason: ProfileCompletionReason) -> (r: &'static str)
    ensures
        r@ == model::reason_name(reason),
{
    match reason {
        ProfileCompletionReason::TargetExited => "TargetExited",
        ProfileCompletionReason::Timeout => "Timeout",
        ProfileCompletionReason::TargetLaunchFailed => "TargetLaunchFailed",
        ProfileCompletionReason::CollectorError => "CollectorError",
    }
}

/// The fields of an entry about a collector.
pub fn collector_fields(name: &str) -> (r: Json)
    ensures
        r@ == model::collector_fields(name@),
{
    Json::object().with_text("collector", name)
}

fn cleanup_fields(name: &str, error: &str) -> (r: Json)
    ensures
        r@ == model::cleanup_fields(name@, error@),
{
    collector_fields(name).with_text("cleanup_error", error)
}

fn end_fields(status: ProfileStatus, reason: ProfileCompletionReason, duration_ms: u64) -> (r: Json)
    ensures
        r@ == model::end_fields(status, reason, duration_ms),
{
    Json::object().with_text("status", status_text(status)).with_text(
        "completion_reason",
        reason_text(reason),
    ).with("duration_ms", Json::Unsigned(duration_ms))
}

/// The entry about the start of the target.
pub fn target_started_record(pid: u32) -> (r: Record)
    ensures
        r@ == journal::entry(
            "target_started"@,
            None,
            JsonView::object().with("pid"@, JsonView::Unsigned(pid as u64)),
        ),
{
    Record {
        event: "target_started".to_owned(),
        artifact_path: None,
        error: None,
        fields: Json::object().with("pid", Json::Unsigned(pid as u64)),
    }
}

fn completed_result(collector: CreatedCollector, stop: CollectorStop) -> (r: ProfileCollectorResult)
    ensures
        r@ == model::completed_result(
            collector@,
            artifact::artifacts_view(stop.artifacts@),
            text::views(stop.warnings@),
        ),
{
    ProfileCollectorResult {
        kind: collector.kind,
        name: collector.name,
        status: ProfileCollectorStatus::Completed,
        artifacts: stop.artifacts,
        warnings: stop.warnings,
        error: None,
    }
}

/// The result of a collector that failed.
pub fn failed_collector_result(
    kind: ProfileCollectorKind,
    name: &str,
    error: &str,
) -> (r: ProfileCollectorResult)
    ensures
        r@ == model::failed_result(CollectorView { kind, name: name@ }, error@),
{
    let r = ProfileCollectorResult {
        kind,
        name: name.to_owned(),
        status: ProfileCollectorStatus::Failed,
        artifacts: Vec::new(),
        warnings: Vec::new(),
        error: Some(error.to_owned()),
    };
    assert(r@ =~= model::failed_result(CollectorView { kind, name: name@ }, error@));
    r
}

fn reversed(results: Vec<ProfileCollectorResult>) -> (r: Vec<ProfileCollectorResult>)
    ensures
        model::results_view(r@) == model::results_view(results@).reverse(),
{
    let mut rest = results;
    let mut out: Vec<ProfileCollectorResult> = Vec::new();
    while rest.len() > 0
        invariant
            rest@.len() + out@.len() == results@.len(),
            rest@ == results@.take(rest@.len() as int),
            forall|i: int|
                0 <= i < out@.len() ==> #[trigger] out@[i] == results@[results@.len() - 1 - i],
        decreases rest@.len(),
    {
        let last = rest.pop();
        match last {
            Some(result) => {
                out.push(result);
            },
            None => {},
        }
        assert(rest@ =~= results@.take(rest@.len() as int));
    }
    assert(model::results_view(out@) =~= model::results_view(results@).reverse());
    out
}

/// The trace of a profile: that of the event trace collector.
pub fn legacy_trace_artifact(results: &[ProfileCollectorResult]) -> (r: Option<ArtifactRef>)
    ensures
        model::artifact_opt(r) == model::trace_of(model::results_view(results@)),
{
    let ghost all = model::results_view(results@);
    let mut i: usize = 0;
    assert(all.skip(0) =~= all);
    while i < results.len()
        invariant
            i <= results@.len(),
            all == model::results_view(results@),
            model::result_named(all, "native_etw"@) == model::result_named(
                all.skip(i as int),
                "native_etw"@,
            ),
        decreases results@.len() - i,
    {
        assert(all.skip(i as int)[0] == results@[i as int]@);
        assert(all.skip(i as int).drop_first() =~= all.skip(i as int + 1));
        if same(results[i].name.as_str(), "native_etw") {
            let found = artifact_of_kind(
                results[i].artifacts.as_slice(),
                ArtifactKind::ProfileCollectorTrace,
            );
            return match found {
                Some(artifact) => Some(
                    ArtifactRef { kind: ArtifactKind::ProfileTrace, path: artifact.path },
                ),
                None => None,
            };
        }
        i += 1;
    }
    assert(all.skip(i as int).len() == 0);
    None
}

fn artifact_of_kind(artifacts: &[ArtifactRef], kind: ArtifactKind) -> (r: Option<ArtifactRef>)
    ensures
        model::artifact_opt(r) == model::artifact_of_kind(
            artifact::artifacts_view(artifacts@),
            kind,
        ),
{
    let ghost all = artifact::artifacts_view(artifacts@);
    let mut i: usize = 0;
    assert(all.skip(0) =~= all);
    while i < artifacts.len()
        invariant
            i <= artifacts@.len(),
            all == artifact::artifacts_view(artifacts@),
            model::artifact_of_kind(all, kind) == model::artifact_of_kind(all.skip(i as int), kind),
        decreases artifacts@.len() - i,
    {
        assert(all.skip(i as int)[0] == artifacts@[i as int]@);
        assert(all.skip(i as int).drop_first() =~= all.skip(i as int + 1));
        if artifacts[i].kind == kind {
            return Some(artifacts[i].duplicate());
        }
        i += 1;
    }
    assert(all.skip(i as int).len() == 0);
    None
}

fn wanted_name(job: &ProfileJob) -> (r: &'static str)
    requires
        job@.next < job.request.collectors@.len(),
    ensures
        r@ == model::wanted(job@).name,
{
    job.request.collectors[job.next].artifact_name()
}

fn append(all: &mut Vec<String>, more: &[String])
    ensures
        text::views(final(all)@) == text::views(old(all)@) + text::views(more@),
{
    let mut i: usize = 0;
    assert(text::views(all@) =~= text::views(old(all)@) + text::views(more@.take(0)));
    while i < more.len()
        invariant
            i <= more@.len(),
            text::views(all@) == text::views(old(all)@) + text::views(more@.take(i as int)),
        decreases more@.len() - i,
    {
        let ghost before = text::views(all@);
        all.push(more[i].clone());
        assert(text::views(all@) =~= before.push(more@[i as int]@));
        assert(text::views(more@.take(i + 1)) =~= text::views(more@.take(i as int)).push(
            more@[i as int]@,
        ));
        assert(text::views(all@) =~= text::views(old(all)@) + text::views(more@.take(i + 1)));
        i += 1;
    }
    assert(more@.take(i as int) =~= more@);
}

fn push_text(all: &mut Vec<String>, text: String)
    ensures
        text::views(final(all)@) == text::views(old(all)@).push(text@),
{
    all.push(text);
    assert(text::views(all@) =~= text::views(old(all)@).push(text@));
}

fn push_result(all: &mut Vec<ProfileCollectorResult>, result: ProfileCollectorResult)
    ensures
        model::results_view(final(all)@) == model::results_view(old(all)@).push(result@),
{
    all.push(result);
    assert(model::results_view(all@) =~= model::results_view(old(all)@).push(result@));
}

fn fail_profile(
    job: ProfileJob,
    error: DbgFlowError,
    duration_ms: u64,
    records: Vec<Record>,
) -> (r: ProfileStep)
    ensures
        r@ == model::failed(job@, error@, duration_ms, journal::records_view(records@)),
{
    let ghost before = journal::records_view(records@);
    let mut records = records;
    let status = ProfileStatus::Failed;
    let reason = ProfileCompletionReason::CollectorError;
    note(
        &mut records,
        "profile_failed",
        Some(error.message()),
        end_fields(status, reason, duration_ms),
    );
    let metadata = ProfileMetadata {
        status,
        completion_reason: reason,
        target_pid: None,
        target_exit_code: None,
        duration_ms,
        trace: None,
        collector_results: job.results,
        warnings: job.warnings,
        error: Some(error.message()),
    };
    let rest = ProfileJob {
        id: job.id,
        request: job.request,
        paths: job.paths,
        launch: job.launch,
        next: job.next,
        started: job.started,
        results: Vec::new(),
        warnings: Vec::new(),
        stop_error: job.stop_error,
    };
    let r = ProfileStep {
        run: ProfileRun {
            job: rest,
            phase: ProfilePhase::Report { metadata, failure: Some(error) },
        },
        records,
    };
    assert(r@.job =~= model::failed(job@, error@, duration_ms, before).job);
    assert(r@.phase->Report_metadata =~= model::failed(
        job@,
        error@,
        duration_ms,
        before,
    ).phase->Report_metadata);
    r
}

fn unwind(
    job: ProfileJob,
    error: DbgFlowError,
    reported: bool,
    duration_ms: u64,
    records: Vec<Record>,
) -> (r: ProfileStep)
    requires
        job@.next < job.request.collectors@.len(),
    ensures
        r@ == model::unwound(job@, error@, reported, duration_ms, journal::records_view(records@)),
{
    let mut job = job;
    let mut records = records;
    if job.started.len() > 0 {
        let last: usize = job.started.len() - 1;
        assert(job@.started.last() == job.started@[last as int]@);
        note(
            &mut records,
            "collector_stopping",
            None,
            collector_fields(job.started[last].name.as_str()),
        );
        return ProfileStep {
            run: ProfileRun { job, phase: ProfilePhase::Unwind { error, reported } },
            records,
        };
    }
    let name = wanted_name(&job);
    let kind = job.request.collectors[job.next].kind();
    if !reported {
        note(&mut records, "profile_error", Some(error.message()), collector_fields(name));
    }
    let ghost before = job@;
    push_result(
        &mut job.results,
        failed_collector_result(kind, name, error.message().as_str()),
    );
    assert(job@ =~= (model::JobView {
        results: before.results.push(model::failed_result(model::wanted(before), error@.text())),
        ..before
    }));
    fail_profile(job, error, duration_ms, records)
}

fn next_collector(job: ProfileJob, records: Vec<Record>) -> (r: ProfileStep)
    ensures
        r@ == model::next_collector(job@, journal::records_view(records@)),
{
    if job.next < job.request.collectors.len() {
        return ProfileStep { run: ProfileRun { job, phase: ProfilePhase::Directory }, records };
    }
    let mut records = records;
    note(&mut records, "target_launching", None, Json::object());
    ProfileStep { run: ProfileRun { job, phase: ProfilePhase::Launch }, records }
}

fn next_stop(
    job: ProfileJob,
    exit: Result<TargetExit, String>,
    duration_ms: u64,
    records: Vec<Record>,
) -> (r: ProfileStep)
    ensures
        r@ == model::next_stop(
            job@,
            model::exit_view(exit),
            duration_ms,
            journal::records_view(records@),
        ),
{
    let mut records = records;
    if job.started.len() > 0 {
        let last: usize = job.started.len() - 1;
        assert(job@.started.last() == job.started@[last as int]@);
        note(
            &mut records,
            "collector_stopping",
            None,
            collector_fields(job.started[last].name.as_str()),
        );
        return ProfileStep {
            run: ProfileRun { job, phase: ProfilePhase::Stop { exit } },
            records,
        };
    }
    let ghost before = job@;
    let ghost end = model::exit_view(exit);
    let collector_results = reversed(job.results);
    let trace = legacy_trace_artifact(collector_results.as_slice());
    let stop_error = job.stop_error;
    let metadata = match exit {
        Ok(TargetExit::Exited { pid, exit_code }) => {
            note(&mut records, "target_exited", None, Json::object());
            ProfileMetadata {
                status: ProfileStatus::Completed,
                completion_reason: ProfileCompletionReason::TargetExited,
                target_pid: Some(pid),
                target_exit_code: exit_code,
                duration_ms,
                trace,
                collector_results,
                warnings: job.warnings,
                error: stop_error,
            }
        },
        Ok(TargetExit::TimedOut { pid }) => {
            note(&mut records, "timeout_reached", None, Json::object());
            ProfileMetadata {
                status: ProfileStatus::TimedOut,
                completion_reason: ProfileCompletionReason::Timeout,
                target_pid: Some(pid),
                target_exit_code: None,
                duration_ms,
                trace,
                collector_results,
                warnings: job.warnings,
                error: stop_error,
            }
        },
        Err(message) => {
            note(&mut records, "profile_error", Some(message.clone()), Json::object());
            let error = match stop_error {
                Some(first) => first,
                None => message,
            };
            ProfileMetadata {
                status: ProfileStatus::Failed,
                completion_reason: ProfileCompletionReason::TargetLaunchFailed,
                target_pid: None,
                target_exit_code: None,
                duration_ms,
                trace,
                collector_results,
                warnings: job.warnings,
                error: Some(error),
            }
        },
    };
    let rest = ProfileJob {
        id: job.id,
        request: job.request,
        paths: job.paths,
        launch: job.launch,
        next: job.next,
        started: job.started,
        results: Vec::new(),
        warnings: Vec::new(),
        stop_error: None,
    };
    assert(metadata@ =~= model::outcome(before, end, duration_ms));
    assert(rest@ =~= (model::JobView {
        results: Seq::empty(),
        warnings: Seq::empty(),
        stop_error: None,
        ..before
    }));
    ProfileStep {
        run: ProfileRun { job: rest, phase: ProfilePhase::Report { metadata, failure: None } },
        records,
    }
}

fn pop_started(job: &mut ProfileJob) -> (r: CreatedCollector)
    requires
        old(job).started@.len() > 0,
    ensures
        r@ == old(job)@.started.last(),
        final(job)@ == (model::JobView {
            started: old(job)@.started.drop_last(),
            ..old(job)@
        }),
{
    let last: usize = job.started.len() - 1;
    let r = job.started.remove(last);
    assert(model::collectors_view(job.started@) =~= old(job)@.started.drop_last());
    assert(job@ =~= (model::JobView {
        started: old(job)@.started.drop_last(),
        ..old(job)@
    }));
    r
}

fn after_start(
    job: ProfileJob,
    dir: String,
    collector: CreatedCollector,
    answer: Result<Vec<String>, DbgFlowError>,
) -> (r: ProfileStep)
    requires
        job@.next < job.request.collectors@.len(),
    ensures
        r@ == model::after_start(
            job@,
            dir@,
            collector@,
            match answer {
                Ok(w) => Ok(text::views(w@)),
                Err(e) => Err(e@),
            },
        ),
{
    match answer {
        Ok(warnings) => {
            let mut job = job;
            let ghost before = job@;
            let mut records = no_records();
            note_at(
                &mut records,
                "collector_started",
                dir.as_str(),
                None,
                collector_fields(wanted_name(&job)),
            );
            append(&mut job.warnings, warnings.as_slice());
            job.started.push(collector);
            let size: usize = job.request.collectors.len();
            assert(job.next < size);
            job.next = job.next + 1;
            assert(job@ =~= (model::JobView {
                next: before.next + 1,
                started: before.started.push(collector@),
                warnings: before.warnings + text::views(warnings@),
                ..before
            }));
            assert(journal::records_view(records@) =~= seq![
                journal::entry_at(
                    "collector_started"@,
                    dir@,
                    None,
                    model::collector_fields(model::wanted(before).name),
                ),
            ]);
            next_collector(job, records)
        },
        Err(error) => ProfileStep {
            run: ProfileRun { job, phase: ProfilePhase::CleanUpStart { dir, error } },
            records: no_records(),
        },
    }
}

fn after_unwind(
    job: ProfileJob,
    error: DbgFlowError,
    reported: bool,
    answer: Result<CollectorStop, DbgFlowError>,
    duration_ms: u64,
) -> (r: ProfileStep)
    requires
        job@.next < job.request.collectors@.len(),
        job.started@.len() > 0,
    ensures
        r@ == model::after_unwind(
            job@,
            error@,
            reported,
            model::stop_view(answer),
            duration_ms,
        ),
{
    let mut job = job;
    let ghost before = job@;
    let collector = pop_started(&mut job);
    let mut records = no_records();
    match answer {
        Ok(stop) => {
            note(
                &mut records,
                "collector_stopped",
                None,
                collector_fields(collector.name.as_str()),
            );
            assert(journal::records_view(records@) =~= seq![
                journal::entry(
                    "collector_stopped"@,
                    None,
                    model::collector_fields(collector@.name),
                ),
            ]);
            push_result(&mut job.results, completed_result(collector, stop));
        },
        Err(stop_error) => {
            note(
                &mut records,
                "profile_error",
                Some(stop_error.message()),
                collector_fields(collector.name.as_str()),
            );
            assert(journal::records_view(records@) =~= seq![
                journal::entry(
                    "profile_error"@,
                    Some(stop_error@.text()),
                    model::collector_fields(collector@.name),
                ),
            ]);
            push_result(
                &mut job.results,
                failed_collector_result(
                    collector.kind,
                    collector.name.as_str(),
                    stop_error.message().as_str(),
                ),
            );
        },
    }
    assert(job@ =~= model::stopped(
        before,
        match model::stop_view(answer) {
            Ok((artifacts, warnings)) => model::completed_result(
                before.started.last(),
                artifacts,
                warnings,
            ),
            Err(e) => model::failed_result(before.started.last(), e.text()),
        },
    ));
    unwind(job, error, reported, duration_ms, records)
}

fn after_stop(
    job: ProfileJob,
    exit: Result<TargetExit, String>,
    answer: Result<CollectorStop, DbgFlowError>,
    duration_ms: u64,
) -> (r: ProfileStep)
    requires
        job.started@.len() > 0,
    ensures
        r@ == model::after_stop(
            job@,
            model::exit_view(exit),
            model::stop_view(answer),
            duration_ms,
        ),
{
    let mut job = job;
    let ghost before = job@;
    match answer {
        Ok(stop) => {
            let collector = pop_started(&mut job);
            let mut records = no_records();
            note(
                &mut records,
                "collector_stopped",
                None,
                collector_fields(collector.name.as_str()),
            );
            assert(journal::records_view(records@) =~= seq![
                journal::entry(
                    "collector_stopped"@,
                    None,
                    model::collector_fields(collector@.name),
                ),
            ]);
            append(&mut job.warnings, stop.warnings.as_slice());
            let ghost result = model::completed_result(
                collector@,
                artifact::artifacts_view(stop.artifacts@),
                text::views(stop.warnings@),
            );
            push_result(&mut job.results, completed_result(collector, stop));
            assert(job@ =~= (model::JobView {
                warnings: before.warnings + text::views(stop.warnings@),
                ..model::stopped(before, result)
            }));
            next_stop(job, exit, duration_ms, records)
        },
        Err(error) => {
            let last: usize = job.started.len() - 1;
            assert(job@.started.last() == job.started@[last as int]@);
            let message = error.message();
            let warning = cat4(
                "collector ",
                job.started[last].name.as_str(),
                " stop failed: ",
                message.as_str(),
            );
            push_text(&mut job.warnings, warning);
            if job.stop_error.is_none() {
                job.stop_error = Some(message.clone());
            }
            assert(job@ =~= (model::JobView {
                warnings: before.warnings.push(
                    "collector "@ + before.started.last().name + " stop failed: "@ + error@.text(),
                ),
                stop_error: match before.stop_error {
                    Some(first) => Some(first),
                    None => Some(error@.text()),
                },
                ..before
            }));
            ProfileStep {
                run: ProfileRun { job, phase: ProfilePhase::CleanUpStop { exit, message } },
                records: no_records(),
            }
        },
    }
}

fn after_cleanup(
    job: ProfileJob,
    exit: Result<TargetExit, String>,
    error: String,
    answer: Result<(), DbgFlowError>,
    duration_ms: u64,
) -> (r: ProfileStep)
    requires
        job.started@.len() > 0,
    ensures
        r@ == model::after_cleanup(
            job@,
            model::exit_view(exit),
            error@,
            model::unit_view(answer),
            duration_ms,
        ),
{
    let mut job = job;
    let ghost before = job@;
    let collector = pop_started(&mut job);
    let name = collector.name.as_str();
    let mut records = no_records();
    let ghost over = model::stopped(before, model::failed_result(before.started.last(), error@));
    push_result(
        &mut job.results,
        failed_collector_result(collector.kind, name, error.as_str()),
    );
    assert(job@ =~= over);
    match answer {
        Ok(()) => {
            note(&mut records, "collector_cleanup_finished", None, collector_fields(name));
            note(&mut records, "profile_error", Some(error.clone()), collector_fields(name));
            assert(journal::records_view(records@) =~= seq![
                journal::entry(
                    "collector_cleanup_finished"@,
                    None,
                    model::collector_fields(name@),
                ),
                journal::entry("profile_error"@, Some(error@), model::collector_fields(name@)),
            ]);
        },
        Err(cleanup_error) => {
            let message = cleanup_error.message();
            push_text(
                &mut job.warnings,
                cat4(
                    "collector ",
                    name,
                    " cleanup after stop failure failed: ",
                    message.as_str(),
                ),
            );
            note(
                &mut records,
                "collector_cleanup_failed",
                Some(message.clone()),
                cleanup_fields(name, message.as_str()),
            );
            note(
                &mut records,
                "profile_error",
                Some(error.clone()),
                cleanup_fields(name, message.as_str()),
            );
            assert(journal::records_view(records@) =~= seq![
                journal::entry(
                    "collector_cleanup_failed"@,
                    Some(message@),
                    model::cleanup_fields(name@, message@),
                ),
                journal::entry(
                    "profile_error"@,
                    Some(error@),
                    model::cleanup_fields(name@, message@),
                ),
            ]);
            assert(job@ =~= (model::JobView {
                warnings: before.warnings.push(
                    "collector "@ + before.started.last().name
                        + " cleanup after stop failure failed: "@ + message@,
                ),
                ..over
            }));
        },
    }
    next_stop(job, exit, duration_ms, records)
}

fn after_report(
    job: ProfileJob,
    metadata: ProfileMetadata,
    failure: Option<DbgFlowError>,
    answer: Result<String, DbgFlowError>,
) -> (r: ProfileStep)
    ensures
        r@ == model::after_report(
            job@,
            metadata@,
            model::error_opt(failure),
            model::text_view(answer),
        ),
{
    let mut records = no_records();
    match failure {
        Some(error) => {
            match answer {
                Ok(path) => {
                    note_at(
                        &mut records,
                        "profile_metadata_written",
                        path.as_str(),
                        None,
                        Json::object(),
                    );
                    assert(journal::records_view(records@) =~= seq![
                        journal::entry_at(
                            "profile_metadata_written"@,
                            path@,
                            None,
                            JsonView::object(),
                        ),
                    ]);
                },
                Err(_) => {},
            }
            ProfileStep {
                run: ProfileRun { job, phase: ProfilePhase::Done(Err(error)) },
                records,
            }
        },
        None => match answer {
            Err(error) => ProfileStep {
                run: ProfileRun { job, phase: ProfilePhase::Done(Err(error)) },
                records,
            },
            Ok(path) => {
                note(
                    &mut records,
                    "profile_completed",
                    None,
                    end_fields(metadata.status, metadata.completion_reason, metadata.duration_ms),
                );
                assert(journal::records_view(records@) =~= seq![
                    journal::entry(
                        "profile_completed"@,
                        None,
                        model::end_fields(
                            metadata.status,
                            metadata.completion_reason,
                            metadata.duration_ms,
                        ),
                    ),
                ]);
                let result = ProfileResult {
                    profile_id: job.id,
                    status: metadata.status,
                    completion_reason: metadata.completion_reason,
                    target_pid: metadata.target_pid,
                    target_exit_code: metadata.target_exit_code,
                    duration_ms: metadata.duration_ms,
                    artifacts: ProfileArtifacts {
                        trace: metadata.trace,
                        profile: ArtifactRef { kind: ArtifactKind::ProfileMetadata, path },
                        events: ArtifactRef {
                            kind: ArtifactKind::ProfileEvents,
                            path: job.paths.events.clone(),
                        },
                        stdout: ArtifactRef {
                            kind: ArtifactKind::ProfileStdout,
                            path: job.paths.stdout.clone(),
                        },
                        stderr: ArtifactRef {
                            kind: ArtifactKind::ProfileStderr,
                            path: job.paths.stderr.clone(),
                        },
                    },
                    collector_results: metadata.collector_results,
                    warnings: metadata.warnings,
                    error: metadata.error,
                };
                assert(result@ =~= model::result_of(job@, metadata@, path@));
                ProfileStep {
                    run: ProfileRun { job, phase: ProfilePhase::Done(Ok(result)) },
                    records,
                }
            },
        },
    }
}

fn collector_names(request: &RunProfile) -> (r: Json)
    ensures
        r@ == JsonView::List(
            request.collectors@.map_values(|c| JsonView::Text(request::config_name(c))),
        ),
{
    let mut names: Vec<Json> = Vec::new();
    let mut i: usize = 0;
    while i < request.collectors.len()
        invariant
            i <= request.collectors@.len(),
            names@.len() == i,
            forall|j: int|
                0 <= j < i ==> (#[trigger] names@[j])@ == JsonView::Text(
                    request::config_name(request.collectors@[j]),
                ),
        decreases request.collectors@.len() - i,
    {
        names.push(Json::text(request.collectors[i].artifact_name()));
        i += 1;
    }
    assert(json::items_view(names@) =~= request.collectors@.map_values(
        |c| JsonView::Text(request::config_name(c)),
    ));
    Json::list(names)
}

impl ProfileRun {
    /// Begins a profile whose files have their places. `target` describes the target.
    pub fn begin(
        id: SessionId,
        request: RunProfile,
        paths: ProfilePaths,
        launch: ProcessLaunchContext,
        target: Json,
    ) -> (r: ProfileStep)
        ensures
            r@ == model::begun(id, request, paths, launch, target@),
            model::in_order(r.run.job@, r.run.phase@),
    {
        let mut records = no_records();
        let fields = Json::object().with("target", target).with(
            "timeout_ms",
            Json::Unsigned(request.timeout_ms),
        ).with("collectors", collector_names(&request));
        note(&mut records, "profile_created", None, fields);
        let job = ProfileJob {
            id,
            request,
            paths,
            launch,
            next: 0,
            started: Vec::new(),
            results: Vec::new(),
            warnings: Vec::new(),
            stop_error: None,
        };
        let r = ProfileStep {
            run: ProfileRun { job, phase: ProfilePhase::ClearStdout },
            records,
        };
        assert(r@.records =~= model::begun(id, request, paths, launch, target@).records);
        assert(r@.job =~= model::begun(id, request, paths, launch, target@).job);
        r
    }

    /// What the outside is asked to do.
    pub fn ask(&self) -> (r: ProfileAsk)
        requires
            model::in_order(self.job@, self.phase@),
        ensures
            r == model::ask(self.job@, self.phase@),
    {
        match &self.phase {
            ProfilePhase::ClearStdout => ProfileAsk::ClearStdout,
            ProfilePhase::ClearStderr => ProfileAsk::ClearStderr,
            ProfilePhase::Directory => ProfileAsk::Directory(self.job.next),
            ProfilePhase::Create { .. } => ProfileAsk::Create(self.job.next),
            ProfilePhase::Start { .. } => ProfileAsk::Start(self.job.started.len()),
            ProfilePhase::CleanUpStart { .. } => ProfileAsk::CleanUp(self.job.started.len()),
            ProfilePhase::Unwind { .. } => ProfileAsk::Stop(self.job.started.len() - 1, None),
            ProfilePhase::Launch => ProfileAsk::Launch {
                context: self.job.launch,
                timeout_ms: self.job.request.timeout_ms,
            },
            ProfilePhase::Stop { exit } => {
                let pid: Option<u32> = match exit {
                    Ok(TargetExit::Exited { pid, .. }) => Some(*pid),
                    Ok(TargetExit::TimedOut { pid }) => Some(*pid),
                    Err(_) => None,
                };
                ProfileAsk::Stop(self.job.started.len() - 1, pid)
            },
            ProfilePhase::CleanUpStop { .. } => ProfileAsk::CleanUp(self.job.started.len() - 1),
            ProfilePhase::Report { .. } => ProfileAsk::Report,
            ProfilePhase::Done(_) => ProfileAsk::Nothing,
        }
    }

    /// Takes an answer of the outside in. The duration is that since the profile began.
    pub fn answer(self, answer: ProfileAnswer, duration_ms: u64) -> (r: ProfileStep)
        requires
            model::in_order(self.job@, self.phase@),
        ensures
            r@ == model::after(self.job@, self.phase@, answer@, duration_ms),
            model::in_order(r.run.job@, r.run.phase@),
    {
        let job = self.job;
        let mut records = no_records();
        match (self.phase, answer) {
            (ProfilePhase::ClearStdout, ProfileAnswer::Cleared(cleared)) => match cleared {
                Ok(()) => ProfileStep {
                    run: ProfileRun { job, phase: ProfilePhase::ClearStderr },
                    records,
                },
                Err(error) => fail_profile(job, error, duration_ms, records),
            },
            (ProfilePhase::ClearStderr, ProfileAnswer::Cleared(cleared)) => match cleared {
                Ok(()) => next_collector(job, records),
                Err(error) => fail_profile(job, error, duration_ms, records),
            },
            (ProfilePhase::Directory, ProfileAnswer::Directory(made)) => {
                let name = wanted_name(&job);
                match made {
                    Ok(dir) => {
                        note_at(
                            &mut records,
                            "collector_starting",
                            dir.as_str(),
                            None,
                            collector_fields(name),
                        );
                        assert(journal::records_view(records@) =~= seq![
                            journal::entry_at(
                                "collector_starting"@,
                                dir@,
                                None,
                                model::collector_fields(name@),
                            ),
                        ]);
                        ProfileStep {
                            run: ProfileRun { job, phase: ProfilePhase::Create { dir } },
                            records,
                        }
                    },
                    Err(error) => {
                        note(
                            &mut records,
                            "profile_error",
                            Some(error.message()),
                            collector_fields(name),
                        );
                        assert(journal::records_view(records@) =~= seq![
                            journal::entry(
                                "profile_error"@,
                                Some(error@.text()),
                                model::collector_fields(name@),
                            ),
                        ]);
                        unwind(job, error, true, duration_ms, records)
                    },
                }
            },
            (ProfilePhase::Create { dir }, ProfileAnswer::Created(created)) => match created {
                Ok(collector) => ProfileStep {
                    run: ProfileRun { job, phase: ProfilePhase::Start { dir, collector } },
                    records,
                },
                Err(error) => {
                    let name = wanted_name(&job);
                    note_at(
                        &mut records,
                        "profile_error",
                        dir.as_str(),
                        Some(error.message()),
                        collector_fields(name),
                    );
                    assert(journal::records_view(records@) =~= seq![
                        journal::entry_at(
                            "profile_error"@,
                            dir@,
                            Some(error@.text()),
                            model::collector_fields(name@),
                        ),
                    ]);
                    unwind(job, error, true, duration_ms, records)
                },
            },
            (ProfilePhase::Start { dir, collector }, ProfileAnswer::Started(started)) => {
                after_start(job, dir, collector, started)
            },
            (ProfilePhase::CleanUpStart { dir, error }, ProfileAnswer::CleanedUp(cleaned)) => {
                let name = wanted_name(&job);
                match cleaned {
                    Ok(()) => {
                        note_at(
                            &mut records,
                            "collector_cleanup_finished",
                            dir.as_str(),
                            None,
                            collector_fields(name),
                        );
                        assert(journal::records_view(records@) =~= seq![
                            journal::entry_at(
                                "collector_cleanup_finished"@,
                                dir@,
                                None,
                                model::collector_fields(name@),
                            ),
                        ]);
                    },
                    Err(cleanup_error) => {
                        let message = cleanup_error.message();
                        note_at(
                            &mut records,
                            "collector_cleanup_failed",
                            dir.as_str(),
                            Some(message.clone()),
                            cleanup_fields(name, message.as_str()),
                        );
                        assert(journal::records_view(records@) =~= seq![
                            journal::entry_at(
                                "collector_cleanup_failed"@,
                                dir@,
                                Some(message@),
                                model::cleanup_fields(name@, message@),
                            ),
                        ]);
                    },
                }
                unwind(job, error, false, duration_ms, records)
            },
            (ProfilePhase::Unwind { error, reported }, ProfileAnswer::Stopped(stopped)) => {
                after_unwind(job, error, reported, stopped, duration_ms)
            },
            (ProfilePhase::Launch, ProfileAnswer::Exited(exited)) => {
                let exit = match exited {
                    Ok(exit) => Ok(exit),
                    Err(error) => Err(error.message()),
                };
                next_stop(job, exit, duration_ms, records)
            },
            (ProfilePhase::Stop { exit }, ProfileAnswer::Stopped(stopped)) => {
                after_stop(job, exit, stopped, duration_ms)
            },
            (ProfilePhase::CleanUpStop { exit, message }, ProfileAnswer::CleanedUp(cleaned)) => {
                after_cleanup(job, exit, message, cleaned, duration_ms)
            },
            (ProfilePhase::Report { metadata, failure }, ProfileAnswer::Written(written)) => {
                after_report(job, metadata, failure, written)
            },
            (phase, _) => ProfileStep { run: ProfileRun { job, phase }, records },
        }
    }
}

} // verus!
