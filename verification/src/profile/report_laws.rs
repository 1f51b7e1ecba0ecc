//! Laws of what is noted during a profile, and of what is refused before one.

use crate::error::{DbgFlowError, ErrorView};
use crate::etw::settings::{EtwEventSet, EtwProfileScope, ProfileCollectorConfig};
use crate::ids::SessionId;
use crate::journal::Record;
use crate::json;
use crate::json::{Json, JsonView};
use crate::process::ProcessLaunchContext;
use crate::profile::model;
use crate::profile::model::{
    AnswerView, JobView, MetadataView, PhaseView, ProfileCollectorResult, ProfilePaths,
};
use crate::profile::request;
use crate::profile::request::{
    reject_duplicate_collectors, requested_collectors, ProfileCollectorKind, RunProfile,
    SingleActiveJob,
};
use crate::profile::run::{collector_fields, failed_collector_result, target_started_record};
use crate::profile::target::{
    any_nul, validate_profile_target, ProfileTarget, ResolvedExecutable, TargetExit,
};
use crate::text;
use vstd::prelude::*;

verus! {

/// The beginning of a profile is noted with its target, its time and its collectors.
pub proof fn beginnings_are_noted(
    id: SessionId,
    request: RunProfile,
    paths: ProfilePaths,
    launch: ProcessLaunchContext,
    target: JsonView,
)
    ensures
        ({
            let first = model::begun(id, request, paths, launch, target);
            &&& first.phase is ClearStdout
            &&& first.job.next == 0 && first.job.started.len() == 0 && first.job.results.len() == 0
            &&& first.job.id == id && first.job.request == request && first.job.launch == launch
            &&& first.records.len() == 1 && first.records[0].event == "profile_created"@
            &&& first.records[0].fields.get("target"@) == Some(target)
            &&& first.records[0].fields.unsigned_at("timeout_ms"@) == Some(request.timeout_ms)
            &&& first.records[0].fields.get("collectors"@) matches Some(JsonView::List(c)) && c.len()
                == request.collectors@.len()
        }),
{
    broadcast use json::added_members_are_found;

    reveal_strlit("target");
    reveal_strlit("timeout_ms");
    reveal_strlit("collectors");
    assert("target"@.len() == 6 && "timeout_ms"@.len() == 10 && "collectors"@.len() == 10);
    assert("timeout_ms"@[0] == 't' && "collectors"@[0] == 'c');
}

/// A profile that fails is noted with the reason, and the report that was written with its path.
pub proof fn failures_are_noted(
    job: JobView,
    e: ErrorView,
    d: u64,
    dir: Seq<char>,
    path: Seq<char>,
    metadata: MetadataView,
    other: ErrorView,
)
    requires
        job.started.len() == 0,
        job.next < job.request.collectors@.len(),
    ensures
        ({
            let cleared = model::after(job, PhaseView::ClearStdout, AnswerView::Cleared(Err(e)), d);
            let placed = model::after(job, PhaseView::Directory, AnswerView::Directory(Err(e)), d);
            let created = model::after(
                job,
                PhaseView::Create { dir },
                AnswerView::Created(Err(e)),
                d,
            );
            let report = PhaseView::Report { metadata, failure: Some(e) };
            let written = model::after(job, report, AnswerView::Written(Ok(path)), d);
            let lost = model::after(job, report, AnswerView::Written(Err(other)), d);
            &&& cleared.records.last().event == "profile_failed"@ && cleared.records.last().error
                == Some(e.text())
            &&& cleared.phase matches PhaseView::Report { failure, .. } && failure == Some(e)
            &&& placed.records[0].event == "profile_error"@ && placed.records[0].error == Some(
                e.text(),
            )
            &&& placed.records.last().event == "profile_failed"@
            &&& created.records[0].event == "profile_error"@ && created.records[0].artifact_path
                == Some(dir)
            &&& written.records.len() == 1 && written.records[0].event
                == "profile_metadata_written"@ && written.records[0].artifact_path == Some(path)
            &&& written.phase == PhaseView::Done(Err(e))
            &&& lost.phase == PhaseView::Done(Err(e)) && lost.records.len() == 0
        }),
{
}

/// A collector that is cleaned up is noted, and one that could not be is noted with the reason.
pub proof fn cleanups_are_noted(
    job: JobView,
    dir: Seq<char>,
    e: ErrorView,
    f: ErrorView,
    exit: TargetExit,
    message: Seq<char>,
    d: u64,
)
    requires
        job.started.len() > 1,
        job.next < job.request.collectors@.len(),
    ensures
        ({
            let name = job.started.last().name;
            let starting = PhaseView::CleanUpStart { dir, error: e };
            let good = model::after(job, starting, AnswerView::CleanedUp(Ok(())), d).records;
            let bad = model::after(job, starting, AnswerView::CleanedUp(Err(f)), d).records;
            let stopping = PhaseView::CleanUpStop { exit: Ok(exit), message };
            let done = model::after(job, stopping, AnswerView::CleanedUp(Ok(())), d);
            let stuck = model::after(job, stopping, AnswerView::CleanedUp(Err(f)), d);
            &&& good[0].event == "collector_cleanup_finished"@ && good[0].artifact_path == Some(dir)
            &&& bad[0].event == "collector_cleanup_failed"@ && bad[0].error == Some(f.text())
                && bad[0].fields.text_at("cleanup_error"@) == Some(f.text())
            &&& done.records[0].event == "collector_cleanup_finished"@
                && done.records[0].fields.text_at("collector"@) == Some(name)
            &&& done.records[1].event == "profile_error"@ && done.records[1].error == Some(message)
            &&& done.job.warnings == job.warnings
            &&& stuck.records[0].event == "collector_cleanup_failed"@ && stuck.records[0].error
                == Some(f.text()) && stuck.records[0].fields.text_at("cleanup_error"@) == Some(
                f.text(),
            )
            &&& stuck.records[1].event == "profile_error"@ && stuck.records[1].error == Some(message)
            &&& stuck.job.warnings == job.warnings.push(
                "collector "@ + name + " cleanup after stop failure failed: "@ + f.text(),
            )
        }),
{
    broadcast use json::added_members_are_found;

    reveal_strlit("collector");
    reveal_strlit("cleanup_error");
    assert("collector"@.len() == 9 && "cleanup_error"@.len() == 13);
}

/// The start of the target is noted with its process, and entries about a collector name it.
pub proof fn targets_and_collectors_are_named(pid: u32, r: Record, name: &str, fields: Json)
    requires
        call_ensures(target_started_record, (pid,), r),
        call_ensures(collector_fields, (name,), fields),
    ensures
        r.event@ == "target_started"@,
        r.error is None && r.artifact_path is None,
        r.fields@.unsigned_at("pid"@) == Some(pid as u64),
        fields@.text_at("collector"@) == Some(name@),
{
    broadcast use json::added_members_are_found;

    assert(r@.event == r.event@);
    assert(r@.fields == r.fields@);
    assert(r@.error == text::view_opt(r.error));
    assert(r@.artifact_path == text::view_opt(r.artifact_path));
}

/// A collector that failed leaves its error and nothing else.
pub proof fn failed_collectors_leave_their_error(
    kind: ProfileCollectorKind,
    name: &str,
    error: &str,
    r: ProfileCollectorResult,
)
    requires
        call_ensures(failed_collector_result, (kind, name, error), r),
    ensures
        r@.name == name@,
        r@.status is Failed,
        r@.error == Some(error@),
        r@.artifacts.len() == 0,
{
}

/// What cannot be launched is refused for the reason.
pub proof fn wrong_targets_are_refused_for_the_reason(
    target: ProfileTarget,
    found: Result<ResolvedExecutable, String>,
    r: Result<ProfileTarget, DbgFlowError>,
    args: &[String],
    nul: bool,
)
    requires
        call_ensures(validate_profile_target, (target, found), r),
        call_ensures(any_nul, (args,), nul),
    ensures
        found matches Err(m) ==> (r matches Err(e) && e@ == ErrorView::Backend(
            "invalid profile launch executable: "@ + m@,
        )),
        found matches Ok(f) ==> (!f.is_file ==> (r matches Err(e) && e@ == ErrorView::Backend(
            "profile launch executable is not a file: "@ + f.path@,
        ))),
        found matches Ok(f) ==> (f.is_file ==> (r matches Err(e) ==> e@ == ErrorView::Backend(
            "profile launch arguments must not contain NUL bytes"@,
        ))),
        nul <==> exists|i: int| 0 <= i < args@.len() && (#[trigger] args@[i])@.contains('\0'),
{
}

/// Two collectors of one kind are refused, an empty list is refused, and nothing named means the one
/// collector there is.
pub proof fn collectors_are_of_different_kinds(
    collectors: &[ProfileCollectorConfig],
    r: Result<(), DbgFlowError>,
    empty: Vec<ProfileCollectorConfig>,
    refused: Result<Vec<ProfileCollectorConfig>, String>,
    run: RunProfile,
    filled: RunProfile,
    c: ProfileCollectorConfig,
    name: &'static str,
)
    requires
        call_ensures(reject_duplicate_collectors, (collectors,), r),
        empty@.len() == 0,
        call_ensures(requested_collectors, (Some(empty),), refused),
        call_ensures(RunProfile::with_default_collectors, (run,), filled),
        call_ensures(ProfileCollectorConfig::artifact_name, (&c,), name),
    ensures
        collectors@.len() <= 1 ==> r is Ok,
        collectors@.len() > 1 ==> (r matches Err(e) && e@ == ErrorView::Backend(
            "duplicate profile collector kind is not supported: "@ + "NativeEtw"@,
        )),
        refused matches Err(e) && e@ == "collectors must contain at least one collector"@,
        filled.target == run.target && filled.timeout_ms == run.timeout_ms,
        run.collectors@.len() > 0 ==> filled.collectors == run.collectors,
        run.collectors@.len() == 0 ==> filled.collectors@.len() == 1 && (filled.collectors@[0] matches
            ProfileCollectorConfig::NativeEtw { scope, event_sets, stacks } && scope
            == EtwProfileScope::TargetProcess && stacks.enabled && event_sets@ == seq![
            EtwEventSet::Process,
            EtwEventSet::FileIo,
        ]),
        name@ == "native_etw"@,
{
    if collectors@.len() > 1 {
        let a = collectors@[0];
        let b = collectors@[1];
        assert(request::config_kind(a) == request::config_kind(b));
        assert(request::kind_repeats(collectors@, 1));
    }
}

/// One job runs at a time, and whoever comes second is told which one runs.
pub proof fn jobs_run_one_at_a_time(
    none: SingleActiveJob,
    jobs: &mut SingleActiveJob,
    id: SessionId,
    busy: &str,
    r: Result<(), DbgFlowError>,
)
    requires
        call_ensures(SingleActiveJob::new, (), none),
        call_ensures(SingleActiveJob::start, (jobs, id, busy), r),
    ensures
        none.active is None,
        old(jobs).active is None ==> r is Ok && final(jobs).active == Some(id),
        old(jobs).active matches Some(other) ==> final(jobs).active == Some(other) && (r matches Err(e)
            && e@ == ErrorView::Backend(busy@ + crate::ids::uuid_text(other.0))),
{
}

} // verus!
