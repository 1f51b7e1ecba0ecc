//! Laws of the steps of a profile: what is asked, what an answer leads to, and what is reported.

use crate::artifact::{ArtifactKind, ArtifactView};
use crate::error::{DbgFlowError, ErrorView};
use crate::etw::settings::{
    native_etw_settings, EtwEventSet, EtwProfileScope, NativeEtwSettings, ProfileCollectorConfig,
};
use crate::ids;
use crate::ids::SessionId;
use crate::json;
use crate::profile::model;
use crate::profile::model::{
    AnswerView, CollectorView, JobView, MetadataView, PhaseView, ProfileAsk,
    ProfileCompletionReason, ProfileStatus, ResultView,
};
use crate::profile::request::{
    admit_profile, requested_collectors, RunProfile, SingleActiveJob,
};
use crate::profile::run::{reason_text, status_text, ProfileRun};
use crate::profile::target::{
    validate_profile_target, ProcessTargetRunner, ProfileTarget, ResolvedExecutable, TargetExit,
    WaitStep,
};
use vstd::prelude::*;

verus! {

/// How a profile did and why it ended have their own names.
pub proof fn outcomes_have_their_names(
    status: ProfileStatus,
    status_name: &'static str,
    reason: ProfileCompletionReason,
    reason_name: &'static str,
)
    requires
        call_ensures(status_text, (status,), status_name),
        call_ensures(reason_text, (reason,), reason_name),
    ensures
        status == ProfileStatus::Completed ==> status_name@ == "Completed"@,
        status == ProfileStatus::TimedOut ==> status_name@ == "TimedOut"@,
        status == ProfileStatus::Failed ==> status_name@ == "Failed"@,
        reason == ProfileCompletionReason::TargetExited ==> reason_name@ == "TargetExited"@,
        reason == ProfileCompletionReason::Timeout ==> reason_name@ == "Timeout"@,
        reason == ProfileCompletionReason::TargetLaunchFailed ==> reason_name@
            == "TargetLaunchFailed"@,
        reason == ProfileCompletionReason::CollectorError ==> reason_name@ == "CollectorError"@,
{
}

/// A profile whose target exited is complete, one whose target ran out of time has timed out, and
/// one whose target could not be launched has failed; the process and the exit code are reported.
pub proof fn outcomes_follow_the_target(
    job: JobView,
    pid: u32,
    exit_code: Option<i32>,
    message: Seq<char>,
    duration_ms: u64,
)
    ensures
        ({
            let exited = model::outcome(job, Ok(TargetExit::Exited { pid, exit_code }), duration_ms);
            let late = model::outcome(job, Ok(TargetExit::TimedOut { pid }), duration_ms);
            let unlaunched = model::outcome(job, Err(message), duration_ms);
            &&& exited.status == ProfileStatus::Completed
            &&& exited.completion_reason == ProfileCompletionReason::TargetExited
            &&& exited.target_pid == Some(pid)
            &&& exited.target_exit_code == exit_code
            &&& exited.error == job.stop_error
            &&& late.status == ProfileStatus::TimedOut
            &&& late.completion_reason == ProfileCompletionReason::Timeout
            &&& late.target_pid == Some(pid)
            &&& late.target_exit_code is None
            &&& late.error == job.stop_error
            &&& unlaunched.status == ProfileStatus::Failed
            &&& unlaunched.completion_reason == ProfileCompletionReason::TargetLaunchFailed
            &&& unlaunched.target_pid is None
            &&& unlaunched.target_exit_code is None
            &&& job.stop_error is None ==> unlaunched.error == Some(message)
            &&& job.stop_error is Some ==> unlaunched.error == job.stop_error
            &&& exited.duration_ms == duration_ms && late.duration_ms == duration_ms
            &&& exited.warnings == job.warnings && late.warnings == job.warnings
            &&& exited.collector_results.len() == job.results.len()
            &&& forall|i: int|
                0 <= i < job.results.len() ==> #[trigger] exited.collector_results[i]
                    == job.results[job.results.len() - 1 - i]
        }),
{
}

/// The trace of a profile is the one that the event trace collector left behind.
pub proof fn traces_come_from_their_collector(
    results: Seq<ResultView>,
    i: int,
    k: int,
    path: Seq<char>,
)
    requires
        0 <= i < results.len(),
        results[i].name == "native_etw"@,
        forall|j: int| 0 <= j < i ==> (#[trigger] results[j]).name != "native_etw"@,
        0 <= k < results[i].artifacts.len(),
        results[i].artifacts[k] == (ArtifactView {
            kind: ArtifactKind::ProfileCollectorTrace,
            path,
        }),
        forall|j: int|
            0 <= j < k ==> (#[trigger] results[i].artifacts[j]).kind
                != ArtifactKind::ProfileCollectorTrace,
    ensures
        model::trace_of(results) == Some(ArtifactView { kind: ArtifactKind::ProfileTrace, path }),
{
    named_result(results, "native_etw"@, i);
    kept_artifact(results[i].artifacts, ArtifactKind::ProfileCollectorTrace, k);
}

proof fn named_result(results: Seq<ResultView>, name: Seq<char>, i: int)
    requires
        0 <= i < results.len(),
        results[i].name == name,
        forall|j: int| 0 <= j < i ==> (#[trigger] results[j]).name != name,
    ensures
        model::result_named(results, name) == Some(results[i]),
    decreases i,
{
    if i > 0 {
        assert(results[0].name != name);
        let rest = results.drop_first();
        assert forall|j: int| 0 <= j < i - 1 implies (#[trigger] rest[j]).name != name by {
            assert(rest[j] == results[j + 1]);
        }
        named_result(rest, name, i - 1);
    }
}

proof fn kept_artifact(artifacts: Seq<ArtifactView>, kind: ArtifactKind, k: int)
    requires
        0 <= k < artifacts.len(),
        artifacts[k].kind == kind,
        forall|j: int| 0 <= j < k ==> (#[trigger] artifacts[j]).kind != kind,
    ensures
        model::artifact_of_kind(artifacts, kind) == Some(artifacts[k]),
    decreases k,
{
    if k > 0 {
        assert(artifacts[0].kind != kind);
        let rest = artifacts.drop_first();
        assert forall|j: int| 0 <= j < k - 1 implies (#[trigger] rest[j]).kind != kind by {
            assert(rest[j] == artifacts[j + 1]);
        }
        kept_artifact(rest, kind, k - 1);
    }
}

/// The outside is asked for what the profile waits for: the collectors in the order of the request
/// when they are started, and the last one that runs when they are stopped.
pub proof fn profiles_ask_for_what_they_wait_for(run: ProfileRun, ask: ProfileAsk)
    requires
        model::in_order(run.job@, run.phase@),
        call_ensures(ProfileRun::ask, (&run,), ask),
    ensures
        run.phase is ClearStdout ==> ask is ClearStdout,
        run.phase is ClearStderr ==> ask is ClearStderr,
        run.phase is Directory ==> ask == ProfileAsk::Directory(run.job.next),
        run.phase is Create ==> ask == ProfileAsk::Create(run.job.next),
        run.phase is Start ==> ask == ProfileAsk::Start(run.job.started@.len() as usize),
        run.phase is CleanUpStart ==> ask == ProfileAsk::CleanUp(run.job.started@.len() as usize),
        run.phase is Unwind ==> ask == ProfileAsk::Stop(
            (run.job.started@.len() - 1) as usize,
            None,
        ),
        run.phase is Launch ==> ask == (ProfileAsk::Launch {
            context: run.job.launch,
            timeout_ms: run.job.request.timeout_ms,
        }),
        run.phase matches crate::profile::model::ProfilePhase::Stop { exit: Ok(x) } ==> ask
            == ProfileAsk::Stop((run.job.started@.len() - 1) as usize, Some(x.process())),
        run.phase is CleanUpStop ==> ask == ProfileAsk::CleanUp(
            (run.job.started@.len() - 1) as usize,
        ),
        run.phase is Report ==> ask is Report,
        run.phase is Done ==> ask is Nothing,
{
    assert(run.job@.started.len() == run.job.started@.len());
}

/// A profile goes through its steps in order: its files are made empty, each collector gets a
/// directory, is created and started, the target is launched, the collectors are stopped, and the
/// outcome is written down.
pub proof fn profiles_take_their_steps(
    job: JobView,
    dir: Seq<char>,
    collector: CollectorView,
    warnings: Seq<Seq<char>>,
    exit: TargetExit,
    artifacts: Seq<ArtifactView>,
    metadata: MetadataView,
    path: Seq<char>,
    duration_ms: u64,
)
    requires
        job.next < job.request.collectors@.len(),
    ensures
        ({
            let cleared = AnswerView::Cleared(Ok(()));
            let d = duration_ms;
            let started = model::after(
                job,
                PhaseView::Start { dir, collector },
                AnswerView::Started(Ok(warnings)),
                d,
            );
            let last = job.next + 1 == job.request.collectors@.len();
            &&& model::after(job, PhaseView::ClearStdout, cleared, d).phase is ClearStderr
            &&& model::after(job, PhaseView::ClearStderr, cleared, d).phase is Directory
            &&& model::after(job, PhaseView::Directory, AnswerView::Directory(Ok(dir)), d).phase == (
            PhaseView::Create { dir })
            &&& model::after(
                job,
                PhaseView::Create { dir },
                AnswerView::Created(Ok(collector)),
                d,
            ).phase == (PhaseView::Start { dir, collector })
            &&& started.job.next == job.next + 1
            &&& started.job.started == job.started.push(collector)
            &&& started.job.warnings == job.warnings + warnings
            &&& last ==> started.phase is Launch
            &&& !last ==> started.phase is Directory
            &&& started.job.started.len() > 0 ==> (model::after(
                started.job,
                PhaseView::Launch,
                AnswerView::Exited(Ok(exit)),
                d,
            ).phase == (PhaseView::Stop { exit: Ok(exit) }))
            &&& model::after(
                job,
                PhaseView::Report { metadata, failure: None },
                AnswerView::Written(Ok(path)),
                d,
            ).phase matches PhaseView::Done(Ok(o)) && o.profile_id == job.id && o.metadata
                == metadata && o.profile == (ArtifactView {
                kind: ArtifactKind::ProfileMetadata,
                path,
            }) && o.events == (ArtifactView {
                kind: ArtifactKind::ProfileEvents,
                path: job.paths.events@,
            }) && o.stdout == (ArtifactView {
                kind: ArtifactKind::ProfileStdout,
                path: job.paths.stdout@,
            }) && o.stderr == (ArtifactView {
                kind: ArtifactKind::ProfileStderr,
                path: job.paths.stderr@,
            })
        }),
{
}

/// What a collector that stopped left behind is its result, and its warnings are those of the
/// profile; one that did not stop is cleaned up and reported as failed, with a warning.
pub proof fn collectors_are_reported(
    job: JobView,
    exit: TargetExit,
    artifacts: Seq<ArtifactView>,
    warnings: Seq<Seq<char>>,
    error: ErrorView,
    duration_ms: u64,
)
    requires
        job.started.len() > 1,
    ensures
        ({
            let last = job.started.last();
            let good = model::after(
                job,
                PhaseView::Stop { exit: Ok(exit) },
                AnswerView::Stopped(Ok((artifacts, warnings))),
                duration_ms,
            );
            let bad = model::after(
                job,
                PhaseView::Stop { exit: Ok(exit) },
                AnswerView::Stopped(Err(error)),
                duration_ms,
            );
            let cleaned = model::after(
                bad.job,
                bad.phase,
                AnswerView::CleanedUp(Ok(())),
                duration_ms,
            );
            &&& good.job.started == job.started.drop_last()
            &&& good.job.results.len() == job.results.len() + 1
            &&& good.job.results.last().name == last.name
            &&& good.job.results.last().artifacts == artifacts
            &&& good.job.results.last().warnings == warnings
            &&& good.job.results.last().error is None
            &&& good.job.results.last().status is Completed
            &&& good.job.warnings == job.warnings + warnings
            &&& good.phase == (PhaseView::Stop { exit: Ok(exit) })
            &&& bad.phase == (PhaseView::CleanUpStop { exit: Ok(exit), message: error.text() })
            &&& bad.job.warnings == job.warnings.push(
                "collector "@ + last.name + " stop failed: "@ + error.text(),
            )
            &&& job.stop_error is None ==> bad.job.stop_error == Some(error.text())
            &&& job.stop_error is Some ==> bad.job.stop_error == job.stop_error
            &&& cleaned.job.started == job.started.drop_last()
            &&& cleaned.job.results.last().name == last.name
            &&& cleaned.job.results.last().status is Failed
            &&& cleaned.job.results.last().error == Some(error.text())
            &&& cleaned.phase == (PhaseView::Stop { exit: Ok(exit) })
        }),
{
}

/// When a collector does not start, those that run are stopped, the profile fails with the reason,
/// and the target is never launched.
pub proof fn failed_starts_fail_the_profile(
    job: JobView,
    dir: Seq<char>,
    collector: CollectorView,
    error: ErrorView,
    duration_ms: u64,
)
    requires
        job.next < job.request.collectors@.len(),
    ensures
        ({
            let refused = model::after(
                job,
                PhaseView::Start { dir, collector },
                AnswerView::Started(Err(error)),
                duration_ms,
            );
            let cleaned = model::after(
                refused.job,
                refused.phase,
                AnswerView::CleanedUp(Ok(())),
                duration_ms,
            );
            &&& refused.phase == (PhaseView::CleanUpStart { dir, error })
            &&& job.started.len() > 0 ==> cleaned.phase == (PhaseView::Unwind {
                error,
                reported: false,
            })
            &&& job.started.len() == 0 ==> (cleaned.phase matches PhaseView::Report {
                metadata,
                failure,
            } && failure == Some(error) && metadata.status == ProfileStatus::Failed
                && metadata.completion_reason == ProfileCompletionReason::CollectorError
                && metadata.error == Some(error.text()) && metadata.target_pid is None)
        }),
{
}

/// The entries of the log of a profile say what happened.
pub proof fn steps_are_recorded(
    job: JobView,
    dir: Seq<char>,
    collector: CollectorView,
    exit: TargetExit,
    metadata: MetadataView,
    path: Seq<char>,
    artifacts: Seq<ArtifactView>,
    duration_ms: u64,
)
    requires
        job.next < job.request.collectors@.len(),
        job.started.len() > 0,
    ensures
        ({
            let d = duration_ms;
            let starting = model::after(
                job,
                PhaseView::Directory,
                AnswerView::Directory(Ok(dir)),
                d,
            ).records;
            let started = model::after(
                job,
                PhaseView::Start { dir, collector },
                AnswerView::Started(Ok(Seq::empty())),
                d,
            ).records;
            let exited = model::after(job, PhaseView::Launch, AnswerView::Exited(Ok(exit)), d).records;
            let stopped = model::after(
                job,
                PhaseView::Stop { exit: Ok(exit) },
                AnswerView::Stopped(Ok((artifacts, Seq::empty()))),
                d,
            ).records;
            let done = model::after(
                job,
                PhaseView::Report { metadata, failure: None },
                AnswerView::Written(Ok(path)),
                d,
            ).records;
            let name = match job.request.collectors@[job.next as int] {
                ProfileCollectorConfig::NativeEtw { .. } => "native_etw"@,
            };
            &&& starting.len() == 1 && starting[0].event == "collector_starting"@
                && starting[0].artifact_path == Some(dir) && starting[0].fields.text_at(
                "collector"@,
            ) == Some(name)
            &&& started.len() > 0 && started[0].event == "collector_started"@
                && started[0].fields.text_at("collector"@) == Some(name)
            &&& job.next + 1 == job.request.collectors@.len() ==> started.last().event
                == "target_launching"@
            &&& exited.last().event == "collector_stopping"@
            &&& exited.last().fields.text_at("collector"@) == Some(job.started.last().name)
            &&& stopped[0].event == "collector_stopped"@
            &&& stopped[0].fields.text_at("collector"@) == Some(job.started.last().name)
            &&& job.started.len() == 1 && exit is Exited ==> stopped.last().event
                == "target_exited"@
            &&& job.started.len() == 1 && exit is TimedOut ==> stopped.last().event
                == "timeout_reached"@
            &&& done.len() == 1 && done[0].event == "profile_completed"@
            &&& done[0].fields.unsigned_at("duration_ms"@) == Some(metadata.duration_ms)
            &&& metadata.status == ProfileStatus::Completed ==> done[0].fields.text_at("status"@)
                == Some("Completed"@)
            &&& metadata.status == ProfileStatus::TimedOut ==> done[0].fields.text_at("status"@)
                == Some("TimedOut"@)
            &&& metadata.completion_reason == ProfileCompletionReason::TargetExited
                ==> done[0].fields.text_at("completion_reason"@) == Some("TargetExited"@)
            &&& metadata.completion_reason == ProfileCompletionReason::Timeout
                ==> done[0].fields.text_at("completion_reason"@) == Some("Timeout"@)
        }),
{
    broadcast use json::added_members_are_found;

    reveal_strlit("status");
    reveal_strlit("completion_reason");
    reveal_strlit("duration_ms");
    assert("status"@.len() == 6 && "completion_reason"@.len() == 17 && "duration_ms"@.len() == 11);
}

/// A target is looked at until it exits or its time is over; an exit counts first.
pub proof fn targets_are_watched(
    runner: ProcessTargetRunner,
    pid: u32,
    exited: Option<Option<i32>>,
    late: bool,
    r: WaitStep,
)
    requires
        call_ensures(ProcessTargetRunner::poll, (&runner, pid, exited, late), r),
    ensures
        exited matches Some(c) ==> r == WaitStep::Finished(
            TargetExit::Exited { pid, exit_code: c },
        ),
        exited is None && late ==> r == WaitStep::Finished(TargetExit::TimedOut { pid }),
        exited is None && !late ==> r == WaitStep::Pause(25),
{
}

/// A target is launched if its executable is a file and no argument holds a zero; it keeps its
/// arguments and gets the path that was found.
pub proof fn targets_are_checked(
    target: ProfileTarget,
    found: Result<ResolvedExecutable, String>,
    r: Result<ProfileTarget, DbgFlowError>,
)
    requires
        call_ensures(validate_profile_target, (target, found), r),
    ensures
        target matches ProfileTarget::Launch { executable, args } && {
            &&& r is Ok <==> (found matches Ok(f) && f.is_file) && forall|i: int|
                0 <= i < args@.len() ==> !(#[trigger] args@[i])@.contains('\0')
            &&& r matches Ok(t) ==> t == (ProfileTarget::Launch {
                executable: found->Ok_0.path,
                args,
            })
        },
{
}

/// A request that names no collector gets the one for the target process with all events and with
/// stacks; a list that is empty is refused, and any other is taken as it is.
pub proof fn collectors_are_taken_as_named(
    named: Option<Vec<ProfileCollectorConfig>>,
    r: Result<Vec<ProfileCollectorConfig>, String>,
)
    requires
        call_ensures(requested_collectors, (named,), r),
    ensures
        named is None ==> (r matches Ok(v) && v@.len() == 1 && (v@[0] matches
            ProfileCollectorConfig::NativeEtw { scope, event_sets, stacks } && scope
            == EtwProfileScope::TargetProcess && event_sets@ == seq![
            EtwEventSet::Process,
            EtwEventSet::FileIo,
        ] && stacks.enabled)),
        named matches Some(list) ==> (r is Ok <==> list@.len() > 0),
        named matches Some(list) ==> (r matches Ok(v) ==> v == list),
{
}

/// A profile is admitted as it was asked for, if it has some time and no other profile runs; then it
/// is the one that runs.
pub proof fn profiles_are_admitted_one_at_a_time(
    jobs: &mut SingleActiveJob,
    id: SessionId,
    target: Result<ProfileTarget, DbgFlowError>,
    timeout_ms: u64,
    collectors: Vec<ProfileCollectorConfig>,
    r: Result<RunProfile, DbgFlowError>,
)
    requires
        call_ensures(admit_profile, (jobs, id, target, timeout_ms, collectors), r),
    ensures
        r is Ok ==> target is Ok && timeout_ms > 0 && old(jobs).active is None && collectors@.len()
            <= 1,
        r matches Ok(p) ==> Ok::<ProfileTarget, DbgFlowError>(p.target) == target && p.timeout_ms
            == timeout_ms && final(jobs).active == Some(id) && (collectors@.len() == 1
            ==> p.collectors == collectors),
        r is Err ==> final(jobs).active == old(jobs).active,
        target is Ok && timeout_ms == 0 ==> (r matches Err(e) && e@ == ErrorView::Backend(
            "profile timeout_ms must be greater than zero"@,
        )),
        target is Ok && timeout_ms > 0 && collectors@.len() <= 1 ==> (r matches Err(e) ==> (
        old(jobs).active matches Some(other) && e@ == ErrorView::Backend(
            "another profile job is already active: "@ + ids::uuid_text(other.0),
        ))),
{
    if collectors@.len() > 1 {
        let a = collectors@[0];
        let b = collectors@[1];
        assert(crate::profile::request::config_kind(a) == crate::profile::request::config_kind(b));
        assert(crate::profile::request::kind_repeats(collectors@, 1));
    }
}

/// A job that is over makes room for the next one.
pub proof fn finished_jobs_make_room(jobs: &mut SingleActiveJob, unit: ())
    requires
        call_ensures(SingleActiveJob::finish, (jobs,), unit),
    ensures
        final(jobs).active is None,
{
}

/// The settings of a trace are those of the request: its event sets, each once, and its stacks. Only
/// the target process can be traced.
pub proof fn settings_are_those_of_the_request(
    config: ProfileCollectorConfig,
    r: Result<NativeEtwSettings, DbgFlowError>,
)
    requires
        call_ensures(native_etw_settings, (&config,), r),
    ensures
        config matches ProfileCollectorConfig::NativeEtw { scope, event_sets, stacks } && {
            &&& scope == EtwProfileScope::System ==> (r matches Err(e) && e@ == ErrorView::Backend(
                "native ETW scope must be target_process"@,
            ))
            &&& event_sets@.len() == 0 ==> r is Err
            &&& event_sets@.len() > 2 ==> r is Err
            &&& r matches Ok(s) ==> {
                &&& s.stacks_enabled == stacks.enabled
                &&& s.requests(EtwEventSet::Process) <==> event_sets@.contains(EtwEventSet::Process)
                &&& s.requests(EtwEventSet::FileIo) <==> event_sets@.contains(EtwEventSet::FileIo)
            }
            &&& scope == EtwProfileScope::TargetProcess && event_sets@.len() == 1 ==> r is Ok
        },
{
    if let ProfileCollectorConfig::NativeEtw { scope, event_sets, stacks } = config {
        if event_sets@.len() > 2 {
            let s = event_sets@;
            assert(s[0] == s[1] || s[0] == s[2] || s[1] == s[2]);
            if s[0] == s[1] || s[0] == s[2] {
                assert(crate::etw::settings::repeated(s, 0));
                assert(crate::etw::settings::first_repeated(s, 0));
            } else {
                assert(crate::etw::settings::repeated(s, 1));
                if crate::etw::settings::repeated(s, 0) {
                    assert(crate::etw::settings::first_repeated(s, 0));
                } else {
                    assert(crate::etw::settings::first_repeated(s, 1));
                }
            }
        }
        if event_sets@.len() == 1 {
            assert(forall|i: int| !crate::etw::settings::first_repeated(event_sets@, i));
        }
    }
}

} // verus!
