//! Laws of the collector of events: its files, its trace session and how it stops.

use crate::artifact::{ArtifactKind, ArtifactRef, ArtifactView};
use crate::artifact;
use crate::error::{DbgFlowError, ErrorView};
use crate::etw::collector;
use crate::etw::collector::{
    NativeEtwCollector, NativeEtwCollectorFactory, StopAnswer, StopAskView, StopPhase,
    StopPhaseView, StopStep,
};
use crate::etw::settings::{EtwEventSet, ProfileCollectorConfig};
use crate::etw::summary::EtwSummary;
use crate::ids;
use crate::ids::SessionId;
use crate::text;
use crate::winpath;
use vstd::prelude::*;

verus! {

/// A collector writes its files into the directory that it is given, each under its own name, and
/// has not started.
pub proof fn collectors_have_their_files(
    factory: NativeEtwCollectorFactory,
    config: ProfileCollectorConfig,
    dir: &str,
    r: Result<NativeEtwCollector, DbgFlowError>,
)
    requires
        call_ensures(NativeEtwCollectorFactory::create, (&factory, &config, dir), r),
    ensures
        r matches Ok(c) ==> {
            &&& c.trace_path@ == winpath::joined_path(dir@, "trace.etl"@)
            &&& c.process_path@ == winpath::joined_path(dir@, "process.jsonl"@)
            &&& c.file_io_path@ == winpath::joined_path(dir@, "file_io.jsonl"@)
            &&& c.summary_path@ == winpath::joined_path(dir@, "summary.json"@)
            &&& c.session_name is None
            &&& c.target_pid is None
        },
{
}

/// What a collector leaves behind is the trace, the events of each set that was asked for, and the
/// summary, each as what it is.
pub proof fn collectors_leave_their_files(
    c: NativeEtwCollector,
    artifacts: Vec<ArtifactRef>,
    files: Vec<String>,
)
    requires
        call_ensures(NativeEtwCollector::collector_artifacts, (&c,), artifacts),
        call_ensures(NativeEtwCollector::event_set_files, (&c,), files),
    ensures
        ({
            let v = artifact::artifacts_view(artifacts@);
            let f = text::views(files@);
            let process = c.settings.requests(EtwEventSet::Process);
            let file_io = c.settings.requests(EtwEventSet::FileIo);
            &&& v[0] == (ArtifactView {
                kind: ArtifactKind::ProfileCollectorTrace,
                path: c.trace_path@,
            })
            &&& v.last() == (ArtifactView {
                kind: ArtifactKind::ProfileCollectorSummary,
                path: c.summary_path@,
            })
            &&& v.len() == 2 + f.len()
            &&& process ==> v[1] == (ArtifactView {
                kind: ArtifactKind::ProfileCollectorEvents,
                path: c.process_path@,
            }) && f[0] == c.process_path@
            &&& file_io && !process ==> f == seq![c.file_io_path@] && v[1] == (ArtifactView {
                kind: ArtifactKind::ProfileCollectorEvents,
                path: c.file_io_path@,
            })
            &&& file_io && process ==> f == seq![c.process_path@, c.file_io_path@] && v[2] == (
            ArtifactView { kind: ArtifactKind::ProfileCollectorEvents, path: c.file_io_path@ })
            &&& !file_io && !process ==> f.len() == 0
            &&& process && !file_io ==> f.len() == 1
        }),
{
    assert(text::views(files@) =~= collector::event_files(c@));
}

/// A trace session has a name of its own and runs only once at a time.
pub proof fn sessions_run_once(
    c: &mut NativeEtwCollector,
    id: SessionId,
    name: Result<String, DbgFlowError>,
    started: String,
    unit: (),
    again: Result<String, DbgFlowError>,
)
    requires
        call_ensures(NativeEtwCollector::session_to_start, (&*old(c), id), name),
        call_ensures(NativeEtwCollector::session_started, (c, started), unit),
        call_ensures(NativeEtwCollector::session_to_start, (&*final(c), id), again),
    ensures
        old(c).session_name is None ==> (name matches Ok(n) && n@ == "dbgflow-profile-"@
            + ids::uuid_text(id.0)),
        old(c).session_name is Some ==> name is Err,
        final(c).session_name matches Some(n) && n@ == started@,
        final(c).target_pid is None,
        again matches Err(e) && e@ == ErrorView::Backend("native ETW collector already started"@),
{
}

/// The target is remembered, and a session that was cleaned up is forgotten.
pub proof fn targets_and_sessions_are_remembered(
    c: &mut NativeEtwCollector,
    d: &mut NativeEtwCollector,
    pid: u32,
    stopped: bool,
    unit: (),
    to_clean: Option<String>,
)
    requires
        call_ensures(NativeEtwCollector::target_started, (c, pid), unit),
        call_ensures(NativeEtwCollector::session_to_clean, (&*old(d),), to_clean),
        call_ensures(NativeEtwCollector::session_cleaned, (d, stopped), unit),
    ensures
        final(c).target_pid == Some(pid),
        text::view_opt(final(c).session_name) == text::view_opt(old(c).session_name),
        text::view_opt(to_clean) == text::view_opt(old(d).session_name),
        stopped ==> final(d).session_name is None,
        !stopped ==> text::view_opt(final(d).session_name) == text::view_opt(old(d).session_name),
        final(d).target_pid == old(d).target_pid,
{
    assert(final(c)@.session_name == old(c)@.session_name);
    assert(final(d)@.target_pid == old(d)@.target_pid);
}

/// A collector that runs first stops its trace session; one that does not run leaves nothing.
pub proof fn stopping_begins_with_the_session(
    c: NativeEtwCollector,
    given: Option<u32>,
    r: StopStep,
)
    requires
        call_ensures(NativeEtwCollector::begin_stop, (&c, given), r),
    ensures
        c.session_name matches Some(n) ==> r@.ask == StopAskView::StopTrace(n@),
        c.session_name is Some && c.target_pid is Some ==> r@.phase == (StopPhaseView::StopTrace {
            pid: c.target_pid,
        }),
        c.session_name is Some && c.target_pid is None ==> r@.phase == (StopPhaseView::StopTrace {
            pid: given,
        }),
        c.session_name is None ==> r@.ask is Nothing && r@.phase == StopPhaseView::Done(
            Ok((Seq::empty(), seq!["native ETW collector was not started"@])),
        ),
{
}

/// When the session has stopped, the trace is processed for the target; without a target the files
/// of the events are left empty. A session that does not stop fails the collector.
pub proof fn stopped_sessions_are_processed(
    c: &mut NativeEtwCollector,
    pid: Option<u32>,
    outcome: Result<Vec<String>, DbgFlowError>,
    r: StopStep,
)
    requires
        call_ensures(
            NativeEtwCollector::answer,
            (c, StopPhase::StopTrace { pid }, StopAnswer::TraceStopped(outcome)),
            r,
        ),
    ensures
        outcome matches Err(e) ==> r@.phase == StopPhaseView::Done(Err(e@)) && r@.ask is Nothing
            && text::view_opt(final(c).session_name) == text::view_opt(old(c).session_name),
        outcome matches Ok(w) ==> final(c).session_name is None,
        outcome matches Ok(w) ==> (pid matches Some(p) ==> r@.ask == StopAskView::PostProcess(p)
            && r@.phase == (StopPhaseView::PostProcess { pid, warnings: text::views(w@) })),
        pid is None ==> (outcome matches Ok(w) ==> r@.ask is EmptyFiles && r@.phase == (
        StopPhaseView::EmptyFiles {
            pid,
            warnings: text::views(w@).push(
                "native ETW post-processing skipped because the target pid is unavailable"@,
            ),
        })),
{
}

/// The summary of what was processed is written; when processing fails, the files are left empty and
/// a warning says so.
pub proof fn processed_traces_are_summed_up(
    c: &mut NativeEtwCollector,
    pid: Option<u32>,
    warnings: Vec<String>,
    outcome: Result<EtwSummary, DbgFlowError>,
    r: StopStep,
)
    requires
        call_ensures(
            NativeEtwCollector::answer,
            (c, StopPhase::PostProcess { pid, warnings }, StopAnswer::PostProcessed(outcome)),
            r,
        ),
    ensures
        outcome matches Ok(s) ==> r@.ask == StopAskView::WriteSummary(s@) && (r@.phase matches
            StopPhaseView::WriteSummary { warnings: all } && all.take(warnings@.len() as int)
            == text::views(warnings@)),
        outcome matches Err(e) ==> r@.ask is EmptyFiles && r@.phase == (StopPhaseView::EmptyFiles {
            pid,
            warnings: text::views(warnings@).push(
                "native ETW post-processing failed: "@ + e@.text(),
            ),
        }),
{
    if let Ok(s) = outcome {
        let w = text::views(warnings@);
        let all = w + collector::fresh(s@.warnings, w);
        assert(all.take(warnings@.len() as int) =~= w);
    }
}

/// Once the summary is written, or could not be, the collector has stopped with its files and its
/// warnings.
pub proof fn summaries_end_the_collector(
    c: &mut NativeEtwCollector,
    warnings: Vec<String>,
    outcome: Result<(), DbgFlowError>,
    r: StopStep,
    artifacts: Vec<ArtifactRef>,
)
    requires
        call_ensures(
            NativeEtwCollector::answer,
            (c, StopPhase::WriteSummary { warnings }, StopAnswer::SummaryWritten(outcome)),
            r,
        ),
        call_ensures(NativeEtwCollector::collector_artifacts, (&*old(c),), artifacts),
    ensures
        r@.ask is Nothing,
        outcome is Ok ==> r@.phase == StopPhaseView::Done(
            Ok((artifact::artifacts_view(artifacts@), text::views(warnings@))),
        ),
        outcome matches Err(e) ==> r@.phase == StopPhaseView::Done(
            Ok(
                (
                    artifact::artifacts_view(artifacts@),
                    text::views(warnings@).push("native ETW summary write failed: "@ + e@.text()),
                ),
            ),
        ),
{
}

/// Files that were left empty are summed up as empty.
pub proof fn empty_files_are_summed_up(
    c: &mut NativeEtwCollector,
    pid: Option<u32>,
    warnings: Vec<String>,
    outcome: Result<(), DbgFlowError>,
    r: StopStep,
)
    requires
        call_ensures(
            NativeEtwCollector::answer,
            (c, StopPhase::EmptyFiles { pid, warnings }, StopAnswer::FilesEmptied(outcome)),
            r,
        ),
    ensures
        outcome is Ok ==> r@.phase == (StopPhaseView::WriteSummary {
            warnings: text::views(warnings@),
        }),
        outcome matches Err(e) ==> r@.phase == (StopPhaseView::WriteSummary {
            warnings: text::views(warnings@).push(
                "native ETW events fallback write failed: "@ + e@.text(),
            ),
        }),
        r@.ask matches StopAskView::WriteSummary(s) && s.target_pid == pid && (r@.phase matches
            StopPhaseView::WriteSummary { warnings: all } && s.warnings == all),
{
}

} // verus!
