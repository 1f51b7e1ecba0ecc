//! Laws of what is refused before a recording and of what is noted during one.

use crate::artifact::{ArtifactKind, ArtifactView};
use crate::error::{DbgFlowError, ErrorView};
use crate::json;
use crate::json::JsonView;
use crate::profile::target::ResolvedExecutable;
use crate::scan;
use crate::text;
use crate::ttd::options::{TtdRecorderExit, TtdRecordingOptions, TtdTarget};
use crate::ttd::record;
use crate::ttd::record::{AnswerView, MetadataView, PhaseView, ProgressView, TtdJob};
use crate::ttd::output::DiscoveredView;
use crate::ttd::validation::{validate_ttd_options, validate_ttd_target};
use crate::validation;
use crate::winpath;
use vstd::prelude::*;

verus! {

/// A program is recorded if it is a file and no argument holds a zero; a process if it has a number.
pub proof fn wrong_targets_are_refused_for_the_reason(
    target: TtdTarget,
    found: Result<ResolvedExecutable, String>,
    r: Result<TtdTarget, DbgFlowError>,
)
    requires
        call_ensures(validate_ttd_target, (target, found), r),
    ensures
        target matches TtdTarget::Attach { pid } ==> (r is Ok <==> pid > 0) && (pid == 0 ==> (
        r matches Err(e) && e@ == ErrorView::Backend("TTD attach pid must be greater than zero"@))),
        target is Launch ==> {
            &&& found matches Err(m) ==> (r matches Err(e) && e@ == ErrorView::Backend(
                "invalid TTD launch executable: "@ + m@,
            ))
            &&& found matches Ok(f) ==> (!f.is_file ==> (r matches Err(e) && e@
                == ErrorView::Backend("TTD launch executable is not a file: "@ + f.path@)))
            &&& found matches Ok(f) ==> (f.is_file ==> (r matches Err(e) ==> e@
                == ErrorView::Backend("TTD launch arguments must not contain NUL bytes"@)))
        },
        target matches TtdTarget::Launch { executable, args } ==> (found matches Ok(f) ==> (
        f.is_file ==> (r is Ok <==> forall|i: int|
            0 <= i < args@.len() ==> !(#[trigger] args@[i])@.contains('\0')))),
{
}

/// A program whose starts are recorded is named by a file name or an absolute path that leads to a
/// file; what else it could be is refused for the reason.
pub proof fn wrong_monitors_are_refused_for_the_reason(
    program: String,
    filter: Option<String>,
    found: Result<ResolvedExecutable, String>,
    r: Result<TtdTarget, DbgFlowError>,
)
    requires
        call_ensures(
            validate_ttd_target,
            (TtdTarget::Monitor { program, cmd_line_filter: filter }, found),
            r,
        ),
    ensures
        ({
            let p = program@;
            let breaks = validation::has_line_break(p);
            let blank = scan::trim(p).len() == 0;
            let climbs = validation::climbs(p);
            let absolute = winpath::parts(p).absolute();
            let slashes = p.contains('/') || p.contains('\\');
            &&& breaks ==> (r matches Err(e) && e@ == ErrorView::Backend(
                "TTD monitor program contains unsupported control characters"@,
            ))
            &&& !breaks && blank ==> (r matches Err(e) && e@ == ErrorView::Backend(
                "TTD monitor program must not be empty"@,
            ))
            &&& !breaks && !blank && climbs ==> (r matches Err(e) && e@ == ErrorView::Backend(
                "TTD monitor program must not contain path traversal"@,
            ))
            &&& !breaks && !blank && !climbs && slashes && !absolute ==> (r matches Err(e) && e@
                == ErrorView::Backend(
                "TTD monitor program must be a file name or an absolute path"@,
            ))
            &&& !breaks && !blank && !climbs && absolute ==> (found matches Err(m) ==> (r matches Err(
                e,
            ) && e@ == ErrorView::Backend("invalid TTD monitor program path: "@ + m@)))
            &&& !breaks && !blank && !climbs && absolute ==> (found matches Ok(f) ==> (!f.is_file
                ==> (r matches Err(e) && e@ == ErrorView::Backend(
                "TTD monitor program path is not a file: "@ + f.path@,
            ))))
            &&& !breaks && !blank && !climbs && !slashes && !absolute && filter is None ==> (
            r matches Ok(t) && t == (TtdTarget::Monitor { program, cmd_line_filter: filter }))
            &&& !breaks && !blank && !climbs && !slashes && !absolute ==> (filter matches Some(f)
                ==> {
                &&& validation::has_line_break(f@) ==> (r matches Err(e) && e@ == ErrorView::Backend(
                    "TTD monitor cmd_line_filter contains unsupported control characters"@,
                ))
                &&& !validation::has_line_break(f@) && scan::trim(f@).len() == 0 ==> (r matches Err(
                    e,
                ) && e@ == ErrorView::Backend("TTD monitor cmd_line_filter must not be empty"@))
                &&& !validation::has_line_break(f@) && scan::trim(f@).len() > 0 ==> r is Ok
            })
        }),
{
}

/// Sizes and modules that cannot be recorded are refused for the reason.
pub proof fn wrong_options_are_refused_for_the_reason(
    o: TtdRecordingOptions,
    target: TtdTarget,
    r: Result<(), DbgFlowError>,
)
    requires
        call_ensures(validate_ttd_options, (&o, &target), r),
    ensures
        o.max_file_mb == 0 ==> (r matches Err(e) && e@ == ErrorView::Backend(
            "TTD max_file_mb must be greater than zero"@,
        )),
        o.ring && o.max_file_mb > 32768 ==> (r matches Err(e) && e@ == ErrorView::Backend(
            "TTD ring max_file_mb must be at most 32768"@,
        )),
        !o.ring && o.max_file_mb > 1048576 ==> (r matches Err(e) && e@ == ErrorView::Backend(
            "TTD max_file_mb must be at most 1048576"@,
        )),
        0 < o.max_file_mb <= 32768 && o.modules@.len() == 0 ==> r is Ok,
        0 < o.max_file_mb <= 32768 && o.modules@.len() == 1 && validation::has_line_break(
            o.modules@[0]@,
        ) ==> (r matches Err(e) && e@ == ErrorView::Backend(
            "TTD module contains unsupported control characters"@,
        )),
        0 < o.max_file_mb <= 32768 && o.modules@.len() == 1 && !validation::has_line_break(
            o.modules@[0]@,
        ) && scan::trim(o.modules@[0]@).len() == 0 ==> (r matches Err(e) && e@
            == ErrorView::Backend("TTD module must not be empty"@)),
        0 < o.max_file_mb <= 32768 && o.modules@.len() == 1 && !validation::has_line_break(
            o.modules@[0]@,
        ) && scan::trim(o.modules@[0]@).len() > 0 ==> r is Ok,
        r is Ok && !(target is Monitor) ==> o.modules@.len() <= 64,
        0 < o.max_file_mb <= 32768 && o.modules@.len() > 64 && !(target is Monitor)
            && crate::ttd::validation::modules_error(o.modules@) is None ==> (r matches Err(e) && e@
            == ErrorView::Backend("TTD modules list is too large"@)),
{
    reveal_with_fuel(crate::ttd::validation::modules_error, 2);
    if o.modules@.len() == 1 {
        assert(o.modules@.drop_first().len() == 0);
    }
}

/// The beginning and the end of the recorder are noted, with how it was started and how it left.
pub proof fn recorders_are_noted(
    job: TtdJob,
    fields: JsonView,
    exit: TtdRecorderExit,
    e: ErrorView,
    d: u64,
)
    ensures
        ({
            let begun = record::begun(job, fields).records;
            let left = record::after(job, PhaseView::Run, AnswerView::Ran(Ok(exit)), d).records;
            let failed = record::after(job, PhaseView::Run, AnswerView::Ran(Err(e)), d).records;
            &&& begun.len() == 2
            &&& begun[0].event == "ttd_recording_started"@ && begun[0].artifact_path == Some(
                job.paths.recording_dir@,
            ) && begun[0].fields == fields
            &&& begun[1].event == "recorder_starting"@ && begun[1].fields.text_at("ttd_exe"@)
                == Some(job.ttd_exe@) && (begun[1].fields.get("args"@) is Some)
            &&& left.len() == 1 && left[0].event == "recorder_finished"@ && left[0].fields.bool_at(
                "timed_out"@,
            ) == Some(exit.timed_out)
            &&& exit.exit_code matches Some(n) ==> (n >= 0 ==> left[0].fields.unsigned_at(
                "exit_code"@,
            ) == Some(n as u64))
            &&& exit.exit_code is None ==> left[0].fields.get("exit_code"@) == Some(JsonView::Null)
            &&& failed.len() == 1 && failed[0].event == "recording_failed"@ && failed[0].error
                == Some(e.text())
        }),
{
    broadcast use json::added_members_are_found;

    reveal_strlit("ttd_exe");
    reveal_strlit("args");
    assert("ttd_exe"@.len() == 7 && "args"@.len() == 4);
    reveal_strlit("timed_out");
    reveal_strlit("exit_code");
    assert("timed_out"@.len() == 9 && "exit_code"@.len() == 9);
    assert("timed_out"@[0] == 't' && "exit_code"@[0] == 'e');
}

/// When the time is over, it is noted whether the recorder was stopped, and a recorder that cannot be
/// stopped leaves a warning.
pub proof fn stops_are_noted(
    job: TtdJob,
    progress: ProgressView,
    stop_target: Seq<char>,
    exit: TtdRecorderExit,
    e: ErrorView,
    d: u64,
)
    ensures
        ({
            let phase = PhaseView::Stop { progress, stop_target };
            let good = record::after(job, phase, AnswerView::Stopped(Ok(exit)), d);
            let bad = record::after(job, phase, AnswerView::Stopped(Err(e)), d);
            &&& good.records.len() == 1 && good.records[0].event == "recorder_stop_finished"@
                && good.records[0].fields.text_at("stop_target"@) == Some(stop_target)
            &&& good.phase matches PhaseView::Discover { progress: p } && p.stop_tried && p.warnings
                == progress.warnings
            &&& bad.records.len() == 1 && bad.records[0].event == "recorder_stop_failed"@
                && bad.records[0].error == Some(e.text()) && bad.records[0].fields.text_at(
                "stop_target"@,
            ) == Some(stop_target)
            &&& bad.phase matches PhaseView::Discover { progress: p } && p.stop_tried && p.warnings
                == progress.warnings.push("TTD stop failed after recorder timeout: "@ + e.text())
        }),
        record::after_output(job, progress).phase matches PhaseView::Discover { progress: p }
            ==> (progress.exit.timed_out ==> p.warnings == progress.warnings.push(
            "TTD recorder timed out, but dbgflow could not determine a safe stop target"@,
        )),
        progress.exit.timed_out ==> record::after_output(job, progress).records[0].event
            == "timeout_reached"@,
        progress.exit.timed_out && record::after_output(job, progress).phase is Discover
            ==> record::after_output(job, progress).records[1].event == "recorder_stop_skipped"@
            && record::after_output(job, progress).records[1].error == Some(
            "could not determine a safe stop target"@,
        ),
        !progress.exit.timed_out ==> record::after_output(job, progress).records.len() == 0,
{
    broadcast use json::added_members_are_found;

    reveal_strlit("timed_out");
    reveal_strlit("exit_code");
    reveal_strlit("stop_target");
    assert("timed_out"@.len() == 9 && "exit_code"@.len() == 9 && "stop_target"@.len() == 11);
    assert("timed_out"@[0] == 't' && "exit_code"@[0] == 'e');
}

/// What was recorded is noted file by file with its kind, and the end with how it went.
pub proof fn traces_are_noted(
    path: Seq<char>,
    job: TtdJob,
    m: MetadataView,
    stop_tried: bool,
    written: Seq<char>,
    d: u64,
)
    ensures
        ({
            let trace = record::found_entry(ArtifactView { kind: ArtifactKind::TtdTrace, path });
            let index = record::found_entry(
                ArtifactView { kind: ArtifactKind::TtdTraceIndex, path },
            );
            let log = record::found_entry(
                ArtifactView { kind: ArtifactKind::TtdRecorderOutput, path },
            );
            let over = record::after(
                job,
                PhaseView::Report { metadata: m, stop_tried, ran: true },
                AnswerView::Written(Ok(written)),
                d,
            ).records;
            &&& trace.event == "trace_detected"@ && trace.artifact_path == Some(path)
                && trace.fields.text_at("kind"@) == Some("TtdTrace"@)
            &&& index.event == "trace_detected"@ && index.fields.text_at("kind"@) == Some(
                "TtdTraceIndex"@,
            )
            &&& log.event == "trace_detected"@ && log.fields.text_at("kind"@) == Some(
                "TtdRecorderOutput"@,
            )
            &&& over.len() == 1 && over[0].event == "recording_completed"@ && over[0].error
                == m.error
            &&& over[0].fields.unsigned_at("duration_ms"@) == Some(m.duration_ms)
            &&& over[0].fields.unsigned_at("trace_count"@) == Some(
                m.discovered.traces.len() as u64,
            )
        }),
{
    broadcast use json::added_members_are_found;

    reveal_strlit("status");
    reveal_strlit("completion_reason");
    reveal_strlit("duration_ms");
    reveal_strlit("trace_count");
    assert("status"@.len() == 6 && "completion_reason"@.len() == 17 && "duration_ms"@.len() == 11 && "trace_count"@.len() == 11);
    assert("duration_ms"@[0] == 'd' && "trace_count"@[0] == 't');
}

/// A recorder that left well without a trace has failed.
pub proof fn recordings_need_a_trace(
    progress: ProgressView,
    discovered: DiscoveredView,
    duration_ms: u64,
)
    requires
        progress.failure is None,
        !progress.exit.timed_out,
        progress.exit.exit_code == Some(0i32) || progress.exit.exit_code is None,
    ensures
        ({
            let m = record::outcome(progress, discovered, duration_ms);
            &&& discovered.traces.len() == 0 ==> m.status is Failed && m.error == Some(
                "TTD recorder completed but no .run trace was created"@,
            )
            &&& discovered.traces.len() > 0 ==> m.status is Completed && m.error is None
        }),
{
}

} // verus!
