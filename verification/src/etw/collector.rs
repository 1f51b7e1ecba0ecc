//! The collector of kernel events: a trace session that is started, stopped and summed up.

use crate::artifact;
use crate::artifact::{ArtifactKind, ArtifactRef, ArtifactView};
use crate::error::{DbgFlowError, ErrorView};
use crate::etw::model::SummaryView;
use crate::etw::settings;
use crate::etw::settings::{
    native_etw_settings, EtwEventSet, NativeEtwSettings, ProfileCollectorConfig,
};
use crate::etw::summary;
use crate::etw::summary::EtwSummary;
use crate::ids;
use crate::ids::SessionId;
use crate::profile::model;
use crate::profile::model::CollectorStop;
use crate::text;
use crate::text::{cat2, copy_opt, copy_texts, is_among};
use crate::winpath;
use crate::winpath::join;
use vstd::prelude::*;

verus! {

/// Makes collectors of kernel events.
#[derive(Debug, Clone, Copy)]
pub struct NativeEtwCollectorFactory;

/// A collector of kernel events.
#[derive(Debug)]
pub struct NativeEtwCollector {
    pub trace_path: String,
    pub process_path: String,
    pub file_io_path: String,
    pub summary_path: String,
    pub settings: NativeEtwSettings,
    /// The trace session that runs.
    pub session_name: Option<String>,
    /// The target that the collector was told of.
    pub target_pid: Option<u32>,
}

/// The mathematical form of a collector.
#[verifier::ext_equal]
pub struct EtwCollectorView {
    pub trace_path: Seq<char>,
    pub process_path: Seq<char>,
    pub file_io_path: Seq<char>,
    pub summary_path: Seq<char>,
    pub settings: NativeEtwSettings,
    pub session_name: Option<Seq<char>>,
    pub target_pid: Option<u32>,
}

impl View for NativeEtwCollector {
    type V = EtwCollectorView;

    open spec fn view(&self) -> EtwCollectorView {
        EtwCollectorView {
            trace_path: self.trace_path@,
            process_path: self.process_path@,
            file_io_path: self.file_io_path@,
            summary_path: self.summary_path@,
            settings: self.settings,
            session_name: text::view_opt(self.session_name),
            target_pid: self.target_pid,
        }
    }
}

/// A collector that writes to a directory.
pub open spec fn collector_in(settings: NativeEtwSettings, dir: Seq<char>) -> EtwCollectorView {
    EtwCollectorView {
        trace_path: winpath::joined_path(dir, "trace.etl"@),
        process_path: winpath::joined_path(dir, "process.jsonl"@),
        file_io_path: winpath::joined_path(dir, "file_io.jsonl"@),
        summary_path: winpath::joined_path(dir, "summary.json"@),
        settings,
        session_name: None,
        target_pid: None,
    }
}

impl NativeEtwCollectorFactory {
    /// Makes a collector that writes to a directory.
    pub fn create(&self, config: &ProfileCollectorConfig, output_dir: &str) -> (r: Result<
        NativeEtwCollector,
        DbgFlowError,
    >)
        ensures
            match r {
                Ok(c) => settings::settings_checked(*config, Ok(c.settings)) && c@
                    == collector_in(c.settings, output_dir@),
                Err(e) => settings::settings_checked(*config, Err(e)),
            },
    {
        let settings = match native_etw_settings(config) {
            Ok(settings) => settings,
            Err(error) => {
                return Err(error);
            },
        };
        Ok(
            NativeEtwCollector {
                trace_path: join(output_dir, "trace.etl"),
                process_path: join(output_dir, "process.jsonl"),
                file_io_path: join(output_dir, "file_io.jsonl"),
                summary_path: join(output_dir, "summary.json"),
                settings,
                session_name: None,
                target_pid: None,
            },
        )
    }
}

/// The files that a collector leaves behind.
pub open spec fn left_behind(c: EtwCollectorView) -> Seq<ArtifactView> {
    seq![ArtifactView { kind: ArtifactKind::ProfileCollectorTrace, path: c.trace_path }] + (
    if c.settings.requests(EtwEventSet::Process) {
        seq![ArtifactView { kind: ArtifactKind::ProfileCollectorEvents, path: c.process_path }]
    } else {
        Seq::empty()
    }) + (if c.settings.requests(EtwEventSet::FileIo) {
        seq![ArtifactView { kind: ArtifactKind::ProfileCollectorEvents, path: c.file_io_path }]
    } else {
        Seq::empty()
    }) + seq![ArtifactView { kind: ArtifactKind::ProfileCollectorSummary, path: c.summary_path }]
}

/// The files of the event sets that were asked for.
pub open spec fn event_files(c: EtwCollectorView) -> Seq<Seq<char>> {
    (if c.settings.requests(EtwEventSet::Process) {
        seq![c.process_path]
    } else {
        Seq::empty()
    }) + (if c.settings.requests(EtwEventSet::FileIo) {
        seq![c.file_io_path]
    } else {
        Seq::empty()
    })
}

/// Those of the texts that are not among others, in their order.
pub open spec fn fresh(texts: Seq<Seq<char>>, others: Seq<Seq<char>>) -> Seq<Seq<char>>
    decreases texts.len(),
{
    if texts.len() == 0 {
        Seq::empty()
    } else if others.contains(texts.last()) {
        fresh(texts.drop_last(), others)
    } else {
        fresh(texts.drop_last(), others).push(texts.last())
    }
}

/// What the end of a collection waits for.
#[derive(Debug)]
pub enum StopPhase {
    /// That the trace session stops.
    StopTrace { pid: Option<u32> },
    /// That the trace is processed.
    PostProcess { pid: Option<u32>, warnings: Vec<String> },
    /// That the event files are emptied.
    EmptyFiles { pid: Option<u32>, warnings: Vec<String> },
    /// That the summary is written.
    WriteSummary { warnings: Vec<String> },
    Done(Result<CollectorStop, DbgFlowError>),
}

/// The mathematical form of what the end of a collection waits for.
pub enum StopPhaseView {
    StopTrace { pid: Option<u32> },
    PostProcess { pid: Option<u32>, warnings: Seq<Seq<char>> },
    EmptyFiles { pid: Option<u32>, warnings: Seq<Seq<char>> },
    WriteSummary { warnings: Seq<Seq<char>> },
    Done(Result<(Seq<ArtifactView>, Seq<Seq<char>>), ErrorView>),
}

impl View for StopPhase {
    type V = StopPhaseView;

    open spec fn view(&self) -> StopPhaseView {
        match *self {
            StopPhase::StopTrace { pid } => StopPhaseView::StopTrace { pid },
            StopPhase::PostProcess { pid, warnings } => StopPhaseView::PostProcess {
                pid,
                warnings: text::views(warnings@),
            },
            StopPhase::EmptyFiles { pid, warnings } => StopPhaseView::EmptyFiles {
                pid,
                warnings: text::views(warnings@),
            },
            StopPhase::WriteSummary { warnings } => StopPhaseView::WriteSummary {
                warnings: text::views(warnings@),
            },
            StopPhase::Done(r) => StopPhaseView::Done(model::stop_view(r)),
        }
    }
}

/// What the outside is asked to do.
#[derive(Debug)]
pub enum StopAsk {
    StopTrace(String),
    /// Process the trace for a target.
    PostProcess(u32),
    /// Leave empty files.
    EmptyFiles(Vec<String>),
    WriteSummary(EtwSummary),
    Nothing,
}

/// The mathematical form of what the outside is asked to do.
pub enum StopAskView {
    StopTrace(Seq<char>),
    PostProcess(u32),
    EmptyFiles(Seq<Seq<char>>),
    WriteSummary(SummaryView),
    Nothing,
}

impl View for StopAsk {
    type V = StopAskView;

    open spec fn view(&self) -> StopAskView {
        match *self {
            StopAsk::StopTrace(s) => StopAskView::StopTrace(s@),
            StopAsk::PostProcess(pid) => StopAskView::PostProcess(pid),
            StopAsk::EmptyFiles(v) => StopAskView::EmptyFiles(text::views(v@)),
            StopAsk::WriteSummary(s) => StopAskView::WriteSummary(s@),
            StopAsk::Nothing => StopAskView::Nothing,
        }
    }
}

/// An answer of the outside.
#[derive(Debug)]
pub enum StopAnswer {
    /// The trace session stopped, with warnings.
    TraceStopped(Result<Vec<String>, DbgFlowError>),
    PostProcessed(Result<EtwSummary, DbgFlowError>),
    FilesEmptied(Result<(), DbgFlowError>),
    SummaryWritten(Result<(), DbgFlowError>),
}

/// The mathematical form of an answer.
pub enum StopAnswerView {
    TraceStopped(Result<Seq<Seq<char>>, ErrorView>),
    PostProcessed(Result<SummaryView, ErrorView>),
    FilesEmptied(Option<ErrorView>),
    SummaryWritten(Option<ErrorView>),
}

/// The view of the error of an outcome, if it is one.
pub open spec fn error_of(r: Result<(), DbgFlowError>) -> Option<ErrorView> {
    match r {
        Ok(_) => None,
        Err(e) => Some(e@),
    }
}

impl View for StopAnswer {
    type V = StopAnswerView;

    open spec fn view(&self) -> StopAnswerView {
        match *self {
            StopAnswer::TraceStopped(r) => StopAnswerView::TraceStopped(
                match r {
                    Ok(w) => Ok(text::views(w@)),
                    Err(e) => Err(e@),
                },
            ),
            StopAnswer::PostProcessed(r) => StopAnswerView::PostProcessed(
                match r {
                    Ok(s) => Ok(s@),
                    Err(e) => Err(e@),
                },
            ),
            StopAnswer::FilesEmptied(r) => StopAnswerView::FilesEmptied(error_of(r)),
            StopAnswer::SummaryWritten(r) => StopAnswerView::SummaryWritten(error_of(r)),
        }
    }
}

/// A step of the end of a collection.
#[derive(Debug)]
pub struct StopStep {
    pub phase: StopPhase,
    pub ask: StopAsk,
}

/// The mathematical form of a step.
pub struct StopStepView {
    pub phase: StopPhaseView,
    pub ask: StopAskView,
}

impl View for StopStep {
    type V = StopStepView;

    open spec fn view(&self) -> StopStepView {
        StopStepView { phase: self.phase@, ask: self.ask@ }
    }
}

/// Warnings with one more if there is an error.
pub open spec fn warned(
    warnings: Seq<Seq<char>>,
    label: Seq<char>,
    error: Option<ErrorView>,
) -> Seq<Seq<char>> {
    match error {
        Some(e) => warnings.push(label + e.text()),
        None => warnings,
    }
}

/// The event files are emptied.
pub open spec fn emptying(
    c: EtwCollectorView,
    pid: Option<u32>,
    warnings: Seq<Seq<char>>,
) -> StopStepView {
    StopStepView {
        phase: StopPhaseView::EmptyFiles { pid, warnings },
        ask: StopAskView::EmptyFiles(event_files(c)),
    }
}

/// The start of the end of a collection: the target that the collector was told of counts
/// before the one that is given now.
pub open spec fn stop_begun(c: EtwCollectorView, given: Option<u32>) -> StopStepView {
    match c.session_name {
        None => StopStepView {
            phase: StopPhaseView::Done(
                Ok((Seq::empty(), seq!["native ETW collector was not started"@])),
            ),
            ask: StopAskView::Nothing,
        },
        Some(name) => StopStepView {
            phase: StopPhaseView::StopTrace {
                pid: if c.target_pid is Some {
                    c.target_pid
                } else {
                    given
                },
            },
            ask: StopAskView::StopTrace(name),
        },
    }
}

/// After the trace session stopped: the trace of a known target is processed.
pub open spec fn trace_stopped(
    c: EtwCollectorView,
    pid: Option<u32>,
    r: Result<Seq<Seq<char>>, ErrorView>,
) -> StopStepView {
    match r {
        Err(e) => StopStepView { phase: StopPhaseView::Done(Err(e)), ask: StopAskView::Nothing },
        Ok(warnings) => match pid {
            Some(target) => StopStepView {
                phase: StopPhaseView::PostProcess { pid, warnings },
                ask: StopAskView::PostProcess(target),
            },
            None => emptying(
                c,
                None,
                warnings.push(
                    "native ETW post-processing skipped because the target pid is unavailable"@,
                ),
            ),
        },
    }
}

/// What an answer leads to. An answer that is not waited for changes nothing.
pub open spec fn stop_after(
    c: EtwCollectorView,
    phase: StopPhaseView,
    answer: StopAnswerView,
) -> StopStepView {
    match (phase, answer) {
        (StopPhaseView::StopTrace { pid }, StopAnswerView::TraceStopped(r)) => trace_stopped(
            c,
            pid,
            r,
        ),
        (StopPhaseView::PostProcess { warnings, .. }, StopAnswerView::PostProcessed(Ok(s))) => {
            StopStepView {
                phase: StopPhaseView::WriteSummary {
                    warnings: warnings + fresh(s.warnings, warnings),
                },
                ask: StopAskView::WriteSummary(s),
            }
        },
        (StopPhaseView::PostProcess { pid, warnings }, StopAnswerView::PostProcessed(Err(e))) => {
            emptying(c, pid, warnings.push("native ETW post-processing failed: "@ + e.text()))
        },
        (StopPhaseView::EmptyFiles { pid, warnings }, StopAnswerView::FilesEmptied(r)) => {
            let all = warned(warnings, "native ETW events fallback write failed: "@, r);
            StopStepView {
                phase: StopPhaseView::WriteSummary { warnings: all },
                ask: StopAskView::WriteSummary(summary::empty_summary(pid, c.settings, all)),
            }
        },
        (StopPhaseView::WriteSummary { warnings }, StopAnswerView::SummaryWritten(r)) => {
            StopStepView {
                phase: StopPhaseView::Done(
                    Ok((left_behind(c), warned(warnings, "native ETW summary write failed: "@, r))),
                ),
                ask: StopAskView::Nothing,
            }
        },
        _ => StopStepView { phase, ask: StopAskView::Nothing },
    }
}

/// The collector after an answer: a session that stopped no longer runs.
pub open spec fn collector_after(
    c: EtwCollectorView,
    phase: StopPhaseView,
    answer: StopAnswerView,
) -> EtwCollectorView {
    match (phase, answer) {
        (StopPhaseView::StopTrace { .. }, StopAnswerView::TraceStopped(Ok(_))) => {
            EtwCollectorView { session_name: None, ..c }
        },
        _ => c,
    }
}

/// Appends those of the texts that are not there yet.
fn append_fresh(warnings: Vec<String>, texts: &Vec<String>) -> (r: Vec<String>)
    ensures
        text::views(r@) == text::views(warnings@) + fresh(
            text::views(texts@),
            text::views(warnings@),
        ),
{
    let mut r = copy_texts(&warnings);
    let ghost all = text::views(texts@);
    let ghost base = text::views(warnings@);
    let mut i: usize = 0;
    assert(base + fresh(all.take(0), base) =~= base);
    while i < texts.len()
        invariant
            i <= texts@.len(),
            all == text::views(texts@),
            base == text::views(warnings@),
            text::views(r@) == base + fresh(all.take(i as int), base),
        decreases texts@.len() - i,
    {
        assert(all.take(i as int + 1).drop_last() =~= all.take(i as int));
        assert(all.take(i as int + 1).last() == texts@[i as int]@);
        let ghost before = r@;
        if !is_among(texts[i].as_str(), warnings.as_slice()) {
            r.push(texts[i].clone());
            assert(text::views(r@) =~= text::views(before).push(texts@[i as int]@));
            assert(text::views(r@) =~= base + fresh(all.take(i as int + 1), base));
        }
        i += 1;
    }
    assert(all.take(all.len() as int) =~= all);
    r
}

fn push_warning(warnings: &mut Vec<String>, warning: String)
    ensures
        text::views(final(warnings)@) == text::views(old(warnings)@).push(warning@),
{
    warnings.push(warning);
    assert(text::views(warnings@) =~= text::views(old(warnings)@).push(warning@));
}

fn push_error(warnings: &mut Vec<String>, label: &str, r: Result<(), DbgFlowError>)
    ensures
        text::views(final(warnings)@) == warned(text::views(old(warnings)@), label@, error_of(r)),
{
    match r {
        Ok(()) => {},
        Err(error) => {
            push_warning(warnings, cat2(label, error.message().as_str()));
        },
    }
}

impl NativeEtwCollector {
    /// The name of the trace session that is to be started, for a fresh identifier.
    pub fn session_to_start(&self, id: SessionId) -> (r: Result<String, DbgFlowError>)
        ensures
            match r {
                Ok(name) => self@.session_name is None && name@ == "dbgflow-profile-"@
                    + ids::uuid_text(id.0),
                Err(e) => self@.session_name is Some && e@ == ErrorView::Backend(
                    "native ETW collector already started"@,
                ),
            },
    {
        if self.session_name.is_some() {
            return Err(DbgFlowError::backend("native ETW collector already started"));
        }
        Ok(cat2("dbgflow-profile-", id.to_text().as_str()))
    }

    /// Notes that a trace session was started. The target is not known then.
    pub fn session_started(&mut self, session_name: String)
        ensures
            final(self)@ == (EtwCollectorView {
                session_name: Some(session_name@),
                target_pid: None,
                ..old(self)@
            }),
    {
        self.session_name = Some(session_name);
        self.target_pid = None;
    }

    /// Notes the target.
    pub fn target_started(&mut self, target_pid: u32)
        ensures
            final(self)@ == (EtwCollectorView { target_pid: Some(target_pid), ..old(self)@ }),
    {
        self.target_pid = Some(target_pid);
    }

    /// The files that the collector leaves behind.
    pub fn collector_artifacts(&self) -> (r: Vec<ArtifactRef>)
        ensures
            artifact::artifacts_view(r@) == left_behind(self@),
    {
        let mut r: Vec<ArtifactRef> = Vec::new();
        r.push(
            ArtifactRef {
                kind: ArtifactKind::ProfileCollectorTrace,
                path: self.trace_path.clone(),
            },
        );
        if self.settings.includes(EtwEventSet::Process) {
            r.push(
                ArtifactRef {
                    kind: ArtifactKind::ProfileCollectorEvents,
                    path: self.process_path.clone(),
                },
            );
        }
        if self.settings.includes(EtwEventSet::FileIo) {
            r.push(
                ArtifactRef {
                    kind: ArtifactKind::ProfileCollectorEvents,
                    path: self.file_io_path.clone(),
                },
            );
        }
        r.push(
            ArtifactRef {
                kind: ArtifactKind::ProfileCollectorSummary,
                path: self.summary_path.clone(),
            },
        );
        assert(artifact::artifacts_view(r@) =~= left_behind(self@));
        r
    }

    /// The files of the event sets that were asked for.
    pub fn event_set_files(&self) -> (r: Vec<String>)
        ensures
            text::views(r@) == event_files(self@),
    {
        let mut r: Vec<String> = Vec::new();
        if self.settings.includes(EtwEventSet::Process) {
            r.push(self.process_path.clone());
        }
        if self.settings.includes(EtwEventSet::FileIo) {
            r.push(self.file_io_path.clone());
        }
        assert(text::views(r@) =~= event_files(self@));
        r
    }

    fn empty_files(&self, pid: Option<u32>, warnings: Vec<String>) -> (r: StopStep)
        ensures
            r@ == emptying(self@, pid, text::views(warnings@)),
    {
        let ask = StopAsk::EmptyFiles(self.event_set_files());
        StopStep { phase: StopPhase::EmptyFiles { pid, warnings }, ask }
    }

    /// Begins to stop the collection.
    pub fn begin_stop(&self, target_pid: Option<u32>) -> (r: StopStep)
        ensures
            r@ == stop_begun(self@, target_pid),
    {
        match &self.session_name {
            None => {
                let warnings: Vec<String> = vec![
                    "native ETW collector was not started".to_owned(),
                ];
                let artifacts: Vec<ArtifactRef> = Vec::new();
                assert(text::views(warnings@) =~= seq!["native ETW collector was not started"@]);
                assert(artifact::artifacts_view(artifacts@) =~= Seq::<ArtifactView>::empty());
                StopStep {
                    phase: StopPhase::Done(Ok(CollectorStop { artifacts, warnings })),
                    ask: StopAsk::Nothing,
                }
            },
            Some(name) => StopStep {
                phase: StopPhase::StopTrace {
                    pid: if self.target_pid.is_some() {
                        self.target_pid
                    } else {
                        target_pid
                    },
                },
                ask: StopAsk::StopTrace(name.clone()),
            },
        }
    }

    /// Takes an answer of the outside in.
    pub fn answer(&mut self, phase: StopPhase, answer: StopAnswer) -> (r: StopStep)
        ensures
            r@ == stop_after(old(self)@, phase@, answer@),
            final(self)@ == collector_after(old(self)@, phase@, answer@),
    {
        match (phase, answer) {
            (StopPhase::StopTrace { pid }, StopAnswer::TraceStopped(r)) => {
                let mut warnings = match r {
                    Ok(warnings) => warnings,
                    Err(error) => {
                        return StopStep {
                            phase: StopPhase::Done(Err(error)),
                            ask: StopAsk::Nothing,
                        };
                    },
                };
                self.session_name = None;
                match pid {
                    Some(target) => StopStep {
                        phase: StopPhase::PostProcess { pid, warnings },
                        ask: StopAsk::PostProcess(target),
                    },
                    None => {
                        push_warning(
                            &mut warnings,
                            "native ETW post-processing skipped because the target pid is unavailable".to_owned(),
                        );
                        self.empty_files(None, warnings)
                    },
                }
            },
            (StopPhase::PostProcess { pid, warnings }, StopAnswer::PostProcessed(r)) => match r {
                Ok(summary) => {
                    let warnings = append_fresh(warnings, &summary.warnings);
                    StopStep {
                        phase: StopPhase::WriteSummary { warnings },
                        ask: StopAsk::WriteSummary(summary),
                    }
                },
                Err(error) => {
                    let mut warnings = warnings;
                    push_warning(
                        &mut warnings,
                        cat2("native ETW post-processing failed: ", error.message().as_str()),
                    );
                    self.empty_files(pid, warnings)
                },
            },
            (StopPhase::EmptyFiles { pid, warnings }, StopAnswer::FilesEmptied(r)) => {
                let mut warnings = warnings;
                push_error(&mut warnings, "native ETW events fallback write failed: ", r);
                let summary = EtwSummary::empty(pid, self.settings, copy_texts(&warnings));
                StopStep {
                    phase: StopPhase::WriteSummary { warnings },
                    ask: StopAsk::WriteSummary(summary),
                }
            },
            (StopPhase::WriteSummary { warnings }, StopAnswer::SummaryWritten(r)) => {
                let mut warnings = warnings;
                push_error(&mut warnings, "native ETW summary write failed: ", r);
                let artifacts = self.collector_artifacts();
                StopStep {
                    phase: StopPhase::Done(Ok(CollectorStop { artifacts, warnings })),
                    ask: StopAsk::Nothing,
                }
            },
            (phase, _) => StopStep { phase, ask: StopAsk::Nothing },
        }
    }

    /// The trace session that a clean-up has to stop.
    pub fn session_to_clean(&self) -> (r: Option<String>)
        ensures
            text::view_opt(r) == self@.session_name,
    {
        copy_opt(&self.session_name)
    }

    /// Notes whether the clean-up stopped the session. Otherwise it still runs.
    pub fn session_cleaned(&mut self, stopped: bool)
        ensures
            final(self)@ == (if stopped {
                EtwCollectorView { session_name: None, ..old(self)@ }
            } else {
                old(self)@
            }),
    {
        if stopped {
            self.session_name = None;
        }
    }
}

/// Once the trace session has stopped, the collection ends well whatever else fails: the files
/// are reported, and what failed is a warning.
pub proof fn stopped_collections_end_well(
    c: EtwCollectorView,
    phase: StopPhaseView,
    answer: StopAnswerView,
)
    requires
        !(phase is StopTrace),
        !(phase is Done),
    ensures
        stop_after(c, phase, answer).phase matches StopPhaseView::Done(r) ==> (r matches Ok(left)
            && left.0 == left_behind(c)),
{
}

/// No warning is lost on the way to the report.
pub proof fn warnings_are_kept(
    c: EtwCollectorView,
    warnings: Seq<Seq<char>>,
    pid: Option<u32>,
    processed: Result<SummaryView, ErrorView>,
    emptied: Option<ErrorView>,
    written: Option<ErrorView>,
    w: Seq<char>,
)
    requires
        warnings.contains(w),
    ensures
        ({
            let step = stop_after(
                c,
                StopPhaseView::PostProcess { pid, warnings },
                StopAnswerView::PostProcessed(processed),
            );
            match step.phase {
                StopPhaseView::WriteSummary { warnings } => warnings.contains(w),
                StopPhaseView::EmptyFiles { warnings, .. } => warnings.contains(w),
                _ => false,
            }
        }),
        stop_after(
            c,
            StopPhaseView::EmptyFiles { pid, warnings },
            StopAnswerView::FilesEmptied(emptied),
        ).phase matches StopPhaseView::WriteSummary { warnings: all } && all.contains(w),
        stop_after(
            c,
            StopPhaseView::WriteSummary { warnings },
            StopAnswerView::SummaryWritten(written),
        ).phase matches StopPhaseView::Done(Ok(left)) && left.1.contains(w),
{
    let i = choose|i: int| 0 <= i < warnings.len() && warnings[i] == w;
    match processed {
        Ok(s) => {
            assert((warnings + fresh(s.warnings, warnings))[i] == w);
        },
        Err(e) => {
            assert(warnings.push("native ETW post-processing failed: "@ + e.text())[i] == w);
        },
    }
    assert(warned(warnings, "native ETW events fallback write failed: "@, emptied)[i] == w);
    assert(warned(warnings, "native ETW summary write failed: "@, written)[i] == w);
}

} // verus!
