//! The summary of a processed trace and the final resolution of stacks.

use crate::etw::counts::EventCounts;
use crate::etw::decode::{
    decode_file_io_event, decode_lifecycle_event, decode_stack_walk_event, EtwRecord,
};
use crate::etw::model::{EtwView, SetSummaryView, StackStats, SummaryView};
use crate::etw::processor::{
    file_io_count_map, lifecycle_count_map, EtwProcessor,
};
use crate::etw::settings::{EtwEventSet, NativeEtwSettings};
use crate::etw::stack::{resolve_stack_addresses, ModuleInterval, StackFrame};
use crate::etw::{decode, invariants, model, stack};
use crate::text;
use crate::text::{cat3, decimal_text, join_texts, same};
use vstd::prelude::*;

verus! {

/// The summary of one event set.
#[derive(Debug)]
pub struct EtwEventSetSummary {
    pub event_counts: EventCounts,
    pub stack_frames_total: u64,
    pub stack_frames_resolved: u64,
    pub stack_frames_unresolved: u64,
    pub file_path_resolved: Option<u64>,
    pub file_path_unresolved: Option<u64>,
    pub matched_op_end_count: Option<u64>,
    pub unmatched_op_end_count: Option<u64>,
    pub incomplete_io_count: Option<u64>,
    pub reused_irp_without_op_end_count: Option<u64>,
}

/// The summary of a trace.
#[derive(Debug)]
pub struct EtwSummary {
    pub target_pid: Option<u32>,
    pub requested_event_sets: Vec<&'static str>,
    pub stacks_enabled: bool,
    pub process: Option<EtwEventSetSummary>,
    pub file_io: Option<EtwEventSetSummary>,
    pub warnings: Vec<String>,
}

/// An optional count as a number.
pub open spec fn nat_opt(o: Option<u64>) -> Option<nat> {
    match o {
        Some(n) => Some(n as nat),
        None => None,
    }
}

impl View for EtwEventSetSummary {
    type V = SetSummaryView;

    open spec fn view(&self) -> SetSummaryView {
        SetSummaryView {
            event_counts: self.event_counts@,
            stack_frames_total: self.stack_frames_total as nat,
            stack_frames_resolved: self.stack_frames_resolved as nat,
            stack_frames_unresolved: self.stack_frames_unresolved as nat,
            file_path_resolved: nat_opt(self.file_path_resolved),
            file_path_unresolved: nat_opt(self.file_path_unresolved),
            matched_op_end_count: nat_opt(self.matched_op_end_count),
            unmatched_op_end_count: nat_opt(self.unmatched_op_end_count),
            incomplete_io_count: nat_opt(self.incomplete_io_count),
            reused_irp_without_op_end_count: nat_opt(self.reused_irp_without_op_end_count),
        }
    }
}

/// The view of an optional summary of one event set.
pub open spec fn set_view(o: Option<EtwEventSetSummary>) -> Option<SetSummaryView> {
    match o {
        Some(s) => Some(s@),
        None => None,
    }
}

impl View for EtwSummary {
    type V = SummaryView;

    open spec fn view(&self) -> SummaryView {
        SummaryView {
            target_pid: self.target_pid,
            requested_event_sets: self.requested_event_sets@.map_values(|s: &'static str| s@),
            stacks_enabled: self.stacks_enabled,
            process: set_view(self.process),
            file_io: set_view(self.file_io),
            warnings: text::views(self.warnings@),
        }
    }
}

impl EtwEventSetSummary {
    /// The summary of lifecycle events.
    pub fn lifecycle(event_counts: EventCounts, stack: StackStats) -> (r: EtwEventSetSummary)
        ensures
            r@ == model::lifecycle_summary(event_counts@, stack),
    {
        EtwEventSetSummary {
            event_counts,
            stack_frames_total: stack.total,
            stack_frames_resolved: stack.resolved,
            stack_frames_unresolved: stack.unresolved,
            file_path_resolved: None,
            file_path_unresolved: None,
            matched_op_end_count: None,
            unmatched_op_end_count: None,
            incomplete_io_count: None,
            reused_irp_without_op_end_count: None,
        }
    }

    /// The summary of file events.
    pub fn file_io(
        event_counts: EventCounts,
        stack: StackStats,
        file_path_resolved: u64,
        file_path_unresolved: u64,
        matched_op_end_count: u64,
        unmatched_op_end_count: u64,
        incomplete_io_count: u64,
        reused_irp_without_op_end_count: u64,
    ) -> (r: EtwEventSetSummary)
        ensures
            r@ == (SetSummaryView {
                file_path_resolved: Some(file_path_resolved as nat),
                file_path_unresolved: Some(file_path_unresolved as nat),
                matched_op_end_count: Some(matched_op_end_count as nat),
                unmatched_op_end_count: Some(unmatched_op_end_count as nat),
                incomplete_io_count: Some(incomplete_io_count as nat),
                reused_irp_without_op_end_count: Some(reused_irp_without_op_end_count as nat),
                ..model::lifecycle_summary(event_counts@, stack)
            }),
    {
        EtwEventSetSummary {
            event_counts,
            stack_frames_total: stack.total,
            stack_frames_resolved: stack.resolved,
            stack_frames_unresolved: stack.unresolved,
            file_path_resolved: Some(file_path_resolved),
            file_path_unresolved: Some(file_path_unresolved),
            matched_op_end_count: Some(matched_op_end_count),
            unmatched_op_end_count: Some(unmatched_op_end_count),
            incomplete_io_count: Some(incomplete_io_count),
            reused_irp_without_op_end_count: Some(reused_irp_without_op_end_count),
        }
    }
}

/// The summary of a trace of which no event was processed.
pub open spec fn empty_summary(
    target_pid: Option<u32>,
    settings: NativeEtwSettings,
    warnings: Seq<Seq<char>>,
) -> SummaryView {
    SummaryView {
        target_pid,
        warnings,
        ..EtwView::initial(0, settings).summary()
    }
}

impl EtwSummary {
    /// The summary of a trace of which no event was processed.
    pub fn empty(
        target_pid: Option<u32>,
        settings: NativeEtwSettings,
        warnings: Vec<String>,
    ) -> (r: EtwSummary)
        ensures
            r@ == empty_summary(target_pid, settings, text::views(warnings@)),
    {
        let zero = StackStats { total: 0, resolved: 0, unresolved: 0 };
        let process = if settings.includes(EtwEventSet::Process) {
            Some(EtwEventSetSummary::lifecycle(lifecycle_count_map(), zero))
        } else {
            None
        };
        let file_io = if settings.includes(EtwEventSet::FileIo) {
            Some(EtwEventSetSummary::file_io(file_io_count_map(), zero, 0, 0, 0, 0, 0, 0))
        } else {
            None
        };
        assert(EtwView::initial(0, settings).pending_irps.dom() =~= Set::empty());
        assert(EtwView::initial(0, settings).pending_irps.len() == 0);
        EtwSummary {
            target_pid,
            requested_event_sets: settings.event_set_names(),
            stacks_enabled: settings.stacks_enabled,
            process,
            file_io,
            warnings,
        }
    }

    /// The summary of the event set with the given name.
    pub fn event_set(&self, name: &str) -> (r: Option<&EtwEventSetSummary>)
        ensures
            (match r {
                Some(s) => Some(s@),
                None => None,
            }) == if name@ == "process"@ {
                self@.process
            } else if name@ == "file_io"@ {
                self@.file_io
            } else {
                None
            },
    {
        if same(name, "process") {
            self.process.as_ref()
        } else if same(name, "file_io") {
            self.file_io.as_ref()
        } else {
            None
        }
    }
}

proof fn resolved_count_bound(frames: Seq<stack::FrameView>)
    ensures
        model::resolved_count(frames) <= frames.len(),
    decreases frames.len(),
{
    if frames.len() > 0 {
        resolved_count_bound(frames.drop_last());
    }
}

/// Resolves one stack, counts its frames and turns it outermost first.
pub fn finalize_stack(
    addresses: &[u64],
    modules: &[ModuleInterval],
    timestamp: i64,
    stats: &mut StackStats,
) -> (r: Vec<String>)
    requires
        model::balanced(*old(stats)),
        old(stats).total + addresses@.len() <= u64::MAX,
    ensures
        text::views(r@) == model::stack_texts(
            stack::frames_of(stack::module_views(modules@), addresses@, timestamp),
        ),
        *final(stats) == model::stats_with(
            *old(stats),
            stack::frames_of(stack::module_views(modules@), addresses@, timestamp),
        ),
        model::balanced(*final(stats)),
        final(stats).total == old(stats).total + addresses@.len(),
{
    let frames = resolve_stack_addresses(addresses, modules, timestamp);
    let ghost all = frames@.map_values(|f: StackFrame| f@);
    let count: usize = frames.len();
    let mut out: Vec<String> = Vec::new();
    let mut resolved: u64 = 0;
    let mut i: usize = 0;
    while i < count
        invariant
            i <= count,
            count == frames@.len(),
            all == frames@.map_values(|f: StackFrame| f@),
            resolved <= i,
            resolved == model::resolved_count(all.take(i as int)),
            out@.len() == i,
            forall|j: int| 0 <= j < i ==> (#[trigger] out@[j])@ == all[count - 1 - j].value,
        decreases count - i,
    {
        if frames[i].resolved {
            resolved += 1;
        }
        out.push(frames[count - 1 - i].value.clone());
        i += 1;
        assert(all.take(i as int).drop_last() =~= all.take(i as int - 1));
        assert(all.take(i as int).last() == frames@[i as int - 1]@);
    }
    assert(all.take(count as int) =~= all);
    assert(text::views(out@) =~= model::stack_texts(all));
    proof {
        resolved_count_bound(all);
    }
    *stats = StackStats {
        total: stats.total + count as u64,
        resolved: stats.resolved + resolved,
        unresolved: stats.unresolved + (count as u64 - resolved),
    };
    out
}

proof fn frames_in_monotone(stacks: Seq<Seq<u64>>, a: int, b: int)
    requires
        a <= b,
    ensures
        model::frames_in(stacks, a) <= model::frames_in(stacks, b),
    decreases b - a,
{
    if a < b {
        frames_in_monotone(stacks, a, b - 1);
    }
}

impl EtwProcessor {
    /// Resolves the stacks of all events against the modules that were loaded at their time.
    pub fn finalize_stacks(&mut self, stacks_enabled: bool)
        requires
            old(self)@.well_formed(),
            old(self)@.lifecycle_stats.total + model::frames_in(
                old(self)@.lifecycle_addresses,
                old(self)@.lifecycle.len() as int,
            ) <= u64::MAX,
            old(self)@.file_io_stats.total + model::frames_in(
                old(self)@.file_io_addresses,
                old(self)@.file_io.len() as int,
            ) <= u64::MAX,
        ensures
            final(self)@ == old(self)@.finalized(stacks_enabled),
            final(self)@.well_formed(),
    {
        self.finalize_lifecycle_stacks();
        self.finalize_file_io_stacks();
        let ghost done = self@;
        if stacks_enabled && self.stack_walk_events > 0 && self.matched_stack_walk_events == 0 {
            let mut warning = cat3(
                "native ETW saw ",
                decimal_text(self.stack_walk_events).as_str(),
                " StackWalk events but none matched filtered target events; lifecycle_samples=[",
            );
            warning.append(join_texts(self.lifecycle_match_samples.as_slice(), "; ").as_str());
            warning.append("]; stack_samples=[");
            warning.append(join_texts(self.stack_walk_match_samples.as_slice(), "; ").as_str());
            warning.append("]");
            assert(warning@ == done.unmatched_walks_warning());
            self.warnings.push(warning);
            assert(self@.warnings =~= done.warnings.push(warning@));
        }
        if stacks_enabled && self.dropped_pending_stack_walk_events > 0 {
            let ghost before = self@.warnings;
            let warning = cat3(
                "native ETW dropped ",
                decimal_text(self.dropped_pending_stack_walk_events).as_str(),
                " unmatched StackWalk events while bounding the pending stack cache",
            );
            self.warnings.push(warning);
            assert(self@.warnings =~= before.push(warning@));
        }
        assert(self@.warnings == old(self)@.stack_warnings(stacks_enabled));
        assert(self@ =~= old(self)@.finalized(stacks_enabled));
    }

    fn finalize_lifecycle_stacks(&mut self)
        requires
            old(self)@.well_formed(),
            old(self)@.lifecycle_stats.total + model::frames_in(
                old(self)@.lifecycle_addresses,
                old(self)@.lifecycle.len() as int,
            ) <= u64::MAX,
        ensures
            final(self)@ == (EtwView {
                lifecycle: old(self)@.lifecycle_with_stacks(),
                lifecycle_stats: model::stats_over(
                    old(self)@.lifecycle_stats,
                    old(self)@.modules,
                    old(self)@.lifecycle_addresses,
                    old(self)@.lifecycle_timestamps,
                    old(self)@.lifecycle.len() as int,
                ),
                ..old(self)@
            }),
            final(self)@.well_formed(),
    {
        let ghost start = self@;
        let ghost n = self@.lifecycle.len() as int;
        let mut i: usize = 0;
        while i < self.lifecycle_events.len()
            invariant
                start == old(self)@,
                start.well_formed(),
                n == start.lifecycle.len(),
                i <= n,
                self@.lifecycle.len() == n,
                self@ == (EtwView {
                    lifecycle: self@.lifecycle,
                    lifecycle_stats: self@.lifecycle_stats,
                    ..start
                }),
                forall|j: int|
                    0 <= j < i ==> #[trigger] self@.lifecycle[j] == start.lifecycle_with_stacks()[j],
                forall|j: int| i <= j < n ==> #[trigger] self@.lifecycle[j] == start.lifecycle[j],
                self@.lifecycle_stats == model::stats_over(
                    start.lifecycle_stats,
                    start.modules,
                    start.lifecycle_addresses,
                    start.lifecycle_timestamps,
                    i as int,
                ),
                model::balanced(self@.lifecycle_stats),
                self@.lifecycle_stats.total == start.lifecycle_stats.total + model::frames_in(
                    start.lifecycle_addresses,
                    i as int,
                ),
                start.lifecycle_stats.total + model::frames_in(start.lifecycle_addresses, n)
                    <= u64::MAX,
            decreases n - i,
        {
            proof {
                frames_in_monotone(start.lifecycle_addresses, i as int + 1, n);
            }
            let ghost before = self@.lifecycle;
            let mut stats = self.lifecycle_stack_stats;
            let texts = finalize_stack(
                self.lifecycle_stack_addresses[i].as_slice(),
                self.modules.as_slice(),
                self.lifecycle_timestamps[i],
                &mut stats,
            );
            self.lifecycle_stack_stats = stats;
            self.lifecycle_events[i].stack = texts;
            assert(before[i as int] == start.lifecycle[i as int]);
            assert(self.lifecycle_events@[i as int]@ =~= start.lifecycle_with_stacks()[i as int]);
            assert(self@.lifecycle =~= before.update(
                i as int,
                start.lifecycle_with_stacks()[i as int],
            ));
            i += 1;
        }
        assert(self@.lifecycle =~= start.lifecycle_with_stacks());
    }

    fn finalize_file_io_stacks(&mut self)
        requires
            old(self)@.well_formed(),
            old(self)@.file_io_stats.total + model::frames_in(
                old(self)@.file_io_addresses,
                old(self)@.file_io.len() as int,
            ) <= u64::MAX,
        ensures
            final(self)@ == (EtwView {
                file_io: old(self)@.file_io_with_stacks(),
                file_io_stats: model::stats_over(
                    old(self)@.file_io_stats,
                    old(self)@.modules,
                    old(self)@.file_io_addresses,
                    old(self)@.file_io_timestamps,
                    old(self)@.file_io.len() as int,
                ),
                ..old(self)@
            }),
            final(self)@.well_formed(),
    {
        let ghost start = self@;
        let ghost n = self@.file_io.len() as int;
        let mut i: usize = 0;
        while i < self.file_io_events.len()
            invariant
                start == old(self)@,
                start.well_formed(),
                n == start.file_io.len(),
                i <= n,
                self@.file_io.len() == n,
                self@ == (EtwView {
                    file_io: self@.file_io,
                    file_io_stats: self@.file_io_stats,
                    ..start
                }),
                forall|j: int|
                    0 <= j < i ==> #[trigger] self@.file_io[j] == start.file_io_with_stacks()[j],
                forall|j: int| i <= j < n ==> #[trigger] self@.file_io[j] == start.file_io[j],
                self@.file_io_stats == model::stats_over(
                    start.file_io_stats,
                    start.modules,
                    start.file_io_addresses,
                    start.file_io_timestamps,
                    i as int,
                ),
                model::balanced(self@.file_io_stats),
                self@.file_io_stats.total == start.file_io_stats.total + model::frames_in(
                    start.file_io_addresses,
                    i as int,
                ),
                start.file_io_stats.total + model::frames_in(start.file_io_addresses, n)
                    <= u64::MAX,
            decreases n - i,
        {
            proof {
                frames_in_monotone(start.file_io_addresses, i as int + 1, n);
            }
            let ghost before = self@.file_io;
            let mut stats = self.file_io_stack_stats;
            let texts = finalize_stack(
                self.file_io_stack_addresses[i].as_slice(),
                self.modules.as_slice(),
                self.file_io_timestamps[i],
                &mut stats,
            );
            self.file_io_stack_stats = stats;
            self.file_io_events[i].stack = texts;
            assert(before[i as int] == start.file_io[i as int]);
            assert(self.file_io_events@[i as int]@ =~= start.file_io_with_stacks()[i as int]);
            assert(self@.file_io =~= before.update(
                i as int,
                start.file_io_with_stacks()[i as int],
            ));
            i += 1;
        }
        assert(self@.file_io =~= start.file_io_with_stacks());
        proof {
            invariants::counts_agree(start.file_io, self@.file_io);
            assert forall|irp: u64| #[trigger] self@.pending_irps.contains_key(
                irp,
            ) implies self@.waits(irp) by {
                assert(start.waits(irp));
            }
        }
    }

    /// Closes the books: warnings about what stayed open, and the summary.
    pub fn finish(self) -> (r: EtwSummary)
        requires
            self@.well_formed(),
        ensures
            r@ == self@.summary(),
    {
        let ghost start = self@;
        let mut warnings = self.warnings;
        if self.file_path_unresolved > 0 {
            push_count_warning(
                &mut warnings,
                "native ETW file_io left ",
                self.file_path_unresolved,
                " target file events without a resolved path",
            );
        }
        if self.unmatched_op_end_count > 0 {
            push_count_warning(
                &mut warnings,
                "native ETW file_io saw ",
                self.unmatched_op_end_count,
                " target OpEnd events without a matching begin event",
            );
        }
        if self.reused_irp_without_op_end_count > 0 {
            push_count_warning(
                &mut warnings,
                "native ETW file_io saw ",
                self.reused_irp_without_op_end_count,
                " reused IrpPtr values before a matching OpEnd",
            );
        }
        let incomplete: u64 = self.pending_file_irps.len() as u64
            + self.reused_irp_without_op_end_count;
        if incomplete > 0 {
            push_count_warning(
                &mut warnings,
                "native ETW file_io left ",
                incomplete,
                " begin events without a matching OpEnd",
            );
        }
        assert(text::views(warnings@) == start.final_warnings());
        let process = if self.settings.includes(EtwEventSet::Process) {
            Some(
                EtwEventSetSummary::lifecycle(
                    self.lifecycle_event_counts,
                    self.lifecycle_stack_stats,
                ),
            )
        } else {
            None
        };
        let file_io = if self.settings.includes(EtwEventSet::FileIo) {
            Some(
                EtwEventSetSummary::file_io(
                    self.file_io_event_counts,
                    self.file_io_stack_stats,
                    self.file_path_resolved,
                    self.file_path_unresolved,
                    self.matched_op_end_count,
                    self.unmatched_op_end_count,
                    incomplete,
                    self.reused_irp_without_op_end_count,
                ),
            )
        } else {
            None
        };
        EtwSummary {
            target_pid: Some(self.target_pid),
            requested_event_sets: self.settings.event_set_names(),
            stacks_enabled: self.settings.stacks_enabled,
            process,
            file_io,
            warnings,
        }
    }
}

fn push_count_warning(warnings: &mut Vec<String>, head: &str, count: u64, tail: &str)
    ensures
        text::views(final(warnings)@) == text::views(old(warnings)@).push(
            head@ + text::decimal(count as nat) + tail@,
        ),
{
    let warning = cat3(head, decimal_text(count).as_str(), tail);
    warnings.push(warning);
    assert(text::views(warnings@) =~= text::views(old(warnings)@).push(warning@));
}

/// The state after a raw record: a stack walk, or else a lifecycle event, or else a file
/// event if file events were asked for. Other records change nothing but, where a lifecycle
/// record cannot be read, the warnings.
pub open spec fn after_record(v: EtwView, record: decode::RecordView) -> EtwView {
    if decode::stack_walk_event(record) is Some {
        v.after_stack_walk(decode::stack_walk_event(record)->0)
    } else {
        let warned = EtwView {
            warnings: model::push_if(
                v.warnings,
                decode::anonymous_image_event(record),
                "image event skipped because ProcessId is unavailable"@,
            ),
            ..v
        };
        if decode::lifecycle_event(record) is Some {
            warned.after_lifecycle(decode::lifecycle_event(record)->0)
        } else if v.settings.requests(EtwEventSet::FileIo) && decode::file_io_event(
            record,
        ) is Some {
            warned.after_file_io(decode::file_io_event(record)->0)
        } else {
            warned
        }
    }
}

impl EtwProcessor {
    /// Takes in a raw record.
    pub fn process_record(&mut self, record: &EtwRecord)
        requires
            old(self)@.well_formed(),
            old(self)@.walk_events < u64::MAX,
            old(self)@.raw_sequence < u64::MAX,
        ensures
            final(self)@ == after_record(old(self)@, record@),
            final(self)@.well_formed(),
    {
        if let Some(walk) = decode_stack_walk_event(record) {
            self.process_stack_walk_event(walk);
            return ;
        }
        let decoded = decode_lifecycle_event(record, &mut self.warnings);
        proof {
            invariants::warnings_keep_well_formed(old(self)@, self@.warnings);
        }
        assert(self@ =~= (EtwView { warnings: self@.warnings, ..old(self)@ }));
        if let Some(event) = decoded {
            self.process_lifecycle_event(event);
            return ;
        }
        if self.settings.includes(EtwEventSet::FileIo) {
            if let Some(event) = decode_file_io_event(record) {
                self.process_file_io_event(event);
            }
        }
    }
}

} // verus!
