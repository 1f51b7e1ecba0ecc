//! The mathematical model of event correlation: what each kind of event does to the state.

use crate::etw::counts;
use crate::etw::decode::{FileIoInput, LifecycleInput, StackWalkInput};
use crate::etw::pending;
use crate::etw::settings::{EtwEventSet, NativeEtwSettings};
use crate::etw::stack;
use crate::etw::stack::{FrameView, ModuleView};
use crate::text;
use vstd::prelude::*;

verus! {

/// Which list of events a stack belongs to.
#[derive(Debug, Clone, Copy, PartialEq, Eq, Structural)]
pub enum StackTargetKind {
    Lifecycle,
    FileIo,
}

/// An event that a stack can be attached to.
#[derive(Debug, Clone, Copy, PartialEq, Eq, Structural)]
pub struct StackTarget {
    pub kind: StackTargetKind,
    pub index: usize,
}

/// Counts of stack frames.
#[derive(Debug, Clone, Copy, PartialEq, Eq, Structural)]
pub struct StackStats {
    pub total: u64,
    pub resolved: u64,
    pub unresolved: u64,
}

/// The mathematical form of a lifecycle event of the output.
#[verifier::ext_equal]
pub struct LifecycleView {
    pub sequence: nat,
    pub event_set: Seq<char>,
    pub event: Seq<char>,
    pub pid: u32,
    pub tid: Option<u32>,
    pub parent_pid: Option<u32>,
    pub image_path: Option<Seq<char>>,
    pub image_base: Option<Seq<char>>,
    pub image_size: Option<Seq<char>>,
    pub stack: Seq<Seq<char>>,
}

/// The mathematical form of a file event of the output.
#[verifier::ext_equal]
pub struct FileIoView {
    pub sequence: nat,
    pub event_set: Seq<char>,
    pub event: Seq<char>,
    pub pid: u32,
    pub tid: Option<u32>,
    pub ttid: Option<u32>,
    pub path: Option<Seq<char>>,
    pub path_source: Option<Seq<char>>,
    pub file_object: Option<Seq<char>>,
    pub file_key: Option<Seq<char>>,
    pub irp_ptr: Option<Seq<char>>,
    pub offset: Option<Seq<char>>,
    pub io_size: Option<u64>,
    pub io_flags: Option<Seq<char>>,
    pub create_options: Option<Seq<char>>,
    pub file_attributes: Option<Seq<char>>,
    pub share_access: Option<Seq<char>>,
    pub info_class: Option<u32>,
    pub extra_info: Option<Seq<char>>,
    pub nt_status: Option<Seq<char>>,
    pub stack: Seq<Seq<char>>,
    pub completion_pid: Option<u32>,
    pub completion_tid: Option<u32>,
    pub completion_sequence: Option<nat>,
}

/// The mathematical form of the correlation state.
#[verifier::ext_equal]
pub struct EtwView {
    pub target_pid: u32,
    pub settings: NativeEtwSettings,
    pub lifecycle: Seq<LifecycleView>,
    pub lifecycle_timestamps: Seq<i64>,
    pub lifecycle_threads: Seq<u32>,
    pub lifecycle_addresses: Seq<Seq<u64>>,
    pub file_io: Seq<FileIoView>,
    pub file_io_timestamps: Seq<i64>,
    pub file_io_threads: Seq<u32>,
    pub file_io_addresses: Seq<Seq<u64>>,
    pub pending_irps: Map<u64, usize>,
    pub ignored_irps: Set<u64>,
    pub targets: Map<i64, Seq<StackTarget>>,
    pub pending: Map<i64, Seq<StackWalkInput>>,
    pub paths: Map<u64, Seq<char>>,
    pub modules: Seq<ModuleView>,
    pub warnings: Seq<Seq<char>>,
    pub lifecycle_counts: Seq<(Seq<char>, nat)>,
    pub file_io_counts: Seq<(Seq<char>, nat)>,
    pub lifecycle_stats: StackStats,
    pub file_io_stats: StackStats,
    pub path_resolved: nat,
    pub path_unresolved: nat,
    pub raw_sequence: nat,
    pub matched_op_ends: nat,
    pub unmatched_op_ends: nat,
    pub reused_irps: nat,
    pub walk_events: nat,
    pub matched_walks: nat,
    pub dropped_walks: nat,
    pub lifecycle_samples: Seq<Seq<char>>,
    pub walk_samples: Seq<Seq<char>>,
}

/// The names under which lifecycle events are counted.
pub open spec fn lifecycle_names() -> Seq<Seq<char>> {
    seq![
        "process_start"@,
        "process_end"@,
        "thread_start"@,
        "thread_end"@,
        "image_load"@,
        "image_unload"@,
    ]
}

/// The names under which file events are counted.
pub open spec fn file_io_names() -> Seq<Seq<char>> {
    seq![
        "file_name"@,
        "file_create_name"@,
        "file_delete_name"@,
        "file_rundown"@,
        "create"@,
        "cleanup"@,
        "read"@,
        "write"@,
        "set_info"@,
        "delete"@,
        "rename"@,
        "dir_enum"@,
        "flush"@,
        "query_info"@,
        "fs_control"@,
        "dir_notify"@,
    ]
}

/// An optional 64 bit number in hexadecimal.
pub open spec fn hex64_opt(o: Option<u64>) -> Option<Seq<char>> {
    match o {
        Some(n) => Some(stack::hex64_view(n)),
        None => None,
    }
}

/// An optional 32 bit number in hexadecimal.
pub open spec fn hex32_opt(o: Option<u32>) -> Option<Seq<char>> {
    match o {
        Some(n) => Some(stack::hex32_view(n)),
        None => None,
    }
}

/// The addresses with the new frames behind them; zeros and known addresses are left out.
pub open spec fn with_frames(addresses: Seq<u64>, frames: Seq<u64>) -> Seq<u64>
    decreases frames.len(),
{
    if frames.len() == 0 {
        addresses
    } else {
        let before = with_frames(addresses, frames.drop_last());
        if frames.last() != 0 && !before.contains(frames.last()) {
            before.push(frames.last())
        } else {
            before
        }
    }
}

/// The number of resolved frames.
pub open spec fn resolved_count(frames: Seq<FrameView>) -> nat
    decreases frames.len(),
{
    if frames.len() == 0 {
        0
    } else {
        resolved_count(frames.drop_last()) + if frames.last().resolved {
            1nat
        } else {
            0nat
        }
    }
}

/// The texts of frames, outermost first.
pub open spec fn stack_texts(frames: Seq<FrameView>) -> Seq<Seq<char>> {
    frames.map_values(|f: FrameView| f.value).reverse()
}

/// The counts with one more stack added.
pub open spec fn stats_with(stats: StackStats, frames: Seq<FrameView>) -> StackStats {
    StackStats {
        total: (stats.total + frames.len()) as u64,
        resolved: (stats.resolved + resolved_count(frames)) as u64,
        unresolved: (stats.unresolved + (frames.len() - resolved_count(frames))) as u64,
    }
}

/// Whether every frame is counted as either resolved or unresolved.
pub open spec fn balanced(stats: StackStats) -> bool {
    stats.total == stats.resolved + stats.unresolved
}

/// The number of addresses in the first `n` stacks.
pub open spec fn frames_in(stacks: Seq<Seq<u64>>, n: int) -> nat
    decreases n,
{
    if n <= 0 {
        0
    } else {
        frames_in(stacks, n - 1) + stacks[n - 1].len()
    }
}

/// The counts with the first `n` stacks added.
pub open spec fn stats_over(
    stats: StackStats,
    modules: Seq<ModuleView>,
    stacks: Seq<Seq<u64>>,
    timestamps: Seq<i64>,
    n: int,
) -> StackStats
    decreases n,
{
    if n <= 0 {
        stats
    } else {
        stats_with(
            stats_over(stats, modules, stacks, timestamps, n - 1),
            stack::frames_of(modules, stacks[n - 1], timestamps[n - 1]),
        )
    }
}

/// The number of file events that begin a request with a packet.
pub open spec fn begun_count(events: Seq<FileIoView>) -> nat
    decreases events.len(),
{
    if events.len() == 0 {
        0
    } else {
        begun_count(events.drop_last()) + if events.last().irp_ptr is Some {
            1nat
        } else {
            0nat
        }
    }
}

/// The number of file events that were completed.
pub open spec fn completed_count(events: Seq<FileIoView>) -> nat
    decreases events.len(),
{
    if events.len() == 0 {
        0
    } else {
        completed_count(events.drop_last()) + if events.last().completion_sequence is Some {
            1nat
        } else {
            0nat
        }
    }
}

/// The mathematical form of the summary of one event set.
#[verifier::ext_equal]
pub struct SetSummaryView {
    pub event_counts: Seq<(Seq<char>, nat)>,
    pub stack_frames_total: nat,
    pub stack_frames_resolved: nat,
    pub stack_frames_unresolved: nat,
    pub file_path_resolved: Option<nat>,
    pub file_path_unresolved: Option<nat>,
    pub matched_op_end_count: Option<nat>,
    pub unmatched_op_end_count: Option<nat>,
    pub incomplete_io_count: Option<nat>,
    pub reused_irp_without_op_end_count: Option<nat>,
}

/// The mathematical form of a summary.
#[verifier::ext_equal]
pub struct SummaryView {
    pub target_pid: Option<u32>,
    pub requested_event_sets: Seq<Seq<char>>,
    pub stacks_enabled: bool,
    pub process: Option<SetSummaryView>,
    pub file_io: Option<SetSummaryView>,
    pub warnings: Seq<Seq<char>>,
}

/// The summary of lifecycle events.
pub open spec fn lifecycle_summary(
    event_counts: Seq<(Seq<char>, nat)>,
    stats: StackStats,
) -> SetSummaryView {
    SetSummaryView {
        event_counts,
        stack_frames_total: stats.total as nat,
        stack_frames_resolved: stats.resolved as nat,
        stack_frames_unresolved: stats.unresolved as nat,
        file_path_resolved: None,
        file_path_unresolved: None,
        matched_op_end_count: None,
        unmatched_op_end_count: None,
        incomplete_io_count: None,
        reused_irp_without_op_end_count: None,
    }
}

/// A list with one more text when the condition holds.
pub open spec fn push_if(list: Seq<Seq<char>>, condition: bool, item: Seq<char>) -> Seq<Seq<char>> {
    if condition {
        list.push(item)
    } else {
        list
    }
}

impl EtwView {
    /// The events with their stacks filled in.
    pub open spec fn lifecycle_with_stacks(self) -> Seq<LifecycleView> {
        Seq::new(
            self.lifecycle.len(),
            |i: int|
                LifecycleView {
                    stack: stack_texts(
                        stack::frames_of(
                            self.modules,
                            self.lifecycle_addresses[i],
                            self.lifecycle_timestamps[i],
                        ),
                    ),
                    ..self.lifecycle[i]
                },
        )
    }

    /// The events with their stacks filled in.
    pub open spec fn file_io_with_stacks(self) -> Seq<FileIoView> {
        Seq::new(
            self.file_io.len(),
            |i: int|
                FileIoView {
                    stack: stack_texts(
                        stack::frames_of(
                            self.modules,
                            self.file_io_addresses[i],
                            self.file_io_timestamps[i],
                        ),
                    ),
                    ..self.file_io[i]
                },
        )
    }

    /// The warning about stack walks of which none matched.
    pub open spec fn unmatched_walks_warning(self) -> Seq<char> {
        "native ETW saw "@ + text::decimal(self.walk_events)
            + " StackWalk events but none matched filtered target events; lifecycle_samples=["@
            + text::joined(self.lifecycle_samples, "; "@) + "]; stack_samples=["@ + text::joined(
            self.walk_samples,
            "; "@,
        ) + "]"@
    }

    /// The warnings after the stacks were resolved.
    pub open spec fn stack_warnings(self, stacks_enabled: bool) -> Seq<Seq<char>> {
        let first = push_if(
            self.warnings,
            stacks_enabled && self.walk_events > 0 && self.matched_walks == 0,
            self.unmatched_walks_warning(),
        );
        push_if(
            first,
            stacks_enabled && self.dropped_walks > 0,
            "native ETW dropped "@ + text::decimal(self.dropped_walks)
                + " unmatched StackWalk events while bounding the pending stack cache"@,
        )
    }

    /// The state after all stacks were resolved.
    pub open spec fn finalized(self, stacks_enabled: bool) -> EtwView {
        EtwView {
            lifecycle: self.lifecycle_with_stacks(),
            file_io: self.file_io_with_stacks(),
            lifecycle_stats: stats_over(
                self.lifecycle_stats,
                self.modules,
                self.lifecycle_addresses,
                self.lifecycle_timestamps,
                self.lifecycle.len() as int,
            ),
            file_io_stats: stats_over(
                self.file_io_stats,
                self.modules,
                self.file_io_addresses,
                self.file_io_timestamps,
                self.file_io.len() as int,
            ),
            warnings: self.stack_warnings(stacks_enabled),
            ..self
        }
    }

    /// Requests that were begun and never completed.
    pub open spec fn incomplete(self) -> nat {
        self.pending_irps.len() + self.reused_irps
    }

    /// The warnings of the summary.
    pub open spec fn final_warnings(self) -> Seq<Seq<char>> {
        let paths = push_if(
            self.warnings,
            self.path_unresolved > 0,
            "native ETW file_io left "@ + text::decimal(self.path_unresolved)
                + " target file events without a resolved path"@,
        );
        let op_ends = push_if(
            paths,
            self.unmatched_op_ends > 0,
            "native ETW file_io saw "@ + text::decimal(self.unmatched_op_ends)
                + " target OpEnd events without a matching begin event"@,
        );
        let reused = push_if(
            op_ends,
            self.reused_irps > 0,
            "native ETW file_io saw "@ + text::decimal(self.reused_irps)
                + " reused IrpPtr values before a matching OpEnd"@,
        );
        push_if(
            reused,
            self.incomplete() > 0,
            "native ETW file_io left "@ + text::decimal(self.incomplete())
                + " begin events without a matching OpEnd"@,
        )
    }

    /// The summary of everything that was taken in.
    pub open spec fn summary(self) -> SummaryView {
        SummaryView {
            target_pid: Some(self.target_pid),
            requested_event_sets: self.settings.names(),
            stacks_enabled: self.settings.stacks_enabled,
            process: if self.settings.requests(EtwEventSet::Process) {
                Some(lifecycle_summary(self.lifecycle_counts, self.lifecycle_stats))
            } else {
                None
            },
            file_io: if self.settings.requests(EtwEventSet::FileIo) {
                Some(
                    SetSummaryView {
                        file_path_resolved: Some(self.path_resolved),
                        file_path_unresolved: Some(self.path_unresolved),
                        matched_op_end_count: Some(self.matched_op_ends),
                        unmatched_op_end_count: Some(self.unmatched_op_ends),
                        incomplete_io_count: Some(self.incomplete()),
                        reused_irp_without_op_end_count: Some(self.reused_irps),
                        ..lifecycle_summary(self.file_io_counts, self.file_io_stats)
                    },
                )
            } else {
                None
            },
            warnings: self.final_warnings(),
        }
    }
}

impl EtwView {
    /// The state before any event.
    pub open spec fn initial(target_pid: u32, settings: NativeEtwSettings) -> EtwView {
        EtwView {
            target_pid,
            settings,
            lifecycle: Seq::empty(),
            lifecycle_timestamps: Seq::empty(),
            lifecycle_threads: Seq::empty(),
            lifecycle_addresses: Seq::empty(),
            file_io: Seq::empty(),
            file_io_timestamps: Seq::empty(),
            file_io_threads: Seq::empty(),
            file_io_addresses: Seq::empty(),
            pending_irps: Map::empty(),
            ignored_irps: Set::empty(),
            targets: Map::empty(),
            pending: Map::empty(),
            paths: Map::empty(),
            modules: Seq::empty(),
            warnings: Seq::empty(),
            lifecycle_counts: counts::zero_counts(lifecycle_names()),
            file_io_counts: counts::zero_counts(file_io_names()),
            lifecycle_stats: StackStats { total: 0, resolved: 0, unresolved: 0 },
            file_io_stats: StackStats { total: 0, resolved: 0, unresolved: 0 },
            path_resolved: 0,
            path_unresolved: 0,
            raw_sequence: 0,
            matched_op_ends: 0,
            unmatched_op_ends: 0,
            reused_irps: 0,
            walk_events: 0,
            matched_walks: 0,
            dropped_walks: 0,
            lifecycle_samples: Seq::empty(),
            walk_samples: Seq::empty(),
        }
    }

    /// Whether a target names an event of the output.
    pub open spec fn valid_target(self, target: StackTarget) -> bool {
        match target.kind {
            StackTargetKind::Lifecycle => target.index < self.lifecycle.len(),
            StackTargetKind::FileIo => target.index < self.file_io.len(),
        }
    }

    /// What holds of every reachable state. Each stack walk that was seen is attached, dropped
    /// or still waiting.
    pub open spec fn well_formed(self) -> bool {
        &&& self.sound()
        &&& self.walk_events == self.matched_walks + self.dropped_walks + pending::total(
            self.pending,
        )
    }

    /// Whether the requests add up: each file event with a packet is completed, given up or
    /// still waiting, each completed event was completed once, and an event that waits does so
    /// under its own packet.
    pub open spec fn requests_add_up(self) -> bool {
        &&& begun_count(self.file_io) == self.matched_op_ends + self.reused_irps
            + self.pending_irps.len()
        &&& completed_count(self.file_io) == self.matched_op_ends
        &&& forall|irp: u64| #[trigger] self.pending_irps.contains_key(irp) ==> self.waits(irp)
        &&& forall|a: u64, b: u64| #[trigger]
            self.pending_irps.contains_key(a) && #[trigger] self.pending_irps.contains_key(b) && a
                != b ==> self.pending_irps[a] != self.pending_irps[b]
    }

    /// Whether the event that a packet stands for has that packet and is not completed.
    pub open spec fn waits(self, irp: u64) -> bool {
        let i = self.pending_irps[irp];
        &&& i < self.file_io.len()
        &&& self.file_io[i as int].irp_ptr == Some(stack::hex64_view(irp))
        &&& self.file_io[i as int].completion_sequence is None
    }

    /// Whether a stack walk that waits is one of the traced process and of the given timestamp.
    pub open spec fn walk_in_place(self, walk: StackWalkInput, timestamp: i64) -> bool {
        walk.stack_process == self.target_pid && walk.event_timestamp == timestamp
    }

    /// What holds of every reachable state, also while waiting stack walks are attached.
    pub open spec fn sound(self) -> bool {
        &&& self.lifecycle_timestamps.len() == self.lifecycle.len()
        &&& self.lifecycle_threads.len() == self.lifecycle.len()
        &&& self.lifecycle_addresses.len() == self.lifecycle.len()
        &&& self.file_io_timestamps.len() == self.file_io.len()
        &&& self.file_io_threads.len() == self.file_io.len()
        &&& self.file_io_addresses.len() == self.file_io.len()
        &&& forall|t: i64, i: int|
            #![trigger self.targets[t][i]]
            self.targets.contains_key(t) && 0 <= i < self.targets[t].len() ==> self.valid_target(
                self.targets[t][i],
            )
        &&& self.pending_irps.dom().finite()
        &&& self.requests_add_up()
        &&& self.pending_irps.len() + self.reused_irps + self.matched_op_ends
            + self.unmatched_op_ends <= self.raw_sequence
        &&& self.pending.dom().finite()
        &&& self.pending.len() <= pending::MAX_PENDING_STACK_TIMESTAMPS
        &&& forall|t: i64| #[trigger]
            self.pending.contains_key(t) ==> 1 <= self.pending[t].len()
                <= pending::MAX_PENDING_STACKS_PER_TIMESTAMP
        &&& forall|t: i64, i: int|
            #![trigger self.pending[t][i]]
            self.pending.contains_key(t) && 0 <= i < self.pending[t].len() ==> self.walk_in_place(
                self.pending[t][i],
                t,
            )
        &&& self.path_resolved + self.path_unresolved == self.file_io.len()
        &&& balanced(self.lifecycle_stats)
        &&& balanced(self.file_io_stats)
        &&& counts::counts_within(self.lifecycle_counts, self.lifecycle.len())
        &&& counts::counts_within(self.file_io_counts, self.file_io.len())
        &&& forall|i: int|
            0 <= i < self.lifecycle.len() ==> (#[trigger] self.lifecycle[i]).sequence == i + 1
                && self.lifecycle[i].pid == self.target_pid && self.lifecycle[i].event_set
                == "process"@
        &&& forall|i: int|
            0 <= i < self.file_io.len() ==> (#[trigger] self.file_io[i]).sequence == i + 1
                && self.file_io[i].pid == self.target_pid && self.file_io[i].event_set
                == "file_io"@ && self.file_io[i].event != "op_end"@ && self.file_io[i].event
                != "close"@
    }

    /// The process and the thread of the event that a target names.
    pub open spec fn identity(self, target: StackTarget) -> (u32, u32) {
        let i = target.index as int;
        match target.kind {
            StackTargetKind::Lifecycle => (self.lifecycle[i].pid, self.lifecycle_threads[i]),
            StackTargetKind::FileIo => (self.file_io[i].pid, self.file_io_threads[i]),
        }
    }

    /// The first target that belongs to the traced process and to the given thread.
    pub open spec fn first_on_thread(self, targets: Seq<StackTarget>, thread: u32) -> Option<
        StackTarget,
    >
        decreases targets.len(),
    {
        if targets.len() == 0 {
            None
        } else if self.identity(targets[0]) == (self.target_pid, thread) {
            Some(targets[0])
        } else {
            self.first_on_thread(targets.drop_first(), thread)
        }
    }

    /// The first target that belongs to the traced process.
    pub open spec fn first_of_process(self, targets: Seq<StackTarget>) -> Option<StackTarget>
        decreases targets.len(),
    {
        if targets.len() == 0 {
            None
        } else if self.identity(targets[0]).0 == self.target_pid {
            Some(targets[0])
        } else {
            self.first_of_process(targets.drop_first())
        }
    }

    /// The event that a stack walk belongs to: one of the same timestamp, on the thread that
    /// was walked, or else any one of the traced process if that process was walked.
    pub open spec fn attach_target(self, walk: StackWalkInput) -> Option<StackTarget> {
        if !self.targets.contains_key(walk.event_timestamp) {
            None
        } else {
            let targets = self.targets[walk.event_timestamp];
            match self.first_on_thread(targets, walk.stack_thread) {
                Some(target) => Some(target),
                None => if walk.stack_process == self.target_pid {
                    self.first_of_process(targets)
                } else {
                    None
                },
            }
        }
    }

    /// The state with frames added to the stack of one event.
    pub open spec fn with_stack(self, target: StackTarget, frames: Seq<u64>) -> EtwView {
        let i = target.index as int;
        match target.kind {
            StackTargetKind::Lifecycle => EtwView {
                lifecycle_addresses: self.lifecycle_addresses.update(
                    i,
                    with_frames(self.lifecycle_addresses[i], frames),
                ),
                ..self
            },
            StackTargetKind::FileIo => EtwView {
                file_io_addresses: self.file_io_addresses.update(
                    i,
                    with_frames(self.file_io_addresses[i], frames),
                ),
                ..self
            },
        }
    }

    /// The state after an attempt to attach a stack walk.
    pub open spec fn attached(self, walk: StackWalkInput) -> EtwView {
        match self.attach_target(walk) {
            Some(target) => EtwView {
                matched_walks: self.matched_walks + 1,
                ..self.with_stack(target, walk.stack_addresses)
            },
            None => self,
        }
    }

    /// The state after attempts to attach several stack walks, in order.
    pub open spec fn attached_all(self, walks: Seq<StackWalkInput>) -> EtwView
        decreases walks.len(),
    {
        if walks.len() == 0 {
            self
        } else {
            self.attached_all(walks.drop_last()).attached(walks.last())
        }
    }

    /// The state without the stack walks that waited for events before `timestamp`.
    pub open spec fn pruned(self, timestamp: i64) -> EtwView {
        EtwView {
            pending: pending::kept(self.pending, timestamp),
            dropped_walks: self.dropped_walks + pending::total(
                pending::outdated(self.pending, timestamp),
            ),
            ..self
        }
    }

    /// The state after the stack walks that waited for `timestamp` were attached.
    pub open spec fn released(self, timestamp: i64) -> EtwView {
        if self.pending.contains_key(timestamp) {
            EtwView { pending: self.pending.remove(timestamp), ..self }.attached_all(
                self.pending[timestamp],
            )
        } else {
            self
        }
    }

    /// The state without the waiting stack walks of the smallest timestamp.
    pub open spec fn without_oldest(self) -> EtwView {
        let k = choose|k: i64| pending::oldest_key(self.pending, k);
        EtwView {
            pending: self.pending.remove(k),
            dropped_walks: self.dropped_walks + self.pending[k].len(),
            ..self
        }
    }

    /// The state after a stack walk was put aside: one of another process is dropped, a new
    /// timestamp displaces the oldest one when the table is full, and one too many under the
    /// same timestamp is dropped.
    pub open spec fn put_aside(self, walk: StackWalkInput) -> EtwView {
        let t = walk.event_timestamp;
        if walk.stack_process != self.target_pid {
            EtwView { dropped_walks: self.dropped_walks + 1, ..self }
        } else if self.pending.contains_key(t) {
            if self.pending[t].len() >= pending::MAX_PENDING_STACKS_PER_TIMESTAMP {
                EtwView { dropped_walks: self.dropped_walks + 1, ..self }
            } else {
                EtwView { pending: self.pending.insert(t, self.pending[t].push(walk)), ..self }
            }
        } else {
            let room = if self.pending.len() >= pending::MAX_PENDING_STACK_TIMESTAMPS {
                self.without_oldest()
            } else {
                self
            };
            EtwView { pending: room.pending.insert(t, seq![walk]), ..room }
        }
    }

    /// The state after a stack walk event.
    pub open spec fn after_stack_walk(self, walk: StackWalkInput) -> EtwView {
        let seen = EtwView {
            walk_events: self.walk_events + 1,
            walk_samples: if self.walk_samples.len() < 5 {
                self.walk_samples.push(walk_sample(walk))
            } else {
                self.walk_samples
            },
            ..self
        };
        if seen.attach_target(walk) is Some {
            seen.attached(walk)
        } else {
            seen.put_aside(walk)
        }
    }

    /// The index of the module that an unload event ends: the one recorded last with that
    /// base, not yet unloaded, and of the given size if a size is given.
    pub open spec fn unloaded_module(
        modules: Seq<ModuleView>,
        base: u64,
        size: Option<u64>,
    ) -> Option<int>
        decreases modules.len(),
    {
        if modules.len() == 0 {
            None
        } else {
            let m = modules.last();
            if m.base == base && m.unloaded_at is None && (size matches Some(s) ==> s == m.size) {
                Some(modules.len() - 1)
            } else {
                EtwView::unloaded_module(modules.drop_last(), base, size)
            }
        }
    }

    /// The modules after a lifecycle event.
    pub open spec fn modules_after(self, event: LifecycleInput) -> Seq<ModuleView> {
        if event.event == "image_load"@ {
            match (event.image_base, event.image_size) {
                (Some(base), Some(size)) => self.modules.push(
                    ModuleView {
                        base,
                        size,
                        name: match event.image_path {
                            Some(path) => path,
                            None => "image_"@ + text::hex(base as nat),
                        },
                        loaded_at: event.event_timestamp,
                        unloaded_at: None,
                    },
                ),
                _ => self.modules,
            }
        } else if event.event == "image_unload"@ {
            match event.image_base {
                Some(base) => match EtwView::unloaded_module(
                    self.modules,
                    base,
                    event.image_size,
                ) {
                    Some(i) => self.modules.update(
                        i,
                        ModuleView { unloaded_at: Some(event.event_timestamp), ..self.modules[i] },
                    ),
                    None => self.modules,
                },
                None => self.modules,
            }
        } else {
            self.modules
        }
    }

    /// The targets with one more under a timestamp.
    pub open spec fn targets_with(self, timestamp: i64, target: StackTarget) -> Map<
        i64,
        Seq<StackTarget>,
    > {
        let known = if self.targets.contains_key(timestamp) {
            self.targets[timestamp]
        } else {
            Seq::empty()
        };
        self.targets.insert(timestamp, known.push(target))
    }

    /// The state with a lifecycle event put out.
    pub open spec fn with_lifecycle(self, event: LifecycleInput) -> EtwView {
        EtwView {
            lifecycle: self.lifecycle.push(
                LifecycleView {
                    sequence: self.lifecycle.len() + 1,
                    event_set: "process"@,
                    event: event.event,
                    pid: event.pid,
                    tid: event.tid,
                    parent_pid: event.parent_pid,
                    image_path: event.image_path,
                    image_base: hex64_opt(event.image_base),
                    image_size: hex64_opt(event.image_size),
                    stack: Seq::empty(),
                },
            ),
            lifecycle_timestamps: self.lifecycle_timestamps.push(event.event_timestamp),
            lifecycle_threads: self.lifecycle_threads.push(event.event_thread_id),
            lifecycle_addresses: self.lifecycle_addresses.push(event.stack_addresses),
            lifecycle_counts: counts::counted(self.lifecycle_counts, event.event),
            lifecycle_samples: if self.lifecycle_samples.len() < 5 {
                self.lifecycle_samples.push(lifecycle_sample(event))
            } else {
                self.lifecycle_samples
            },
            targets: self.targets_with(
                event.event_timestamp,
                StackTarget {
                    kind: StackTargetKind::Lifecycle,
                    index: self.lifecycle.len() as usize,
                },
            ),
            ..self
        }
    }

    /// The state after a lifecycle event.
    pub open spec fn after_lifecycle(self, event: LifecycleInput) -> EtwView {
        if event.pid != self.target_pid {
            self
        } else {
            let current = self.pruned(event.event_timestamp);
            let known = EtwView { modules: current.modules_after(event), ..current };
            if self.settings.requests(EtwEventSet::Process) {
                known.with_lifecycle(event).released(event.event_timestamp)
            } else {
                known
            }
        }
    }

    /// Whether a file event is about the traced process. A completion also is when its
    /// request was seen before.
    pub open spec fn concerns(self, event: FileIoInput) -> bool {
        ||| event.pid == self.target_pid
        ||| event.event == "op_end"@ && (event.irp_ptr matches Some(irp)
            && (self.pending_irps.contains_key(irp) || self.ignored_irps.contains(irp)))
    }

    /// The known paths after a file event named one.
    pub open spec fn paths_with(self, event: FileIoInput) -> Map<u64, Seq<char>> {
        match event.path {
            Some(path) if path.len() > 0 => {
                let first = match event.file_object {
                    Some(pointer) => self.paths.insert(pointer, path),
                    None => self.paths,
                };
                match event.file_key {
                    Some(pointer) => first.insert(pointer, path),
                    None => first,
                }
            },
            _ => self.paths,
        }
    }

    /// The known paths without those of a file that went away.
    pub open spec fn paths_without(self, event: FileIoInput) -> Map<u64, Seq<char>> {
        let first = match event.file_object {
            Some(pointer) => self.paths.remove(pointer),
            None => self.paths,
        };
        match event.file_key {
            Some(pointer) => first.remove(pointer),
            None => first,
        }
    }

    /// The path of a file event and where it comes from: the event itself, or a path known
    /// for its file object or its file key.
    pub open spec fn path_for(self, event: FileIoInput) -> (Option<Seq<char>>, Option<Seq<char>>) {
        if event.path matches Some(path) && path.len() > 0 {
            (event.path, event.path_source)
        } else if event.file_object matches Some(pointer) && self.paths.contains_key(pointer) {
            (Some(self.paths[event.file_object->0]), Some("file_object_cache"@))
        } else if event.file_key matches Some(pointer) && self.paths.contains_key(pointer) {
            (Some(self.paths[event.file_key->0]), Some("file_key_cache"@))
        } else {
            (None, None)
        }
    }

    /// The output for a file event.
    pub open spec fn file_io_output(self, event: FileIoInput) -> FileIoView {
        FileIoView {
            sequence: self.file_io.len() + 1,
            event_set: "file_io"@,
            event: event.event,
            pid: event.pid,
            tid: Some(event.event_thread_id),
            ttid: event.ttid,
            path: self.path_for(event).0,
            path_source: self.path_for(event).1,
            file_object: hex64_opt(event.file_object),
            file_key: hex64_opt(event.file_key),
            irp_ptr: hex64_opt(event.irp_ptr),
            offset: hex64_opt(event.offset),
            io_size: event.io_size,
            io_flags: hex32_opt(event.io_flags),
            create_options: hex32_opt(event.create_options),
            file_attributes: hex32_opt(event.file_attributes),
            share_access: hex32_opt(event.share_access),
            info_class: event.info_class,
            extra_info: hex64_opt(event.extra_info),
            nt_status: hex32_opt(event.nt_status),
            stack: Seq::empty(),
            completion_pid: None,
            completion_tid: None,
            completion_sequence: None,
        }
    }

    /// The state with a file event put out. A request that is begun again before it was
    /// completed counts as reused.
    pub open spec fn with_file_io(self, event: FileIoInput) -> EtwView {
        let index = self.file_io.len() as usize;
        EtwView {
            file_io: self.file_io.push(self.file_io_output(event)),
            file_io_timestamps: self.file_io_timestamps.push(event.event_timestamp),
            file_io_threads: self.file_io_threads.push(event.event_thread_id),
            file_io_addresses: self.file_io_addresses.push(event.stack_addresses),
            file_io_counts: counts::counted(self.file_io_counts, event.event),
            path_resolved: self.path_resolved + if self.path_for(event).0 is Some {
                1nat
            } else {
                0nat
            },
            path_unresolved: self.path_unresolved + if self.path_for(event).0 is Some {
                0nat
            } else {
                1nat
            },
            targets: self.targets_with(
                event.event_timestamp,
                StackTarget { kind: StackTargetKind::FileIo, index },
            ),
            pending_irps: match event.irp_ptr {
                Some(irp) => self.pending_irps.insert(irp, index),
                None => self.pending_irps,
            },
            reused_irps: self.reused_irps + if event.irp_ptr matches Some(irp)
                && self.pending_irps.contains_key(irp) {
                1nat
            } else {
                0nat
            },
            ..self
        }
    }

    /// The state after a file was closed: no output, its paths are forgotten, and the
    /// completion of the close will not be counted.
    pub open spec fn after_close(self, event: FileIoInput) -> EtwView {
        let ended = match event.irp_ptr {
            Some(irp) => EtwView {
                pending_irps: self.pending_irps.remove(irp),
                reused_irps: self.reused_irps + if self.pending_irps.contains_key(irp) {
                    1nat
                } else {
                    0nat
                },
                ignored_irps: self.ignored_irps.insert(irp),
                ..self
            },
            None => self,
        };
        EtwView { paths: ended.paths_without(event), ..ended }
    }

    /// The output of a request with what its completion says.
    pub open spec fn completed(self, output: FileIoView, event: FileIoInput) -> FileIoView {
        FileIoView {
            extra_info: if event.extra_info is Some {
                hex64_opt(event.extra_info)
            } else {
                output.extra_info
            },
            nt_status: if event.nt_status is Some {
                hex32_opt(event.nt_status)
            } else {
                output.nt_status
            },
            completion_pid: Some(event.pid),
            completion_tid: Some(event.event_thread_id),
            completion_sequence: Some(self.raw_sequence),
            ..output
        }
    }

    /// The state after a completion: it is merged into the request it completes; one without
    /// a known request is counted, unless the request was ignored.
    pub open spec fn after_op_end(self, event: FileIoInput) -> EtwView {
        match event.irp_ptr {
            None => EtwView { unmatched_op_ends: self.unmatched_op_ends + 1, ..self },
            Some(irp) => {
                if self.pending_irps.contains_key(irp) {
                    let i = self.pending_irps[irp] as int;
                    EtwView {
                        pending_irps: self.pending_irps.remove(irp),
                        matched_op_ends: self.matched_op_ends + 1,
                        file_io: self.file_io.update(i, self.completed(self.file_io[i], event)),
                        ..self
                    }
                } else if self.ignored_irps.contains(irp) {
                    EtwView { ignored_irps: self.ignored_irps.remove(irp), ..self }
                } else {
                    EtwView { unmatched_op_ends: self.unmatched_op_ends + 1, ..self }
                }
            },
        }
    }

    /// The state after a file event that begins or describes something.
    pub open spec fn after_begin(self, event: FileIoInput) -> EtwView {
        let named = EtwView { paths: self.paths_with(event), ..self };
        let done = named.with_file_io(event).released(event.event_timestamp);
        if event.event == "cleanup"@ {
            EtwView { paths: done.paths_without(event), ..done }
        } else {
            done
        }
    }

    /// The state after a file event.
    pub open spec fn after_file_io(self, event: FileIoInput) -> EtwView {
        if !self.concerns(event) {
            self
        } else {
            let current = EtwView {
                raw_sequence: self.raw_sequence + 1,
                ..self.pruned(event.event_timestamp)
            };
            if event.event == "op_end"@ {
                current.after_op_end(event)
            } else if event.event == "close"@ {
                current.after_close(event)
            } else {
                current.after_begin(event)
            }
        }
    }
}

/// A short description of a stack walk, for diagnostics.
pub open spec fn walk_sample(walk: StackWalkInput) -> Seq<char> {
    "ts="@ + text::signed_decimal(walk.event_timestamp as int) + ",stack_process="@ + text::decimal(
        walk.stack_process as nat,
    ) + ",stack_thread="@ + text::decimal(walk.stack_thread as nat) + ",frames="@ + text::decimal(
        walk.stack_addresses.len(),
    )
}

/// A short description of a lifecycle event, for diagnostics.
pub open spec fn lifecycle_sample(event: LifecycleInput) -> Seq<char> {
    event.event + ":ts="@ + text::signed_decimal(event.event_timestamp as int) + ",header_tid="@
        + text::decimal(event.event_thread_id as nat) + ",pid="@ + text::decimal(event.pid as nat)
}

} // verus!
