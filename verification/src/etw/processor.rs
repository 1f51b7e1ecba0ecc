//! Correlation of decoded events: output events, module intervals, path and request tables,
//! and the stacks that belong to each event.

use crate::etw::counts::EventCounts;
use crate::etw::decode::{DecodedFileIoEvent, DecodedLifecycleEvent, DecodedStackWalkEvent};
use crate::etw::model::{
    EtwView, FileIoView, LifecycleView, StackStats, StackTarget, StackTargetKind,
};
use crate::etw::pending::{
    oldest, MAX_PENDING_STACKS_PER_TIMESTAMP, MAX_PENDING_STACK_TIMESTAMPS,
};
use crate::etw::settings::{EtwEventSet, NativeEtwSettings};
use crate::etw::stack::{event_matches_target, hex32, hex64, ModuleInterval};
use crate::etw::{counts, decode, invariants, model, pending, stack};
use crate::text;
use crate::text::{cat2, copy_opt, decimal_text, hex_text, same, signed_decimal_text};
use std::collections::{BTreeMap, BTreeSet};
use vstd::prelude::*;

verus! {

/// A process, thread or image event of the output.
#[derive(Debug)]
pub struct LifecycleEvent {
    pub sequence: u64,
    pub event_set: &'static str,
    pub event: &'static str,
    pub pid: u32,
    pub tid: Option<u32>,
    pub parent_pid: Option<u32>,
    pub image_path: Option<String>,
    pub image_base: Option<String>,
    pub image_size: Option<String>,
    pub stack: Vec<String>,
}

/// A file event of the output.
#[derive(Debug)]
pub struct FileIoEvent {
    pub sequence: u64,
    pub event_set: &'static str,
    pub event: &'static str,
    pub pid: u32,
    pub tid: Option<u32>,
    pub ttid: Option<u32>,
    pub path: Option<String>,
    pub path_source: Option<&'static str>,
    pub file_object: Option<String>,
    pub file_key: Option<String>,
    pub irp_ptr: Option<String>,
    pub offset: Option<String>,
    pub io_size: Option<u64>,
    pub io_flags: Option<String>,
    pub create_options: Option<String>,
    pub file_attributes: Option<String>,
    pub share_access: Option<String>,
    pub info_class: Option<u32>,
    pub extra_info: Option<String>,
    pub nt_status: Option<String>,
    pub stack: Vec<String>,
    pub completion_pid: Option<u32>,
    pub completion_tid: Option<u32>,
    pub completion_sequence: Option<u64>,
}

impl View for LifecycleEvent {
    type V = LifecycleView;

    open spec fn view(&self) -> LifecycleView {
        LifecycleView {
            sequence: self.sequence as nat,
            event_set: self.event_set@,
            event: self.event@,
            pid: self.pid,
            tid: self.tid,
            parent_pid: self.parent_pid,
            image_path: text::view_opt(self.image_path),
            image_base: text::view_opt(self.image_base),
            image_size: text::view_opt(self.image_size),
            stack: text::views(self.stack@),
        }
    }
}

impl View for FileIoEvent {
    type V = FileIoView;

    open spec fn view(&self) -> FileIoView {
        FileIoView {
            sequence: self.sequence as nat,
            event_set: self.event_set@,
            event: self.event@,
            pid: self.pid,
            tid: self.tid,
            ttid: self.ttid,
            path: text::view_opt(self.path),
            path_source: decode::view_name(self.path_source),
            file_object: text::view_opt(self.file_object),
            file_key: text::view_opt(self.file_key),
            irp_ptr: text::view_opt(self.irp_ptr),
            offset: text::view_opt(self.offset),
            io_size: self.io_size,
            io_flags: text::view_opt(self.io_flags),
            create_options: text::view_opt(self.create_options),
            file_attributes: text::view_opt(self.file_attributes),
            share_access: text::view_opt(self.share_access),
            info_class: self.info_class,
            extra_info: text::view_opt(self.extra_info),
            nt_status: text::view_opt(self.nt_status),
            stack: text::views(self.stack@),
            completion_pid: self.completion_pid,
            completion_tid: self.completion_tid,
            completion_sequence: match self.completion_sequence {
                Some(n) => Some(n as nat),
                None => None,
            },
        }
    }
}

/// The correlation state.
#[derive(Debug)]
pub struct EtwProcessor {
    pub target_pid: u32,
    pub settings: NativeEtwSettings,
    pub lifecycle_events: Vec<LifecycleEvent>,
    pub lifecycle_timestamps: Vec<i64>,
    pub lifecycle_header_threads: Vec<u32>,
    pub lifecycle_stack_addresses: Vec<Vec<u64>>,
    pub file_io_events: Vec<FileIoEvent>,
    pub file_io_timestamps: Vec<i64>,
    pub file_io_header_threads: Vec<u32>,
    pub file_io_stack_addresses: Vec<Vec<u64>>,
    pub pending_file_irps: BTreeMap<u64, usize>,
    pub ignored_file_irps: BTreeSet<u64>,
    pub event_indices_by_timestamp: BTreeMap<i64, Vec<StackTarget>>,
    pub pending_stacks_by_timestamp: BTreeMap<i64, Vec<DecodedStackWalkEvent>>,
    pub file_paths_by_pointer: BTreeMap<u64, String>,
    pub modules: Vec<ModuleInterval>,
    pub warnings: Vec<String>,
    pub lifecycle_event_counts: EventCounts,
    pub file_io_event_counts: EventCounts,
    pub lifecycle_stack_stats: StackStats,
    pub file_io_stack_stats: StackStats,
    pub file_path_resolved: u64,
    pub file_path_unresolved: u64,
    pub file_io_raw_sequence: u64,
    pub matched_op_end_count: u64,
    pub unmatched_op_end_count: u64,
    pub reused_irp_without_op_end_count: u64,
    pub stack_walk_events: u64,
    pub matched_stack_walk_events: u64,
    pub dropped_pending_stack_walk_events: u64,
    pub lifecycle_match_samples: Vec<String>,
    pub stack_walk_match_samples: Vec<String>,
}

impl View for EtwProcessor {
    type V = EtwView;

    open spec fn view(&self) -> EtwView {
        EtwView {
            target_pid: self.target_pid,
            settings: self.settings,
            lifecycle: self.lifecycle_events@.map_values(|e: LifecycleEvent| e@),
            lifecycle_timestamps: self.lifecycle_timestamps@,
            lifecycle_threads: self.lifecycle_header_threads@,
            lifecycle_addresses: self.lifecycle_stack_addresses@.map_values(|v: Vec<u64>| v@),
            file_io: self.file_io_events@.map_values(|e: FileIoEvent| e@),
            file_io_timestamps: self.file_io_timestamps@,
            file_io_threads: self.file_io_header_threads@,
            file_io_addresses: self.file_io_stack_addresses@.map_values(|v: Vec<u64>| v@),
            pending_irps: self.pending_file_irps@,
            ignored_irps: self.ignored_file_irps@,
            targets: self.event_indices_by_timestamp@.map_values(|v: Vec<StackTarget>| v@),
            pending: pending::pending_view(self.pending_stacks_by_timestamp@),
            paths: self.file_paths_by_pointer@.map_values(|s: String| s@),
            modules: stack::module_views(self.modules@),
            warnings: text::views(self.warnings@),
            lifecycle_counts: self.lifecycle_event_counts@,
            file_io_counts: self.file_io_event_counts@,
            lifecycle_stats: self.lifecycle_stack_stats,
            file_io_stats: self.file_io_stack_stats,
            path_resolved: self.file_path_resolved as nat,
            path_unresolved: self.file_path_unresolved as nat,
            raw_sequence: self.file_io_raw_sequence as nat,
            matched_op_ends: self.matched_op_end_count as nat,
            unmatched_op_ends: self.unmatched_op_end_count as nat,
            reused_irps: self.reused_irp_without_op_end_count as nat,
            walk_events: self.stack_walk_events as nat,
            matched_walks: self.matched_stack_walk_events as nat,
            dropped_walks: self.dropped_pending_stack_walk_events as nat,
            lifecycle_samples: text::views(self.lifecycle_match_samples@),
            walk_samples: text::views(self.stack_walk_match_samples@),
        }
    }
}

/// The counts of lifecycle events, all zero.
pub fn lifecycle_count_map() -> (r: EventCounts)
    ensures
        r@ == counts::zero_counts(model::lifecycle_names()),
{
    let names: [&'static str; 6] = [
        "process_start",
        "process_end",
        "thread_start",
        "thread_end",
        "image_load",
        "image_unload",
    ];
    assert(names@.map_values(|s: &'static str| s@) =~= model::lifecycle_names());
    EventCounts::new(names.as_slice())
}

/// The counts of file events, all zero.
pub fn file_io_count_map() -> (r: EventCounts)
    ensures
        r@ == counts::zero_counts(model::file_io_names()),
{
    let names: [&'static str; 16] = [
        "file_name",
        "file_create_name",
        "file_delete_name",
        "file_rundown",
        "create",
        "cleanup",
        "read",
        "write",
        "set_info",
        "delete",
        "rename",
        "dir_enum",
        "flush",
        "query_info",
        "fs_control",
        "dir_notify",
    ];
    assert(names@.map_values(|s: &'static str| s@) =~= model::file_io_names());
    EventCounts::new(names.as_slice())
}

/// Adds frames to a stack; zeros and known addresses are left out.
pub fn append_stack_frames(target: &mut Vec<u64>, source: &[u64])
    ensures
        final(target)@ == model::with_frames(old(target)@, source@),
{
    let mut i: usize = 0;
    while i < source.len()
        invariant
            i <= source@.len(),
            target@ == model::with_frames(old(target)@, source@.take(i as int)),
        decreases source@.len() - i,
    {
        let address = source[i];
        let known = contains_address(target.as_slice(), address);
        if address != 0 && !known {
            target.push(address);
        }
        i += 1;
        assert(source@.take(i as int).drop_last() =~= source@.take(i as int - 1));
    }
    assert(source@.take(source@.len() as int) =~= source@);
}

fn contains_address(addresses: &[u64], wanted: u64) -> (r: bool)
    ensures
        r == addresses@.contains(wanted),
{
    let mut i: usize = 0;
    while i < addresses.len()
        invariant
            i <= addresses@.len(),
            forall|j: int| 0 <= j < i ==> addresses@[j] != wanted,
        decreases addresses@.len() - i,
    {
        if addresses[i] == wanted {
            return true;
        }
        i += 1;
    }
    false
}

impl EtwProcessor {
    /// The state before any event.
    pub fn new(target_pid: u32, settings: NativeEtwSettings) -> (r: EtwProcessor)
        ensures
            r@ == EtwView::initial(target_pid, settings),
            r@.well_formed(),
    {
        let zero = StackStats { total: 0, resolved: 0, unresolved: 0 };
        let r = EtwProcessor {
            target_pid,
            settings,
            lifecycle_events: Vec::new(),
            lifecycle_timestamps: Vec::new(),
            lifecycle_header_threads: Vec::new(),
            lifecycle_stack_addresses: Vec::new(),
            file_io_events: Vec::new(),
            file_io_timestamps: Vec::new(),
            file_io_header_threads: Vec::new(),
            file_io_stack_addresses: Vec::new(),
            pending_file_irps: BTreeMap::new(),
            ignored_file_irps: BTreeSet::new(),
            event_indices_by_timestamp: BTreeMap::new(),
            pending_stacks_by_timestamp: BTreeMap::new(),
            file_paths_by_pointer: BTreeMap::new(),
            modules: Vec::new(),
            warnings: Vec::new(),
            lifecycle_event_counts: lifecycle_count_map(),
            file_io_event_counts: file_io_count_map(),
            lifecycle_stack_stats: zero,
            file_io_stack_stats: zero,
            file_path_resolved: 0,
            file_path_unresolved: 0,
            file_io_raw_sequence: 0,
            matched_op_end_count: 0,
            unmatched_op_end_count: 0,
            reused_irp_without_op_end_count: 0,
            stack_walk_events: 0,
            matched_stack_walk_events: 0,
            dropped_pending_stack_walk_events: 0,
            lifecycle_match_samples: Vec::new(),
            stack_walk_match_samples: Vec::new(),
        };
        assert(r@ =~= EtwView::initial(target_pid, settings));
        proof {
            invariants::initial_well_formed(target_pid, settings);
        }
        r
    }

    fn stack_target_identity(&self, target: StackTarget) -> (r: (u32, u32))
        requires
            self@.sound(),
            self@.valid_target(target),
        ensures
            r == self@.identity(target),
    {
        match target.kind {
            StackTargetKind::Lifecycle => (
                self.lifecycle_events[target.index].pid,
                self.lifecycle_header_threads[target.index],
            ),
            StackTargetKind::FileIo => (
                self.file_io_events[target.index].pid,
                self.file_io_header_threads[target.index],
            ),
        }
    }

    fn append_stack_frames_to_target(&mut self, target: StackTarget, frames: &[u64])
        requires
            old(self)@.sound(),
            old(self)@.valid_target(target),
        ensures
            final(self)@ == old(self)@.with_stack(target, frames@),
    {
        match target.kind {
            StackTargetKind::Lifecycle => {
                append_stack_frames(&mut self.lifecycle_stack_addresses[target.index], frames);
                assert(self@.lifecycle_addresses =~= old(self)@.with_stack(
                    target,
                    frames@,
                ).lifecycle_addresses);
            },
            StackTargetKind::FileIo => {
                append_stack_frames(&mut self.file_io_stack_addresses[target.index], frames);
                assert(self@.file_io_addresses =~= old(self)@.with_stack(
                    target,
                    frames@,
                ).file_io_addresses);
            },
        }
    }

    /// The event that a stack walk belongs to.
    fn find_attach_target(&self, walk: &DecodedStackWalkEvent) -> (r: Option<StackTarget>)
        requires
            self@.sound(),
        ensures
            r == self@.attach_target(walk@),
    {
        match self.event_indices_by_timestamp.get(&walk.event_timestamp) {
            None => None,
            Some(targets) => {
                let ghost all = targets@;
                let mut fallback: Option<StackTarget> = None;
                let mut i: usize = 0;
                assert(self@.targets[walk.event_timestamp] == all);
                assert(all.skip(0) =~= all);
                while i < targets.len()
                    invariant
                        i <= targets@.len(),
                        all == targets@,
                        self@.sound(),
                        self@.targets.contains_key(walk.event_timestamp),
                        self@.targets[walk.event_timestamp] == all,
                        self@.first_on_thread(all, walk.stack_thread) == self@.first_on_thread(
                            all.skip(i as int),
                            walk.stack_thread,
                        ),
                        self@.first_of_process(all) == (match fallback {
                            Some(t) => Some(t),
                            None => self@.first_of_process(all.skip(i as int)),
                        }),
                    decreases targets@.len() - i,
                {
                    let target = targets[i];
                    assert(all.skip(i as int)[0] == target);
                    assert(all.skip(i as int).drop_first() =~= all.skip(i as int + 1));
                    assert(self@.targets[walk.event_timestamp][i as int] == target);
                    let (pid, thread) = self.stack_target_identity(target);
                    if pid == self.target_pid {
                        if fallback.is_none() {
                            fallback = Some(target);
                        }
                        if thread == walk.stack_thread {
                            return Some(target);
                        }
                    }
                    i += 1;
                }
                if walk.stack_process == self.target_pid {
                    fallback
                } else {
                    None
                }
            },
        }
    }

    /// Attaches a stack walk to the event it belongs to, if that event is known.
    fn attach_stack_walk_event(&mut self, walk: &DecodedStackWalkEvent) -> (r: bool)
        requires
            old(self)@.sound(),
            old(self)@.matched_walks < u64::MAX,
        ensures
            r == (old(self)@.attach_target(walk@) is Some),
            final(self)@ == old(self)@.attached(walk@),
            final(self)@.sound(),
    {
        proof {
            invariants::attach_target_valid(self@, walk@);
            invariants::attached_sound(self@, walk@);
        }
        match self.find_attach_target(walk) {
            Some(target) => {
                self.append_stack_frames_to_target(target, walk.stack_addresses.as_slice());
                self.matched_stack_walk_events = self.matched_stack_walk_events + 1;
                true
            },
            None => false,
        }
    }

    fn drop_oldest_pending_stack_timestamp(&mut self)
        requires
            old(self)@.sound(),
            old(self)@.dropped_walks + pending::total(old(self)@.pending) <= u64::MAX,
            old(self)@.pending.len() > 0,
        ensures
            exists|k: i64|
                #![trigger pending::oldest_key(old(self)@.pending, k)]
                pending::oldest_key(old(self)@.pending, k) && final(self)@ == (EtwView {
                    pending: old(self)@.pending.remove(k),
                    dropped_walks: old(self)@.dropped_walks + old(self)@.pending[k].len(),
                    ..old(self)@
                }),
            final(self)@.sound(),
    {
        match oldest(&self.pending_stacks_by_timestamp) {
            None => {
                assert(self@.pending.dom() =~= Set::empty());
                assert(self@.pending.len() == 0);
            },
            Some(k) => {
                let ghost before = self@.pending;
                let ghost start = self@;
                assert(pending::oldest_key(before, k)) by {
                    assert forall|j: i64| #[trigger] before.contains_key(j) implies k <= j by {
                        assert(self.pending_stacks_by_timestamp@.contains_key(j));
                    }
                }
                proof {
                    pending::total_remove(before, k);
                }
                if let Some(removed) = self.pending_stacks_by_timestamp.remove(&k) {
                    assert(before[k].len() == removed@.len());
                    self.dropped_pending_stack_walk_events =
                        self.dropped_pending_stack_walk_events + removed.len() as u64;
                }
                assert(self@.pending =~= before.remove(k));
                assert(self@ =~= (EtwView {
                    pending: before.remove(k),
                    dropped_walks: start.dropped_walks + before[k].len(),
                    ..start
                }));
            },
        }
    }

    /// Drops the stack walks that waited for events before `timestamp`.
    fn prune_pending_stacks_before(&mut self, timestamp: i64)
        requires
            old(self)@.well_formed(),
        ensures
            final(self)@ == old(self)@.pruned(timestamp),
            final(self)@.well_formed(),
    {
        let ghost start = self@;
        loop
            invariant_except_break
                true,
            invariant
                start == old(self)@,
                self@.well_formed(),
                self@ == (EtwView {
                    pending: self@.pending,
                    dropped_walks: self@.dropped_walks,
                    ..start
                }),
                self@.pending.submap_of(start.pending),
                forall|k: i64| #[trigger]
                    start.pending.contains_key(k) && k >= timestamp ==> self@.pending.contains_key(
                        k,
                    ),
                self@.dropped_walks + pending::total(self@.pending) == start.dropped_walks
                    + pending::total(start.pending),
                start.pending.dom().finite(),
            ensures
                forall|k: i64| #[trigger] self@.pending.contains_key(k) ==> k >= timestamp,
            decreases self@.pending.len(),
        {
            let first = oldest(&self.pending_stacks_by_timestamp);
            match first {
                None => {
                    assert(self@.pending.dom() =~= Set::empty());
                    assert forall|k: i64| #[trigger] self@.pending.contains_key(
                        k,
                    ) implies k >= timestamp by {
                        assert(self@.pending.dom().contains(k));
                    }
                    break ;
                },
                Some(k) => {
                    let ghost now = self@;
                    assert(pending::oldest_key(now.pending, k)) by {
                        assert forall|j: i64| #[trigger] now.pending.contains_key(
                            j,
                        ) implies k <= j by {
                            assert(self.pending_stacks_by_timestamp@.contains_key(j));
                        }
                    }
                    if k >= timestamp {
                        break ;
                    }
                    assert(now.pending.dom().contains(k));
                    assert(now.pending.len() > 0);
                    self.drop_oldest_pending_stack_timestamp();
                    proof {
                        let j = choose|j: i64|
                            #![trigger pending::oldest_key(now.pending, j)]
                            pending::oldest_key(now.pending, j) && self@ == (EtwView {
                                pending: now.pending.remove(j),
                                dropped_walks: now.dropped_walks + now.pending[j].len(),
                                ..now
                            });
                        assert(j == k);
                        pending::total_remove(now.pending, k);
                    }
                },
            }
        }
        proof {
            let keep = pending::kept(start.pending, timestamp);
            assert(self@.pending =~= keep);
            pending::total_split(start.pending, timestamp);
        }
    }

    /// Puts a stack walk aside until its event comes.
    fn cache_pending_stack_walk_event(&mut self, walk: DecodedStackWalkEvent)
        requires
            old(self)@.sound(),
            old(self)@.walk_events == old(self)@.matched_walks + old(self)@.dropped_walks
                + pending::total(old(self)@.pending) + 1,
        ensures
            final(self)@ == old(self)@.put_aside(walk@),
            final(self)@.well_formed(),
    {
        proof {
            invariants::put_aside_well_formed(self@, walk@);
        }
        if walk.stack_process != self.target_pid {
            self.dropped_pending_stack_walk_events = self.dropped_pending_stack_walk_events + 1;
            return;
        }
        let t: i64 = walk.event_timestamp;
        let ghost start = self@;
        if self.pending_stacks_by_timestamp.contains_key(&t) {
            if let Some(mut waiting) = self.pending_stacks_by_timestamp.remove(&t) {
                let ghost known = waiting@;
                assert(start.pending[t] == pending::walk_views(known));
                if waiting.len() >= MAX_PENDING_STACKS_PER_TIMESTAMP {
                    self.dropped_pending_stack_walk_events = self.dropped_pending_stack_walk_events
                        + 1;
                    self.pending_stacks_by_timestamp.insert(t, waiting);
                    assert(self@.pending =~= start.pending);
                } else {
                    waiting.push(walk);
                    assert(pending::walk_views(waiting@) =~= pending::walk_views(known).push(
                        walk@,
                    ));
                    self.pending_stacks_by_timestamp.insert(t, waiting);
                    assert(self@.pending =~= start.pending.insert(
                        t,
                        start.pending[t].push(walk@),
                    ));
                }
            }
            return;
        }
        assert(!start.pending.contains_key(t));
        assert(self.pending_stacks_by_timestamp@.dom() =~= start.pending.dom());
        if self.pending_stacks_by_timestamp.len() >= MAX_PENDING_STACK_TIMESTAMPS {
            self.drop_oldest_pending_stack_timestamp();
            proof {
                let a = choose|k: i64| pending::oldest_key(start.pending, k);
                let b = choose|k: i64|
                    #![trigger pending::oldest_key(start.pending, k)]
                    pending::oldest_key(start.pending, k) && self@ == (EtwView {
                        pending: start.pending.remove(k),
                        dropped_walks: start.dropped_walks + start.pending[k].len(),
                        ..start
                    });
                assert(pending::oldest_key(start.pending, a));
                assert(a == b);
                assert(self@ == start.without_oldest());
            }
        }
        let ghost room = self@;
        let mut waiting: Vec<DecodedStackWalkEvent> = Vec::new();
        waiting.push(walk);
        assert(pending::walk_views(waiting@) =~= seq![walk@]);
        self.pending_stacks_by_timestamp.insert(t, waiting);
        assert(self@.pending =~= room.pending.insert(t, seq![walk@]));
    }

    /// Takes in a stack walk event.
    pub fn process_stack_walk_event(&mut self, walk: DecodedStackWalkEvent)
        requires
            old(self)@.well_formed(),
            old(self)@.walk_events < u64::MAX,
        ensures
            final(self)@ == old(self)@.after_stack_walk(walk@),
            final(self)@.well_formed(),
    {
        proof {
            invariants::after_stack_walk_well_formed(self@, walk@);
        }
        let ghost start = self@;
        self.stack_walk_events = self.stack_walk_events + 1;
        if self.stack_walk_match_samples.len() < 5 {
            let sample = walk_sample_text(&walk);
            self.stack_walk_match_samples.push(sample);
            assert(self@.walk_samples =~= start.walk_samples.push(model::walk_sample(walk@)));
        }
        let ghost seen = self@;
        assert(seen.sound());
        if !self.attach_stack_walk_event(&walk) {
            self.cache_pending_stack_walk_event(walk);
        }
    }

    /// Attaches the stack walks that waited for an event of the given timestamp.
    fn release_pending_stacks(&mut self, timestamp: i64)
        requires
            old(self)@.well_formed(),
            old(self)@.has_target(timestamp),
        ensures
            final(self)@ == old(self)@.released(timestamp),
            final(self)@.well_formed(),
    {
        proof {
            invariants::released_well_formed(self@, timestamp);
        }
        let ghost start = self@;
        if let Some(waiting) = self.pending_stacks_by_timestamp.remove(&timestamp) {
            let ghost taken = EtwView { pending: start.pending.remove(timestamp), ..start };
            let ghost walks = pending::walk_views(waiting@);
            assert(start.pending[timestamp] == walks);
            assert(self@ =~= taken) by {
                assert(self@.pending =~= taken.pending);
            }
            proof {
                pending::total_remove(start.pending, timestamp);
                assert(taken.sound());
            }
            let mut i: usize = 0;
            assert(walks.take(0) =~= Seq::<decode::StackWalkInput>::empty());
            while i < waiting.len()
                invariant
                    i <= waiting@.len(),
                    walks == pending::walk_views(waiting@),
                    taken.sound(),
                    taken.matched_walks + walks.len() <= taken.walk_events,
                    taken.walk_events <= u64::MAX,
                    self@ == taken.attached_all(walks.take(i as int)),
                decreases waiting@.len() - i,
            {
                proof {
                    invariants::attached_all_sound(taken, walks.take(i as int));
                }
                let _ = self.attach_stack_walk_event(&waiting[i]);
                i += 1;
                assert(walks.take(i as int).drop_last() =~= walks.take(i as int - 1));
                assert(walks.take(i as int).last() == waiting@[i as int - 1]@);
            }
            assert(walks.take(walks.len() as int) =~= walks);
        } else {
            assert(self@.pending =~= start.pending);
        }
    }
}

fn walk_sample_text(walk: &DecodedStackWalkEvent) -> (r: String)
    ensures
        r@ == model::walk_sample(walk@),
{
    let mut out = cat2("ts=", signed_decimal_text(walk.event_timestamp).as_str());
    out.append(",stack_process=");
    out.append(decimal_text(walk.stack_process as u64).as_str());
    out.append(",stack_thread=");
    out.append(decimal_text(walk.stack_thread as u64).as_str());
    out.append(",frames=");
    out.append(decimal_text(walk.stack_addresses.len() as u64).as_str());
    out
}

fn lifecycle_sample_text(event: &DecodedLifecycleEvent) -> (r: String)
    ensures
        r@ == model::lifecycle_sample(event@),
{
    let mut out = cat2(event.event, ":ts=");
    out.append(signed_decimal_text(event.event_timestamp).as_str());
    out.append(",header_tid=");
    out.append(decimal_text(event.event_thread_id as u64).as_str());
    out.append(",pid=");
    out.append(decimal_text(event.pid as u64).as_str());
    out
}

fn hex64_option(o: Option<u64>) -> (r: Option<String>)
    ensures
        text::view_opt(r) == model::hex64_opt(o),
{
    match o {
        Some(n) => Some(hex64(n)),
        None => None,
    }
}

fn hex32_option(o: Option<u32>) -> (r: Option<String>)
    ensures
        text::view_opt(r) == model::hex32_opt(o),
{
    match o {
        Some(n) => Some(hex32(n)),
        None => None,
    }
}

impl EtwProcessor {
    fn record_module_load(&mut self, timestamp: i64, base: u64, size: u64, name: String)
        ensures
            final(self)@ == (EtwView {
                modules: old(self)@.modules.push(
                    stack::ModuleView {
                        base,
                        size,
                        name: name@,
                        loaded_at: timestamp,
                        unloaded_at: None,
                    },
                ),
                ..old(self)@
            }),
    {
        let module = ModuleInterval { base, size, name, loaded_at: timestamp, unloaded_at: None };
        self.modules.push(module);
        assert(self@.modules =~= old(self)@.modules.push(module@));
    }

    fn record_module_unload(&mut self, timestamp: i64, base: u64, size: Option<u64>)
        ensures
            final(self)@ == (EtwView {
                modules: match EtwView::unloaded_module(old(self)@.modules, base, size) {
                    Some(i) => old(self)@.modules.update(
                        i,
                        stack::ModuleView {
                            unloaded_at: Some(timestamp),
                            ..old(self)@.modules[i]
                        },
                    ),
                    None => old(self)@.modules,
                },
                ..old(self)@
            }),
    {
        let ghost all = self@.modules;
        let mut i: usize = self.modules.len();
        assert(all.take(all.len() as int) =~= all);
        while i > 0
            invariant
                i <= self.modules@.len(),
                self == old(self),
                all == old(self)@.modules,
                EtwView::unloaded_module(all, base, size) == EtwView::unloaded_module(
                    all.take(i as int),
                    base,
                    size,
                ),
            decreases i,
        {
            i -= 1;
            assert(all.take(i as int + 1).drop_last() =~= all.take(i as int));
            assert(all.take(i as int + 1).last() == self.modules@[i as int]@);
            let fits = match size {
                Some(image_size) => image_size == self.modules[i].size,
                None => true,
            };
            if self.modules[i].base == base && self.modules[i].unloaded_at.is_none() && fits {
                let mut module = self.modules[i].duplicate();
                module.unloaded_at = Some(timestamp);
                self.modules[i] = module;
                assert(self@.modules =~= all.update(
                    i as int,
                    stack::ModuleView { unloaded_at: Some(timestamp), ..all[i as int] },
                ));
                return ;
            }
        }
    }

    /// Follows the modules of the traced process.
    fn track_modules(&mut self, event: &DecodedLifecycleEvent)
        ensures
            final(self)@ == (EtwView {
                modules: old(self)@.modules_after(event@),
                ..old(self)@
            }),
    {
        if same(event.event, "image_load") {
            if let (Some(base), Some(size)) = (event.image_base, event.image_size) {
                let name = match &event.image_path {
                    Some(path) => path.clone(),
                    None => cat2("image_", hex_text(base).as_str()),
                };
                self.record_module_load(event.event_timestamp, base, size, name);
            }
        } else if same(event.event, "image_unload") {
            if let Some(base) = event.image_base {
                self.record_module_unload(event.event_timestamp, base, event.image_size);
            }
        }
    }

    fn add_target(&mut self, timestamp: i64, target: StackTarget)
        ensures
            final(self)@ == (EtwView {
                targets: old(self)@.targets_with(timestamp, target),
                ..old(self)@
            }),
    {
        let ghost before = self@.targets;
        let mut known = match self.event_indices_by_timestamp.remove(&timestamp) {
            Some(known) => known,
            None => Vec::new(),
        };
        known.push(target);
        self.event_indices_by_timestamp.insert(timestamp, known);
        assert(self@.targets =~= old(self)@.targets_with(timestamp, target));
    }

    /// Puts out a lifecycle event.
    fn push_lifecycle_event(&mut self, event: &DecodedLifecycleEvent)
        requires
            old(self)@.well_formed(),
            event.pid == old(self)@.target_pid,
        ensures
            final(self)@ == old(self)@.with_lifecycle(event@),
            final(self)@.well_formed(),
            old(self)@.lifecycle.len() < usize::MAX,
    {
        let ghost start = self@;
        self.lifecycle_timestamps.push(event.event_timestamp);
        let sequence: usize = self.lifecycle_timestamps.len();
        let output = LifecycleEvent {
            sequence: sequence as u64,
            event_set: "process",
            event: event.event,
            pid: event.pid,
            tid: event.tid,
            parent_pid: event.parent_pid,
            image_path: copy_opt(&event.image_path),
            image_base: hex64_option(event.image_base),
            image_size: hex64_option(event.image_size),
            stack: Vec::new(),
        };
        assert(output@.stack =~= Seq::<Seq<char>>::empty());
        self.lifecycle_events.push(output);
        assert(self@.lifecycle =~= start.with_lifecycle(event@).lifecycle);
        self.lifecycle_header_threads.push(event.event_thread_id);
        let addresses = copy_addresses(event.stack_addresses.as_slice());
        self.lifecycle_stack_addresses.push(addresses);
        assert(self@.lifecycle_addresses =~= start.with_lifecycle(event@).lifecycle_addresses);
        assert(counts::counts_within(self.lifecycle_event_counts@, (u64::MAX - 1) as nat)) by {
            assert(counts::counts_within(start.lifecycle_counts, start.lifecycle.len()));
        }
        self.lifecycle_event_counts.bump(event.event);
        if self.lifecycle_match_samples.len() < 5 {
            self.lifecycle_match_samples.push(lifecycle_sample_text(event));
        }
        assert(self@.lifecycle_samples =~= start.with_lifecycle(event@).lifecycle_samples);
        let target = StackTarget { kind: StackTargetKind::Lifecycle, index: sequence - 1 };
        let ghost almost = self@;
        assert(almost.targets == start.targets);
        self.add_target(event.event_timestamp, target);
        assert(self@ =~= start.with_lifecycle(event@));
        proof {
            invariants::with_lifecycle_well_formed(start, event@);
        }
    }

    /// Takes in a lifecycle event.
    pub fn process_lifecycle_event(&mut self, event: DecodedLifecycleEvent)
        requires
            old(self)@.well_formed(),
        ensures
            final(self)@ == old(self)@.after_lifecycle(event@),
            final(self)@.well_formed(),
    {
        if !event_matches_target(event.pid, self.target_pid) {
            return ;
        }
        self.prune_pending_stacks_before(event.event_timestamp);
        self.track_modules(&event);
        if !self.settings.includes(EtwEventSet::Process) {
            return ;
        }
        self.push_lifecycle_event(&event);
        self.release_pending_stacks(event.event_timestamp);
    }
}

fn copy_addresses(v: &[u64]) -> (r: Vec<u64>)
    ensures
        r@ == v@,
{
    let mut out: Vec<u64> = Vec::new();
    let mut i: usize = 0;
    while i < v.len()
        invariant
            i <= v@.len(),
            out@ == v@.take(i as int),
        decreases v@.len() - i,
    {
        out.push(v[i]);
        i += 1;
        assert(v@.take(i as int) =~= v@.take(i as int - 1).push(v@[i as int - 1]));
    }
    assert(v@.take(v@.len() as int) =~= v@);
    out
}

impl EtwProcessor {
    fn file_io_event_matches_target(&self, event: &DecodedFileIoEvent) -> (r: bool)
        ensures
            r == self@.concerns(event@),
    {
        if same(event.event, "op_end") {
            if let Some(irp) = event.irp_ptr {
                if self.pending_file_irps.contains_key(&irp) || self.ignored_file_irps.contains(
                    &irp,
                ) {
                    return true;
                }
            }
        }
        event_matches_target(event.pid, self.target_pid)
    }

    fn cache_file_path(&mut self, event: &DecodedFileIoEvent)
        ensures
            final(self)@ == (EtwView { paths: old(self)@.paths_with(event@), ..old(self)@ }),
    {
        if let Some(path) = &event.path {
            if path.as_str().is_empty() {
                return ;
            }
            if let Some(pointer) = event.file_object {
                self.file_paths_by_pointer.insert(pointer, path.clone());
            }
            if let Some(pointer) = event.file_key {
                self.file_paths_by_pointer.insert(pointer, path.clone());
            }
            assert(self@.paths =~= old(self)@.paths_with(event@));
        }
    }

    fn remove_file_path(&mut self, event: &DecodedFileIoEvent)
        ensures
            final(self)@ == (EtwView { paths: old(self)@.paths_without(event@), ..old(self)@ }),
    {
        if let Some(pointer) = event.file_object {
            self.file_paths_by_pointer.remove(&pointer);
        }
        if let Some(pointer) = event.file_key {
            self.file_paths_by_pointer.remove(&pointer);
        }
        assert(self@.paths =~= old(self)@.paths_without(event@));
    }

    fn resolve_file_path(&self, event: &DecodedFileIoEvent) -> (r: (
        Option<String>,
        Option<&'static str>,
    ))
        ensures
            (text::view_opt(r.0), decode::view_name(r.1)) == self@.path_for(event@),
    {
        if let Some(path) = &event.path {
            if !path.as_str().is_empty() {
                return (Some(path.clone()), event.path_source);
            }
        }
        if let Some(pointer) = event.file_object {
            if let Some(path) = self.file_paths_by_pointer.get(&pointer) {
                return (Some(path.clone()), Some("file_object_cache"));
            }
        }
        if let Some(pointer) = event.file_key {
            if let Some(path) = self.file_paths_by_pointer.get(&pointer) {
                return (Some(path.clone()), Some("file_key_cache"));
            }
        }
        (None, None)
    }

    fn ignore_file_io_close(&mut self, event: &DecodedFileIoEvent)
        requires
            old(self)@.well_formed(),
        ensures
            final(self)@ == old(self)@.after_close(event@),
            final(self)@.well_formed(),
    {
        proof {
            invariants::after_close_well_formed(self@, event@);
        }
        if let Some(irp) = event.irp_ptr {
            assert(self.pending_file_irps@.contains_key(irp) ==> self@.pending_irps.len() > 0);
            if self.pending_file_irps.remove(&irp).is_some() {
                self.reused_irp_without_op_end_count = self.reused_irp_without_op_end_count + 1;
            }
            self.ignored_file_irps.insert(irp);
        }
        self.remove_file_path(event);
        assert(self@ =~= old(self)@.after_close(event@));
    }

    fn merge_file_io_completion(&mut self, event: &DecodedFileIoEvent)
        requires
            old(self)@.well_formed(),
            old(self)@.pending_irps.len() + old(self)@.reused_irps + old(self)@.matched_op_ends
                + old(self)@.unmatched_op_ends < old(self)@.raw_sequence,
        ensures
            final(self)@ == old(self)@.after_op_end(event@),
            final(self)@.well_formed(),
    {
        proof {
            invariants::after_op_end_well_formed(self@, event@);
        }
        let ghost start = self@;
        let irp = match event.irp_ptr {
            Some(irp) => irp,
            None => {
                self.unmatched_op_end_count = self.unmatched_op_end_count + 1;
                return ;
            },
        };
        let index = match self.pending_file_irps.remove(&irp) {
            Some(index) => index,
            None => {
                assert(self@.pending_irps =~= start.pending_irps);
                if !self.ignored_file_irps.remove(&irp) {
                    assert(self@.ignored_irps =~= start.ignored_irps);
                    self.unmatched_op_end_count = self.unmatched_op_end_count + 1;
                }
                return ;
            },
        };
        self.matched_op_end_count = self.matched_op_end_count + 1;
        let raw_sequence = self.file_io_raw_sequence;
        let ghost outputs = self.file_io_events@;
        complete(&mut self.file_io_events[index], event, raw_sequence);
        assert(self@.file_io =~= start.after_op_end(event@).file_io);
    }

    /// Puts out a file event.
    fn push_file_io_event(&mut self, event: &DecodedFileIoEvent)
        requires
            old(self)@.well_formed(),
            event.pid == old(self)@.target_pid,
            event@.event != "op_end"@,
            event@.event != "close"@,
            old(self)@.pending_irps.len() + old(self)@.reused_irps + old(self)@.matched_op_ends
                + old(self)@.unmatched_op_ends < old(self)@.raw_sequence,
        ensures
            final(self)@ == old(self)@.with_file_io(event@),
            final(self)@.well_formed(),
    {
        let ghost start = self@;
        let (path, path_source) = self.resolve_file_path(event);
        self.file_io_timestamps.push(event.event_timestamp);
        let sequence: usize = self.file_io_timestamps.len();
        if path.is_some() {
            self.file_path_resolved = self.file_path_resolved + 1;
        } else {
            self.file_path_unresolved = self.file_path_unresolved + 1;
        }
        let output = FileIoEvent {
            sequence: sequence as u64,
            event_set: "file_io",
            event: event.event,
            pid: event.pid,
            tid: Some(event.event_thread_id),
            ttid: event.ttid,
            path,
            path_source,
            file_object: hex64_option(event.file_object),
            file_key: hex64_option(event.file_key),
            irp_ptr: hex64_option(event.irp_ptr),
            offset: hex64_option(event.offset),
            io_size: event.io_size,
            io_flags: hex32_option(event.io_flags),
            create_options: hex32_option(event.create_options),
            file_attributes: hex32_option(event.file_attributes),
            share_access: hex32_option(event.share_access),
            info_class: event.info_class,
            extra_info: hex64_option(event.extra_info),
            nt_status: hex32_option(event.nt_status),
            stack: Vec::new(),
            completion_pid: None,
            completion_tid: None,
            completion_sequence: None,
        };
        assert(output@.stack =~= Seq::<Seq<char>>::empty());
        self.file_io_events.push(output);
        assert(self@.file_io =~= start.with_file_io(event@).file_io);
        self.file_io_header_threads.push(event.event_thread_id);
        self.file_io_stack_addresses.push(copy_addresses(event.stack_addresses.as_slice()));
        assert(self@.file_io_addresses =~= start.with_file_io(event@).file_io_addresses);
        assert(counts::counts_within(self.file_io_event_counts@, (u64::MAX - 1) as nat)) by {
            assert(counts::counts_within(start.file_io_counts, start.file_io.len()));
        }
        self.file_io_event_counts.bump(event.event);
        let target = StackTarget { kind: StackTargetKind::FileIo, index: sequence - 1 };
        self.add_target(event.event_timestamp, target);
        if let Some(irp) = event.irp_ptr {
            if self.pending_file_irps.insert(irp, sequence - 1).is_some() {
                self.reused_irp_without_op_end_count = self.reused_irp_without_op_end_count + 1;
            }
        }
        assert(self@ =~= start.with_file_io(event@));
        proof {
            invariants::with_file_io_well_formed(start, event@);
        }
    }

    /// Takes in a file event.
    pub fn process_file_io_event(&mut self, event: DecodedFileIoEvent)
        requires
            old(self)@.well_formed(),
            old(self)@.raw_sequence < u64::MAX,
        ensures
            final(self)@ == old(self)@.after_file_io(event@),
            final(self)@.well_formed(),
    {
        if !self.file_io_event_matches_target(&event) {
            return ;
        }
        let ghost start = self@;
        self.prune_pending_stacks_before(event.event_timestamp);
        self.file_io_raw_sequence = self.file_io_raw_sequence + 1;
        let ghost current = self@;
        assert(current.well_formed());
        if same(event.event, "op_end") {
            self.merge_file_io_completion(&event);
            return ;
        }
        if same(event.event, "close") {
            self.ignore_file_io_close(&event);
            return ;
        }
        self.cache_file_path(&event);
        assert(self@.well_formed());
        self.push_file_io_event(&event);
        self.release_pending_stacks(event.event_timestamp);
        if same(event.event, "cleanup") {
            self.remove_file_path(&event);
        }
    }
}

fn complete(output: &mut FileIoEvent, event: &DecodedFileIoEvent, raw_sequence: u64)
    ensures
        final(output)@ == (FileIoView {
            extra_info: if event@.extra_info is Some {
                model::hex64_opt(event@.extra_info)
            } else {
                old(output)@.extra_info
            },
            nt_status: if event@.nt_status is Some {
                model::hex32_opt(event@.nt_status)
            } else {
                old(output)@.nt_status
            },
            completion_pid: Some(event@.pid),
            completion_tid: Some(event@.event_thread_id),
            completion_sequence: Some(raw_sequence as nat),
            ..old(output)@
        }),
{
    if let Some(extra_info) = event.extra_info {
        output.extra_info = Some(hex64(extra_info));
    }
    if let Some(nt_status) = event.nt_status {
        output.nt_status = Some(hex32(nt_status));
    }
    output.completion_pid = Some(event.pid);
    output.completion_tid = Some(event.event_thread_id);
    output.completion_sequence = Some(raw_sequence);
}

} // verus!
