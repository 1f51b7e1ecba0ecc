//! Every event keeps the correlation state well formed.

use crate::etw::counts;
use crate::etw::decode::{FileIoInput, LifecycleInput, StackWalkInput};
use crate::etw::model;
use crate::etw::model::{EtwView, FileIoView, StackTarget, StackTargetKind};
use crate::etw::pending;
use crate::etw::settings::{EtwEventSet, NativeEtwSettings};
use vstd::prelude::*;

verus! {

/// The state before any event is well formed.
pub proof fn initial_well_formed(target_pid: u32, settings: NativeEtwSettings)
    ensures
        EtwView::initial(target_pid, settings).well_formed(),
{
    let v = EtwView::initial(target_pid, settings);
    assert(v.pending.dom() =~= Set::empty());
    assert(v.pending_irps.dom() =~= Set::empty());
    assert(v.pending_irps.len() == 0);
}

/// The warnings have no part in what is well formed.
pub proof fn warnings_keep_well_formed(v: EtwView, warnings: Seq<Seq<char>>)
    requires
        v.well_formed(),
    ensures
        (EtwView { warnings, ..v }).well_formed(),
{
}

/// The target that a stack walk is attached to is one of those of its timestamp.
pub proof fn attach_target_valid(v: EtwView, walk: StackWalkInput)
    requires
        v.sound(),
    ensures
        v.attach_target(walk) matches Some(target) ==> v.valid_target(target) && v.identity(
            target,
        ).0 == v.target_pid,
{
    if v.targets.contains_key(walk.event_timestamp) {
        let targets = v.targets[walk.event_timestamp];
        first_on_thread_member(v, targets, walk.stack_thread);
        first_of_process_member(v, targets);
    }
}

proof fn first_on_thread_member(v: EtwView, targets: Seq<StackTarget>, thread: u32)
    ensures
        v.first_on_thread(targets, thread) matches Some(target) ==> targets.contains(target)
            && v.identity(target) == (v.target_pid, thread),
    decreases targets.len(),
{
    if targets.len() > 0 {
        let rest = targets.drop_first();
        first_on_thread_member(v, rest, thread);
        assert(targets[0] == targets.first());
        assert forall|t: StackTarget| rest.contains(t) implies targets.contains(t) by {
            let i = choose|i: int| 0 <= i < rest.len() && rest[i] == t;
            assert(targets[i + 1] == t);
        }
    }
}

proof fn first_of_process_member(v: EtwView, targets: Seq<StackTarget>)
    ensures
        v.first_of_process(targets) matches Some(target) ==> targets.contains(target)
            && v.identity(target).0 == v.target_pid,
    decreases targets.len(),
{
    if targets.len() > 0 {
        let rest = targets.drop_first();
        first_of_process_member(v, rest);
        assert(targets[0] == targets.first());
        assert forall|t: StackTarget| rest.contains(t) implies targets.contains(t) by {
            let i = choose|i: int| 0 <= i < rest.len() && rest[i] == t;
            assert(targets[i + 1] == t);
        }
    }
}

/// Attaching a stack walk keeps the state sound and changes nothing but stacks and the number
/// of matched walks.
pub proof fn attached_sound(v: EtwView, walk: StackWalkInput)
    requires
        v.sound(),
    ensures
        v.attached(walk).sound(),
        v.attached(walk).same_but_stacks(v),
        v.matched_walks <= v.attached(walk).matched_walks <= v.matched_walks + 1,
{
    attach_target_valid(v, walk);
}

/// The same for several stack walks.
pub proof fn attached_all_sound(v: EtwView, walks: Seq<StackWalkInput>)
    requires
        v.sound(),
    ensures
        v.attached_all(walks).sound(),
        v.attached_all(walks).same_but_stacks(v),
        v.matched_walks <= v.attached_all(walks).matched_walks <= v.matched_walks + walks.len(),
    decreases walks.len(),
{
    if walks.len() > 0 {
        attached_all_sound(v, walks.drop_last());
        attached_sound(v.attached_all(walks.drop_last()), walks.last());
    }
}

impl EtwView {
    /// Whether two states differ at most in stacks and in the number of matched walks.
    pub open spec fn same_but_stacks(self, other: EtwView) -> bool {
        self == EtwView {
            lifecycle_addresses: self.lifecycle_addresses,
            file_io_addresses: self.file_io_addresses,
            matched_walks: self.matched_walks,
            ..other
        }
    }
}

/// Dropping outdated stack walks keeps the state well formed.
pub proof fn pruned_well_formed(v: EtwView, timestamp: i64)
    requires
        v.well_formed(),
    ensures
        v.pruned(timestamp).well_formed(),
{
    let keep = pending::kept(v.pending, timestamp);
    assert(keep.dom().subset_of(v.pending.dom()));
    vstd::set_lib::lemma_set_subset_finite(v.pending.dom(), keep.dom());
    vstd::set_lib::lemma_len_subset(keep.dom(), v.pending.dom());
    pending::total_split(v.pending, timestamp);
}

impl EtwView {
    /// Whether an event of the output has the given timestamp.
    pub open spec fn has_target(self, timestamp: i64) -> bool {
        self.targets.contains_key(timestamp) && self.targets[timestamp].len() > 0
    }
}

/// A stack walk of the traced process is attached wherever an event has its timestamp.
proof fn walk_in_place_attaches(v: EtwView, walk: StackWalkInput, timestamp: i64)
    requires
        v.sound(),
        v.has_target(timestamp),
        v.walk_in_place(walk, timestamp),
    ensures
        v.attach_target(walk) is Some,
{
    let targets = v.targets[timestamp];
    assert(v.valid_target(v.targets[timestamp][0]));
    assert(v.identity(targets[0]).0 == v.target_pid);
}

/// Several stack walks of the traced process are all attached.
pub proof fn walks_in_place_attach(v: EtwView, walks: Seq<StackWalkInput>, timestamp: i64)
    requires
        v.sound(),
        v.has_target(timestamp),
        forall|i: int| 0 <= i < walks.len() ==> v.walk_in_place(#[trigger] walks[i], timestamp),
    ensures
        v.attached_all(walks).matched_walks == v.matched_walks + walks.len(),
    decreases walks.len(),
{
    if walks.len() > 0 {
        let rest = walks.drop_last();
        walks_in_place_attach(v, rest, timestamp);
        attached_all_sound(v, rest);
        assert(v.walk_in_place(walks[walks.len() - 1], timestamp));
        walk_in_place_attaches(v.attached_all(rest), walks.last(), timestamp);
    }
}

/// Attaching the stack walks that waited keeps the state well formed: all of them are attached.
pub proof fn released_well_formed(v: EtwView, timestamp: i64)
    requires
        v.well_formed(),
        v.has_target(timestamp),
    ensures
        v.released(timestamp).well_formed(),
        v.released(timestamp).same_but_stacks(
            EtwView { pending: v.released(timestamp).pending, ..v },
        ),
{
    if v.pending.contains_key(timestamp) {
        let taken = EtwView { pending: v.pending.remove(timestamp), ..v };
        pending::total_remove(v.pending, timestamp);
        assert(taken.sound());
        attached_all_sound(taken, v.pending[timestamp]);
        assert forall|i: int| 0 <= i < v.pending[timestamp].len() implies taken.walk_in_place(
            #[trigger] v.pending[timestamp][i],
            timestamp,
        ) by {
            assert(v.walk_in_place(v.pending[timestamp][i], timestamp));
        }
        walks_in_place_attach(taken, v.pending[timestamp], timestamp);
    }
}

proof fn targets_with_valid(before: EtwView, after: EtwView, timestamp: i64, target: StackTarget)
    requires
        before.sound(),
        after.targets == before.targets_with(timestamp, target),
        after.valid_target(target),
        after.lifecycle.len() >= before.lifecycle.len(),
        after.file_io.len() >= before.file_io.len(),
    ensures
        forall|t: i64, i: int|
            #![trigger after.targets[t][i]]
            after.targets.contains_key(t) && 0 <= i < after.targets[t].len() ==> after.valid_target(
                after.targets[t][i],
            ),
{
    assert forall|t: i64, i: int|
        #![trigger after.targets[t][i]]
        after.targets.contains_key(t) && 0 <= i
            < after.targets[t].len() implies after.valid_target(after.targets[t][i]) by {
        if t != timestamp {
            assert(before.valid_target(before.targets[t][i]));
        } else if before.targets.contains_key(t) && i < before.targets[t].len() {
            assert(before.valid_target(before.targets[t][i]));
        }
    }
}

/// Putting out a lifecycle event keeps the state well formed.
pub proof fn with_lifecycle_well_formed(v: EtwView, event: LifecycleInput)
    requires
        v.well_formed(),
        event.pid == v.target_pid,
        v.lifecycle.len() < usize::MAX,
    ensures
        v.with_lifecycle(event).well_formed(),
{
    let after = v.with_lifecycle(event);
    targets_with_valid(
        v,
        after,
        event.event_timestamp,
        StackTarget { kind: StackTargetKind::Lifecycle, index: v.lifecycle.len() as usize },
    );
    counted_within(v.lifecycle_counts, event.event, v.lifecycle.len());
}

proof fn counted_within(entries: Seq<(Seq<char>, nat)>, name: Seq<char>, limit: nat)
    requires
        counts::counts_within(entries, limit),
    ensures
        counts::counts_within(counts::counted(entries, name), limit + 1),
{
    let after = counts::counted(entries, name);
    assert forall|i: int| 0 <= i < after.len() implies (#[trigger] after[i]).1 <= limit + 1 by {
        assert(entries[i].1 <= limit);
    }
}

/// Setting a stack walk aside keeps the state within its bounds. One stack walk event is
/// accounted for by exactly one of: still waiting, dropped.
pub proof fn put_aside_well_formed(v: EtwView, walk: StackWalkInput)
    requires
        v.sound(),
        v.walk_events == v.matched_walks + v.dropped_walks + pending::total(v.pending) + 1,
    ensures
        v.put_aside(walk).well_formed(),
        v.put_aside(walk).dropped_walks + pending::total(v.put_aside(walk).pending)
            == v.dropped_walks + pending::total(v.pending) + 1,
{
    let t = walk.event_timestamp;
    if walk.stack_process == v.target_pid {
        if v.pending.contains_key(t) {
            if v.pending[t].len() < pending::MAX_PENDING_STACKS_PER_TIMESTAMP {
                let more = v.pending[t].push(walk);
                pending::total_remove(v.pending, t);
                pending::total_insert(v.pending.remove(t), t, more);
                assert(v.pending.remove(t).insert(t, more) =~= v.pending.insert(t, more));
                assert(v.pending.insert(t, more).dom() =~= v.pending.dom());
            }
        } else {
            let room = if v.pending.len() >= pending::MAX_PENDING_STACK_TIMESTAMPS {
                oldest_exists(v.pending);
                let k = choose|k: i64| pending::oldest_key(v.pending, k);
                assert(pending::oldest_key(v.pending, k));
                pending::total_remove(v.pending, k);
                v.without_oldest()
            } else {
                v
            };
            pending::total_insert(room.pending, t, seq![walk]);
        }
    }
}

/// A table that is not empty has a smallest key.
pub proof fn oldest_exists<A>(m: Map<i64, A>)
    requires
        m.dom().finite(),
        m.dom().len() > 0,
    ensures
        exists|k: i64| pending::oldest_key(m, k),
    decreases m.dom().len(),
{
    let c = m.dom().choose();
    let rest = m.remove(c);
    if rest.dom().len() > 0 {
        oldest_exists(rest);
        let k = choose|k: i64| pending::oldest_key(rest, k);
        if c < k {
            assert forall|j: i64| #[trigger] m.contains_key(j) implies c <= j by {
                if j != c {
                    assert(rest.contains_key(j));
                }
            }
            assert(pending::oldest_key(m, c));
        } else {
            assert forall|j: i64| #[trigger] m.contains_key(j) implies k <= j by {
                if j != c {
                    assert(rest.contains_key(j));
                }
            }
            assert(pending::oldest_key(m, k));
        }
    } else {
        assert forall|j: i64| #[trigger] m.contains_key(j) implies c <= j by {
            if j != c {
                assert(rest.dom().contains(j));
                assert(rest.dom() =~= Set::empty());
            }
        }
        assert(pending::oldest_key(m, c));
    }
}

/// A stack walk event keeps the state well formed. It is accounted for by exactly one of:
/// attached, still waiting, dropped.
pub proof fn after_stack_walk_well_formed(v: EtwView, walk: StackWalkInput)
    requires
        v.well_formed(),
    ensures
        ({
            let after = v.after_stack_walk(walk);
            &&& after.well_formed()
            &&& after.walk_events == v.walk_events + 1
            &&& after.matched_walks + after.dropped_walks + pending::total(after.pending)
                == v.matched_walks + v.dropped_walks + pending::total(v.pending) + 1
        }),
{
    let after = v.after_stack_walk(walk);
    let seen = EtwView {
        walk_events: v.walk_events + 1,
        walk_samples: after.walk_samples,
        ..v
    };
    assert(seen.sound());
    if seen.attach_target(walk) is Some {
        attached_sound(seen, walk);
    } else {
        put_aside_well_formed(seen, walk);
    }
}

/// Events that agree in packets and completions are counted alike.
pub proof fn counts_agree(a: Seq<FileIoView>, b: Seq<FileIoView>)
    requires
        a.len() == b.len(),
        forall|i: int|
            0 <= i < a.len() ==> (#[trigger] a[i]).irp_ptr == b[i].irp_ptr
                && a[i].completion_sequence == b[i].completion_sequence,
    ensures
        model::begun_count(a) == model::begun_count(b),
        model::completed_count(a) == model::completed_count(b),
    decreases a.len(),
{
    if a.len() > 0 {
        counts_agree(a.drop_last(), b.drop_last());
        assert(a[a.len() - 1].irp_ptr == b[b.len() - 1].irp_ptr);
    }
}

/// Completing one event raises the number of completed ones by one.
proof fn completion_counts_once(events: Seq<FileIoView>, i: int, done: FileIoView)
    requires
        0 <= i < events.len(),
        events[i].completion_sequence is None,
        done.completion_sequence is Some,
        done.irp_ptr == events[i].irp_ptr,
    ensures
        model::begun_count(events.update(i, done)) == model::begun_count(events),
        model::completed_count(events.update(i, done)) == model::completed_count(events) + 1,
    decreases events.len(),
{
    let after = events.update(i, done);
    if i == events.len() - 1 {
        assert(after.drop_last() =~= events.drop_last());
    } else {
        completion_counts_once(events.drop_last(), i, done);
        assert(after.drop_last() =~= events.drop_last().update(i, done));
    }
}

/// Putting out a file event keeps the state well formed.
pub proof fn with_file_io_well_formed(v: EtwView, event: FileIoInput)
    requires
        v.well_formed(),
        event.pid == v.target_pid,
        event.event != "op_end"@,
        event.event != "close"@,
        v.file_io.len() < usize::MAX,
        v.pending_irps.len() + v.reused_irps + v.matched_op_ends + v.unmatched_op_ends
            < v.raw_sequence,
    ensures
        v.with_file_io(event).well_formed(),
{
    let after = v.with_file_io(event);
    targets_with_valid(
        v,
        after,
        event.event_timestamp,
        StackTarget { kind: StackTargetKind::FileIo, index: v.file_io.len() as usize },
    );
    counted_within(v.file_io_counts, event.event, v.file_io.len());
    assert(after.file_io.drop_last() =~= v.file_io);
    if let Some(irp) = event.irp_ptr {
        if v.pending_irps.contains_key(irp) {
            assert(after.pending_irps.dom() =~= v.pending_irps.dom());
        }
    }
    assert forall|irp: u64| #[trigger] after.pending_irps.contains_key(irp) implies after.waits(
        irp,
    ) by {
        if event.irp_ptr != Some(irp) {
            assert(v.waits(irp));
        }
    }
    assert forall|a: u64, b: u64| #[trigger]
        after.pending_irps.contains_key(a) && #[trigger] after.pending_irps.contains_key(b) && a
            != b implies after.pending_irps[a] != after.pending_irps[b] by {
        if event.irp_ptr == Some(a) {
            assert(v.waits(b));
        } else if event.irp_ptr == Some(b) {
            assert(v.waits(a));
        }
    }
}

/// A completion keeps the state well formed.
pub proof fn after_op_end_well_formed(v: EtwView, event: FileIoInput)
    requires
        v.well_formed(),
        v.pending_irps.len() + v.reused_irps + v.matched_op_ends + v.unmatched_op_ends
            < v.raw_sequence,
    ensures
        v.after_op_end(event).well_formed(),
{
    let after = v.after_op_end(event);
    if let Some(irp) = event.irp_ptr {
        if v.pending_irps.contains_key(irp) {
            let i = v.pending_irps[irp] as int;
            assert(v.waits(irp));
            completion_counts_once(v.file_io, i, v.completed(v.file_io[i], event));
            assert forall|other: u64| #[trigger] after.pending_irps.contains_key(
                other,
            ) implies after.waits(other) by {
                assert(v.pending_irps.contains_key(other));
                assert(v.waits(other));
            }
        }
    }
}

/// A close keeps the state well formed.
pub proof fn after_close_well_formed(v: EtwView, event: FileIoInput)
    requires
        v.well_formed(),
    ensures
        v.after_close(event).well_formed(),
{
    if let Some(irp) = event.irp_ptr {
        if !v.pending_irps.contains_key(irp) {
            assert(v.pending_irps.remove(irp) =~= v.pending_irps);
        }
    }
}

} // verus!
