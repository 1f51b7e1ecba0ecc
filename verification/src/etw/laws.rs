//! Laws of event correlation that relate several events.

use crate::etw::counts;
use crate::etw::decode::{FileIoInput, LifecycleInput, StackWalkInput};
use crate::etw::invariants;
use crate::etw::model;
use crate::etw::model::{EtwView, StackTarget, StackTargetKind};
use crate::etw::pending;
use crate::etw::settings::{EtwEventSet, NativeEtwSettings};
use vstd::prelude::*;

verus! {

/// Events of other processes leave no trace: neither output nor counts nor known paths.
pub proof fn foreign_events_change_nothing(
    v: EtwView,
    lifecycle: LifecycleInput,
    file: FileIoInput,
)
    requires
        lifecycle.pid != v.target_pid,
        file.pid != v.target_pid,
        file.event != "op_end"@,
    ensures
        v.after_lifecycle(lifecycle) == v,
        v.after_file_io(file) == v,
{
}

/// Whether a file event puts out an event of its own.
pub open spec fn begins(v: EtwView, event: FileIoInput) -> bool {
    &&& event.pid == v.target_pid
    &&& event.event != "op_end"@
    &&& event.event != "close"@
}

/// A file event that is neither a completion nor a close puts out exactly one event, at the
/// end, numbered from one on; it is counted as resolved or as unresolved.
pub proof fn begin_puts_out_one_event(v: EtwView, event: FileIoInput)
    requires
        v.well_formed(),
        v.file_io.len() < usize::MAX,
        begins(v, event),
    ensures
        ({
            let after = v.after_file_io(event);
            let current = EtwView {
                raw_sequence: v.raw_sequence + 1,
                ..v.pruned(event.event_timestamp)
            };
            let named = EtwView { paths: current.paths_with(event), ..current };
            &&& after.file_io == v.file_io.push(named.file_io_output(event))
            &&& after.file_io.last().sequence == v.file_io.len() + 1
            &&& after.path_resolved + after.path_unresolved == v.path_resolved + v.path_unresolved
                + 1
            &&& after.file_io_counts == counts::counted(v.file_io_counts, event.event)
            &&& after.lifecycle == v.lifecycle
        }),
{
    let t = event.event_timestamp;
    invariants::pruned_well_formed(v, t);
    let current = EtwView { raw_sequence: v.raw_sequence + 1, ..v.pruned(t) };
    let named = EtwView { paths: current.paths_with(event), ..current };
    assert(named.well_formed());
    invariants::with_file_io_well_formed(named, event);
    invariants::released_well_formed(named.with_file_io(event), t);
}

/// Once an event has named the file behind a file object, a later event on that object
/// without a path of its own gets that path.
pub proof fn named_file_is_resolved_later(
    v: EtwView,
    name: FileIoInput,
    later: FileIoInput,
    path: Seq<char>,
    object: u64,
)
    requires
        v.well_formed(),
        v.file_io.len() < usize::MAX,
        begins(v, name),
        name.event != "cleanup"@,
        name.path == Some(path),
        path.len() > 0,
        name.file_object == Some(object),
        later.path is None,
        later.file_object == Some(object),
    ensures
        v.after_file_io(name).path_for(later) == (Some(path), Some("file_object_cache"@)),
{
    let t = name.event_timestamp;
    invariants::pruned_well_formed(v, t);
    let current = EtwView { raw_sequence: v.raw_sequence + 1, ..v.pruned(t) };
    let named = EtwView { paths: current.paths_with(name), ..current };
    assert(named.well_formed());
    invariants::with_file_io_well_formed(named, name);
    invariants::released_well_formed(named.with_file_io(name), t);
    assert(v.after_file_io(name).paths == named.paths);
}

/// After a close or a cleanup no path is known for the file any more.
pub proof fn ended_file_is_forgotten(v: EtwView, event: FileIoInput, pointer: u64)
    requires
        v.well_formed(),
        v.file_io.len() < usize::MAX,
        event.pid == v.target_pid,
        event.event == "close"@ || event.event == "cleanup"@,
        event.file_object == Some(pointer) || event.file_key == Some(pointer),
    ensures
        !v.after_file_io(event).paths.contains_key(pointer),
{
    reveal_strlit("op_end");
    reveal_strlit("close");
    reveal_strlit("cleanup");
    assert("close"@.len() == 5);
    assert("cleanup"@.len() == 7);
    assert("op_end"@.len() == 6);
}

/// A close puts nothing out and is not counted.
pub proof fn close_puts_nothing_out(v: EtwView, event: FileIoInput)
    requires
        event.event == "close"@,
    ensures
        v.after_file_io(event).file_io == v.file_io,
        v.after_file_io(event).file_io_counts == v.file_io_counts,
        v.after_file_io(event).path_unresolved == v.path_unresolved,
{
    reveal_strlit("op_end");
    reveal_strlit("close");
    assert("close"@.len() == 5);
    assert("op_end"@.len() == 6);
}

/// A request that was begun and then completed, by whatever process, is matched: its output
/// carries the process, the thread and the number of the completion, and nothing is counted
/// as unmatched.
pub proof fn completion_matches_latest_begin(
    v: EtwView,
    begin: FileIoInput,
    end: FileIoInput,
    irp: u64,
)
    requires
        v.well_formed(),
        v.file_io.len() < usize::MAX,
        begins(v, begin),
        begin.irp_ptr == Some(irp),
        end.event == "op_end"@,
        end.irp_ptr == Some(irp),
    ensures
        ({
            let begun = v.after_file_io(begin);
            let done = begun.after_file_io(end);
            let last = v.file_io.len() as int;
            &&& done.file_io.len() == v.file_io.len() + 1
            &&& done.file_io[last].completion_pid == Some(end.pid)
            &&& done.file_io[last].completion_tid == Some(end.event_thread_id)
            &&& done.file_io[last].completion_sequence == Some(v.raw_sequence + 2)
            &&& done.matched_op_ends == v.matched_op_ends + 1
            &&& done.unmatched_op_ends == v.unmatched_op_ends
            &&& !done.pending_irps.contains_key(irp)
            &&& done.reused_irps == v.reused_irps + if v.pending_irps.contains_key(irp) {
                1nat
            } else {
                0nat
            }
            &&& forall|i: int| 0 <= i < last ==> #[trigger] done.file_io[i] == v.file_io[i]
        }),
{
    let t = begin.event_timestamp;
    invariants::pruned_well_formed(v, t);
    let current = EtwView { raw_sequence: v.raw_sequence + 1, ..v.pruned(t) };
    let named = EtwView { paths: current.paths_with(begin), ..current };
    assert(named.well_formed());
    invariants::with_file_io_well_formed(named, begin);
    invariants::released_well_formed(named.with_file_io(begin), t);
    let begun = v.after_file_io(begin);
    assert(begun.pending_irps[irp] == v.file_io.len());
    assert(begun.concerns(end));
}

/// Whether a stack walk and a lifecycle event belong together and nothing else is known at
/// their timestamp.
pub open spec fn meet(v: EtwView, walk: StackWalkInput, event: LifecycleInput) -> bool {
    let t = event.event_timestamp;
    &&& event.pid == v.target_pid
    &&& v.settings.requests(EtwEventSet::Process)
    &&& walk.event_timestamp == t
    &&& walk.stack_process == v.target_pid
    &&& !v.targets.contains_key(t)
    &&& !v.pending.contains_key(t)
}

/// It makes no difference to the stack of an event whether its stack walk comes before or
/// after it.
pub proof fn stack_walk_order_is_immaterial(v: EtwView, walk: StackWalkInput, event: LifecycleInput)
    requires
        v.well_formed(),
        v.lifecycle.len() < usize::MAX,
        meet(v, walk, event),
    ensures
        ({
            let walk_first = v.after_stack_walk(walk).after_lifecycle(event);
            let event_first = v.after_lifecycle(event).after_stack_walk(walk);
            &&& walk_first.lifecycle_addresses == event_first.lifecycle_addresses
            &&& walk_first.lifecycle_addresses.last() == model::with_frames(
                event.stack_addresses,
                walk.stack_addresses,
            )
            &&& walk_first.matched_walks == v.matched_walks + 1
            &&& event_first.matched_walks == v.matched_walks + 1
        }),
{
    let t = event.event_timestamp;
    let target = StackTarget {
        kind: StackTargetKind::Lifecycle,
        index: v.lifecycle.len() as usize,
    };
    // The walk comes first.
    let seen = v.after_stack_walk(walk);
    invariants::after_stack_walk_well_formed(v, walk);
    assert(seen.pending.contains_key(t) && seen.pending[t] == seq![walk]);
    let current = seen.pruned(t);
    assert(current.pending.contains_key(t) && current.pending[t] == seq![walk]);
    let known = EtwView { modules: current.modules_after(event), ..current };
    let out = known.with_lifecycle(event);
    assert(out.targets[t] =~= seq![target]);
    let taken = EtwView { pending: out.pending.remove(t), ..out };
    attaches_to_only_target(taken, walk, target);
    assert(seq![walk].drop_last() =~= Seq::<StackWalkInput>::empty());
    assert(taken.attached_all(Seq::<StackWalkInput>::empty()) == taken);
    assert(taken.attached_all(seq![walk]) == taken.attached(walk)) by {
        reveal_with_fuel(EtwView::attached_all, 2);
    }
    // The event comes first.
    let current2 = v.pruned(t);
    assert(!current2.pending.contains_key(t));
    let known2 = EtwView { modules: current2.modules_after(event), ..current2 };
    let out2 = known2.with_lifecycle(event);
    assert(out2.targets[t] =~= seq![target]);
    let after2 = v.after_lifecycle(event);
    assert(after2 == out2);
    let seen2 = EtwView {
        walk_events: after2.walk_events + 1,
        walk_samples: after2.after_stack_walk(walk).walk_samples,
        ..after2
    };
    attaches_to_only_target(seen2, walk, target);
}

proof fn attaches_to_only_target(v: EtwView, walk: StackWalkInput, target: StackTarget)
    requires
        v.targets.contains_key(walk.event_timestamp),
        v.targets[walk.event_timestamp] == seq![target],
        v.identity(target).0 == v.target_pid,
        walk.stack_process == v.target_pid,
    ensures
        v.attach_target(walk) == Some(target),
{
    let targets = seq![target];
    assert(targets[0] == target);
    assert(targets.drop_first() =~= Seq::<StackTarget>::empty());
    reveal_with_fuel(EtwView::first_on_thread, 2);
    reveal_with_fuel(EtwView::first_of_process, 2);
}

/// In every summary each stack frame is either resolved or not, each file event that was put
/// out either has a path or not, and each incomplete request is waiting or was reused.
pub proof fn summary_adds_up(v: EtwView)
    requires
        v.well_formed(),
    ensures
        v.summary().process matches Some(s) ==> s.stack_frames_total == s.stack_frames_resolved
            + s.stack_frames_unresolved,
        v.summary().file_io matches Some(s) ==> {
            &&& s.stack_frames_total == s.stack_frames_resolved + s.stack_frames_unresolved
            &&& s.file_path_resolved->0 + s.file_path_unresolved->0 == v.file_io.len()
            &&& s.incomplete_io_count->0 == v.pending_irps.len()
                + s.reused_irp_without_op_end_count->0
        },
{
}

/// A decoded event of a trace.
pub enum EventInput {
    Lifecycle(LifecycleInput),
    FileIo(FileIoInput),
    StackWalk(StackWalkInput),
}

/// The state after an event.
pub open spec fn after_event(v: EtwView, event: EventInput) -> EtwView {
    match event {
        EventInput::Lifecycle(e) => v.after_lifecycle(e),
        EventInput::FileIo(e) => v.after_file_io(e),
        EventInput::StackWalk(e) => v.after_stack_walk(e),
    }
}

/// The state after the events of a trace, in order.
pub open spec fn after_events(v: EtwView, events: Seq<EventInput>) -> EtwView
    decreases events.len(),
{
    if events.len() == 0 {
        v
    } else {
        after_event(after_events(v, events.drop_last()), events.last())
    }
}

proof fn event_keeps_well_formed(v: EtwView, event: EventInput)
    requires
        v.well_formed(),
        v.lifecycle.len() < usize::MAX,
        v.file_io.len() < usize::MAX,
    ensures
        after_event(v, event).well_formed(),
        after_event(v, event).lifecycle.len() <= v.lifecycle.len() + 1,
        after_event(v, event).file_io.len() <= v.file_io.len() + 1,
        after_event(v, event).target_pid == v.target_pid,
{
    match event {
        EventInput::Lifecycle(e) => {
            if e.pid == v.target_pid {
                let t = e.event_timestamp;
                invariants::pruned_well_formed(v, t);
                let current = v.pruned(t);
                let known = EtwView { modules: current.modules_after(e), ..current };
                assert(known.well_formed());
                if v.settings.requests(EtwEventSet::Process) {
                    invariants::with_lifecycle_well_formed(known, e);
                    invariants::released_well_formed(known.with_lifecycle(e), t);
                }
            }
        },
        EventInput::FileIo(e) => {
            if v.concerns(e) {
                let t = e.event_timestamp;
                invariants::pruned_well_formed(v, t);
                let current = EtwView { raw_sequence: v.raw_sequence + 1, ..v.pruned(t) };
                assert(current.well_formed());
                if e.event == "op_end"@ {
                    invariants::after_op_end_well_formed(current, e);
                } else if e.event == "close"@ {
                    invariants::after_close_well_formed(current, e);
                } else {
                    let named = EtwView { paths: current.paths_with(e), ..current };
                    assert(named.well_formed());
                    invariants::with_file_io_well_formed(named, e);
                    let out = named.with_file_io(e);
                    invariants::released_well_formed(out, t);
                    let done = out.released(t);
                    assert((EtwView { paths: done.paths_without(e), ..done }).well_formed());
                }
            }
        },
        EventInput::StackWalk(e) => {
            invariants::after_stack_walk_well_formed(v, e);
            walk_puts_nothing_out(v, e);
        },
    }
}

proof fn walk_puts_nothing_out(v: EtwView, walk: StackWalkInput)
    requires
        v.well_formed(),
    ensures
        v.after_stack_walk(walk).lifecycle == v.lifecycle,
        v.after_stack_walk(walk).file_io == v.file_io,
        v.after_stack_walk(walk).target_pid == v.target_pid,
{
    let after = v.after_stack_walk(walk);
    let seen = EtwView { walk_events: v.walk_events + 1, walk_samples: after.walk_samples, ..v };
    assert(seen.sound());
    if seen.attach_target(walk) is Some {
        invariants::attached_sound(seen, walk);
    }
}

/// Whatever events a trace holds, the state after them is well formed.
pub proof fn every_trace_is_well_formed(
    target_pid: u32,
    settings: NativeEtwSettings,
    events: Seq<EventInput>,
)
    requires
        events.len() <= usize::MAX,
    ensures
        after_events(EtwView::initial(target_pid, settings), events).well_formed(),
        after_events(EtwView::initial(target_pid, settings), events).target_pid == target_pid,
        after_events(EtwView::initial(target_pid, settings), events).lifecycle.len()
            <= events.len(),
        after_events(EtwView::initial(target_pid, settings), events).file_io.len() <= events.len(),
    decreases events.len(),
{
    let v = EtwView::initial(target_pid, settings);
    if events.len() == 0 {
        invariants::initial_well_formed(target_pid, settings);
    } else {
        every_trace_is_well_formed(target_pid, settings, events.drop_last());
        event_keeps_well_formed(after_events(v, events.drop_last()), events.last());
    }
}

/// After any trace, each file event with a packet was completed, given up or still waits, as many
/// events are completed as completions were matched, and what waits was put out.
pub proof fn every_request_is_accounted_for(
    target_pid: u32,
    settings: NativeEtwSettings,
    events: Seq<EventInput>,
)
    requires
        events.len() <= usize::MAX,
    ensures
        ({
            let v = after_events(EtwView::initial(target_pid, settings), events);
            &&& model::begun_count(v.file_io) == v.matched_op_ends + v.reused_irps
                + v.pending_irps.len()
            &&& model::completed_count(v.file_io) == v.matched_op_ends
            &&& forall|irp: u64| #[trigger] v.pending_irps.contains_key(irp) ==> v.waits(irp)
        }),
{
    every_trace_is_well_formed(target_pid, settings, events);
}

/// A completion is counted once: as matched, as unmatched, or as that of a close. One that is
/// matched belongs to an event that was not completed before.
pub proof fn completions_are_counted_once(v: EtwView, event: FileIoInput)
    requires
        v.well_formed(),
        event.event == "op_end"@,
        v.concerns(event),
    ensures
        ({
            let after = v.after_file_io(event);
            let ignored = event.irp_ptr matches Some(irp) && !v.pending_irps.contains_key(irp)
                && v.ignored_irps.contains(irp);
            &&& after.matched_op_ends + after.unmatched_op_ends == v.matched_op_ends
                + v.unmatched_op_ends + if ignored {
                0nat
            } else {
                1nat
            }
            &&& ignored ==> after.ignored_irps == v.ignored_irps.remove(event.irp_ptr->0)
            &&& after.matched_op_ends == v.matched_op_ends + 1 <==> (event.irp_ptr matches Some(irp)
                && v.pending_irps.contains_key(irp))
            &&& after.file_io != v.file_io ==> {
                let i = v.pending_irps[event.irp_ptr->0] as int;
                &&& 0 <= i < v.file_io.len()
                &&& v.file_io[i].completion_sequence is None
                &&& after.file_io == v.file_io.update(i, after.file_io[i])
            }
        }),
{
    if let Some(irp) = event.irp_ptr {
        if v.pending_irps.contains_key(irp) {
            assert(v.waits(irp));
        }
    }
}

/// After any trace, the file events are numbered from one on, they are of the traced process, none
/// of them is a completion or a close, and each has a path or counts as one without.
pub proof fn outputs_are_begun_requests(
    target_pid: u32,
    settings: NativeEtwSettings,
    events: Seq<EventInput>,
)
    requires
        events.len() <= usize::MAX,
    ensures
        ({
            let v = after_events(EtwView::initial(target_pid, settings), events);
            &&& v.file_io_timestamps.len() == v.file_io.len()
            &&& v.file_io_threads.len() == v.file_io.len()
            &&& v.file_io_addresses.len() == v.file_io.len()
            &&& v.path_resolved + v.path_unresolved == v.file_io.len()
            &&& forall|i: int|
                #![trigger v.file_io[i]]
                0 <= i < v.file_io.len() ==> {
                    &&& v.file_io[i].sequence == i + 1
                    &&& v.file_io[i].event_set == "file_io"@
                    &&& v.file_io[i].pid == target_pid
                    &&& v.file_io[i].event != "op_end"@
                    &&& v.file_io[i].event != "close"@
                }
        }),
{
    every_trace_is_well_formed(target_pid, settings, events);
}

/// After any trace, each stack walk was attached, was dropped or still waits; what waits is of the
/// traced process and stands under its own timestamp.
pub proof fn every_walk_is_accounted_for(
    target_pid: u32,
    settings: NativeEtwSettings,
    events: Seq<EventInput>,
)
    requires
        events.len() <= usize::MAX,
    ensures
        ({
            let v = after_events(EtwView::initial(target_pid, settings), events);
            &&& v.walk_events == v.matched_walks + v.dropped_walks + pending::total(v.pending)
            &&& forall|t: i64, i: int|
                #![trigger v.pending[t][i]]
                v.pending.contains_key(t) && 0 <= i < v.pending[t].len()
                    ==> v.pending[t][i].stack_process == target_pid
                    && v.pending[t][i].event_timestamp == t
        }),
{
    every_trace_is_well_formed(target_pid, settings, events);
    let v = after_events(EtwView::initial(target_pid, settings), events);
    assert forall|t: i64, i: int|
        #![trigger v.pending[t][i]]
        v.pending.contains_key(t) && 0 <= i
            < v.pending[t].len() implies v.pending[t][i].stack_process == target_pid
        && v.pending[t][i].event_timestamp == t by {
        assert(v.walk_in_place(v.pending[t][i], t));
    }
}

} // verus!
