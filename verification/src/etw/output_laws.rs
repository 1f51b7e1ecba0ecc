//! Laws of what a trace puts out: each event as it happened, each number under its own name.

use crate::etw::counts;
use crate::etw::counts::EventCounts;
use crate::etw::decode;
use crate::etw::decode::{FileIoInput, LifecycleInput, RecordView, StackWalkInput};
use crate::etw::invariants;
use crate::etw::laws;
use crate::etw::model;
use crate::etw::model::{EtwView, StackTarget};
use crate::etw::pending;
use crate::etw::processor::{file_io_count_map, lifecycle_count_map};
use crate::etw::session::{enable_flags, stack_events, status_outcome, stop_outcome, ClassicEvent};
use crate::etw::settings::{event_set_name, EtwEventSet, NativeEtwSettings};
use crate::etw::stack;
use crate::etw::stack::ModuleView;
use crate::etw::summary;
use crate::etw::summary::EtwSummary;
use crate::error::{DbgFlowError, ErrorView};
use crate::text;
use vstd::prelude::*;

verus! {

/// An optional number of a file event as the output shows it: in hexadecimal, if there is one.
pub open spec fn shown(shown: Option<Seq<char>>, width: nat, number: Option<int>) -> bool {
    match (shown, number) {
        (Some(s), Some(n)) => 0 <= n && s == "0x"@ + text::zero_padded(text::hex(n as nat), width),
        (None, None) => true,
        _ => false,
    }
}

/// An optional 64 bit number as an integer.
pub open spec fn wide(o: Option<u64>) -> Option<int> {
    match o {
        Some(n) => Some(n as int),
        None => None,
    }
}

/// An optional 32 bit number as an integer.
pub open spec fn narrow(o: Option<u32>) -> Option<int> {
    match o {
        Some(n) => Some(n as int),
        None => None,
    }
}

/// A file event of the traced process that begins something is put out with its own name, process,
/// threads and numbers, each under its own heading.
pub proof fn file_outputs_say_what_happened(v: EtwView, event: FileIoInput)
    requires
        v.well_formed(),
        v.file_io.len() < usize::MAX,
        event.pid == v.target_pid,
        event.event != "op_end"@,
        event.event != "close"@,
    ensures
        ({
            let after = v.after_file_io(event);
            let out = after.file_io.last();
            &&& after.file_io.len() == v.file_io.len() + 1
            &&& after.file_io.drop_last() =~= v.file_io
            &&& after.lifecycle == v.lifecycle
            &&& out.event == event.event
            &&& out.event_set == "file_io"@
            &&& out.sequence == v.file_io.len() + 1
            &&& out.pid == event.pid
            &&& out.tid == Some(event.event_thread_id)
            &&& out.ttid == event.ttid
            &&& out.io_size == event.io_size
            &&& out.info_class == event.info_class
            &&& shown(out.file_object, 16, wide(event.file_object))
            &&& shown(out.file_key, 16, wide(event.file_key))
            &&& shown(out.irp_ptr, 16, wide(event.irp_ptr))
            &&& shown(out.offset, 16, wide(event.offset))
            &&& shown(out.extra_info, 16, wide(event.extra_info))
            &&& shown(out.io_flags, 8, narrow(event.io_flags))
            &&& shown(out.create_options, 8, narrow(event.create_options))
            &&& shown(out.file_attributes, 8, narrow(event.file_attributes))
            &&& shown(out.share_access, 8, narrow(event.share_access))
            &&& shown(out.nt_status, 8, narrow(event.nt_status))
            &&& out.completion_pid is None
            &&& out.completion_tid is None
            &&& out.completion_sequence is None
        }),
{
    laws::begin_puts_out_one_event(v, event);
}

/// The path of a file event is its own, or else the one last given for its file object, or else
/// the one last given for its file key; the output says which.
pub proof fn paths_are_resolved_in_order(v: EtwView, event: FileIoInput)
    requires
        v.well_formed(),
        v.file_io.len() < usize::MAX,
        event.pid == v.target_pid,
        event.event != "op_end"@,
        event.event != "close"@,
    ensures
        ({
            let out = v.after_file_io(event).file_io.last();
            let own = event.path matches Some(p) && p.len() > 0;
            let by_object = event.file_object matches Some(o) && v.paths.contains_key(o);
            let by_key = event.file_key matches Some(k) && v.paths.contains_key(k);
            &&& own ==> out.path == event.path && out.path_source == event.path_source
            &&& !own && by_object ==> out.path == Some(v.paths[event.file_object->0])
                && out.path_source == Some("file_object_cache"@)
            &&& !own && !by_object && by_key ==> out.path == Some(v.paths[event.file_key->0])
                && out.path_source == Some("file_key_cache"@)
            &&& !own && !by_object && !by_key ==> out.path is None && out.path_source is None
            &&& out.path is Some ==> v.after_file_io(event).path_resolved == v.path_resolved + 1
                && v.after_file_io(event).path_unresolved == v.path_unresolved
            &&& out.path is None ==> v.after_file_io(event).path_unresolved == v.path_unresolved + 1
                && v.after_file_io(event).path_resolved == v.path_resolved
        }),
{
    laws::begin_puts_out_one_event(v, event);
    let t = event.event_timestamp;
    invariants::pruned_well_formed(v, t);
    let current = EtwView { raw_sequence: v.raw_sequence + 1, ..v.pruned(t) };
    let named = EtwView { paths: current.paths_with(event), ..current };
    assert(named.well_formed());
    invariants::with_file_io_well_formed(named, event);
    invariants::released_well_formed(named.with_file_io(event), t);
}

/// A path that an event gives is known from then on for its file object and its file key, and for
/// nothing else; a close or a cleanup makes both unknown.
pub proof fn paths_are_remembered(v: EtwView, event: FileIoInput, pointer: u64)
    requires
        v.well_formed(),
        v.file_io.len() < usize::MAX,
        event.pid == v.target_pid,
        event.event != "op_end"@,
    ensures
        ({
            let after = v.after_file_io(event).paths;
            let its_own = event.file_object == Some(pointer) || event.file_key == Some(pointer);
            let ended = event.event == "close"@ || event.event == "cleanup"@;
            &&& its_own && ended ==> !after.contains_key(pointer)
            &&& !its_own ==> after.contains_key(pointer) == v.paths.contains_key(pointer)
            &&& !its_own && v.paths.contains_key(pointer) ==> after[pointer] == v.paths[pointer]
            &&& its_own && !ended && (event.path matches Some(p) && p.len() > 0)
                ==> after.contains_key(pointer) && Some(after[pointer]) == event.path
        }),
{
    reveal_strlit("close");
    reveal_strlit("cleanup");
    assert("close"@.len() == 5 && "cleanup"@.len() == 7);
    if event.event != "close"@ {
        let t = event.event_timestamp;
        invariants::pruned_well_formed(v, t);
        let current = EtwView { raw_sequence: v.raw_sequence + 1, ..v.pruned(t) };
        let named = EtwView { paths: current.paths_with(event), ..current };
        assert(named.well_formed());
        invariants::with_file_io_well_formed(named, event);
        invariants::released_well_formed(named.with_file_io(event), t);
    }
}

/// A completion hands its status and its extra information on to the request that it completes,
/// where it has them, and changes nothing else of it.
pub proof fn completions_bring_their_status(v: EtwView, end: FileIoInput, irp: u64)
    requires
        v.well_formed(),
        end.event == "op_end"@,
        end.irp_ptr == Some(irp),
        v.pending_irps.contains_key(irp),
    ensures
        ({
            let i = v.pending_irps[irp] as int;
            let before = v.file_io[i];
            let after = v.after_file_io(end).file_io[i];
            &&& 0 <= i < v.file_io.len()
            &&& end.nt_status is Some ==> shown(after.nt_status, 8, narrow(end.nt_status))
            &&& end.nt_status is None ==> after.nt_status == before.nt_status
            &&& end.extra_info is Some ==> shown(after.extra_info, 16, wide(end.extra_info))
            &&& end.extra_info is None ==> after.extra_info == before.extra_info
            &&& after.completion_pid == Some(end.pid)
            &&& after.completion_tid == Some(end.event_thread_id)
            &&& after.event == before.event
            &&& after.path == before.path
            &&& after.pid == before.pid
            &&& after.tid == before.tid
            &&& after.irp_ptr == before.irp_ptr
            &&& after.offset == before.offset
            &&& after.io_size == before.io_size
            &&& after.sequence == before.sequence
        }),
{
    assert(v.waits(irp));
    assert(v.concerns(end));
}

/// A close is remembered so that its completion counts as nothing; a completion of a packet that
/// nothing was begun with counts as unmatched.
pub proof fn closes_and_strays_are_told_apart(
    v: EtwView,
    close: FileIoInput,
    end: FileIoInput,
    irp: u64,
)
    requires
        v.well_formed(),
        close.pid == v.target_pid,
        close.event == "close"@,
        close.irp_ptr == Some(irp),
        end.event == "op_end"@,
        end.irp_ptr == Some(irp),
    ensures
        ({
            let closed = v.after_file_io(close);
            let done = closed.after_file_io(end);
            &&& done.matched_op_ends == v.matched_op_ends
            &&& done.unmatched_op_ends == v.unmatched_op_ends
            &&& done.file_io == v.file_io
            &&& !done.ignored_irps.contains(irp)
            &&& !done.pending_irps.contains_key(irp)
            &&& end.pid == v.target_pid && !v.pending_irps.contains_key(irp)
                && !v.ignored_irps.contains(irp) ==> v.after_file_io(end).unmatched_op_ends
                == v.unmatched_op_ends + 1
        }),
{
    reveal_strlit("close");
    reveal_strlit("op_end");
    assert("close"@.len() == 5 && "op_end"@.len() == 6);
}

/// A process, thread or image event of the traced process is put out with its own name and parts
/// if such events were asked for; if they were not, none is put out.
pub proof fn lifecycle_outputs_say_what_happened(v: EtwView, event: LifecycleInput)
    requires
        v.well_formed(),
        v.lifecycle.len() < usize::MAX,
        event.pid == v.target_pid,
    ensures
        ({
            let after = v.after_lifecycle(event);
            let out = after.lifecycle.last();
            &&& !v.settings.requests(EtwEventSet::Process) ==> after.lifecycle == v.lifecycle
            &&& v.settings.requests(EtwEventSet::Process) ==> {
                &&& after.lifecycle.len() == v.lifecycle.len() + 1
                &&& after.lifecycle.drop_last() =~= v.lifecycle
                &&& after.lifecycle_counts == counts::counted(v.lifecycle_counts, event.event)
                &&& out.sequence == v.lifecycle.len() + 1
                &&& out.event_set == "process"@
                &&& out.event == event.event
                &&& out.pid == event.pid
                &&& out.tid == event.tid
                &&& out.parent_pid == event.parent_pid
                &&& out.image_path == event.image_path
                &&& shown(out.image_base, 16, wide(event.image_base))
                &&& shown(out.image_size, 16, wide(event.image_size))
            }
            &&& after.file_io == v.file_io
            &&& after.file_io_counts == v.file_io_counts
        }),
{
    let t = event.event_timestamp;
    invariants::pruned_well_formed(v, t);
    let current = v.pruned(t);
    let known = EtwView { modules: current.modules_after(event), ..current };
    assert(known.well_formed());
    if v.settings.requests(EtwEventSet::Process) {
        invariants::with_lifecycle_well_formed(known, event);
        invariants::released_well_formed(known.with_lifecycle(event), t);
    }
}

/// An image is known from its load on, whether or not such events are put out: an address in it
/// is shown as an offset into the file that it was loaded from.
pub proof fn addresses_in_loaded_images_are_named(
    v: EtwView,
    event: LifecycleInput,
    base: u64,
    size: u64,
    path: Seq<char>,
    address: u64,
    timestamp: i64,
)
    requires
        v.well_formed(),
        v.lifecycle.len() < usize::MAX,
        event.pid == v.target_pid,
        event.event == "image_load"@,
        event.image_base == Some(base),
        event.image_size == Some(size),
        event.image_path == Some(path),
        base <= address < base + size,
        address < u64::MAX,
        event.event_timestamp <= timestamp,
        forall|i: int|
            0 <= i < v.modules.len() ==> (#[trigger] v.modules[i]).loaded_at
                <= event.event_timestamp,
    ensures
        ({
            let frame = stack::frame_of(v.after_lifecycle(event).modules, address, timestamp);
            &&& frame.resolved
            &&& frame.value == path + "+0x"@ + text::hex((address - base) as nat)
        }),
{
    let t = event.event_timestamp;
    invariants::pruned_well_formed(v, t);
    let current = v.pruned(t);
    let known = EtwView { modules: current.modules_after(event), ..current };
    assert(known.well_formed());
    if v.settings.requests(EtwEventSet::Process) {
        invariants::with_lifecycle_well_formed(known, event);
        invariants::released_well_formed(known.with_lifecycle(event), t);
    }
    let modules = v.after_lifecycle(event).modules;
    assert(modules.len() == v.modules.len() + 1);
    stack::active_module_is_latest(modules, address, timestamp);
    let last = modules.len() - 1;
    assert(modules[last].covers(address, timestamp));
    let i = stack::active_module(modules, address, timestamp)->0;
    if i < last {
        assert(modules[i] == v.modules[i]);
    }
}

/// Once its image was unloaded, an address is not shown as one in it any more.
pub proof fn addresses_in_unloaded_images_are_not_named(
    modules: Seq<ModuleView>,
    only: int,
    address: u64,
    timestamp: i64,
)
    requires
        0 <= only < modules.len(),
        modules[only].unloaded_at matches Some(end) && end < timestamp,
        forall|i: int|
            0 <= i < modules.len() && i != only ==> !((#[trigger] modules[i]).base <= address
                < modules[i].base + modules[i].size),
    ensures
        !stack::frame_of(modules, address, timestamp).resolved,
        stack::frame_of(modules, address, timestamp).value == "0x"@ + text::zero_padded(
            text::hex(address as nat),
            16,
        ),
{
    stack::active_module_is_latest(modules, address, timestamp);
}

/// Whether the image at a place is one that was loaded at an address and is not unloaded.
pub open spec fn still_loaded(modules: Seq<ModuleView>, base: u64, i: int) -> bool {
    0 <= i < modules.len() && modules[i].base == base && modules[i].unloaded_at is None
}

/// An unload ends the image that was loaded last at that address and is not unloaded yet, at the
/// time of the event, and no other.
pub proof fn unloads_end_the_latest_image(v: EtwView, event: LifecycleInput, base: u64)
    requires
        event.event == "image_unload"@,
        event.image_base == Some(base),
        event.image_size is None,
    ensures
        ({
            let after = v.modules_after(event);
            &&& after.len() == v.modules.len()
            &&& forall|i: int|
                0 <= i < v.modules.len() ==> {
                    let ends = still_loaded(v.modules, base, i) && forall|j: int|
                        i < j ==> !#[trigger] still_loaded(v.modules, base, j);
                    &&& ends ==> (#[trigger] after[i]).unloaded_at == Some(event.event_timestamp)
                    &&& !ends ==> after[i] == v.modules[i]
                    &&& after[i].base == v.modules[i].base
                    &&& after[i].size == v.modules[i].size
                    &&& after[i].name == v.modules[i].name
                    &&& after[i].loaded_at == v.modules[i].loaded_at
                }
        }),
{
    reveal_strlit("image_load");
    reveal_strlit("image_unload");
    assert("image_load"@.len() == 10 && "image_unload"@.len() == 12);
    latest_open(v.modules, base);
    assert(event.event != "image_load"@);
    let after = v.modules_after(event);
    assert forall|i: int| 0 <= i < v.modules.len() implies {
        let ends = still_loaded(v.modules, base, i) && forall|j: int|
            i < j ==> !#[trigger] still_loaded(v.modules, base, j);
        &&& ends ==> (#[trigger] after[i]).unloaded_at == Some(event.event_timestamp)
        &&& !ends ==> after[i] == v.modules[i]
        &&& after[i].base == v.modules[i].base
        &&& after[i].size == v.modules[i].size
        &&& after[i].name == v.modules[i].name
        &&& after[i].loaded_at == v.modules[i].loaded_at
    } by {
        match EtwView::unloaded_module(v.modules, base, None) {
            Some(m) => {
                assert(still_loaded(v.modules, base, m));
                assert(m < i ==> !still_loaded(v.modules, base, i));
            },
            None => {
                assert(!still_loaded(v.modules, base, i));
            },
        }
    }
}

proof fn latest_open(modules: Seq<ModuleView>, base: u64)
    ensures
        match EtwView::unloaded_module(modules, base, None) {
            Some(i) => {
                &&& 0 <= i < modules.len()
                &&& modules[i].base == base && modules[i].unloaded_at is None
                &&& forall|j: int|
                    i < j < modules.len() ==> !((#[trigger] modules[j]).base == base
                        && modules[j].unloaded_at is None)
            },
            None => forall|j: int|
                0 <= j < modules.len() ==> !((#[trigger] modules[j]).base == base
                    && modules[j].unloaded_at is None),
        },
    decreases modules.len(),
{
    if modules.len() > 0 {
        let rest = modules.drop_last();
        latest_open(rest, base);
        assert forall|j: int| 0 <= j < rest.len() implies #[trigger] modules[j] == rest[j] by {}
    }
}

/// The frames of a stack are shown outermost first, each as its address resolves.
pub proof fn stacks_are_shown_outermost_first(
    modules: Seq<ModuleView>,
    addresses: Seq<u64>,
    timestamp: i64,
    i: int,
)
    requires
        0 <= i < addresses.len(),
    ensures
        model::stack_texts(stack::frames_of(modules, addresses, timestamp)).len()
            == addresses.len(),
        model::stack_texts(stack::frames_of(modules, addresses, timestamp))[i] == stack::frame_of(
            modules,
            addresses[addresses.len() - 1 - i],
            timestamp,
        ).value,
{
}

/// When the books are closed, each event keeps what it said and gets the stack that was taken at
/// it, resolved at its own time.
pub proof fn closing_fills_the_stacks_in(v: EtwView, enabled: bool, i: int)
    requires
        v.well_formed(),
    ensures
        v.finalized(enabled).lifecycle.len() == v.lifecycle.len(),
        v.finalized(enabled).file_io.len() == v.file_io.len(),
        0 <= i < v.file_io.len() ==> {
            let out = v.finalized(enabled).file_io[i];
            &&& out.event == v.file_io[i].event
            &&& out.path == v.file_io[i].path
            &&& out.pid == v.file_io[i].pid
            &&& out.sequence == v.file_io[i].sequence
            &&& out.stack == model::stack_texts(
                stack::frames_of(v.modules, v.file_io_addresses[i], v.file_io_timestamps[i]),
            )
        },
        0 <= i < v.lifecycle.len() ==> {
            let out = v.finalized(enabled).lifecycle[i];
            &&& out.event == v.lifecycle[i].event
            &&& out.image_path == v.lifecycle[i].image_path
            &&& out.pid == v.lifecycle[i].pid
            &&& out.sequence == v.lifecycle[i].sequence
            &&& out.stack == model::stack_texts(
                stack::frames_of(v.modules, v.lifecycle_addresses[i], v.lifecycle_timestamps[i]),
            )
        },
{
}

/// New frames come behind the known ones; none is zero, none occurs twice, and none is lost.
pub proof fn stacks_grow_by_new_frames(addresses: Seq<u64>, frames: Seq<u64>)
    ensures
        ({
            let all = model::with_frames(addresses, frames);
            &&& all.len() >= addresses.len()
            &&& all.take(addresses.len() as int) == addresses
            &&& forall|i: int|
                0 <= i < frames.len() ==> (#[trigger] frames[i] == 0 || all.contains(frames[i]))
            &&& forall|i: int|
                addresses.len() <= i < all.len() ==> #[trigger] all[i] != 0 && frames.contains(
                    all[i],
                )
            &&& forall|i: int, j: int|
                addresses.len() <= i < all.len() && 0 <= j < i ==> #[trigger] all[j]
                    != #[trigger] all[i]
        }),
    decreases frames.len(),
{
    let all = model::with_frames(addresses, frames);
    if frames.len() == 0 {
        assert(all.take(addresses.len() as int) =~= addresses);
    } else {
        let rest = frames.drop_last();
        stacks_grow_by_new_frames(addresses, rest);
        let before = model::with_frames(addresses, rest);
        assert(all.take(addresses.len() as int) =~= before.take(addresses.len() as int));
        assert(frames[frames.len() - 1] == frames.last());
        assert forall|i: int| 0 <= i < frames.len() implies (#[trigger] frames[i] == 0
            || all.contains(frames[i])) by {
            if i < rest.len() {
                assert(rest[i] == frames[i]);
                if frames[i] != 0 {
                    let k = choose|k: int| 0 <= k < before.len() && before[k] == frames[i];
                    assert(all[k] == frames[i]);
                }
            } else if frames[i] != 0 {
                if before.contains(frames[i]) {
                    let k = choose|k: int| 0 <= k < before.len() && before[k] == frames[i];
                    assert(all[k] == frames[i]);
                } else {
                    assert(all[all.len() - 1] == frames[i]);
                }
            }
        }
        assert forall|i: int| addresses.len() <= i < all.len() implies #[trigger] all[i] != 0
            && frames.contains(all[i]) by {
            if i < before.len() {
                assert(all[i] == before[i]);
                let k = choose|k: int| 0 <= k < rest.len() && rest[k] == before[i];
                assert(frames[k] == all[i]);
            }
        }
        assert forall|i: int, j: int|
            addresses.len() <= i < all.len() && 0 <= j < i implies #[trigger] all[j]
            != #[trigger] all[i] by {
            if i < before.len() {
                assert(all[i] == before[i] && all[j] == before[j]);
            } else {
                assert(all[j] == before[j]);
                assert(before.contains(all[j]));
            }
        }
    }
}

/// A stack walk goes to an event of its own timestamp: to the first one on the thread that was
/// walked, or else, if the traced process was walked, to the first one there is.
pub proof fn walks_go_to_their_event(v: EtwView, walk: StackWalkInput, i: int)
    requires
        v.well_formed(),
        v.targets.contains_key(walk.event_timestamp),
        0 <= i < v.targets[walk.event_timestamp].len(),
        v.identity(v.targets[walk.event_timestamp][i]).1 == walk.stack_thread,
        forall|j: int|
            0 <= j < i ==> v.identity(#[trigger] v.targets[walk.event_timestamp][j]).1
                != walk.stack_thread,
    ensures
        v.attach_target(walk) == Some(v.targets[walk.event_timestamp][i]),
        v.after_stack_walk(walk).matched_walks == v.matched_walks + 1,
        v.after_stack_walk(walk).pending == v.pending,
{
    let targets = v.targets[walk.event_timestamp];
    assert forall|j: int| 0 <= j < targets.len() implies v.identity(#[trigger] targets[j]).0
        == v.target_pid by {
        assert(v.valid_target(targets[j]));
    }
    first_on_its_thread(v, targets, walk.stack_thread, i);
    let seen = EtwView {
        walk_events: v.walk_events + 1,
        walk_samples: v.after_stack_walk(walk).walk_samples,
        ..v
    };
    assert forall|j: int| 0 <= j < targets.len() implies seen.identity(#[trigger] targets[j])
        == v.identity(targets[j]) by {}
    first_on_its_thread(seen, targets, walk.stack_thread, i);
}

proof fn first_on_its_thread(v: EtwView, targets: Seq<StackTarget>, thread: u32, i: int)
    requires
        0 <= i < targets.len(),
        v.identity(targets[i]) == (v.target_pid, thread),
        forall|j: int| 0 <= j < i ==> v.identity(#[trigger] targets[j]).1 != thread,
    ensures
        v.first_on_thread(targets, thread) == Some(targets[i]),
    decreases i,
{
    if i > 0 {
        assert(v.identity(targets[0]).1 != thread);
        let rest = targets.drop_first();
        assert(rest[i - 1] == targets[i]);
        assert forall|j: int| 0 <= j < i - 1 implies v.identity(#[trigger] rest[j]).1 != thread by {
            assert(rest[j] == targets[j + 1]);
        }
        first_on_its_thread(v, rest, thread, i - 1);
    }
}

/// A stack walk without an event waits for one if it is of the traced process and there is room:
/// 32 under one timestamp, 4096 timestamps. One of another process is dropped.
pub proof fn walks_wait_for_their_event(v: EtwView, walk: StackWalkInput)
    requires
        v.well_formed(),
        !v.targets.contains_key(walk.event_timestamp),
    ensures
        ({
            let t = walk.event_timestamp;
            let after = v.after_stack_walk(walk);
            let known = if v.pending.contains_key(t) {
                v.pending[t]
            } else {
                Seq::empty()
            };
            let room = known.len() < 32 && (v.pending.contains_key(t) || v.pending.len() < 4096);
            &&& after.walk_events == v.walk_events + 1
            &&& after.matched_walks == v.matched_walks
            &&& walk.stack_process != v.target_pid ==> after.dropped_walks == v.dropped_walks + 1
                && after.pending == v.pending
            &&& walk.stack_process == v.target_pid && room ==> after.dropped_walks
                == v.dropped_walks && after.pending == v.pending.insert(t, known.push(walk))
            &&& walk.stack_process == v.target_pid && known.len() >= 32 ==> after.dropped_walks
                == v.dropped_walks + 1 && after.pending == v.pending
            &&& walk.stack_process == v.target_pid && !v.pending.contains_key(t)
                && v.pending.len() >= 4096 ==> after.pending.contains_key(t)
                && after.pending[t] == seq![walk]
        }),
{
    assert(Seq::<StackWalkInput>::empty().push(walk) =~= seq![walk]);
}

/// Events that come later make stack walks of earlier timestamps pointless: those are dropped, and
/// only those.
pub proof fn outdated_walks_are_dropped(v: EtwView, timestamp: i64, t: i64)
    requires
        v.well_formed(),
    ensures
        v.pruned(timestamp).pending.contains_key(t) <==> v.pending.contains_key(t) && t
            >= timestamp,
        v.pruned(timestamp).pending.contains_key(t) ==> v.pruned(timestamp).pending[t]
            == v.pending[t],
        v.pruned(timestamp).dropped_walks + pending::total(v.pruned(timestamp).pending)
            == v.dropped_walks + pending::total(v.pending),
{
    pending::total_split(v.pending, timestamp);
}

/// Every kind of event is counted under its own name from zero on; a completion and a close are
/// not counted.
pub proof fn events_are_counted_by_name(process: EventCounts, file: EventCounts)
    requires
        call_ensures(lifecycle_count_map, (), process),
        call_ensures(file_io_count_map, (), file),
    ensures
        process@ == seq![
            ("process_start"@, 0nat),
            ("process_end"@, 0nat),
            ("thread_start"@, 0nat),
            ("thread_end"@, 0nat),
            ("image_load"@, 0nat),
            ("image_unload"@, 0nat),
        ],
        file@ == seq![
            ("file_name"@, 0nat),
            ("file_create_name"@, 0nat),
            ("file_delete_name"@, 0nat),
            ("file_rundown"@, 0nat),
            ("create"@, 0nat),
            ("cleanup"@, 0nat),
            ("read"@, 0nat),
            ("write"@, 0nat),
            ("set_info"@, 0nat),
            ("delete"@, 0nat),
            ("rename"@, 0nat),
            ("dir_enum"@, 0nat),
            ("flush"@, 0nat),
            ("query_info"@, 0nat),
            ("fs_control"@, 0nat),
            ("dir_notify"@, 0nat),
        ],
{
    assert(process@ =~= seq![
        ("process_start"@, 0nat),
        ("process_end"@, 0nat),
        ("thread_start"@, 0nat),
        ("thread_end"@, 0nat),
        ("image_load"@, 0nat),
        ("image_unload"@, 0nat),
    ]);
    assert(file@ =~= seq![
        ("file_name"@, 0nat),
        ("file_create_name"@, 0nat),
        ("file_delete_name"@, 0nat),
        ("file_rundown"@, 0nat),
        ("create"@, 0nat),
        ("cleanup"@, 0nat),
        ("read"@, 0nat),
        ("write"@, 0nat),
        ("set_info"@, 0nat),
        ("delete"@, 0nat),
        ("rename"@, 0nat),
        ("dir_enum"@, 0nat),
        ("flush"@, 0nat),
        ("query_info"@, 0nat),
        ("fs_control"@, 0nat),
        ("dir_notify"@, 0nat),
    ]);
}

/// The number of file events of a name.
pub open spec fn file_events_named(events: Seq<model::FileIoView>, name: Seq<char>) -> nat
    decreases events.len(),
{
    if events.len() == 0 {
        0
    } else {
        file_events_named(events.drop_last(), name) + if events.last().event == name {
            1nat
        } else {
            0nat
        }
    }
}

/// A file event raises the count of its own name by one, as it raises the number of such events,
/// and leaves all other counts alone.
pub proof fn file_counts_follow_the_events(v: EtwView, event: FileIoInput, name: Seq<char>, n: nat)
    requires
        v.well_formed(),
        v.file_io.len() < usize::MAX,
        event.pid == v.target_pid,
        event.event != "op_end"@,
        event.event != "close"@,
        counts::count_of(v.file_io_counts, name) == Some(n),
        n == file_events_named(v.file_io, name),
    ensures
        counts::count_of(v.after_file_io(event).file_io_counts, name) == Some(
            file_events_named(v.after_file_io(event).file_io, name),
        ),
        file_events_named(v.after_file_io(event).file_io, name) == n + if event.event == name {
            1nat
        } else {
            0nat
        },
{
    laws::begin_puts_out_one_event(v, event);
    counts::counted_raises_one(v.file_io_counts, event.event, name);
    assert(v.after_file_io(event).file_io.drop_last() =~= v.file_io);
}

/// A raw record is taken as what it is: a stack walk, or else a process, thread or image event, or
/// else a file event, the last only if file events were asked for.
pub proof fn records_are_taken_as_what_they_are(v: EtwView, record: RecordView)
    requires
        v.well_formed(),
    ensures
        ({
            let after = summary::after_record(v, record);
            let file = record.provider == 0x90cbdc39_4a3e_11d1_84f4_0000f80464e3;
            let walk = record.provider == 0xdef2fe46_7bd6_4b80_bd94_f57fe20d0ce3;
            &&& file && !v.settings.requests(EtwEventSet::FileIo) ==> after == v
            &&& file && v.settings.requests(EtwEventSet::FileIo) ==> after == match decode::file_io_event(
                record,
            ) {
                Some(e) => v.after_file_io(e),
                None => v,
            }
            &&& walk ==> after == match decode::stack_walk_event(record) {
                Some(w) => v.after_stack_walk(w),
                None => v,
            }
            &&& !file && !walk ==> (decode::lifecycle_event(record) matches Some(e) ==> after
                == v.after_lifecycle(e))
            &&& record.provider == 0x2cb15d1d_5fc1_11d2_abe1_00a0c911f518 && (record.opcode == 10
                || record.opcode == 2) && record.u32_any(
                seq!["ProcessId"@, "ProcessID"@, "PID"@],
            ) is None ==> after == (EtwView {
                warnings: v.warnings.push(
                    "image event skipped because ProcessId is unavailable"@,
                ),
                ..v
            })
        }),
{
}

/// A summary reports each count under its own heading, and an event set only if it was asked for.
pub proof fn summaries_report_what_was_counted(v: EtwView)
    requires
        v.well_formed(),
    ensures
        ({
            let s = v.summary();
            &&& s.target_pid == Some(v.target_pid)
            &&& s.stacks_enabled == v.settings.stacks_enabled
            &&& s.process is Some <==> v.settings.requests(EtwEventSet::Process)
            &&& s.file_io is Some <==> v.settings.requests(EtwEventSet::FileIo)
            &&& s.process matches Some(p) ==> {
                &&& p.event_counts == v.lifecycle_counts
                &&& p.stack_frames_total == v.lifecycle_stats.total
                &&& p.stack_frames_resolved == v.lifecycle_stats.resolved
                &&& p.stack_frames_unresolved == v.lifecycle_stats.unresolved
                &&& p.file_path_resolved is None
                &&& p.file_path_unresolved is None
                &&& p.matched_op_end_count is None
                &&& p.unmatched_op_end_count is None
                &&& p.incomplete_io_count is None
                &&& p.reused_irp_without_op_end_count is None
            }
            &&& s.file_io matches Some(f) ==> {
                &&& f.event_counts == v.file_io_counts
                &&& f.stack_frames_total == v.file_io_stats.total
                &&& f.stack_frames_resolved == v.file_io_stats.resolved
                &&& f.stack_frames_unresolved == v.file_io_stats.unresolved
                &&& f.file_path_resolved == Some(v.path_resolved)
                &&& f.file_path_unresolved == Some(v.path_unresolved)
                &&& f.matched_op_end_count == Some(v.matched_op_ends)
                &&& f.unmatched_op_end_count == Some(v.unmatched_op_ends)
                &&& f.incomplete_io_count == Some(v.pending_irps.len() + v.reused_irps)
                &&& f.reused_irp_without_op_end_count == Some(v.reused_irps)
            }
            &&& v.settings.well_formed() ==> {
                &&& s.requested_event_sets.contains("process"@)
                    <==> v.settings.requests(EtwEventSet::Process)
                &&& s.requested_event_sets.contains("file_io"@)
                    <==> v.settings.requests(EtwEventSet::FileIo)
            }
        }),
{
    reveal_strlit("process");
    reveal_strlit("file_io");
    assert("process"@[0] == 'p' && "file_io"@[0] == 'f');
    let names = v.settings.names();
    if v.settings.well_formed() {
        if v.settings.requests(EtwEventSet::Process) {
            assert(names[0] == "process"@);
        }
        if v.settings.requests(EtwEventSet::FileIo) {
            assert(names[names.len() - 1] == "file_io"@);
        }
    }
}

/// A summary warns of what stayed open, of each kind once and only where there is something, behind
/// the warnings that were there before.
pub proof fn summaries_warn_of_what_stayed_open(v: EtwView)
    requires
        v.well_formed(),
    ensures
        ({
            let w = v.summary().warnings;
            let paths = "native ETW file_io left "@ + text::decimal(v.path_unresolved)
                + " target file events without a resolved path"@;
            let strays = "native ETW file_io saw "@ + text::decimal(v.unmatched_op_ends)
                + " target OpEnd events without a matching begin event"@;
            let reused = "native ETW file_io saw "@ + text::decimal(v.reused_irps)
                + " reused IrpPtr values before a matching OpEnd"@;
            let open = "native ETW file_io left "@ + text::decimal(
                v.pending_irps.len() + v.reused_irps,
            ) + " begin events without a matching OpEnd"@;
            &&& w.len() >= v.warnings.len()
            &&& w.take(v.warnings.len() as int) == v.warnings
            &&& v.path_unresolved > 0 ==> w[v.warnings.len() as int] == paths
            &&& v.unmatched_op_ends > 0 ==> w.contains(strays)
            &&& v.reused_irps > 0 ==> w.contains(reused)
            &&& v.pending_irps.len() + v.reused_irps > 0 ==> w.last() == open
            &&& v.path_unresolved == 0 && v.unmatched_op_ends == 0 && v.reused_irps == 0
                && v.pending_irps.len() == 0 ==> w == v.warnings
        }),
{
    let w = v.summary().warnings;
    assert(w.take(v.warnings.len() as int) =~= v.warnings);
    let n1 = v.warnings.len() + if v.path_unresolved > 0 {
        1int
    } else {
        0int
    };
    let n2 = n1 + if v.unmatched_op_ends > 0 {
        1int
    } else {
        0int
    };
    if v.unmatched_op_ends > 0 {
        assert(w[n1] == "native ETW file_io saw "@ + text::decimal(v.unmatched_op_ends)
            + " target OpEnd events without a matching begin event"@);
    }
    if v.reused_irps > 0 {
        assert(w[n2] == "native ETW file_io saw "@ + text::decimal(v.reused_irps)
            + " reused IrpPtr values before a matching OpEnd"@);
    }
}

/// A summary is asked for an event set by its name.
pub proof fn event_sets_have_their_names(
    s: EtwSummary,
    name: &str,
    r: Option<&summary::EtwEventSetSummary>,
    set: EtwEventSet,
    set_name: &'static str,
)
    requires
        call_ensures(EtwSummary::event_set, (&s, name), r),
        call_ensures(event_set_name, (set,), set_name),
    ensures
        set == EtwEventSet::Process ==> set_name@ == "process"@,
        set == EtwEventSet::FileIo ==> set_name@ == "file_io"@,
        name@ == "process"@ ==> (r is Some <==> s.process is Some) && (r matches Some(e) ==> e@
            == s.process->0@),
        name@ == "file_io"@ ==> (r is Some <==> s.file_io is Some) && (r matches Some(e) ==> e@
            == s.file_io->0@),
        name@ != "process"@ && name@ != "file_io"@ ==> r is None,
{
    reveal_strlit("process");
    reveal_strlit("file_io");
    assert("process"@[0] == 'p' && "file_io"@[0] == 'f');
}

/// The kernel is asked for process, thread and image events exactly if the process event set was
/// asked for, and for disk and file events exactly if the file event set was.
pub proof fn kernel_events_follow_the_event_sets(settings: NativeEtwSettings, flags: u32)
    requires
        call_ensures(enable_flags, (&settings,), flags),
    ensures
        flags & 1 == 1 <==> settings.requests(EtwEventSet::Process),
        flags & 2 == 2 <==> settings.requests(EtwEventSet::Process),
        flags & 4 == 4 <==> settings.requests(EtwEventSet::Process),
        flags & 0x100 == 0x100 <==> settings.requests(EtwEventSet::FileIo),
        flags & 0x200 == 0x200 <==> settings.requests(EtwEventSet::FileIo),
        flags & 0x200_0000 == 0x200_0000 <==> settings.requests(EtwEventSet::FileIo),
        flags & 0x400_0000 == 0x400_0000 <==> settings.requests(EtwEventSet::FileIo),
        flags & 0xf9ff_fcf8 == 0,
{
    assert(flags == 0 || flags == 7 || flags == 0x600_0300 || flags == 0x600_0307);
    assert(flags == 0 || flags == 7 || flags == 0x600_0300 || flags == 0x600_0307 ==> {
        let p = flags == 7 || flags == 0x600_0307;
        let f = flags == 0x600_0300 || flags == 0x600_0307;
        &&& (flags & 1 == 1) == p
        &&& (flags & 2 == 2) == p
        &&& (flags & 4 == 4) == p
        &&& (flags & 0x100 == 0x100) == f
        &&& (flags & 0x200 == 0x200) == f
        &&& (flags & 0x200_0000 == 0x200_0000) == f
        &&& (flags & 0x400_0000 == 0x400_0000) == f
        &&& flags & 0xf9ff_fcf8 == 0
    }) by (bit_vector);
}

/// Stacks are taken at each event that is put out: starts and ends of processes and threads, loads
/// and unloads of images, and every file event but closes and completions.
pub proof fn stacks_are_taken_at_each_event(
    settings: NativeEtwSettings,
    events: Vec<ClassicEvent>,
    guid: u128,
    event_type: u32,
)
    requires
        call_ensures(stack_events, (&settings,), events),
    ensures
        events@.contains(ClassicEvent { guid, event_type }) <==> {
            let process = guid == 0x3d6fa8d0_fe05_11d0_9dda_00c04fd7ba7c || guid
                == 0x3d6fa8d1_fe05_11d0_9dda_00c04fd7ba7c;
            let image = guid == 0x2cb15d1d_5fc1_11d2_abe1_00a0c911f518;
            let file = guid == 0x90cbdc39_4a3e_11d1_84f4_0000f80464e3;
            ||| settings.requests(EtwEventSet::Process) && process && (event_type == 1 || event_type
                == 2)
            ||| settings.requests(EtwEventSet::Process) && image && (event_type == 10 || event_type
                == 2)
            ||| settings.requests(EtwEventSet::FileIo) && file && (event_type == 0 || event_type
                == 32 || event_type == 35 || event_type == 36 || 64 <= event_type <= 65 || 67
                <= event_type <= 75 || event_type == 77)
        },
{
    use_stack_events(settings, events, guid, event_type);
}

proof fn use_stack_events(
    settings: NativeEtwSettings,
    events: Vec<ClassicEvent>,
    guid: u128,
    event_type: u32,
)
    requires
        call_ensures(stack_events, (&settings,), events),
    ensures
        events@.contains(ClassicEvent { guid, event_type }) <==> ({
            ||| settings.requests(EtwEventSet::Process)
                && crate::etw::session::lifecycle_stack_events().contains(
                ClassicEvent { guid, event_type },
            )
            ||| settings.requests(EtwEventSet::FileIo) && guid
                == 0x90cbdc39_4a3e_11d1_84f4_0000f80464e3
                && crate::etw::session::file_stack_types().contains(event_type)
        }),
        crate::etw::session::lifecycle_stack_events().contains(ClassicEvent { guid, event_type })
            <==> ((guid == 0x3d6fa8d0_fe05_11d0_9dda_00c04fd7ba7c || guid
            == 0x3d6fa8d1_fe05_11d0_9dda_00c04fd7ba7c) && (event_type == 1 || event_type == 2)
            || guid == 0x2cb15d1d_5fc1_11d2_abe1_00a0c911f518 && (event_type == 10 || event_type
            == 2)),
        crate::etw::session::file_stack_types().contains(event_type) <==> (event_type == 0
            || event_type == 32 || event_type == 35 || event_type == 36 || 64 <= event_type <= 65
            || 67 <= event_type <= 75 || event_type == 77),
{
    let kind = ClassicEvent { guid, event_type };
    let first = crate::etw::session::lifecycle_stack_events();
    let types = crate::etw::session::file_stack_types();
    let files = crate::etw::session::file_io_stack_kinds();
    assert(first[0] == ClassicEvent { guid: 0x3d6fa8d0_fe05_11d0_9dda_00c04fd7ba7c, event_type: 1 });
    assert(first[1] == ClassicEvent { guid: 0x3d6fa8d0_fe05_11d0_9dda_00c04fd7ba7c, event_type: 2 });
    assert(first[2] == ClassicEvent { guid: 0x3d6fa8d1_fe05_11d0_9dda_00c04fd7ba7c, event_type: 1 });
    assert(first[3] == ClassicEvent { guid: 0x3d6fa8d1_fe05_11d0_9dda_00c04fd7ba7c, event_type: 2 });
    assert(first[4] == ClassicEvent { guid: 0x2cb15d1d_5fc1_11d2_abe1_00a0c911f518, event_type: 10 });
    assert(first[5] == ClassicEvent { guid: 0x2cb15d1d_5fc1_11d2_abe1_00a0c911f518, event_type: 2 });
    assert(types[0] == 0 && types[1] == 32 && types[2] == 35 && types[3] == 36 && types[4] == 64
        && types[5] == 65 && types[6] == 67 && types[7] == 68 && types[8] == 69 && types[9] == 70
        && types[10] == 71 && types[11] == 72 && types[12] == 73 && types[13] == 74 && types[14]
        == 75 && types[15] == 77);
    let p = if settings.requests(EtwEventSet::Process) {
        first
    } else {
        Seq::empty()
    };
    let f = if settings.requests(EtwEventSet::FileIo) {
        files
    } else {
        Seq::empty()
    };
    assert(events@ == p + f);
    if events@.contains(kind) {
        let i = choose|i: int| 0 <= i < events@.len() && events@[i] == kind;
        if i < p.len() {
            assert(p[i] == kind);
        } else {
            assert(f[i - p.len()] == kind);
            assert(types[i - p.len()] == event_type);
        }
    }
    if p.contains(kind) {
        let i = choose|i: int| 0 <= i < p.len() && p[i] == kind;
        assert(events@[i] == kind);
    }
    if settings.requests(EtwEventSet::FileIo) && guid == 0x90cbdc39_4a3e_11d1_84f4_0000f80464e3
        && types.contains(event_type) {
        let i = choose|i: int| 0 <= i < types.len() && types[i] == event_type;
        assert(files[i] == kind);
        assert(events@[p.len() + i] == kind);
    }
}

/// A status of zero means success. To stop a session may also say that there was more data, which
/// is a warning; everything else is an error that names the status.
pub proof fn statuses_mean_what_they_say(
    operation: &str,
    status: u32,
    plain: Result<(), DbgFlowError>,
    stopped: Result<Vec<String>, DbgFlowError>,
)
    requires
        call_ensures(status_outcome, (operation, status), plain),
        call_ensures(stop_outcome, (status,), stopped),
    ensures
        plain is Ok <==> status == 0,
        plain matches Err(e) ==> e@ == ErrorView::Backend(
            operation@ + " failed with Win32 error "@ + text::decimal(status as nat),
        ),
        stopped is Ok <==> status == 0 || status == 234,
        status == 0 ==> (stopped matches Ok(w) && w@.len() == 0),
        status == 234 ==> (stopped matches Ok(w) && w@.len() == 1),
        stopped matches Err(e) ==> e@ == ErrorView::Backend(
            "ControlTraceW stop"@ + " failed with Win32 error "@ + text::decimal(status as nat),
        ),
{
    if let Ok(w) = stopped {
        assert(text::views(w@).len() == w@.len());
    }
}

} // verus!
