//! Laws of stacks, counts and what a record declares.

use crate::bytes::{as_signed64, le_u32_at, le_u64_at};
use crate::error::{DbgFlowError, ErrorView};
use crate::etw::counts;
use crate::etw::counts::EventCounts;
use crate::etw::decode;
use crate::etw::decode::{
    is_ansi_string_in_type, is_unicode_string_in_type, looks_like_utf16le, LifecycleInput,
    StackWalkInput,
};
use crate::etw::model;
use crate::etw::model::EtwView;
use crate::etw::processor::EtwProcessor;
use crate::etw::session;
use crate::etw::session::{
    etw_error, property_in_type, stop_outcome, trace_event_info_string, PropertyInfo,
};
use crate::etw::settings;
use crate::etw::settings::{
    native_etw_settings, EtwEventSet, EtwProfileScope, EtwStackConfig, NativeEtwSettings,
    ProfileCollectorConfig,
};
use crate::etw::stack;
use crate::etw::stack::{
    event_matches_target, hex32, hex64, resolve_stack_address, resolve_stack_addresses,
    ModuleInterval, StackFrame,
};
use crate::bytes;
use crate::text;
use vstd::prelude::*;

verus! {

/// A module holds an address if the address lies in it and the module is loaded at the moment.
pub proof fn modules_hold_addresses_while_loaded(
    m: ModuleInterval,
    address: u64,
    timestamp: i64,
    r: bool,
)
    requires
        call_ensures(ModuleInterval::contains_at, (&m, address, timestamp), r),
    ensures
        address < m.base ==> !r,
        address >= m.base + m.size ==> !r,
        timestamp < m.loaded_at ==> !r,
        m.unloaded_at matches Some(end) ==> (timestamp > end ==> !r),
        m.base <= address < m.base + m.size && address < u64::MAX && timestamp >= m.loaded_at
            && m.unloaded_at is None ==> r,
        m.base <= address < m.base + m.size && address < u64::MAX && timestamp >= m.loaded_at ==> (
        m.unloaded_at matches Some(end) ==> (timestamp <= end ==> r)),
{
}

/// An address is shown as a place in the module that holds it, and as it is where none does. Of two
/// modules the one that was loaded later counts.
pub proof fn addresses_are_shown_in_their_module(
    address: u64,
    modules: &[ModuleInterval],
    timestamp: i64,
    i: int,
    held: bool,
    r: StackFrame,
)
    requires
        0 <= i < modules@.len(),
        call_ensures(ModuleInterval::contains_at, (&modules@[i], address, timestamp), held),
        call_ensures(resolve_stack_address, (address, modules, timestamp), r),
    ensures
        modules@.len() == 1 && held ==> r.resolved && r.value@ == modules@[0].name@ + "+0x"@
            + text::hex((address - modules@[0].base) as nat),
        modules@.len() == 1 && !held ==> !r.resolved && r.value@ == "0x"@ + text::zero_padded(
            text::hex(address as nat),
            16,
        ),
        held ==> r.resolved,
        held && (forall|j: int|
            0 <= j < modules@.len() && j != i ==> (#[trigger] modules@[j]).loaded_at
                < modules@[i].loaded_at) ==> r.value@ == modules@[i].name@ + "+0x"@ + text::hex(
            (address - modules@[i].base) as nat,
        ),
{
    let v = stack::module_views(modules@);
    assert(v.len() == modules@.len());
    assert(v[i] == modules@[i]@);
    stack::active_module_is_latest(v, address, timestamp);
    reveal_with_fuel(stack::active_module, 2);
    if modules@.len() == 1 {
        assert(v.drop_last().len() == 0);
        assert(v.last() == v[0]);
    }
    if held {
        assert(v[i].covers(address, timestamp));
        let a = stack::active_module(v, address, timestamp);
        assert(a is Some);
        if forall|j: int|
            0 <= j < modules@.len() && j != i ==> (#[trigger] modules@[j]).loaded_at
                < modules@[i].loaded_at {
            let k = a->0;
            assert(v[k] == modules@[k]@);
            assert(k == i) by {
                if k != i {
                    assert(modules@[k].loaded_at < modules@[i].loaded_at);
                }
            }
        }
    }
}

/// The frames of a stack are shown one by one, in their order.
pub proof fn stacks_are_shown_in_order(
    addresses: &[u64],
    modules: &[ModuleInterval],
    timestamp: i64,
    i: int,
    all: Vec<StackFrame>,
    one: StackFrame,
)
    requires
        0 <= i < addresses@.len(),
        call_ensures(resolve_stack_addresses, (addresses, modules, timestamp), all),
        call_ensures(resolve_stack_address, (addresses@[i], modules, timestamp), one),
    ensures
        all@.len() == addresses@.len(),
        all@[i].value@ == one.value@ && all@[i].resolved == one.resolved,
{
    let v = all@.map_values(|f: StackFrame| f@);
    let w = stack::frames_of(stack::module_views(modules@), addresses@, timestamp);
    assert(v.len() == all@.len());
    assert(v[i] == all@[i]@);
    assert(w[i] == one@);
}

/// Numbers of sixty-four and of thirty-two bits are shown in full width.
pub proof fn wide_numbers_are_shown_in_full(
    large: u64,
    small: u32,
    long: String,
    short: String,
    pid: u32,
    target: u32,
    same: bool,
)
    requires
        call_ensures(hex64, (large,), long),
        call_ensures(hex32, (small,), short),
        call_ensures(event_matches_target, (pid, target), same),
    ensures
        long@ == "0x"@ + text::zero_padded(text::hex(large as nat), 16),
        short@ == "0x"@ + text::zero_padded(text::hex(small as nat), 8),
        same <==> pid == target,
{
}

/// To count an event raises its number by one and no other, and a name that is not counted has no
/// number.
pub proof fn events_are_counted_by_name(
    c: &mut EventCounts,
    name: &str,
    other: &str,
    unit: (),
    before: Option<u64>,
    after: Option<u64>,
    known: bool,
)
    requires
        counts::counts_within(old(c)@, (u64::MAX - 1) as nat),
        call_ensures(EventCounts::bump, (c, name), unit),
        call_ensures(EventCounts::get, (&*old(c), other), before),
        call_ensures(EventCounts::get, (&*final(c), other), after),
        call_ensures(EventCounts::contains_key, (&*final(c), other), known),
    ensures
        other@ == name@ ==> (before matches Some(n) ==> after == Some((n + 1) as u64)),
        other@ != name@ ==> after == before,
        before is None ==> after is None,
        known <==> after is Some,
{
    counts::counted_raises_one(old(c)@, name@, other@);
}

/// Counts begin at zero.
pub proof fn counts_begin_at_zero(
    names: &[&'static str],
    c: EventCounts,
    i: int,
    r: Option<u64>,
    name: &str,
)
    requires
        call_ensures(EventCounts::new, (names,), c),
        0 <= i < names@.len(),
        name@ == names@[i]@,
        call_ensures(EventCounts::get, (&c, name), r),
    ensures
        r == Some(0u64),
{
    let v = names@.map_values(|s: &'static str| s@);
    assert(v[i] == name@);
    zero_is_found(v, i);
}

proof fn zero_is_found(names: Seq<Seq<char>>, i: int)
    requires
        0 <= i < names.len(),
    ensures
        counts::count_of(counts::zero_counts(names), names[i]) == Some(0nat),
    decreases i,
{
    let z = counts::zero_counts(names);
    assert(z[0] == (names[0], 0nat));
    if names[0] != names[i] {
        assert(z.drop_first() =~= counts::zero_counts(names.drop_first()));
        zero_is_found(names.drop_first(), i - 1);
    }
}

/// Numbers are read with their lowest byte first, and as many of them as are asked for; a number
/// with its highest bit set is negative.
pub proof fn bytes_are_read_from_the_lowest(
    b: &[u8],
    at: usize,
    small: u32,
    large: u64,
    n: u64,
    signed: i64,
)
    requires
        at + 8 <= b@.len(),
        call_ensures(le_u32_at, (b, at), small),
        call_ensures(le_u64_at, (b, at), large),
        call_ensures(as_signed64, (n,), signed),
    ensures
        small == b@[at as int] + 256 * b@[at + 1] + 65536 * b@[at + 2] + 16777216 * b@[at + 3],
        large == small + 0x1_0000_0000 * (b@[at + 4] + 256 * b@[at + 5] + 65536 * b@[at + 6]
            + 16777216 * b@[at + 7]),
        n <= i64::MAX ==> signed == n,
        n > i64::MAX ==> signed + 0x1_0000_0000_0000_0000 == n,
{
    reveal_with_fuel(bytes::le_value, 9);
    let s = b@.subrange(at as int, at + 4);
    let t = b@.subrange(at as int, at + 8);
    assert(s.drop_first().drop_first().drop_first().drop_first().len() == 0);
    assert(t.drop_first().drop_first().drop_first().drop_first().drop_first().drop_first().drop_first().drop_first().len()
        == 0);
}

/// The types of texts are told apart: those with wide characters and those with narrow ones.
pub proof fn text_types_are_told_apart(in_type: u16, wide: bool, narrow: bool)
    requires
        call_ensures(is_unicode_string_in_type, (in_type,), wide),
        call_ensures(is_ansi_string_in_type, (in_type,), narrow),
    ensures
        !(wide && narrow),
        in_type == 1 || in_type == 22 || in_type == 300 || in_type == 302 || in_type == 304 ==> wide,
        in_type == 2 || in_type == 23 || in_type == 301 || in_type == 303 || in_type == 305
            ==> narrow,
        in_type == 0 || (3 <= in_type <= 21) || (24 <= in_type <= 299) || in_type > 305 ==> !wide
            && !narrow,
{
}

/// Bytes look like wide text if they come in pairs and a pair is zero, or if every second one is.
pub proof fn wide_text_is_recognised(b: &[u8], i: int, r: bool)
    requires
        call_ensures(looks_like_utf16le, (b,), r),
    ensures
        b@.len() % 2 == 1 ==> !r,
        b@.len() == 0 ==> !r,
        b@.len() % 2 == 0 && 0 <= i < b@.len() / 2 && b@[2 * i] == 0 && b@[2 * i + 1] == 0 ==> r,
        b@.len() == 2 ==> (r <==> b@[1] == 0),
{
    let w = bytes::le_words(b@);
    reveal_with_fuel(decode::zero_high_bytes, 2);
    if b@.len() % 2 == 0 && 0 <= i < b@.len() / 2 && b@[2 * i] == 0 && b@[2 * i + 1] == 0 {
        assert(w[i] == 0);
    }
    if b@.len() == 2 {
        assert(w[0] == (b@[0] as nat + 256 * b@[1] as nat) as u16);
        assert(b@[0] as nat + 256 * b@[1] as nat <= u16::MAX);
    }
}

/// What is declared of a property is found by its name; the first such property counts, and those
/// that are structures do not.
pub proof fn declared_types_are_found_by_name(
    buffer: &[u8],
    properties: &[PropertyInfo],
    name: &str,
    first: Option<String>,
    r: Option<u16>,
)
    requires
        properties@.len() > 0,
        call_ensures(trace_event_info_string, (buffer, properties@[0].name_offset), first),
        call_ensures(property_in_type, (buffer, properties, name), r),
    ensures
        !properties@[0].is_struct && text::view_opt(first) == Some(name@) ==> r == Some(
            properties@[0].in_type,
        ),
        properties@.len() == 1 && (properties@[0].is_struct || text::view_opt(first) != Some(name@))
            ==> r is None,
        properties@[0].name_offset == 0 ==> first is None,
        properties@[0].name_offset >= buffer@.len() ==> first is None,
{
    reveal_with_fuel(session::declared_type, 2);
}

/// A trace that was not closed well leaves a warning with its number.
pub proof fn failed_closings_leave_a_warning(
    p: &mut EtwProcessor,
    status: u32,
    unit: (),
    operation: &str,
    error: DbgFlowError,
)
    requires
        old(p)@.well_formed(),
        call_ensures(EtwProcessor::note_close_status, (p, status), unit),
        call_ensures(etw_error, (operation, status), error),
    ensures
        status == 0 ==> final(p)@ == old(p)@,
        status != 0 ==> final(p)@.warnings == old(p)@.warnings.push(
            "CloseTrace returned Win32 error "@ + text::decimal(status as nat),
        ),
        error@ == ErrorView::Backend(
            operation@ + " failed with Win32 error "@ + text::decimal(status as nat),
        ),
{
}

/// The event sets of a trace are named in their order.
pub proof fn event_sets_are_named_in_order(
    s: NativeEtwSettings,
    process: bool,
    file_io: bool,
    names: Vec<&'static str>,
)
    requires
        s.well_formed(),
        call_ensures(NativeEtwSettings::includes, (&s, EtwEventSet::Process), process),
        call_ensures(NativeEtwSettings::includes, (&s, EtwEventSet::FileIo), file_io),
        call_ensures(NativeEtwSettings::event_set_names, (&s,), names),
    ensures
        ({
            let v = names@.map_values(|n: &'static str| n@);
            &&& process && file_io ==> v == seq!["process"@, "file_io"@]
            &&& process && !file_io ==> v == seq!["process"@]
            &&& !process && file_io ==> v == seq!["file_io"@]
            &&& !process && !file_io ==> v.len() == 0
        }),
{
    let v = names@.map_values(|n: &'static str| n@);
    assert(v =~= s.names());
}

/// Walks that found no event leave a warning with samples of both, and walks that were dropped leave
/// one with their number; without stacks there are no such warnings.
pub proof fn lost_walks_leave_warnings(v: EtwView, enabled: bool)
    ensures
        !enabled ==> v.stack_warnings(enabled) == v.warnings,
        enabled && v.walk_events > 0 && v.matched_walks == 0 && v.dropped_walks == 0
            ==> v.stack_warnings(enabled) == v.warnings.push(
            "native ETW saw "@ + text::decimal(v.walk_events)
                + " StackWalk events but none matched filtered target events; lifecycle_samples=["@
                + text::joined(v.lifecycle_samples, "; "@) + "]; stack_samples=["@ + text::joined(
                v.walk_samples,
                "; "@,
            ) + "]"@,
        ),
        enabled && v.matched_walks > 0 && v.dropped_walks == 0 ==> v.stack_warnings(enabled)
            == v.warnings,
        enabled && v.walk_events == 0 && v.dropped_walks == 0 ==> v.stack_warnings(enabled)
            == v.warnings,
        enabled && v.matched_walks > 0 && v.dropped_walks > 0 ==> v.stack_warnings(enabled)
            == v.warnings.push(
            "native ETW dropped "@ + text::decimal(v.dropped_walks)
                + " unmatched StackWalk events while bounding the pending stack cache"@,
        ),
{
}

/// Samples say when the event was and what it belongs to, and no more than five are kept.
pub proof fn samples_say_what_they_belong_to(v: EtwView, event: LifecycleInput, walk: StackWalkInput)
    ensures
        model::walk_sample(walk) == "ts="@ + text::signed_decimal(walk.event_timestamp as int)
            + ",stack_process="@ + text::decimal(walk.stack_process as nat) + ",stack_thread="@
            + text::decimal(walk.stack_thread as nat) + ",frames="@ + text::decimal(
            walk.stack_addresses.len(),
        ),
        v.lifecycle_samples.len() < 5 ==> v.with_lifecycle(event).lifecycle_samples
            == v.lifecycle_samples.push(
            event.event + ":ts="@ + text::signed_decimal(event.event_timestamp as int)
                + ",header_tid="@ + text::decimal(event.event_thread_id as nat) + ",pid="@
                + text::decimal(event.pid as nat),
        ),
        v.lifecycle_samples.len() >= 5 ==> v.with_lifecycle(event).lifecycle_samples
            == v.lifecycle_samples,
{
}

/// An image without a path is named by where it lies.
pub proof fn nameless_images_are_named_by_their_place(v: EtwView, event: LifecycleInput)
    requires
        event.event == "image_load"@,
        event.image_base is Some && event.image_size is Some,
    ensures
        ({
            let after = v.modules_after(event);
            &&& after.len() == v.modules.len() + 1
            &&& after.last().base == event.image_base->0 && after.last().size == event.image_size->0
            &&& after.last().loaded_at == event.event_timestamp
            &&& after.last().unloaded_at is None
            &&& event.image_path is None ==> after.last().name == "image_"@ + text::hex(
                event.image_base->0 as nat,
            )
            &&& event.image_path matches Some(p) ==> after.last().name == p
        }),
{
}

/// A session that stopped although more could have been read is stopped with a warning.
pub proof fn sessions_with_more_data_stop_with_a_warning(
    status: u32,
    r: Result<Vec<String>, DbgFlowError>,
)
    requires
        call_ensures(stop_outcome, (status,), r),
    ensures
        status == 0 ==> (r matches Ok(w) && w@.len() == 0),
        status == 234 ==> (r matches Ok(w) && w@.len() == 1 && w@[0]@
            == "ControlTraceW stop returned ERROR_MORE_DATA after stopping the ETW session"@),
        status != 0 && status != 234 ==> (r matches Err(e) && e@ == ErrorView::Backend(
            "ControlTraceW stop"@ + " failed with Win32 error "@ + text::decimal(status as nat),
        )),
{
    if let Ok(w) = r {
        assert(text::views(w@).len() == w@.len());
        if status == 234 {
            assert(text::views(w@)[0] == w@[0]@);
        }
    }
}

/// A trace of no event set, or of one twice, is refused for the reason.
pub proof fn wrong_event_sets_are_refused_for_the_reason(
    event_sets: Vec<EtwEventSet>,
    stacks: EtwStackConfig,
    r: Result<NativeEtwSettings, DbgFlowError>,
)
    requires
        call_ensures(
            native_etw_settings,
            (&ProfileCollectorConfig::NativeEtw {
                scope: EtwProfileScope::TargetProcess,
                event_sets,
                stacks,
            },),
            r,
        ),
    ensures
        event_sets@.len() == 0 ==> (r matches Err(e) && e@ == ErrorView::Backend(
            "native ETW event_sets must contain at least one event set"@,
        )),
        event_sets@ == seq![EtwEventSet::Process, EtwEventSet::Process] ==> (r matches Err(e) && e@
            == ErrorView::Backend(
            "duplicate native ETW event set is not supported: "@ + "process"@,
        )),
        event_sets@ == seq![EtwEventSet::FileIo, EtwEventSet::FileIo] ==> (r matches Err(e) && e@
            == ErrorView::Backend(
            "duplicate native ETW event set is not supported: "@ + "file_io"@,
        )),
{
    let s = event_sets@;
    if s.len() == 2 && s[0] == s[1] {
        assert(settings::repeated(s, 0)) by {
            assert(s[1] == s[0]);
        }
        assert(settings::first_repeated(s, 0));
    }
}

} // verus!
