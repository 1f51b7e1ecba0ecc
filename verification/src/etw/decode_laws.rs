//! Laws of decoding: which record stands for which event, and where each part of it comes from.

use crate::etw::decode;
use crate::etw::decode::{
    bytes_to_string, bytes_to_u32, bytes_to_u64, decode_file_io_event, decode_stack_walk_event,
    decode_stack_walk_user_data, file_event_name, property_string_encoding, read_property,
    read_string_any, read_u32_any, read_u64_any, stack_addresses, utf16_null_terminated_to_string,
    DecodedFileIoEvent, DecodedStackWalkEvent, EtwProperty, EtwRecord, RecordView, StringEncoding,
};
use crate::text;
use vstd::prelude::*;

verus! {

/// Each kind of file operation has its own number and its own name; other numbers have none.
pub proof fn file_operations_have_their_names(opcode: u32, name: Option<&'static str>)
    requires
        call_ensures(file_event_name, (opcode,), name),
    ensures
        opcode == 0 ==> (name matches Some(s) && s@ == "file_name"@),
        opcode == 32 ==> (name matches Some(s) && s@ == "file_create_name"@),
        opcode == 35 ==> (name matches Some(s) && s@ == "file_delete_name"@),
        opcode == 36 ==> (name matches Some(s) && s@ == "file_rundown"@),
        opcode == 64 ==> (name matches Some(s) && s@ == "create"@),
        opcode == 65 ==> (name matches Some(s) && s@ == "cleanup"@),
        opcode == 66 ==> (name matches Some(s) && s@ == "close"@),
        opcode == 67 ==> (name matches Some(s) && s@ == "read"@),
        opcode == 68 ==> (name matches Some(s) && s@ == "write"@),
        opcode == 69 ==> (name matches Some(s) && s@ == "set_info"@),
        opcode == 70 ==> (name matches Some(s) && s@ == "delete"@),
        opcode == 71 ==> (name matches Some(s) && s@ == "rename"@),
        opcode == 72 ==> (name matches Some(s) && s@ == "dir_enum"@),
        opcode == 73 ==> (name matches Some(s) && s@ == "flush"@),
        opcode == 74 ==> (name matches Some(s) && s@ == "query_info"@),
        opcode == 75 ==> (name matches Some(s) && s@ == "fs_control"@),
        opcode == 76 ==> (name matches Some(s) && s@ == "op_end"@),
        opcode == 77 ==> (name matches Some(s) && s@ == "dir_notify"@),
        name is Some <==> (opcode == 0 || opcode == 32 || opcode == 35 || opcode == 36 || 64 <= opcode <= 77),
{
}

/// A record of the file provider is decoded to the event of its operation; no record of another
/// provider or of an unknown operation is decoded.
pub proof fn file_records_are_told_apart(record: EtwRecord, r: Option<DecodedFileIoEvent>)
    requires
        call_ensures(decode_file_io_event, (&record,), r),
    ensures
        r is Some <==> record.provider == 0x90cbdc39_4a3e_11d1_84f4_0000f80464e3 && (record.opcode
            == 0 || record.opcode == 32 || record.opcode == 35 || record.opcode == 36 || 64
            <= record.opcode <= 77),
        r matches Some(e) ==> {
            &&& record.opcode == 0 ==> e.event@ == "file_name"@
            &&& record.opcode == 32 ==> e.event@ == "file_create_name"@
            &&& record.opcode == 35 ==> e.event@ == "file_delete_name"@
            &&& record.opcode == 36 ==> e.event@ == "file_rundown"@
            &&& record.opcode == 64 ==> e.event@ == "create"@
            &&& record.opcode == 65 ==> e.event@ == "cleanup"@
            &&& record.opcode == 66 ==> e.event@ == "close"@
            &&& record.opcode == 67 ==> e.event@ == "read"@
            &&& record.opcode == 68 ==> e.event@ == "write"@
            &&& record.opcode == 69 ==> e.event@ == "set_info"@
            &&& record.opcode == 70 ==> e.event@ == "delete"@
            &&& record.opcode == 71 ==> e.event@ == "rename"@
            &&& record.opcode == 72 ==> e.event@ == "dir_enum"@
            &&& record.opcode == 73 ==> e.event@ == "flush"@
            &&& record.opcode == 74 ==> e.event@ == "query_info"@
            &&& record.opcode == 75 ==> e.event@ == "fs_control"@
            &&& record.opcode == 76 ==> e.event@ == "op_end"@
            &&& record.opcode == 77 ==> e.event@ == "dir_notify"@
        },
{
}

/// When and where a file event happened comes from the head of its record; a process that the
/// event names itself counts before that of the head.
pub proof fn file_events_keep_time_and_place(record: EtwRecord, e: DecodedFileIoEvent)
    requires
        call_ensures(decode_file_io_event, (&record,), Some(e)),
    ensures
        e.event_timestamp == record.timestamp,
        e.event_thread_id == record.thread_id,
        record@.u32_any(seq!["ProcessId"@, "ProcessID"@, "PID"@]) matches Some(pid) ==> e.pid
            == pid,
        record@.u32_any(seq!["ProcessId"@, "ProcessID"@, "PID"@]) is None ==> e.pid
            == record.process_id,
{
}

/// Each number of a file event is the one under its own property names.
pub proof fn file_numbers_come_from_their_properties(record: EtwRecord, e: DecodedFileIoEvent)
    requires
        call_ensures(decode_file_io_event, (&record,), Some(e)),
    ensures
        e.file_object == record@.u64_any(seq!["FileObject"@, "FileObj"@]),
        e.file_key == record@.u64_any(seq!["FileKey"@, "FileObjectKey"@]),
        e.irp_ptr == record@.u64_any(seq!["IrpPtr"@, "Irp"@, "IrpPointer"@]),
        e.offset == record@.u64_any(seq!["Offset"@, "ByteOffset"@]),
        e.io_size == record@.u64_any(seq!["IoSize"@, "Size"@, "TransferSize"@]),
        e.extra_info == record@.u64_any(seq!["ExtraInfo"@]),
        e.ttid == record@.u32_any(seq!["TTID"@, "TThreadId"@, "TThreadID"@, "ThreadId"@, "ThreadID"@]),
        e.io_flags == record@.u32_any(seq!["IoFlags"@, "Flags"@]),
        e.create_options == record@.u32_any(seq!["CreateOptions"@]),
        e.file_attributes == record@.u32_any(seq!["FileAttributes"@]),
        e.share_access == record@.u32_any(seq!["ShareAccess"@]),
        e.info_class == record@.u32_any(seq!["InfoClass"@]),
        e.nt_status == record@.u32_any(seq!["NtStatus"@, "Status"@]),
{
}

/// A create names the path that was opened, an event about names or directories the name of the
/// file, and no other event has a path of its own. Where there is a path, it is said which.
pub proof fn file_paths_come_from_their_properties(record: EtwRecord, e: DecodedFileIoEvent)
    requires
        call_ensures(decode_file_io_event, (&record,), Some(e)),
    ensures
        record.opcode == 64 ==> text::view_opt(e.path) == record@.text_any(
            seq!["OpenPath"@, "FileName"@, "Path"@],
        ),
        record.opcode == 0 || record.opcode == 32 || record.opcode == 35 || record.opcode == 36
            || record.opcode == 72 || record.opcode == 77 ==> text::view_opt(e.path)
            == record@.text_any(seq!["FileName"@, "OpenPath"@, "Path"@]),
        65 <= record.opcode <= 71 || 73 <= record.opcode <= 76 ==> e.path is None,
        e.path is None <==> e.path_source is None,
        record.opcode == 64 && e.path is Some ==> (e.path_source matches Some(s) && s@
            == "open_path"@),
        record.opcode != 64 && e.path is Some ==> (e.path_source matches Some(s) && s@
            == "file_name"@),
{
}

/// The stack of a file event is the one in its record; a completion has none.
pub proof fn file_stacks_come_from_the_record(
    record: EtwRecord,
    e: DecodedFileIoEvent,
    addresses: Vec<u64>,
)
    requires
        call_ensures(decode_file_io_event, (&record,), Some(e)),
        call_ensures(stack_addresses, (&record,), addresses),
    ensures
        record.opcode == 76 ==> e.stack_addresses@.len() == 0,
        record.opcode != 76 ==> e.stack_addresses@ == addresses@,
{
}

/// Each kind of record of the process, thread and image providers stands for its own event, and
/// no other record stands for one.
pub proof fn lifecycle_records_are_told_apart(record: RecordView)
    ensures
        ({
            let process = record.provider == 0x3d6fa8d0_fe05_11d0_9dda_00c04fd7ba7c;
            let thread = record.provider == 0x3d6fa8d1_fe05_11d0_9dda_00c04fd7ba7c;
            let image = record.provider == 0x2cb15d1d_5fc1_11d2_abe1_00a0c911f518;
            let pid = record.u32_any(seq!["ProcessId"@, "ProcessID"@, "PID"@]);
            let known = (process || thread) && (record.opcode == 1 || record.opcode == 2) || image
                && (record.opcode == 10 || record.opcode == 2);
            &&& decode::lifecycle_event(record) is Some <==> known && pid is Some
            &&& decode::lifecycle_event(record) matches Some(e) ==> {
                &&& Some(e.pid) == pid
                &&& e.event_timestamp == record.timestamp
                &&& e.event_thread_id == record.thread_id
                &&& process && record.opcode == 1 ==> e.event == "process_start"@
                &&& process && record.opcode == 2 ==> e.event == "process_end"@
                &&& thread && record.opcode == 1 ==> e.event == "thread_start"@
                &&& thread && record.opcode == 2 ==> e.event == "thread_end"@
                &&& image && record.opcode == 10 ==> e.event == "image_load"@
                &&& image && record.opcode == 2 ==> e.event == "image_unload"@
            }
            &&& decode::anonymous_image_event(record) <==> image && (record.opcode == 10
                || record.opcode == 2) && pid is None
        }),
{
}

/// Each part of a process, thread or image event is the one under its own property names, and
/// events of one kind have no parts of another.
pub proof fn lifecycle_parts_come_from_their_properties(record: RecordView)
    requires
        decode::lifecycle_event(record) is Some,
    ensures
        ({
            let e = decode::lifecycle_event(record)->0;
            let process = record.provider == 0x3d6fa8d0_fe05_11d0_9dda_00c04fd7ba7c;
            let thread = record.provider == 0x3d6fa8d1_fe05_11d0_9dda_00c04fd7ba7c;
            let image = record.provider == 0x2cb15d1d_5fc1_11d2_abe1_00a0c911f518;
            &&& process && record.opcode == 1 ==> e.parent_pid == record.u32_any(
                seq!["ParentId"@, "ParentID"@, "ParentProcessId"@],
            )
            &&& !(process && record.opcode == 1) ==> e.parent_pid is None
            &&& process ==> e.image_path == record.text_any(seq!["ImageFileName"@, "ImageName"@])
            &&& image ==> e.image_path == record.text_any(
                seq!["ImageFileName"@, "FileName"@, "ImageName"@],
            )
            &&& thread ==> e.image_path is None
            &&& thread ==> e.tid == record.u32_any(
                seq!["ThreadId"@, "ThreadID"@, "TThreadId"@, "TThreadID"@],
            )
            &&& !thread ==> e.tid is None
            &&& image ==> e.image_base == record.u64_any(seq!["ImageBase"@, "BaseAddress"@])
            &&& image ==> e.image_size == record.u64_any(seq!["ImageSize"@, "Size"@])
            &&& !image ==> e.image_base is None && e.image_size is None
            &&& e.stack_addresses == decode::items_frames(record.extended)
        }),
{
}

/// The property that is read is the first one of that name; none is read where none has it.
pub proof fn first_property_of_a_name_is_read(
    record: EtwRecord,
    name: &str,
    r: Option<&EtwProperty>,
)
    requires
        call_ensures(read_property, (&record, name), r),
    ensures
        match r {
            Some(p) => exists|i: int|
                {
                    &&& 0 <= i < record.properties@.len()
                    &&& #[trigger] record@.properties[i] == p@
                    &&& p.name@ == name@
                    &&& forall|j: int| 0 <= j < i ==> (#[trigger] record.properties@[j]).name@ != name@
                },
            None => forall|j: int|
                0 <= j < record.properties@.len() ==> (#[trigger] record.properties@[j]).name@ != name@,
        },
{
    first_of_a_name(record@, name@);
    let all = record@.properties;
    assert forall|j: int| 0 <= j < all.len() implies #[trigger] all[j].name
        == record.properties@[j].name@ by {}
    if let Some(p) = r {
        let i = choose|i: int|
            0 <= i < all.len() && Some(#[trigger] all[i]) == decode::find_property(all, name@)
                && all[i].name == name@ && forall|j: int|
                0 <= j < i ==> (#[trigger] all[j]).name != name@;
        assert(all[i] == p@);
        assert forall|j: int| 0 <= j < i implies (#[trigger] record.properties@[j]).name@ != name@ by {
            assert(all[j].name != name@);
        }
    } else {
        assert forall|j: int| 0 <= j < all.len() implies (#[trigger] record.properties@[j]).name@
            != name@ by {
            assert(all[j].name != name@);
        }
    }
}

proof fn first_of_a_name(record: RecordView, name: Seq<char>)
    ensures
        match decode::find_property(record.properties, name) {
            Some(p) => exists|i: int|
                0 <= i < record.properties.len() && Some(#[trigger] record.properties[i])
                    == decode::find_property(record.properties, name) && record.properties[i].name
                    == name && forall|j: int|
                    0 <= j < i ==> (#[trigger] record.properties[j]).name != name,
            None => forall|j: int|
                0 <= j < record.properties.len() ==> (#[trigger] record.properties[j]).name != name,
        },
    decreases record.properties.len(),
{
    let all = record.properties;
    if all.len() > 0 && all[0].name != name {
        let rest = RecordView { properties: all.drop_first(), ..record };
        first_of_a_name(rest, name);
        if decode::find_property(all, name) is Some {
            let i = choose|i: int|
                0 <= i < rest.properties.len() && Some(#[trigger] rest.properties[i])
                    == decode::find_property(rest.properties, name) && rest.properties[i].name
                    == name && forall|j: int|
                    0 <= j < i ==> (#[trigger] rest.properties[j]).name != name;
            assert(all[i + 1] == rest.properties[i]);
            assert forall|j: int| 0 <= j < i + 1 implies (#[trigger] all[j]).name != name by {
                if j > 0 {
                    assert(rest.properties[j - 1] == all[j]);
                }
            }
        } else {
            assert forall|j: int| 0 <= j < all.len() implies (#[trigger] all[j]).name != name by {
                if j > 0 {
                    assert(rest.properties[j - 1] == all[j]);
                }
            }
        }
    } else if all.len() > 0 {
        assert(Some(all[0]) == decode::find_property(all, name));
    }
}

/// The number under a name: that of its first property, if it has enough bytes.
pub open spec fn number_under(record: RecordView, name: Seq<char>) -> Option<u64> {
    match decode::find_property(record.properties, name) {
        Some(p) => if p.bytes.len() >= 4 {
            decode::u64_of(p.bytes)
        } else {
            None
        },
        None => None,
    }
}

/// Of several names the first one with a number counts, and there is a number whenever one of the
/// names has one.
pub proof fn first_name_with_a_number_counts(
    record: EtwRecord,
    names: &[&'static str],
    r: Option<u64>,
)
    requires
        call_ensures(read_u64_any, (&record, names), r),
    ensures
        match r {
            Some(n) => exists|i: int|
                {
                    &&& 0 <= i < names@.len()
                    &&& number_under(record@, (#[trigger] names@[i])@) == Some(n)
                    &&& forall|j: int|
                        0 <= j < i ==> number_under(record@, (#[trigger] names@[j])@) is None
                },
            None => forall|j: int|
                0 <= j < names@.len() ==> number_under(record@, (#[trigger] names@[j])@) is None,
        },
{
    let all = decode::names_view(names@);
    first_with_a_number(record@, all);
    assert forall|j: int| 0 <= j < all.len() implies #[trigger] all[j] == names@[j]@ by {}
    if let Some(n) = r {
        let i = choose|i: int|
            0 <= i < all.len() && number_under(record@, #[trigger] all[i]) == Some(n) && forall|
                j: int,
            |
                0 <= j < i ==> number_under(record@, #[trigger] all[j]) is None;
        assert(number_under(record@, names@[i]@) == Some(n));
        assert forall|j: int| 0 <= j < i implies number_under(
            record@,
            (#[trigger] names@[j])@,
        ) is None by {
            assert(number_under(record@, all[j]) is None);
        }
    } else {
        assert forall|j: int| 0 <= j < names@.len() implies number_under(
            record@,
            (#[trigger] names@[j])@,
        ) is None by {
            assert(number_under(record@, all[j]) is None);
        }
    }
}

proof fn first_with_a_number(record: RecordView, names: Seq<Seq<char>>)
    ensures
        match record.u64_any(names) {
            Some(n) => exists|i: int|
                0 <= i < names.len() && number_under(record, #[trigger] names[i]) == Some(n)
                    && forall|j: int| 0 <= j < i ==> number_under(record, #[trigger] names[j]) is None,
            None => forall|j: int|
                0 <= j < names.len() ==> number_under(record, #[trigger] names[j]) is None,
        },
    decreases names.len(),
{
    if names.len() > 0 && number_under(record, names[0]) is None {
        let rest = names.drop_first();
        first_with_a_number(record, rest);
        if let Some(n) = record.u64_any(names) {
            let i = choose|i: int|
                0 <= i < rest.len() && number_under(record, #[trigger] rest[i]) == Some(n)
                    && forall|j: int| 0 <= j < i ==> number_under(record, #[trigger] rest[j]) is None;
            assert(names[i + 1] == rest[i]);
            assert forall|j: int| 0 <= j < i + 1 implies number_under(
                record,
                #[trigger] names[j],
            ) is None by {
                if j > 0 {
                    assert(rest[j - 1] == names[j]);
                }
            }
        } else {
            assert forall|j: int| 0 <= j < names.len() implies number_under(
                record,
                #[trigger] names[j],
            ) is None by {
                if j > 0 {
                    assert(rest[j - 1] == names[j]);
                }
            }
        }
    } else if names.len() > 0 {
        assert(number_under(record, names[0]) == record.u64_any(names));
    }
}

/// A record with one property of a name gives its number or its text under that name, whatever
/// names without a property come before or after.
pub proof fn the_only_property_counts(
    record: EtwRecord,
    name: &'static str,
    other: &'static str,
    i: int,
    names: &[&'static str],
    number: Option<u32>,
    large: Option<u64>,
    words: Option<String>,
    small_of: Option<u32>,
    large_of: Option<u64>,
)
    requires
        0 <= i < record.properties@.len(),
        record.properties@[i].name@ == name@,
        forall|j: int|
            0 <= j < record.properties@.len() && j != i ==> {
                &&& (#[trigger] record.properties@[j]).name@ != name@
                &&& record.properties@[j].name@ != other@
            },
        name@ != other@,
        names@ == seq![name, other] || names@ == seq![other, name],
        call_ensures(read_u32_any, (&record, names), number),
        call_ensures(read_u64_any, (&record, names), large),
        call_ensures(read_string_any, (&record, names), words),
        decode::u32_of(record.properties@[i].bytes@) == small_of,
        decode::u64_of(record.properties@[i].bytes@) == large_of,
    ensures
        number == small_of,
        large == large_of,
        text::view_opt(words) == decode::text_of_bytes(
            record.properties@[i].bytes@,
            record.properties@[i].encoding,
        ),
{
    let all = record@.properties;
    assert forall|j: int| 0 <= j < all.len() implies #[trigger] all[j] == record.properties@[j]@ by {}
    first_of_a_name(record@, name@);
    first_of_a_name(record@, other@);
    let views = decode::names_view(names@);
    assert(views.len() == 2);
    assert(views[0] == names@[0]@ && views[1] == names@[1]@);
    assert(decode::find_property(all, other@) is None) by {
        if decode::find_property(all, other@) is Some {
            let k = choose|k: int|
                0 <= k < all.len() && Some(#[trigger] all[k]) == decode::find_property(all, other@)
                    && all[k].name == other@ && forall|j: int|
                    0 <= j < k ==> (#[trigger] all[j]).name != other@;
            assert(record.properties@[k].name@ == other@);
        }
    }
    assert(decode::find_property(all, name@) == Some(all[i])) by {
        assert(all[i].name == name@);
        let k = choose|k: int|
            0 <= k < all.len() && Some(#[trigger] all[k]) == decode::find_property(all, name@)
                && all[k].name == name@ && forall|j: int|
                0 <= j < k ==> (#[trigger] all[j]).name != name@;
        assert(record.properties@[k].name@ == name@);
    }
    let rest = views.drop_first();
    assert(rest.len() == 1 && rest[0] == views[1]);
    assert(rest.drop_first().len() == 0);
    reveal_with_fuel(RecordView::u32_any, 3);
    reveal_with_fuel(RecordView::u64_any, 3);
    reveal_with_fuel(RecordView::text_any, 3);
}

/// Numbers stand with their lowest byte first. Eight bytes are read where there are that many, or
/// else four.
pub proof fn numbers_have_their_lowest_byte_first(b: &[u8], small: Option<u32>, large: Option<u64>)
    requires
        call_ensures(bytes_to_u32, (b,), small),
        call_ensures(bytes_to_u64, (b,), large),
    ensures
        small is Some <==> b@.len() >= 4,
        large is Some <==> b@.len() >= 4,
        small matches Some(n) ==> n == b@[0] + 0x100 * b@[1] + 0x1_0000 * b@[2] + 0x100_0000 * b@[3],
        b@.len() < 8 ==> (large matches Some(n) ==> n == small->0),
        b@.len() >= 8 ==> (large matches Some(n) ==> n == b@[0] + 0x100 * b@[1] + 0x1_0000 * b@[2]
            + 0x100_0000 * b@[3] + 0x1_0000_0000 * b@[4] + 0x100_0000_0000 * b@[5]
            + 0x1_0000_0000_0000 * b@[6] + 0x100_0000_0000_0000 * b@[7]),
{
    reveal_with_fuel(crate::bytes::le_value, 9);
    if b@.len() >= 4 {
        let s = b@.take(4);
        assert(s.drop_first().drop_first().drop_first().drop_first().len() == 0);
        assert(s[0] == b@[0] && s.drop_first()[0] == b@[1]);
        assert(s.drop_first().drop_first()[0] == b@[2]);
        assert(s.drop_first().drop_first().drop_first()[0] == b@[3]);
    }
    if b@.len() >= 8 {
        let s = b@.take(8);
        let s4 = s.drop_first().drop_first().drop_first().drop_first();
        assert(s[0] == b@[0] && s.drop_first()[0] == b@[1]);
        assert(s.drop_first().drop_first()[0] == b@[2]);
        assert(s.drop_first().drop_first().drop_first()[0] == b@[3]);
        assert(s4.drop_first().drop_first().drop_first().drop_first().len() == 0);
        assert(s4[0] == b@[4] && s4.drop_first()[0] == b@[5]);
        assert(s4.drop_first().drop_first()[0] == b@[6]);
        assert(s4.drop_first().drop_first().drop_first()[0] == b@[7]);
    }
}

/// A stack walk record is one of the stack walk provider with the number of stack walks. Its
/// timestamp, process and thread are the first numbers of its data, where properties do not say
/// otherwise.
pub proof fn stack_walks_name_their_event(
    record: EtwRecord,
    r: Option<DecodedStackWalkEvent>,
    raw: Option<DecodedStackWalkEvent>,
)
    requires
        call_ensures(decode_stack_walk_event, (&record,), r),
        record.properties@.len() == 0,
        exists|data: &[u8]|
            data@ == record.user_data@ && #[trigger] call_ensures(
                decode_stack_walk_user_data,
                (data,),
                raw,
            ),
    ensures
        ({
            let data = record.user_data@;
            let walk = record.provider == 0xdef2fe46_7bd6_4b80_bd94_f57fe20d0ce3 && record.opcode
                == 32;
            &&& r is Some <==> walk && data.len() >= 16 && data.len() % 4 == 0
            &&& r matches Some(s) ==> {
                &&& raw matches Some(t) && t@ == s@
                &&& s.stack_process == data[8] + 0x100 * data[9] + 0x1_0000 * data[10] + 0x100_0000
                    * data[11]
                &&& s.stack_thread == data[12] + 0x100 * data[13] + 0x1_0000 * data[14]
                    + 0x100_0000 * data[15]
            }
        }),
{
    let data = record.user_data@;
    assert(record@.properties.len() == 0);
    reveal_with_fuel(RecordView::u64_any, 2);
    reveal_with_fuel(RecordView::u32_any, 2);
    reveal_with_fuel(crate::bytes::le_value, 5);
    if data.len() >= 16 {
        let a = data.subrange(8, 12);
        let b = data.subrange(12, 16);
        assert(a.drop_first().drop_first().drop_first().drop_first().len() == 0);
        assert(a[0] == data[8] && a.drop_first()[0] == data[9]);
        assert(a.drop_first().drop_first()[0] == data[10]);
        assert(a.drop_first().drop_first().drop_first()[0] == data[11]);
        assert(b.drop_first().drop_first().drop_first().drop_first().len() == 0);
        assert(b[0] == data[12] && b.drop_first()[0] == data[13]);
        assert(b.drop_first().drop_first()[0] == data[14]);
        assert(b.drop_first().drop_first().drop_first()[0] == data[15]);
    }
}

/// A stack walk that is told by properties has its timestamp, process, thread and frames under
/// their own names, the frames from the first one on.
pub proof fn stack_walk_properties_count_first(record: EtwRecord, s: DecodedStackWalkEvent)
    requires
        call_ensures(decode_stack_walk_event, (&record,), Some(s)),
        record@.u64_any(seq!["EventTimeStamp"@]) is Some,
        record@.u32_any(seq!["StackProcess"@]) is Some,
        record@.u32_any(seq!["StackThread"@]) is Some,
    ensures
        record@.u64_any(seq!["EventTimeStamp"@]) matches Some(t) ==> (if t
            < 0x8000_0000_0000_0000 {
            s.event_timestamp == t
        } else {
            s.event_timestamp == t - 0x1_0000_0000_0000_0000
        }),
        record@.u32_any(seq!["StackProcess"@]) == Some(s.stack_process),
        record@.u32_any(seq!["StackThread"@]) == Some(s.stack_thread),
        record@.u64_any(seq!["Stack"@ + seq!['1']]) is None ==> s.stack_addresses@.len() == 0,
        record@.u64_any(seq!["Stack"@ + seq!['1']]) matches Some(a) ==> a != 0
            ==> s.stack_addresses@.len() > 0 && s.stack_addresses@[0] == a,
{
    assert(text::decimal(1) =~= seq!['1']);
    reveal_with_fuel(decode::numbered_frames, 2);
}

/// A stack holds no zero, whichever way it was told.
pub proof fn walked_stacks_hold_no_zero(record: EtwRecord, s: DecodedStackWalkEvent)
    requires
        call_ensures(decode_stack_walk_event, (&record,), Some(s)),
    ensures
        forall|i: int| 0 <= i < s.stack_addresses@.len() ==> #[trigger] s.stack_addresses@[i] != 0,
{
    numbered_frames_hold_no_zero(record@, 1);
    let rest = record.user_data@.skip(16);
    nonzero_numbers_hold_no_zero(rest, 8, rest.len() as int / 8);
    nonzero_numbers_hold_no_zero(rest, 4, rest.len() as int / 4);
}

proof fn numbered_frames_hold_no_zero(record: RecordView, index: nat)
    ensures
        forall|i: int|
            0 <= i < decode::numbered_frames(record, index).len()
                ==> #[trigger] decode::numbered_frames(record, index)[i] != 0,
    decreases 200 - index,
{
    if index <= 192 {
        numbered_frames_hold_no_zero(record, index + 1);
        let rest = decode::numbered_frames(record, index + 1);
        let all = decode::numbered_frames(record, index);
        assert forall|i: int| 0 <= i < all.len() implies #[trigger] all[i] != 0 by {
            if all.len() == rest.len() + 1 {
                if i > 0 {
                    assert(all[i] == rest[i - 1]);
                }
            } else {
                assert(all.len() == rest.len() ==> all[i] == rest[i]);
            }
        }
    }
}

proof fn nonzero_numbers_hold_no_zero(data: Seq<u8>, size: int, n: int)
    ensures
        forall|i: int|
            0 <= i < decode::nonzero_numbers(data, size, n).len()
                ==> #[trigger] decode::nonzero_numbers(data, size, n)[i] != 0,
    decreases n,
{
    if n > 0 {
        nonzero_numbers_hold_no_zero(data, size, n - 1);
        let rest = decode::nonzero_numbers(data, size, n - 1);
        let all = decode::nonzero_numbers(data, size, n);
        assert forall|i: int| 0 <= i < all.len() implies #[trigger] all[i] != 0 by {
            if i < rest.len() {
                assert(all[i] == rest[i]);
            }
        }
    }
}

/// The stack in a record: the frames of an item of eight byte frames or of four byte frames,
/// behind a head of eight bytes; other items hold none.
pub proof fn recorded_stacks_hold_all_frames(record: EtwRecord, r: Vec<u64>, data: Seq<u8>)
    requires
        call_ensures(stack_addresses, (&record,), r),
        record.extended@.len() == 1,
        record.extended@[0].data@ == data,
    ensures
        record.extended@[0].ext_type == 6 && data.len() >= 16 ==> {
            &&& r@.len() == (data.len() - 8) / 8
            &&& forall|i: int|
                0 <= i < r@.len() ==> #[trigger] r@[i] == crate::bytes::le_value(
                    data.subrange(8 + i * 8, 8 + (i + 1) * 8),
                ) as u64
        },
        record.extended@[0].ext_type == 5 && data.len() >= 12 ==> {
            &&& r@.len() == (data.len() - 8) / 4
            &&& forall|i: int|
                0 <= i < r@.len() ==> #[trigger] r@[i] == crate::bytes::le_value(
                    data.subrange(8 + i * 4, 8 + (i + 1) * 4),
                ) as u64
        },
        record.extended@[0].ext_type != 5 && record.extended@[0].ext_type != 6 ==> r@.len() == 0,
{
    let items = record@.extended;
    assert(items.len() == 1 && items.last() == (record.extended@[0].ext_type, data));
    assert(items.drop_last().len() == 0);
    reveal_with_fuel(decode::items_frames, 2);
    assert(r@ =~= decode::item_frames(items.last()));
    frames_in_order(data, 8, (data.len() - 8) / 8);
    frames_in_order(data, 4, (data.len() - 8) / 4);
}

proof fn frames_in_order(data: Seq<u8>, size: int, n: int)
    ensures
        n >= 0 ==> decode::frame_numbers(data, size, n).len() == n,
        forall|i: int|
            0 <= i < n ==> #[trigger] decode::frame_numbers(data, size, n)[i]
                == crate::bytes::le_value(data.subrange(8 + i * size, 8 + (i + 1) * size)) as u64,
    decreases n,
{
    if n > 0 {
        frames_in_order(data, size, n - 1);
        let all = decode::frame_numbers(data, size, n);
        assert forall|i: int| 0 <= i < n implies #[trigger] all[i] == crate::bytes::le_value(
            data.subrange(8 + i * size, 8 + (i + 1) * size),
        ) as u64 by {
            if i < n - 1 {
                assert(all[i] == decode::frame_numbers(data, size, n - 1)[i]);
            }
        }
    }
}

/// Text that is declared as wide or as narrow is read as such; only where nothing is known of it
/// do its bytes decide. Text ends at the first zero and is never empty.
pub proof fn declared_types_decide_the_encoding(in_type: Option<u16>, r: StringEncoding)
    requires
        call_ensures(property_string_encoding, (in_type,), r),
    ensures
        r == StringEncoding::Unicode <==> (in_type matches Some(t) && (t == 1 || t == 22 || t == 300
            || t == 302 || t == 304)),
        r == StringEncoding::Ansi <==> (in_type matches Some(t) && (t == 2 || t == 23 || t == 301
            || t == 303 || t == 305)),
{
}

/// Wide text is made of pairs of bytes, the low one first, up to the first pair of zeros. Plain
/// characters stand for themselves.
pub proof fn wide_text_is_read(b: &[u8], n: int, r: Option<String>)
    requires
        call_ensures(utf16_null_terminated_to_string, (b,), r),
        0 <= n,
        2 * n <= b@.len() < 2 * n + 2 || (2 * n + 2 <= b@.len() && b@[2 * n] == 0 && b@[2 * n + 1]
            == 0),
        forall|i: int| 0 <= i < n ==> !(#[trigger] b@[2 * i] == 0 && b@[2 * i + 1] == 0),
    ensures
        r is Some <==> n > 0,
        r matches Some(s) ==> s@ == crate::bytes::utf16_lossy(
            Seq::new(n as nat, |i: int| (b@[2 * i] + 256 * b@[2 * i + 1]) as u16),
        ),
{
    let all = crate::bytes::le_words(b@);
    assert forall|i: int| 0 <= i < n implies all[i] != 0 by {
        assert(!(b@[2 * i] == 0 && b@[2 * i + 1] == 0));
    }
    crate::bytes::until_is_prefix(all, 0u16, n);
    assert(all.take(n) =~= Seq::new(n as nat, |i: int| (b@[2 * i] + 256 * b@[2 * i + 1]) as u16));
}

/// Narrow text is made of the bytes up to the first zero.
pub proof fn narrow_text_is_read(b: Vec<u8>, n: int, r: Option<String>)
    requires
        call_ensures(bytes_to_string, (b, StringEncoding::Ansi), r),
        0 <= n <= b@.len(),
        n < b@.len() ==> b@[n] == 0,
        forall|i: int| 0 <= i < n ==> #[trigger] b@[i] != 0,
    ensures
        r is Some <==> n > 0,
        r matches Some(s) ==> s@ == crate::bytes::utf8_lossy(b@.take(n)),
{
    crate::bytes::until_is_prefix(b@, 0u8, n);
}

} // verus!
