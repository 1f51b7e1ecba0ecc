//! What a trace session asks of the system, and what the answers of the system mean.

use crate::error::{DbgFlowError, ErrorView};
use crate::etw::decode;
use crate::etw::decode::{
    utf16_null_terminated_to_string, EVENT_TRACE_TYPE_END, EVENT_TRACE_TYPE_LOAD,
    EVENT_TRACE_TYPE_START, FILE_IO_CLEANUP, FILE_IO_CREATE, FILE_IO_DELETE, FILE_IO_DIR_ENUM,
    FILE_IO_DIR_NOTIFY, FILE_IO_FILE_CREATE_NAME, FILE_IO_FILE_DELETE_NAME, FILE_IO_FLUSH,
    FILE_IO_FS_CONTROL, FILE_IO_GUID, FILE_IO_NAME, FILE_IO_QUERY_INFO, FILE_IO_READ,
    FILE_IO_RENAME, FILE_IO_RUNDOWN, FILE_IO_SET_INFO, FILE_IO_WRITE, IMAGE_LOAD_GUID,
    PROCESS_GUID, THREAD_GUID,
};
use crate::etw::model::EtwView;
use crate::etw::processor::EtwProcessor;
use crate::etw::settings::{EtwEventSet, NativeEtwSettings};
use crate::etw::invariants;
use crate::text;
use crate::text::{cat2, cat3, decimal_text, same};
use vstd::prelude::*;

verus! {

pub const FLAG_PROCESS: u32 = 1;

pub const FLAG_THREAD: u32 = 2;

pub const FLAG_IMAGE_LOAD: u32 = 4;

pub const FLAG_DISK_IO: u32 = 256;

pub const FLAG_DISK_FILE_IO: u32 = 512;

pub const FLAG_FILE_IO: u32 = 33554432;

pub const FLAG_FILE_IO_INIT: u32 = 67108864;

pub const ERROR_SUCCESS: u32 = 0;

pub const ERROR_MORE_DATA: u32 = 234;

/// The flags of the kernel events that the event sets need: each event set brings its own.
pub fn enable_flags(settings: &NativeEtwSettings) -> (r: u32)
    ensures
        r == (if settings.requests(EtwEventSet::Process) {
            FLAG_PROCESS + FLAG_THREAD + FLAG_IMAGE_LOAD
        } else {
            0
        }) + (if settings.requests(EtwEventSet::FileIo) {
            FLAG_DISK_IO + FLAG_DISK_FILE_IO + FLAG_FILE_IO_INIT + FLAG_FILE_IO
        } else {
            0
        }),
{
    let process: u32 = if settings.includes(EtwEventSet::Process) {
        FLAG_PROCESS + FLAG_THREAD + FLAG_IMAGE_LOAD
    } else {
        0
    };
    let file_io: u32 = if settings.includes(EtwEventSet::FileIo) {
        FLAG_DISK_IO + FLAG_DISK_FILE_IO + FLAG_FILE_IO_INIT + FLAG_FILE_IO
    } else {
        0
    };
    process + file_io
}

/// A kind of event: its provider and its type.
#[derive(Debug, Clone, Copy, PartialEq, Eq, Structural)]
pub struct ClassicEvent {
    pub guid: u128,
    pub event_type: u32,
}

/// The lifecycle events that stacks are taken at.
pub open spec fn lifecycle_stack_events() -> Seq<ClassicEvent> {
    seq![
        ClassicEvent { guid: PROCESS_GUID, event_type: EVENT_TRACE_TYPE_START },
        ClassicEvent { guid: PROCESS_GUID, event_type: EVENT_TRACE_TYPE_END },
        ClassicEvent { guid: THREAD_GUID, event_type: EVENT_TRACE_TYPE_START },
        ClassicEvent { guid: THREAD_GUID, event_type: EVENT_TRACE_TYPE_END },
        ClassicEvent { guid: IMAGE_LOAD_GUID, event_type: EVENT_TRACE_TYPE_LOAD },
        ClassicEvent { guid: IMAGE_LOAD_GUID, event_type: EVENT_TRACE_TYPE_END },
    ]
}

/// The types of the file events that stacks are taken at.
pub open spec fn file_stack_types() -> Seq<u32> {
    seq![
        FILE_IO_NAME,
        FILE_IO_FILE_CREATE_NAME,
        FILE_IO_FILE_DELETE_NAME,
        FILE_IO_RUNDOWN,
        FILE_IO_CREATE,
        FILE_IO_CLEANUP,
        FILE_IO_READ,
        FILE_IO_WRITE,
        FILE_IO_SET_INFO,
        FILE_IO_DELETE,
        FILE_IO_RENAME,
        FILE_IO_DIR_ENUM,
        FILE_IO_FLUSH,
        FILE_IO_QUERY_INFO,
        FILE_IO_FS_CONTROL,
        FILE_IO_DIR_NOTIFY,
    ]
}

/// The file events that stacks are taken at.
pub open spec fn file_io_stack_kinds() -> Seq<ClassicEvent> {
    file_stack_types().map_values(|t: u32| ClassicEvent { guid: FILE_IO_GUID, event_type: t })
}

/// The events that stacks are taken at.
pub open spec fn stack_kinds(settings: NativeEtwSettings) -> Seq<ClassicEvent> {
    (if settings.requests(EtwEventSet::Process) {
        lifecycle_stack_events()
    } else {
        Seq::empty()
    }) + (if settings.requests(EtwEventSet::FileIo) {
        file_io_stack_kinds()
    } else {
        Seq::empty()
    })
}

/// The file events that stacks are taken at.
pub fn file_io_stack_events() -> (r: Vec<ClassicEvent>)
    ensures
        r@ == file_io_stack_kinds(),
{
    let types: [u32; 16] = [
        FILE_IO_NAME,
        FILE_IO_FILE_CREATE_NAME,
        FILE_IO_FILE_DELETE_NAME,
        FILE_IO_RUNDOWN,
        FILE_IO_CREATE,
        FILE_IO_CLEANUP,
        FILE_IO_READ,
        FILE_IO_WRITE,
        FILE_IO_SET_INFO,
        FILE_IO_DELETE,
        FILE_IO_RENAME,
        FILE_IO_DIR_ENUM,
        FILE_IO_FLUSH,
        FILE_IO_QUERY_INFO,
        FILE_IO_FS_CONTROL,
        FILE_IO_DIR_NOTIFY,
    ];
    assert(types@ =~= file_stack_types());
    let mut r: Vec<ClassicEvent> = Vec::new();
    let mut i: usize = 0;
    while i < 16
        invariant
            i <= 16,
            types@ == file_stack_types(),
            types@.len() == 16,
            r@ =~= file_io_stack_kinds().take(i as int),
        decreases 16 - i,
    {
        r.push(ClassicEvent { guid: FILE_IO_GUID, event_type: types[i] });
        i += 1;
    }
    r
}

/// The events that stacks are taken at.
pub fn stack_events(settings: &NativeEtwSettings) -> (r: Vec<ClassicEvent>)
    ensures
        r@ == stack_kinds(*settings),
{
    let mut r: Vec<ClassicEvent> = if settings.includes(EtwEventSet::Process) {
        vec![
            ClassicEvent { guid: PROCESS_GUID, event_type: EVENT_TRACE_TYPE_START },
            ClassicEvent { guid: PROCESS_GUID, event_type: EVENT_TRACE_TYPE_END },
            ClassicEvent { guid: THREAD_GUID, event_type: EVENT_TRACE_TYPE_START },
            ClassicEvent { guid: THREAD_GUID, event_type: EVENT_TRACE_TYPE_END },
            ClassicEvent { guid: IMAGE_LOAD_GUID, event_type: EVENT_TRACE_TYPE_LOAD },
            ClassicEvent { guid: IMAGE_LOAD_GUID, event_type: EVENT_TRACE_TYPE_END },
        ]
    } else {
        Vec::new()
    };
    if settings.includes(EtwEventSet::FileIo) {
        let mut more = file_io_stack_events();
        r.append(&mut more);
    }
    assert(r@ =~= stack_kinds(*settings));
    r
}

/// The error that a status of the system means.
pub open spec fn status_error(operation: Seq<char>, status: u32) -> ErrorView {
    ErrorView::Backend(
        operation + " failed with Win32 error "@ + text::decimal(status as nat),
    )
}

/// The error that a status of the system means.
pub fn etw_error(operation: &str, status: u32) -> (r: DbgFlowError)
    ensures
        r@ == status_error(operation@, status),
{
    DbgFlowError::Backend(
        cat3(operation, " failed with Win32 error ", decimal_text(status as u64).as_str()),
    )
}

/// What a status of the system means for an operation that has no other outcome.
pub fn status_outcome(operation: &str, status: u32) -> (r: Result<(), DbgFlowError>)
    ensures
        match r {
            Ok(_) => status == ERROR_SUCCESS,
            Err(e) => status != ERROR_SUCCESS && e@ == status_error(operation@, status),
        },
{
    if status == ERROR_SUCCESS {
        Ok(())
    } else {
        Err(etw_error(operation, status))
    }
}

/// What the system answered when a trace session was stopped: the warnings, or the error.
pub open spec fn stopped(status: u32) -> Result<Seq<Seq<char>>, ErrorView> {
    if status == ERROR_MORE_DATA {
        Ok(seq!["ControlTraceW stop returned ERROR_MORE_DATA after stopping the ETW session"@])
    } else if status != ERROR_SUCCESS {
        Err(status_error("ControlTraceW stop"@, status))
    } else {
        Ok(Seq::empty())
    }
}

/// What the system answered when a trace session was stopped.
pub fn stop_outcome(status: u32) -> (r: Result<Vec<String>, DbgFlowError>)
    ensures
        match r {
            Ok(warnings) => stopped(status) matches Ok(w) && w == text::views(warnings@),
            Err(e) => stopped(status) matches Err(m) && m == e@,
        },
{
    if status == ERROR_MORE_DATA {
        let warnings: Vec<String> = vec![
            "ControlTraceW stop returned ERROR_MORE_DATA after stopping the ETW session".to_owned(),
        ];
        assert(text::views(warnings@) =~= seq![
            "ControlTraceW stop returned ERROR_MORE_DATA after stopping the ETW session"@,
        ]);
        return Ok(warnings);
    }
    if status != ERROR_SUCCESS {
        return Err(etw_error("ControlTraceW stop", status));
    }
    let warnings: Vec<String> = Vec::new();
    assert(text::views(warnings@) =~= Seq::<Seq<char>>::empty());
    Ok(warnings)
}

impl EtwProcessor {
    /// Notes that a trace could not be closed.
    pub fn note_close_status(&mut self, status: u32)
        requires
            old(self)@.well_formed(),
        ensures
            final(self)@.well_formed(),
            final(self)@ == (EtwView {
                warnings: if status != ERROR_SUCCESS {
                    old(self)@.warnings.push(
                        "CloseTrace returned Win32 error "@ + text::decimal(status as nat),
                    )
                } else {
                    old(self)@.warnings
                },
                ..old(self)@
            }),
    {
        if status != ERROR_SUCCESS {
            let warning = cat2(
                "CloseTrace returned Win32 error ",
                decimal_text(status as u64).as_str(),
            );
            self.warnings.push(warning);
            assert(text::views(self.warnings@) =~= text::views(old(self).warnings@).push(
                warning@,
            ));
        }
        proof {
            invariants::warnings_keep_well_formed(old(self)@, self@.warnings);
        }
        assert(self@ =~= (EtwView { warnings: self@.warnings, ..old(self)@ }));
    }
}

/// A text in the description of an event, by its place.
pub open spec fn info_text(buffer: Seq<u8>, offset: u32) -> Option<Seq<char>> {
    if offset == 0 || offset >= buffer.len() {
        None
    } else {
        decode::utf16_of(buffer.skip(offset as int))
    }
}

/// A text in the description of an event, by its place.
pub fn trace_event_info_string(buffer: &[u8], offset: u32) -> (r: Option<String>)
    ensures
        text::view_opt(r) == info_text(buffer@, offset),
{
    let size: usize = buffer.len();
    if offset == 0 || offset as usize >= size {
        return None;
    }
    let mut rest: Vec<u8> = Vec::new();
    let mut i: usize = offset as usize;
    while i < size
        invariant
            offset <= i <= size,
            size == buffer@.len(),
            rest@ =~= buffer@.subrange(offset as int, i as int),
        decreases size - i,
    {
        rest.push(buffer[i]);
        i += 1;
    }
    assert(rest@ =~= buffer@.skip(offset as int));
    utf16_null_terminated_to_string(rest.as_slice())
}

/// A property in the description of an event.
#[derive(Debug, Clone, Copy, PartialEq, Eq, Structural)]
pub struct PropertyInfo {
    pub is_struct: bool,
    pub name_offset: u32,
    pub in_type: u16,
}

/// The declared type of the first plain property with a name.
pub open spec fn declared_type(
    buffer: Seq<u8>,
    properties: Seq<PropertyInfo>,
    name: Seq<char>,
) -> Option<u16>
    decreases properties.len(),
{
    if properties.len() == 0 {
        None
    } else if !properties[0].is_struct && info_text(buffer, properties[0].name_offset) == Some(
        name,
    ) {
        Some(properties[0].in_type)
    } else {
        declared_type(buffer, properties.drop_first(), name)
    }
}

/// The declared type of a property, from the description of its event.
pub fn property_in_type(buffer: &[u8], properties: &[PropertyInfo], name: &str) -> (r: Option<u16>)
    ensures
        r == declared_type(buffer@, properties@, name@),
{
    let mut i: usize = 0;
    assert(properties@.skip(0) =~= properties@);
    while i < properties.len()
        invariant
            i <= properties@.len(),
            declared_type(buffer@, properties@, name@) == declared_type(
                buffer@,
                properties@.skip(i as int),
                name@,
            ),
        decreases properties@.len() - i,
    {
        assert(properties@.skip(i as int)[0] == properties@[i as int]);
        assert(properties@.skip(i as int).drop_first() =~= properties@.skip(i as int + 1));
        let property = properties[i];
        if !property.is_struct {
            if let Some(property_name) = trace_event_info_string(buffer, property.name_offset) {
                if same(property_name.as_str(), name) {
                    return Some(property.in_type);
                }
            }
        }
        i += 1;
    }
    None
}

} // verus!
