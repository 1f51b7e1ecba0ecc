//! Decoding of raw trace records.

use crate::bytes;
use crate::bytes::{as_signed64, le_u32_at, le_u64_at, utf16_lossy_text, utf8_lossy_text};
use crate::text;
use crate::text::{cat2, decimal_text, same};
use vstd::prelude::*;

verus! {

/// The provider of process start and end events.
pub const PROCESS_GUID: u128 = 0x3d6fa8d0_fe05_11d0_9dda_00c04fd7ba7c;

/// The provider of thread start and end events.
pub const THREAD_GUID: u128 = 0x3d6fa8d1_fe05_11d0_9dda_00c04fd7ba7c;

/// The provider of image load and unload events.
pub const IMAGE_LOAD_GUID: u128 = 0x2cb15d1d_5fc1_11d2_abe1_00a0c911f518;

/// The provider of file input and output events.
pub const FILE_IO_GUID: u128 = 0x90cbdc39_4a3e_11d1_84f4_0000f80464e3;

/// The provider of stack walk events.
pub const STACK_WALK_GUID: u128 = 0xdef2fe46_7bd6_4b80_bd94_f57fe20d0ce3;

pub const STACK_WALK_EVENT_TYPE: u32 = 32;

pub const EVENT_TRACE_TYPE_START: u32 = 1;

pub const EVENT_TRACE_TYPE_END: u32 = 2;

pub const EVENT_TRACE_TYPE_LOAD: u32 = 10;

pub const EXT_TYPE_STACK_TRACE32: u32 = 5;

pub const EXT_TYPE_STACK_TRACE64: u32 = 6;

pub const FILE_IO_NAME: u32 = 0;

pub const FILE_IO_FILE_CREATE_NAME: u32 = 32;

pub const FILE_IO_FILE_DELETE_NAME: u32 = 35;

pub const FILE_IO_RUNDOWN: u32 = 36;

pub const FILE_IO_CREATE: u32 = 64;

pub const FILE_IO_CLEANUP: u32 = 65;

pub const FILE_IO_CLOSE: u32 = 66;

pub const FILE_IO_READ: u32 = 67;

pub const FILE_IO_WRITE: u32 = 68;

pub const FILE_IO_SET_INFO: u32 = 69;

pub const FILE_IO_DELETE: u32 = 70;

pub const FILE_IO_RENAME: u32 = 71;

pub const FILE_IO_DIR_ENUM: u32 = 72;

pub const FILE_IO_FLUSH: u32 = 73;

pub const FILE_IO_QUERY_INFO: u32 = 74;

pub const FILE_IO_FS_CONTROL: u32 = 75;

pub const FILE_IO_OP_END: u32 = 76;

pub const FILE_IO_DIR_NOTIFY: u32 = 77;

/// The most stack frames that one stack walk event names.
pub const MAX_STACK_PROPERTIES: u64 = 192;

/// How the bytes of a text property are encoded.
#[derive(Debug, Clone, Copy, PartialEq, Eq, Structural)]
pub enum StringEncoding {
    Unicode,
    Ansi,
    Unknown,
}

/// One property of a record, as the tracing API hands it out.
#[derive(Debug)]
pub struct EtwProperty {
    pub name: String,
    pub bytes: Vec<u8>,
    pub encoding: StringEncoding,
}

/// One extended data item of a record.
#[derive(Debug)]
pub struct ExtendedItem {
    pub ext_type: u32,
    pub data: Vec<u8>,
}

/// A raw trace record.
#[derive(Debug)]
pub struct EtwRecord {
    pub provider: u128,
    pub opcode: u32,
    pub timestamp: i64,
    pub thread_id: u32,
    pub process_id: u32,
    pub properties: Vec<EtwProperty>,
    pub extended: Vec<ExtendedItem>,
    pub user_data: Vec<u8>,
}

/// A decoded process, thread or image event.
#[derive(Debug)]
pub struct DecodedLifecycleEvent {
    pub event_timestamp: i64,
    pub event_thread_id: u32,
    pub event: &'static str,
    pub pid: u32,
    pub tid: Option<u32>,
    pub parent_pid: Option<u32>,
    pub image_path: Option<String>,
    pub image_base: Option<u64>,
    pub image_size: Option<u64>,
    pub stack_addresses: Vec<u64>,
}

/// A decoded file input or output event.
#[derive(Debug)]
pub struct DecodedFileIoEvent {
    pub event_timestamp: i64,
    pub event_thread_id: u32,
    pub event: &'static str,
    pub pid: u32,
    pub ttid: Option<u32>,
    pub path: Option<String>,
    pub path_source: Option<&'static str>,
    pub file_object: Option<u64>,
    pub file_key: Option<u64>,
    pub irp_ptr: Option<u64>,
    pub offset: Option<u64>,
    pub io_size: Option<u64>,
    pub io_flags: Option<u32>,
    pub create_options: Option<u32>,
    pub file_attributes: Option<u32>,
    pub share_access: Option<u32>,
    pub info_class: Option<u32>,
    pub extra_info: Option<u64>,
    pub nt_status: Option<u32>,
    pub stack_addresses: Vec<u64>,
}

/// A decoded stack walk event.
#[derive(Debug)]
pub struct DecodedStackWalkEvent {
    pub event_timestamp: i64,
    pub stack_process: u32,
    pub stack_thread: u32,
    pub stack_addresses: Vec<u64>,
}

/// The mathematical form of a property.
pub struct PropertyView {
    pub name: Seq<char>,
    pub bytes: Seq<u8>,
    pub encoding: StringEncoding,
}

/// The mathematical form of a record.
pub struct RecordView {
    pub provider: u128,
    pub opcode: u32,
    pub timestamp: i64,
    pub thread_id: u32,
    pub process_id: u32,
    pub properties: Seq<PropertyView>,
    pub extended: Seq<(u32, Seq<u8>)>,
    pub user_data: Seq<u8>,
}

/// The mathematical form of a decoded lifecycle event.
pub struct LifecycleInput {
    pub event_timestamp: i64,
    pub event_thread_id: u32,
    pub event: Seq<char>,
    pub pid: u32,
    pub tid: Option<u32>,
    pub parent_pid: Option<u32>,
    pub image_path: Option<Seq<char>>,
    pub image_base: Option<u64>,
    pub image_size: Option<u64>,
    pub stack_addresses: Seq<u64>,
}

/// The mathematical form of a decoded file event.
pub struct FileIoInput {
    pub event_timestamp: i64,
    pub event_thread_id: u32,
    pub event: Seq<char>,
    pub pid: u32,
    pub ttid: Option<u32>,
    pub path: Option<Seq<char>>,
    pub path_source: Option<Seq<char>>,
    pub file_object: Option<u64>,
    pub file_key: Option<u64>,
    pub irp_ptr: Option<u64>,
    pub offset: Option<u64>,
    pub io_size: Option<u64>,
    pub io_flags: Option<u32>,
    pub create_options: Option<u32>,
    pub file_attributes: Option<u32>,
    pub share_access: Option<u32>,
    pub info_class: Option<u32>,
    pub extra_info: Option<u64>,
    pub nt_status: Option<u32>,
    pub stack_addresses: Seq<u64>,
}

/// The mathematical form of a decoded stack walk event.
pub struct StackWalkInput {
    pub event_timestamp: i64,
    pub stack_process: u32,
    pub stack_thread: u32,
    pub stack_addresses: Seq<u64>,
}

/// The view of an optional name.
pub open spec fn view_name(o: Option<&'static str>) -> Option<Seq<char>> {
    match o {
        Some(s) => Some(s@),
        None => None,
    }
}

impl View for EtwProperty {
    type V = PropertyView;

    open spec fn view(&self) -> PropertyView {
        PropertyView { name: self.name@, bytes: self.bytes@, encoding: self.encoding }
    }
}

impl View for EtwRecord {
    type V = RecordView;

    open spec fn view(&self) -> RecordView {
        RecordView {
            provider: self.provider,
            opcode: self.opcode,
            timestamp: self.timestamp,
            thread_id: self.thread_id,
            process_id: self.process_id,
            properties: self.properties@.map_values(|p: EtwProperty| p@),
            extended: self.extended@.map_values(|e: ExtendedItem| (e.ext_type, e.data@)),
            user_data: self.user_data@,
        }
    }
}

impl View for DecodedLifecycleEvent {
    type V = LifecycleInput;

    open spec fn view(&self) -> LifecycleInput {
        LifecycleInput {
            event_timestamp: self.event_timestamp,
            event_thread_id: self.event_thread_id,
            event: self.event@,
            pid: self.pid,
            tid: self.tid,
            parent_pid: self.parent_pid,
            image_path: text::view_opt(self.image_path),
            image_base: self.image_base,
            image_size: self.image_size,
            stack_addresses: self.stack_addresses@,
        }
    }
}

impl View for DecodedFileIoEvent {
    type V = FileIoInput;

    open spec fn view(&self) -> FileIoInput {
        FileIoInput {
            event_timestamp: self.event_timestamp,
            event_thread_id: self.event_thread_id,
            event: self.event@,
            pid: self.pid,
            ttid: self.ttid,
            path: text::view_opt(self.path),
            path_source: view_name(self.path_source),
            file_object: self.file_object,
            file_key: self.file_key,
            irp_ptr: self.irp_ptr,
            offset: self.offset,
            io_size: self.io_size,
            io_flags: self.io_flags,
            create_options: self.create_options,
            file_attributes: self.file_attributes,
            share_access: self.share_access,
            info_class: self.info_class,
            extra_info: self.extra_info,
            nt_status: self.nt_status,
            stack_addresses: self.stack_addresses@,
        }
    }
}

impl View for DecodedStackWalkEvent {
    type V = StackWalkInput;

    open spec fn view(&self) -> StackWalkInput {
        StackWalkInput {
            event_timestamp: self.event_timestamp,
            stack_process: self.stack_process,
            stack_thread: self.stack_thread,
            stack_addresses: self.stack_addresses@,
        }
    }
}

/// The first four bytes as a number, if there are that many.
pub open spec fn u32_of(b: Seq<u8>) -> Option<u32> {
    if b.len() < 4 {
        None
    } else {
        Some(bytes::le_value(b.take(4)) as u32)
    }
}

/// The first eight bytes as a number, or else the first four.
pub open spec fn u64_of(b: Seq<u8>) -> Option<u64> {
    if b.len() >= 8 {
        Some(bytes::le_value(b.take(8)) as u64)
    } else if b.len() >= 4 {
        Some(bytes::le_value(b.take(4)) as u64)
    } else {
        None
    }
}

/// The text up to the first zero code unit, if it is not empty.
pub open spec fn utf16_of(b: Seq<u8>) -> Option<Seq<char>> {
    let words = bytes::until(bytes::le_words(b), 0u16);
    if words.len() == 0 {
        None
    } else {
        Some(bytes::utf16_lossy(words))
    }
}

/// The text up to the first zero byte, if it is not empty.
pub open spec fn ansi_of(b: Seq<u8>) -> Option<Seq<char>> {
    let head = bytes::until(b, 0u8);
    if head.len() == 0 {
        None
    } else {
        Some(bytes::utf8_lossy(head))
    }
}

/// The number of code units, among the first `n`, whose high byte is zero.
pub open spec fn zero_high_bytes(b: Seq<u8>, n: int) -> nat
    decreases n,
{
    if n <= 0 {
        0
    } else {
        zero_high_bytes(b, n - 1) + if b[2 * n - 1] == 0 {
            1nat
        } else {
            0nat
        }
    }
}

/// Whether bytes of unknown encoding are taken for UTF-16: an even number of them, with
/// a zero code unit or with at least half of the high bytes zero.
pub open spec fn utf16_like(b: Seq<u8>) -> bool {
    &&& b.len() % 2 == 0
    &&& {
        ||| exists|i: int| 0 <= i < b.len() / 2 && #[trigger] bytes::le_words(b)[i] == 0
        ||| b.len() > 0 && zero_high_bytes(b, b.len() as int / 2) * 2 >= b.len() / 2
    }
}

/// The text that property bytes stand for.
pub open spec fn text_of_bytes(b: Seq<u8>, encoding: StringEncoding) -> Option<Seq<char>> {
    if b.len() == 0 {
        None
    } else {
        match encoding {
            StringEncoding::Unicode => utf16_of(b),
            StringEncoding::Ansi => ansi_of(b),
            StringEncoding::Unknown => if utf16_like(b) {
                utf16_of(b)
            } else {
                ansi_of(b)
            },
        }
    }
}

/// The first property of a given name.
pub open spec fn find_property(properties: Seq<PropertyView>, name: Seq<char>) -> Option<
    PropertyView,
>
    decreases properties.len(),
{
    if properties.len() == 0 {
        None
    } else if properties[0].name == name {
        Some(properties[0])
    } else {
        find_property(properties.drop_first(), name)
    }
}

impl RecordView {
    /// The number under the first of the given names that yields one.
    pub open spec fn u32_any(self, names: Seq<Seq<char>>) -> Option<u32>
        decreases names.len(),
    {
        if names.len() == 0 {
            None
        } else {
            let found = match find_property(self.properties, names[0]) {
                Some(p) => u32_of(p.bytes),
                None => None,
            };
            if found is Some {
                found
            } else {
                self.u32_any(names.drop_first())
            }
        }
    }

    /// The number under the first of the given names that yields one.
    pub open spec fn u64_any(self, names: Seq<Seq<char>>) -> Option<u64>
        decreases names.len(),
    {
        if names.len() == 0 {
            None
        } else {
            let found = match find_property(self.properties, names[0]) {
                Some(p) => u64_of(p.bytes),
                None => None,
            };
            if found is Some {
                found
            } else {
                self.u64_any(names.drop_first())
            }
        }
    }

    /// The text under the first of the given names that yields one.
    pub open spec fn text_any(self, names: Seq<Seq<char>>) -> Option<Seq<char>>
        decreases names.len(),
    {
        if names.len() == 0 {
            None
        } else {
            let found = match find_property(self.properties, names[0]) {
                Some(p) => text_of_bytes(p.bytes, p.encoding),
                None => None,
            };
            if found is Some {
                found
            } else {
                self.text_any(names.drop_first())
            }
        }
    }
}

/// The property bytes under a name.
pub fn read_property<'a>(record: &'a EtwRecord, name: &str) -> (r: Option<&'a EtwProperty>)
    ensures
        match r {
            Some(p) => find_property(record@.properties, name@) == Some(p@),
            None => find_property(record@.properties, name@) is None,
        },
{
    let ghost all = record@.properties;
    let mut i: usize = 0;
    assert(all.skip(0) =~= all);
    while i < record.properties.len()
        invariant
            i <= record.properties@.len(),
            all == record@.properties,
            find_property(all, name@) == find_property(all.skip(i as int), name@),
        decreases record.properties@.len() - i,
    {
        assert(all.skip(i as int)[0] == record.properties@[i as int]@);
        if same(record.properties[i].name.as_str(), name) {
            return Some(&record.properties[i]);
        }
        assert(all.skip(i as int).drop_first() =~= all.skip(i as int + 1));
        i += 1;
    }
    None
}

/// The first four bytes as a number.
pub fn bytes_to_u32(b: &[u8]) -> (r: Option<u32>)
    ensures
        r == u32_of(b@),
{
    if b.len() < 4 {
        return None;
    }
    assert(b@.subrange(0, 4) =~= b@.take(4));
    Some(le_u32_at(b, 0))
}

/// The first eight bytes as a number, or else the first four.
pub fn bytes_to_u64(b: &[u8]) -> (r: Option<u64>)
    ensures
        r == u64_of(b@),
{
    if b.len() >= 8 {
        assert(b@.subrange(0, 8) =~= b@.take(8));
        return Some(le_u64_at(b, 0));
    }
    if b.len() >= 4 {
        assert(b@.subrange(0, 4) =~= b@.take(4));
        return Some(le_u32_at(b, 0) as u64);
    }
    None
}

/// The text up to the first zero code unit.
pub fn utf16_null_terminated_to_string(b: &[u8]) -> (r: Option<String>)
    ensures
        text::view_opt(r) == utf16_of(b@),
{
    let ghost all = bytes::le_words(b@);
    let size: usize = b.len();
    let count: usize = size / 2;
    let mut words: Vec<u16> = Vec::new();
    let mut i: usize = 0;
    while i < count
        invariant
            i <= count,
            count == size / 2,
            size == b@.len(),
            all == bytes::le_words(b@),
            words@ == all.take(i as int),
            forall|j: int| 0 <= j < i ==> all[j] != 0,
        decreases count - i,
    {
        let word: u16 = b[2 * i] as u16 + 256 * (b[2 * i + 1] as u16);
        assert(word == all[i as int]);
        if word == 0 {
            proof {
                bytes::until_is_prefix(all, 0u16, i as int);
            }
            return if words.is_empty() {
                None
            } else {
                Some(utf16_lossy_text(words.as_slice()))
            };
        }
        words.push(word);
        i += 1;
        assert(all.take(i as int) =~= all.take(i as int - 1).push(word));
    }
    proof {
        bytes::until_is_prefix(all, 0u16, count as int);
    }
    if words.is_empty() {
        None
    } else {
        Some(utf16_lossy_text(words.as_slice()))
    }
}

/// The text up to the first zero byte.
pub fn ansi_null_terminated_to_string(b: &[u8]) -> (r: Option<String>)
    ensures
        text::view_opt(r) == ansi_of(b@),
{
    let mut nul: usize = 0;
    while nul < b.len() && b[nul] != 0
        invariant
            nul <= b@.len(),
            forall|j: int| 0 <= j < nul ==> b@[j] != 0,
        decreases b@.len() - nul,
    {
        nul += 1;
    }
    proof {
        bytes::until_is_prefix(b@, 0u8, nul as int);
    }
    if nul == 0 {
        None
    } else {
        assert(b@.subrange(0, nul as int) =~= b@.take(nul as int));
        Some(utf8_lossy_text(&b[0..nul]))
    }
}

/// Whether bytes of unknown encoding are taken for UTF-16.
pub fn looks_like_utf16le(b: &[u8]) -> (r: bool)
    ensures
        r == utf16_like(b@),
{
    let size: usize = b.len();
    if size % 2 != 0 {
        return false;
    }
    let count: usize = size / 2;
    let ghost all = bytes::le_words(b@);
    let mut zero: usize = 0;
    let mut i: usize = 0;
    while i < count
        invariant
            i <= count,
            count == size / 2,
            size == b@.len(),
            size % 2 == 0,
            zero <= i,
            all == bytes::le_words(b@),
            zero == zero_high_bytes(b@, i as int),
            forall|j: int| 0 <= j < i ==> #[trigger] all[j] != 0,
        decreases count - i,
    {
        let low: u8 = b[2 * i];
        let high: u8 = b[2 * i + 1];
        if low == 0 && high == 0 {
            assert(all[i as int] == 0);
            return true;
        }
        assert(all[i as int] == low as nat + 256 * high as nat);
        if high == 0 {
            zero += 1;
        }
        i += 1;
        assert(b@[2 * i as int - 1] == high);
    }
    count > 0 && zero >= count - zero
}

/// The text that property bytes stand for.
pub fn bytes_to_string(b: Vec<u8>, encoding: StringEncoding) -> (r: Option<String>)
    ensures
        text::view_opt(r) == text_of_bytes(b@, encoding),
{
    if b.is_empty() {
        return None;
    }
    text_of_property(b.as_slice(), encoding)
}

fn text_of_property(b: &[u8], encoding: StringEncoding) -> (r: Option<String>)
    ensures
        text::view_opt(r) == text_of_bytes(b@, encoding),
{
    if b.len() == 0 {
        return None;
    }
    match encoding {
        StringEncoding::Unicode => utf16_null_terminated_to_string(b),
        StringEncoding::Ansi => ansi_null_terminated_to_string(b),
        StringEncoding::Unknown => {
            if looks_like_utf16le(b) {
                utf16_null_terminated_to_string(b)
            } else {
                ansi_null_terminated_to_string(b)
            }
        },
    }
}

/// The views of a list of names.
pub open spec fn names_view(names: Seq<&'static str>) -> Seq<Seq<char>> {
    names.map_values(|s: &'static str| s@)
}

/// The number under the first of the given names that yields one.
pub fn read_u32_any(record: &EtwRecord, names: &[&'static str]) -> (r: Option<u32>)
    ensures
        r == record@.u32_any(names_view(names@)),
{
    let ghost all = names_view(names@);
    let mut i: usize = 0;
    assert(all.skip(0) =~= all);
    while i < names.len()
        invariant
            i <= names@.len(),
            all == names_view(names@),
            record@.u32_any(all) == record@.u32_any(all.skip(i as int)),
        decreases names@.len() - i,
    {
        assert(all.skip(i as int)[0] == names@[i as int]@);
        assert(all.skip(i as int).drop_first() =~= all.skip(i as int + 1));
        if let Some(property) = read_property(record, names[i]) {
            if let Some(value) = bytes_to_u32(property.bytes.as_slice()) {
                return Some(value);
            }
        }
        i += 1;
    }
    None
}

/// The number under the first of the given names that yields one.
pub fn read_u64_any(record: &EtwRecord, names: &[&'static str]) -> (r: Option<u64>)
    ensures
        r == record@.u64_any(names_view(names@)),
{
    let ghost all = names_view(names@);
    let mut i: usize = 0;
    assert(all.skip(0) =~= all);
    while i < names.len()
        invariant
            i <= names@.len(),
            all == names_view(names@),
            record@.u64_any(all) == record@.u64_any(all.skip(i as int)),
        decreases names@.len() - i,
    {
        assert(all.skip(i as int)[0] == names@[i as int]@);
        assert(all.skip(i as int).drop_first() =~= all.skip(i as int + 1));
        if let Some(property) = read_property(record, names[i]) {
            if let Some(value) = bytes_to_u64(property.bytes.as_slice()) {
                return Some(value);
            }
        }
        i += 1;
    }
    None
}

/// The text under the first of the given names that yields one.
pub fn read_string_any(record: &EtwRecord, names: &[&'static str]) -> (r: Option<String>)
    ensures
        text::view_opt(r) == record@.text_any(names_view(names@)),
{
    let ghost all = names_view(names@);
    let mut i: usize = 0;
    assert(all.skip(0) =~= all);
    while i < names.len()
        invariant
            i <= names@.len(),
            all == names_view(names@),
            record@.text_any(all) == record@.text_any(all.skip(i as int)),
        decreases names@.len() - i,
    {
        assert(all.skip(i as int)[0] == names@[i as int]@);
        assert(all.skip(i as int).drop_first() =~= all.skip(i as int + 1));
        if let Some(property) = read_property(record, names[i]) {
            if let Some(value) = text_of_property(property.bytes.as_slice(), property.encoding) {
                return Some(value);
            }
        }
        i += 1;
    }
    None
}

/// The first `n` numbers of `size` bytes each, without the zeros.
pub open spec fn nonzero_numbers(data: Seq<u8>, size: int, n: int) -> Seq<u64>
    decreases n,
{
    if n <= 0 {
        Seq::empty()
    } else {
        let rest = nonzero_numbers(data, size, n - 1);
        let value = bytes::le_value(data.subrange((n - 1) * size, n * size)) as u64;
        if value == 0 {
            rest
        } else {
            rest.push(value)
        }
    }
}

/// The stack walk event that raw event data stand for: a timestamp, a process, a thread, and
/// pointers of eight bytes, or of four where eight do not divide the rest.
pub open spec fn stack_walk_of(data: Seq<u8>) -> Option<StackWalkInput> {
    if data.len() < 16 || data.len() % 4 != 0 {
        None
    } else {
        let rest = data.skip(16);
        let size: int = if rest.len() % 8 == 0 {
            8
        } else {
            4
        };
        Some(
            StackWalkInput {
                event_timestamp: bytes::signed64(bytes::le_value(data.subrange(0, 8))) as i64,
                stack_process: bytes::le_value(data.subrange(8, 12)) as u32,
                stack_thread: bytes::le_value(data.subrange(12, 16)) as u32,
                stack_addresses: nonzero_numbers(rest, size, rest.len() as int / size),
            },
        )
    }
}

/// Decodes raw stack walk data.
pub fn decode_stack_walk_user_data(data: &[u8]) -> (r: Option<DecodedStackWalkEvent>)
    ensures
        match r {
            Some(stack) => stack_walk_of(data@) == Some(stack@),
            None => stack_walk_of(data@) is None,
        },
{
    let total: usize = data.len();
    if total < 16 || total % 4 != 0 {
        return None;
    }
    let event_timestamp: i64 = as_signed64(le_u64_at(data, 0));
    let stack_process: u32 = le_u32_at(data, 8);
    let stack_thread: u32 = le_u32_at(data, 12);
    let ghost rest = data@.skip(16);
    let size: usize = if (total - 16) % 8 == 0 {
        8
    } else {
        4
    };
    let count: usize = (total - 16) / size;
    let mut stack_addresses: Vec<u64> = Vec::new();
    let mut i: usize = 0;
    while i < count
        invariant
            i <= count,
            size == 8 || size == 4,
            total == data@.len(),
            total >= 16,
            count == (total - 16) / (size as int),
            rest == data@.skip(16),
            stack_addresses@ == nonzero_numbers(rest, size as int, i as int),
        decreases count - i,
    {
        assert(i * size + size <= count * size) by (nonlinear_arith)
            requires
                i < count,
        ;
        assert(count * size <= total - 16) by (nonlinear_arith)
            requires
                count == (total - 16) / (size as int),
                size == 8 || size == 4,
                total >= 16,
        ;
        assert((i + 1) * size == i * size + size) by (nonlinear_arith);
        let at: usize = 16 + i * size;
        let value: u64 = if size == 8 {
            le_u64_at(data, at)
        } else {
            le_u32_at(data, at) as u64
        };
        assert(rest.subrange(i * size, (i + 1) * size) =~= data@.subrange(
            at as int,
            at + size,
        ));
        if value != 0 {
            stack_addresses.push(value);
        }
        i += 1;
    }
    Some(DecodedStackWalkEvent { event_timestamp, stack_process, stack_thread, stack_addresses })
}

impl RecordView {
    /// The process that an event names.
    pub open spec fn pid(self) -> Option<u32> {
        self.u32_any(seq!["ProcessId"@, "ProcessID"@, "PID"@])
    }
}

fn read_pid(record: &EtwRecord) -> (r: Option<u32>)
    ensures
        r == record@.pid(),
{
    let names: [&'static str; 3] = ["ProcessId", "ProcessID", "PID"];
    assert(names_view(names@) =~= seq!["ProcessId"@, "ProcessID"@, "PID"@]);
    read_u32_any(record, names.as_slice())
}

impl RecordView {
    /// The parent process that an event names.
    pub open spec fn parent_pid(self) -> Option<u32> {
        self.u32_any(seq!["ParentId"@, "ParentID"@, "ParentProcessId"@])
    }
}

fn read_parent_pid(record: &EtwRecord) -> (r: Option<u32>)
    ensures
        r == record@.parent_pid(),
{
    let names: [&'static str; 3] = ["ParentId", "ParentID", "ParentProcessId"];
    assert(names_view(names@) =~= seq!["ParentId"@, "ParentID"@, "ParentProcessId"@]);
    read_u32_any(record, names.as_slice())
}

impl RecordView {
    /// The thread that a thread event is about.
    pub open spec fn started_thread(self) -> Option<u32> {
        self.u32_any(seq!["ThreadId"@, "ThreadID"@, "TThreadId"@, "TThreadID"@])
    }
}

fn read_started_thread(record: &EtwRecord) -> (r: Option<u32>)
    ensures
        r == record@.started_thread(),
{
    let names: [&'static str; 4] = ["ThreadId", "ThreadID", "TThreadId", "TThreadID"];
    assert(names_view(names@) =~= seq!["ThreadId"@, "ThreadID"@, "TThreadId"@, "TThreadID"@]);
    read_u32_any(record, names.as_slice())
}

impl RecordView {
    /// The image of a process event.
    pub open spec fn process_image(self) -> Option<Seq<char>> {
        self.text_any(seq!["ImageFileName"@, "ImageName"@])
    }
}

fn read_process_image(record: &EtwRecord) -> (r: Option<String>)
    ensures
        text::view_opt(r) == record@.process_image(),
{
    let names: [&'static str; 2] = ["ImageFileName", "ImageName"];
    assert(names_view(names@) =~= seq!["ImageFileName"@, "ImageName"@]);
    read_string_any(record, names.as_slice())
}

impl RecordView {
    /// The image of an image event.
    pub open spec fn loaded_image(self) -> Option<Seq<char>> {
        self.text_any(seq!["ImageFileName"@, "FileName"@, "ImageName"@])
    }
}

fn read_loaded_image(record: &EtwRecord) -> (r: Option<String>)
    ensures
        text::view_opt(r) == record@.loaded_image(),
{
    let names: [&'static str; 3] = ["ImageFileName", "FileName", "ImageName"];
    assert(names_view(names@) =~= seq!["ImageFileName"@, "FileName"@, "ImageName"@]);
    read_string_any(record, names.as_slice())
}

impl RecordView {
    /// The base address of an image event.
    pub open spec fn image_base(self) -> Option<u64> {
        self.u64_any(seq!["ImageBase"@, "BaseAddress"@])
    }
}

fn read_image_base(record: &EtwRecord) -> (r: Option<u64>)
    ensures
        r == record@.image_base(),
{
    let names: [&'static str; 2] = ["ImageBase", "BaseAddress"];
    assert(names_view(names@) =~= seq!["ImageBase"@, "BaseAddress"@]);
    read_u64_any(record, names.as_slice())
}

impl RecordView {
    /// The size of an image event.
    pub open spec fn image_size(self) -> Option<u64> {
        self.u64_any(seq!["ImageSize"@, "Size"@])
    }
}

fn read_image_size(record: &EtwRecord) -> (r: Option<u64>)
    ensures
        r == record@.image_size(),
{
    let names: [&'static str; 2] = ["ImageSize", "Size"];
    assert(names_view(names@) =~= seq!["ImageSize"@, "Size"@]);
    read_u64_any(record, names.as_slice())
}

impl RecordView {
    /// The path of a create event.
    pub open spec fn open_path(self) -> Option<Seq<char>> {
        self.text_any(seq!["OpenPath"@, "FileName"@, "Path"@])
    }
}

fn read_open_path(record: &EtwRecord) -> (r: Option<String>)
    ensures
        text::view_opt(r) == record@.open_path(),
{
    let names: [&'static str; 3] = ["OpenPath", "FileName", "Path"];
    assert(names_view(names@) =~= seq!["OpenPath"@, "FileName"@, "Path"@]);
    read_string_any(record, names.as_slice())
}

impl RecordView {
    /// The path of a name event.
    pub open spec fn file_name(self) -> Option<Seq<char>> {
        self.text_any(seq!["FileName"@, "OpenPath"@, "Path"@])
    }
}

fn read_file_name(record: &EtwRecord) -> (r: Option<String>)
    ensures
        text::view_opt(r) == record@.file_name(),
{
    let names: [&'static str; 3] = ["FileName", "OpenPath", "Path"];
    assert(names_view(names@) =~= seq!["FileName"@, "OpenPath"@, "Path"@]);
    read_string_any(record, names.as_slice())
}

impl RecordView {
    /// The thread that a file event names.
    pub open spec fn io_thread(self) -> Option<u32> {
        self.u32_any(seq!["TTID"@, "TThreadId"@, "TThreadID"@, "ThreadId"@, "ThreadID"@])
    }
}

fn read_io_thread(record: &EtwRecord) -> (r: Option<u32>)
    ensures
        r == record@.io_thread(),
{
    let names: [&'static str; 5] = ["TTID", "TThreadId", "TThreadID", "ThreadId", "ThreadID"];
    assert(names_view(names@) =~= seq!["TTID"@, "TThreadId"@, "TThreadID"@, "ThreadId"@, "ThreadID"@]);
    read_u32_any(record, names.as_slice())
}

impl RecordView {
    /// The file object of a file event.
    pub open spec fn file_object(self) -> Option<u64> {
        self.u64_any(seq!["FileObject"@, "FileObj"@])
    }
}

fn read_file_object(record: &EtwRecord) -> (r: Option<u64>)
    ensures
        r == record@.file_object(),
{
    let names: [&'static str; 2] = ["FileObject", "FileObj"];
    assert(names_view(names@) =~= seq!["FileObject"@, "FileObj"@]);
    read_u64_any(record, names.as_slice())
}

impl RecordView {
    /// The file key of a file event.
    pub open spec fn file_key(self) -> Option<u64> {
        self.u64_any(seq!["FileKey"@, "FileObjectKey"@])
    }
}

fn read_file_key(record: &EtwRecord) -> (r: Option<u64>)
    ensures
        r == record@.file_key(),
{
    let names: [&'static str; 2] = ["FileKey", "FileObjectKey"];
    assert(names_view(names@) =~= seq!["FileKey"@, "FileObjectKey"@]);
    read_u64_any(record, names.as_slice())
}

impl RecordView {
    /// The request packet of a file event.
    pub open spec fn irp(self) -> Option<u64> {
        self.u64_any(seq!["IrpPtr"@, "Irp"@, "IrpPointer"@])
    }
}

fn read_irp(record: &EtwRecord) -> (r: Option<u64>)
    ensures
        r == record@.irp(),
{
    let names: [&'static str; 3] = ["IrpPtr", "Irp", "IrpPointer"];
    assert(names_view(names@) =~= seq!["IrpPtr"@, "Irp"@, "IrpPointer"@]);
    read_u64_any(record, names.as_slice())
}

impl RecordView {
    /// The offset of a file event.
    pub open spec fn io_offset(self) -> Option<u64> {
        self.u64_any(seq!["Offset"@, "ByteOffset"@])
    }
}

fn read_io_offset(record: &EtwRecord) -> (r: Option<u64>)
    ensures
        r == record@.io_offset(),
{
    let names: [&'static str; 2] = ["Offset", "ByteOffset"];
    assert(names_view(names@) =~= seq!["Offset"@, "ByteOffset"@]);
    read_u64_any(record, names.as_slice())
}

impl RecordView {
    /// The size of a file event.
    pub open spec fn io_size(self) -> Option<u64> {
        self.u64_any(seq!["IoSize"@, "Size"@, "TransferSize"@])
    }
}

fn read_io_size(record: &EtwRecord) -> (r: Option<u64>)
    ensures
        r == record@.io_size(),
{
    let names: [&'static str; 3] = ["IoSize", "Size", "TransferSize"];
    assert(names_view(names@) =~= seq!["IoSize"@, "Size"@, "TransferSize"@]);
    read_u64_any(record, names.as_slice())
}

impl RecordView {
    /// The flags of a file event.
    pub open spec fn io_flags(self) -> Option<u32> {
        self.u32_any(seq!["IoFlags"@, "Flags"@])
    }
}

fn read_io_flags(record: &EtwRecord) -> (r: Option<u32>)
    ensures
        r == record@.io_flags(),
{
    let names: [&'static str; 2] = ["IoFlags", "Flags"];
    assert(names_view(names@) =~= seq!["IoFlags"@, "Flags"@]);
    read_u32_any(record, names.as_slice())
}

impl RecordView {
    /// The create options of a file event.
    pub open spec fn create_options(self) -> Option<u32> {
        self.u32_any(seq!["CreateOptions"@])
    }
}

fn read_create_options(record: &EtwRecord) -> (r: Option<u32>)
    ensures
        r == record@.create_options(),
{
    let names: [&'static str; 1] = ["CreateOptions"];
    assert(names_view(names@) =~= seq!["CreateOptions"@]);
    read_u32_any(record, names.as_slice())
}

impl RecordView {
    /// The file attributes of a file event.
    pub open spec fn file_attributes(self) -> Option<u32> {
        self.u32_any(seq!["FileAttributes"@])
    }
}

fn read_file_attributes(record: &EtwRecord) -> (r: Option<u32>)
    ensures
        r == record@.file_attributes(),
{
    let names: [&'static str; 1] = ["FileAttributes"];
    assert(names_view(names@) =~= seq!["FileAttributes"@]);
    read_u32_any(record, names.as_slice())
}

impl RecordView {
    /// The share access of a file event.
    pub open spec fn share_access(self) -> Option<u32> {
        self.u32_any(seq!["ShareAccess"@])
    }
}

fn read_share_access(record: &EtwRecord) -> (r: Option<u32>)
    ensures
        r == record@.share_access(),
{
    let names: [&'static str; 1] = ["ShareAccess"];
    assert(names_view(names@) =~= seq!["ShareAccess"@]);
    read_u32_any(record, names.as_slice())
}

impl RecordView {
    /// The information class of a file event.
    pub open spec fn info_class(self) -> Option<u32> {
        self.u32_any(seq!["InfoClass"@])
    }
}

fn read_info_class(record: &EtwRecord) -> (r: Option<u32>)
    ensures
        r == record@.info_class(),
{
    let names: [&'static str; 1] = ["InfoClass"];
    assert(names_view(names@) =~= seq!["InfoClass"@]);
    read_u32_any(record, names.as_slice())
}

impl RecordView {
    /// The extra information of a file event.
    pub open spec fn extra_info(self) -> Option<u64> {
        self.u64_any(seq!["ExtraInfo"@])
    }
}

fn read_extra_info(record: &EtwRecord) -> (r: Option<u64>)
    ensures
        r == record@.extra_info(),
{
    let names: [&'static str; 1] = ["ExtraInfo"];
    assert(names_view(names@) =~= seq!["ExtraInfo"@]);
    read_u64_any(record, names.as_slice())
}

impl RecordView {
    /// The status of a file event.
    pub open spec fn nt_status(self) -> Option<u32> {
        self.u32_any(seq!["NtStatus"@, "Status"@])
    }
}

fn read_nt_status(record: &EtwRecord) -> (r: Option<u32>)
    ensures
        r == record@.nt_status(),
{
    let names: [&'static str; 2] = ["NtStatus", "Status"];
    assert(names_view(names@) =~= seq!["NtStatus"@, "Status"@]);
    read_u32_any(record, names.as_slice())
}

impl RecordView {
    /// The timestamp that a stack walk refers to.
    pub open spec fn walk_timestamp(self) -> Option<u64> {
        self.u64_any(seq!["EventTimeStamp"@])
    }
}

fn read_walk_timestamp(record: &EtwRecord) -> (r: Option<u64>)
    ensures
        r == record@.walk_timestamp(),
{
    let names: [&'static str; 1] = ["EventTimeStamp"];
    assert(names_view(names@) =~= seq!["EventTimeStamp"@]);
    read_u64_any(record, names.as_slice())
}

impl RecordView {
    /// The process that a stack walk is about.
    pub open spec fn walk_process(self) -> Option<u32> {
        self.u32_any(seq!["StackProcess"@])
    }
}

fn read_walk_process(record: &EtwRecord) -> (r: Option<u32>)
    ensures
        r == record@.walk_process(),
{
    let names: [&'static str; 1] = ["StackProcess"];
    assert(names_view(names@) =~= seq!["StackProcess"@]);
    read_u32_any(record, names.as_slice())
}

impl RecordView {
    /// The thread that a stack walk is about.
    pub open spec fn walk_thread(self) -> Option<u32> {
        self.u32_any(seq!["StackThread"@])
    }
}

fn read_walk_thread(record: &EtwRecord) -> (r: Option<u32>)
    ensures
        r == record@.walk_thread(),
{
    let names: [&'static str; 1] = ["StackThread"];
    assert(names_view(names@) =~= seq!["StackThread"@]);
    read_u32_any(record, names.as_slice())
}

/// The first `n` numbers of `size` bytes each behind an eight byte head.
pub open spec fn frame_numbers(data: Seq<u8>, size: int, n: int) -> Seq<u64>
    decreases n,
{
    if n <= 0 {
        Seq::empty()
    } else {
        frame_numbers(data, size, n - 1).push(
            bytes::le_value(data.subrange(8 + (n - 1) * size, 8 + n * size)) as u64,
        )
    }
}

/// The frames that one extended data item holds.
pub open spec fn item_frames(item: (u32, Seq<u8>)) -> Seq<u64> {
    if item.1.len() <= 8 {
        Seq::empty()
    } else if item.0 == EXT_TYPE_STACK_TRACE64 {
        frame_numbers(item.1, 8, (item.1.len() - 8) / 8)
    } else if item.0 == EXT_TYPE_STACK_TRACE32 {
        frame_numbers(item.1, 4, (item.1.len() - 8) / 4)
    } else {
        Seq::empty()
    }
}

/// The frames of all extended data items, in order.
pub open spec fn items_frames(items: Seq<(u32, Seq<u8>)>) -> Seq<u64>
    decreases items.len(),
{
    if items.len() == 0 {
        Seq::empty()
    } else {
        items_frames(items.drop_last()) + item_frames(items.last())
    }
}

fn push_frames(out: &mut Vec<u64>, data: &[u8], size: usize)
    requires
        size == 8 || size == 4,
        data@.len() > 8,
    ensures
        final(out)@ == old(out)@ + frame_numbers(data@, size as int, (data@.len() - 8) / size as int),
{
    let total: usize = data.len();
    let count: usize = (total - 8) / size;
    let ghost start = out@;
    let mut i: usize = 0;
    assert(out@ =~= start + frame_numbers(data@, size as int, 0));
    while i < count
        invariant
            i <= count,
            size == 8 || size == 4,
            total == data@.len(),
            total > 8,
            count == (total - 8) / (size as int),
            out@ == start + frame_numbers(data@, size as int, i as int),
        decreases count - i,
    {
        assert(i * size + size <= count * size) by (nonlinear_arith)
            requires
                i < count,
        ;
        assert(count * size <= total - 8) by (nonlinear_arith)
            requires
                count == (total - 8) / (size as int),
                size == 8 || size == 4,
                total > 8,
        ;
        assert((i + 1) * size == i * size + size) by (nonlinear_arith);
        let at: usize = 8 + i * size;
        let value: u64 = if size == 8 {
            le_u64_at(data, at)
        } else {
            le_u32_at(data, at) as u64
        };
        out.push(value);
        i += 1;
        assert(out@ =~= start + frame_numbers(data@, size as int, i as int));
    }
}

/// The stack that was recorded together with an event.
pub fn stack_addresses(record: &EtwRecord) -> (r: Vec<u64>)
    ensures
        r@ == items_frames(record@.extended),
{
    let ghost items = record@.extended;
    let mut out: Vec<u64> = Vec::new();
    let mut i: usize = 0;
    assert(items.take(0) =~= Seq::<(u32, Seq<u8>)>::empty());
    while i < record.extended.len()
        invariant
            i <= record.extended@.len(),
            items == record@.extended,
            out@ == items_frames(items.take(i as int)),
        decreases record.extended@.len() - i,
    {
        let item = &record.extended[i];
        let ghost before = out@;
        if item.data.len() > 8 {
            if item.ext_type == EXT_TYPE_STACK_TRACE64 {
                push_frames(&mut out, item.data.as_slice(), 8);
            } else if item.ext_type == EXT_TYPE_STACK_TRACE32 {
                push_frames(&mut out, item.data.as_slice(), 4);
            }
        }
        i += 1;
        proof {
            let now = items.take(i as int);
            assert(now.drop_last() =~= items.take(i as int - 1));
            assert(now.last() == (item.ext_type, item.data@));
            assert(out@ =~= before + item_frames(now.last()));
        }
    }
    assert(items.take(items.len() as int) =~= items);
    out
}

/// The name of the property that holds the frame with the given number.
pub open spec fn stack_property(index: nat) -> Seq<char> {
    "Stack"@ + text::decimal(index)
}

/// The frames that the numbered properties of a stack walk hold, from `index` on, up to
/// the first number without a property; zeros are left out.
pub open spec fn numbered_frames(record: RecordView, index: nat) -> Seq<u64>
    decreases MAX_STACK_PROPERTIES + 1 - index,
{
    if index > MAX_STACK_PROPERTIES {
        Seq::empty()
    } else {
        match record.u64_any(seq![stack_property(index)]) {
            None => Seq::empty(),
            Some(address) => if address == 0 {
                numbered_frames(record, index + 1)
            } else {
                seq![address] + numbered_frames(record, index + 1)
            },
        }
    }
}

/// The stack walk event that the properties of a record stand for.
pub open spec fn walk_of_properties(record: RecordView) -> Option<StackWalkInput> {
    match (record.walk_timestamp(), record.walk_process(), record.walk_thread()) {
        (Some(timestamp), Some(process), Some(thread)) => Some(
            StackWalkInput {
                event_timestamp: bytes::signed64(timestamp as nat) as i64,
                stack_process: process,
                stack_thread: thread,
                stack_addresses: numbered_frames(record, 1),
            },
        ),
        _ => None,
    }
}

/// The stack walk event that a record stands for.
pub open spec fn stack_walk_event(record: RecordView) -> Option<StackWalkInput> {
    if record.provider != STACK_WALK_GUID || record.opcode != STACK_WALK_EVENT_TYPE {
        None
    } else if walk_of_properties(record) is Some {
        walk_of_properties(record)
    } else {
        stack_walk_of(record.user_data)
    }
}

fn read_numbered(record: &EtwRecord, index: u64) -> (r: Option<u64>)
    ensures
        r == record@.u64_any(seq![stack_property(index as nat)]),
{
    let name = cat2("Stack", decimal_text(index).as_str());
    let ghost names = seq![stack_property(index as nat)];
    assert(names[0] == name@);
    assert(names.drop_first() =~= Seq::<Seq<char>>::empty());
    proof {
        reveal_with_fuel(RecordView::u64_any, 2);
    }
    match read_property(record, name.as_str()) {
        Some(property) => bytes_to_u64(property.bytes.as_slice()),
        None => None,
    }
}

/// Decodes a stack walk from the properties of a record.
pub fn decode_stack_walk_event_with_tdh(record: &EtwRecord) -> (r: Option<DecodedStackWalkEvent>)
    ensures
        match r {
            Some(stack) => walk_of_properties(record@) == Some(stack@),
            None => walk_of_properties(record@) is None,
        },
{
    let (timestamp, process, thread) = match (
        read_walk_timestamp(record),
        read_walk_process(record),
        read_walk_thread(record),
    ) {
        (Some(timestamp), Some(process), Some(thread)) => (timestamp, process, thread),
        _ => {
            return None;
        },
    };
    let mut addresses: Vec<u64> = Vec::new();
    let mut index: u64 = 1;
    let ghost whole = numbered_frames(record@, 1);
    assert(addresses@ + whole =~= whole);
    while index <= MAX_STACK_PROPERTIES
        invariant_except_break
            addresses@ + numbered_frames(record@, index as nat) == whole,
        invariant
            1 <= index <= MAX_STACK_PROPERTIES + 1,
        ensures
            addresses@ == whole,
        decreases MAX_STACK_PROPERTIES + 1 - index,
    {
        match read_numbered(record, index) {
            None => {
                assert(addresses@ + Seq::<u64>::empty() =~= addresses@);
                break ;
            },
            Some(address) => {
                let ghost rest = numbered_frames(record@, index as nat + 1);
                if address != 0 {
                    assert(addresses@ + (seq![address] + rest) =~= addresses@.push(address) + rest);
                    addresses.push(address);
                }
            },
        }
        index += 1;
        if index > MAX_STACK_PROPERTIES {
            assert(addresses@ + Seq::<u64>::empty() =~= addresses@);
        }
    }
    Some(
        DecodedStackWalkEvent {
            event_timestamp: as_signed64(timestamp),
            stack_process: process,
            stack_thread: thread,
            stack_addresses: addresses,
        },
    )
}

/// Decodes a stack walk record: from its properties, or else from its raw data.
pub fn decode_stack_walk_event(record: &EtwRecord) -> (r: Option<DecodedStackWalkEvent>)
    ensures
        match r {
            Some(stack) => stack_walk_event(record@) == Some(stack@),
            None => stack_walk_event(record@) is None,
        },
{
    if record.provider != STACK_WALK_GUID || record.opcode != STACK_WALK_EVENT_TYPE {
        return None;
    }
    if let Some(stack) = decode_stack_walk_event_with_tdh(record) {
        return Some(stack);
    }
    decode_stack_walk_user_data(record.user_data.as_slice())
}

/// The lifecycle event that a record stands for.
pub open spec fn lifecycle_event(record: RecordView) -> Option<LifecycleInput> {
    let blank = LifecycleInput {
        event_timestamp: record.timestamp,
        event_thread_id: record.thread_id,
        event: ""@,
        pid: 0,
        tid: None,
        parent_pid: None,
        image_path: None,
        image_base: None,
        image_size: None,
        stack_addresses: items_frames(record.extended),
    };
    match record.pid() {
        None => None,
        Some(pid) => {
            if record.provider == PROCESS_GUID && record.opcode == EVENT_TRACE_TYPE_START {
                Some(
                    LifecycleInput {
                        event: "process_start"@,
                        pid,
                        parent_pid: record.parent_pid(),
                        image_path: record.process_image(),
                        ..blank
                    },
                )
            } else if record.provider == PROCESS_GUID && record.opcode == EVENT_TRACE_TYPE_END {
                Some(
                    LifecycleInput {
                        event: "process_end"@,
                        pid,
                        image_path: record.process_image(),
                        ..blank
                    },
                )
            } else if record.provider == THREAD_GUID && record.opcode == EVENT_TRACE_TYPE_START {
                Some(
                    LifecycleInput {
                        event: "thread_start"@,
                        pid,
                        tid: record.started_thread(),
                        ..blank
                    },
                )
            } else if record.provider == THREAD_GUID && record.opcode == EVENT_TRACE_TYPE_END {
                Some(
                    LifecycleInput {
                        event: "thread_end"@,
                        pid,
                        tid: record.started_thread(),
                        ..blank
                    },
                )
            } else if record.provider == IMAGE_LOAD_GUID && (record.opcode == EVENT_TRACE_TYPE_LOAD
                || record.opcode == EVENT_TRACE_TYPE_END) {
                Some(
                    LifecycleInput {
                        event: if record.opcode == EVENT_TRACE_TYPE_LOAD {
                            "image_load"@
                        } else {
                            "image_unload"@
                        },
                        pid,
                        image_path: record.loaded_image(),
                        image_base: record.image_base(),
                        image_size: record.image_size(),
                        ..blank
                    },
                )
            } else {
                None
            }
        },
    }
}

/// Whether a record is an image event that names no process.
pub open spec fn anonymous_image_event(record: RecordView) -> bool {
    &&& record.provider == IMAGE_LOAD_GUID
    &&& record.opcode == EVENT_TRACE_TYPE_LOAD || record.opcode == EVENT_TRACE_TYPE_END
    &&& record.pid() is None
}

/// Decodes a process, thread or image record. An image event without a process leaves
/// a warning.
pub fn decode_lifecycle_event(record: &EtwRecord, warnings: &mut Vec<String>) -> (r: Option<
    DecodedLifecycleEvent,
>)
    ensures
        match r {
            Some(event) => lifecycle_event(record@) == Some(event@),
            None => lifecycle_event(record@) is None,
        },
        text::views(final(warnings)@) == if anonymous_image_event(record@) {
            text::views(old(warnings)@).push(
                "image event skipped because ProcessId is unavailable"@,
            )
        } else {
            text::views(old(warnings)@)
        },
{
    let event: &'static str;
    if record.provider == PROCESS_GUID {
        if record.opcode == EVENT_TRACE_TYPE_START {
            event = "process_start";
        } else if record.opcode == EVENT_TRACE_TYPE_END {
            event = "process_end";
        } else {
            return None;
        }
        let pid = match read_pid(record) {
            Some(pid) => pid,
            None => {
                return None;
            },
        };
        let parent_pid = if record.opcode == EVENT_TRACE_TYPE_START {
            read_parent_pid(record)
        } else {
            None
        };
        return Some(
            DecodedLifecycleEvent {
                event_timestamp: record.timestamp,
                event_thread_id: record.thread_id,
                event,
                pid,
                tid: None,
                parent_pid,
                image_path: read_process_image(record),
                image_base: None,
                image_size: None,
                stack_addresses: stack_addresses(record),
            },
        );
    }
    if record.provider == THREAD_GUID {
        if record.opcode == EVENT_TRACE_TYPE_START {
            event = "thread_start";
        } else if record.opcode == EVENT_TRACE_TYPE_END {
            event = "thread_end";
        } else {
            return None;
        }
        let pid = match read_pid(record) {
            Some(pid) => pid,
            None => {
                return None;
            },
        };
        return Some(
            DecodedLifecycleEvent {
                event_timestamp: record.timestamp,
                event_thread_id: record.thread_id,
                event,
                pid,
                tid: read_started_thread(record),
                parent_pid: None,
                image_path: None,
                image_base: None,
                image_size: None,
                stack_addresses: stack_addresses(record),
            },
        );
    }
    if record.provider == IMAGE_LOAD_GUID {
        if record.opcode == EVENT_TRACE_TYPE_LOAD {
            event = "image_load";
        } else if record.opcode == EVENT_TRACE_TYPE_END {
            event = "image_unload";
        } else {
            return None;
        }
        let pid = match read_pid(record) {
            Some(pid) => pid,
            None => {
                let warning = "image event skipped because ProcessId is unavailable".to_owned();
                warnings.push(warning);
                assert(text::views(warnings@) =~= text::views(old(warnings)@).push(warning@));
                return None;
            },
        };
        return Some(
            DecodedLifecycleEvent {
                event_timestamp: record.timestamp,
                event_thread_id: record.thread_id,
                event,
                pid,
                tid: None,
                parent_pid: None,
                image_path: read_loaded_image(record),
                image_base: read_image_base(record),
                image_size: read_image_size(record),
                stack_addresses: stack_addresses(record),
            },
        );
    }
    None
}

/// The name of a file event.
pub open spec fn file_event_view(opcode: u32) -> Option<Seq<char>> {
    if opcode == FILE_IO_NAME {
        Some("file_name"@)
    } else if opcode == FILE_IO_FILE_CREATE_NAME {
        Some("file_create_name"@)
    } else if opcode == FILE_IO_FILE_DELETE_NAME {
        Some("file_delete_name"@)
    } else if opcode == FILE_IO_RUNDOWN {
        Some("file_rundown"@)
    } else if opcode == FILE_IO_CREATE {
        Some("create"@)
    } else if opcode == FILE_IO_CLEANUP {
        Some("cleanup"@)
    } else if opcode == FILE_IO_CLOSE {
        Some("close"@)
    } else if opcode == FILE_IO_READ {
        Some("read"@)
    } else if opcode == FILE_IO_WRITE {
        Some("write"@)
    } else if opcode == FILE_IO_SET_INFO {
        Some("set_info"@)
    } else if opcode == FILE_IO_DELETE {
        Some("delete"@)
    } else if opcode == FILE_IO_RENAME {
        Some("rename"@)
    } else if opcode == FILE_IO_DIR_ENUM {
        Some("dir_enum"@)
    } else if opcode == FILE_IO_FLUSH {
        Some("flush"@)
    } else if opcode == FILE_IO_QUERY_INFO {
        Some("query_info"@)
    } else if opcode == FILE_IO_FS_CONTROL {
        Some("fs_control"@)
    } else if opcode == FILE_IO_OP_END {
        Some("op_end"@)
    } else if opcode == FILE_IO_DIR_NOTIFY {
        Some("dir_notify"@)
    } else {
        None
    }
}

/// The name of a file event.
pub fn file_event_name(opcode: u32) -> (r: Option<&'static str>)
    ensures
        view_name(r) == file_event_view(opcode),
{
    let name: &'static str = match opcode {
        0 => "file_name",
        32 => "file_create_name",
        35 => "file_delete_name",
        36 => "file_rundown",
        64 => "create",
        65 => "cleanup",
        66 => "close",
        67 => "read",
        68 => "write",
        69 => "set_info",
        70 => "delete",
        71 => "rename",
        72 => "dir_enum",
        73 => "flush",
        74 => "query_info",
        75 => "fs_control",
        76 => "op_end",
        77 => "dir_notify",
        _ => {
            return None;
        },
    };
    Some(name)
}

/// Whether the event names a file under its file name.
pub open spec fn names_file(opcode: u32) -> bool {
    opcode == FILE_IO_NAME || opcode == FILE_IO_FILE_CREATE_NAME || opcode
        == FILE_IO_FILE_DELETE_NAME || opcode == FILE_IO_RUNDOWN || opcode == FILE_IO_DIR_ENUM
        || opcode == FILE_IO_DIR_NOTIFY
}

/// The path that a file event carries.
pub open spec fn file_event_path(record: RecordView) -> Option<Seq<char>> {
    if record.opcode == FILE_IO_CREATE {
        record.open_path()
    } else if names_file(record.opcode) {
        record.file_name()
    } else {
        None
    }
}

/// The file event that a record stands for.
pub open spec fn file_io_event(record: RecordView) -> Option<FileIoInput> {
    if record.provider != FILE_IO_GUID {
        None
    } else {
        match file_event_view(record.opcode) {
            None => None,
            Some(event) => Some(
                FileIoInput {
                    event_timestamp: record.timestamp,
                    event_thread_id: record.thread_id,
                    event,
                    pid: match record.pid() {
                        Some(pid) => pid,
                        None => record.process_id,
                    },
                    ttid: record.io_thread(),
                    path: file_event_path(record),
                    path_source: if file_event_path(record) is None {
                        None
                    } else if record.opcode == FILE_IO_CREATE {
                        Some("open_path"@)
                    } else {
                        Some("file_name"@)
                    },
                    file_object: record.file_object(),
                    file_key: record.file_key(),
                    irp_ptr: record.irp(),
                    offset: record.io_offset(),
                    io_size: record.io_size(),
                    io_flags: record.io_flags(),
                    create_options: record.create_options(),
                    file_attributes: record.file_attributes(),
                    share_access: record.share_access(),
                    info_class: record.info_class(),
                    extra_info: record.extra_info(),
                    nt_status: record.nt_status(),
                    stack_addresses: if record.opcode == FILE_IO_OP_END {
                        Seq::empty()
                    } else {
                        items_frames(record.extended)
                    },
                },
            ),
        }
    }
}

/// Decodes a file record.
pub fn decode_file_io_event(record: &EtwRecord) -> (r: Option<DecodedFileIoEvent>)
    ensures
        match r {
            Some(event) => file_io_event(record@) == Some(event@),
            None => file_io_event(record@) is None,
        },
{
    if record.provider != FILE_IO_GUID {
        return None;
    }
    let event = match file_event_name(record.opcode) {
        Some(event) => event,
        None => {
            return None;
        },
    };
    let opcode = record.opcode;
    let path = if opcode == FILE_IO_CREATE {
        read_open_path(record)
    } else if opcode == FILE_IO_NAME || opcode == FILE_IO_FILE_CREATE_NAME || opcode
        == FILE_IO_FILE_DELETE_NAME || opcode == FILE_IO_RUNDOWN || opcode == FILE_IO_DIR_ENUM
        || opcode == FILE_IO_DIR_NOTIFY {
        read_file_name(record)
    } else {
        None
    };
    let path_source: Option<&'static str> = if path.is_none() {
        None
    } else if opcode == FILE_IO_CREATE {
        Some("open_path")
    } else {
        Some("file_name")
    };
    let stack = if opcode == FILE_IO_OP_END {
        Vec::new()
    } else {
        stack_addresses(record)
    };
    let pid = match read_pid(record) {
        Some(pid) => pid,
        None => record.process_id,
    };
    Some(
        DecodedFileIoEvent {
            event_timestamp: record.timestamp,
            event_thread_id: record.thread_id,
            event,
            pid,
            ttid: read_io_thread(record),
            path,
            path_source,
            file_object: read_file_object(record),
            file_key: read_file_key(record),
            irp_ptr: read_irp(record),
            offset: read_io_offset(record),
            io_size: read_io_size(record),
            io_flags: read_io_flags(record),
            create_options: read_create_options(record),
            file_attributes: read_file_attributes(record),
            share_access: read_share_access(record),
            info_class: read_info_class(record),
            extra_info: read_extra_info(record),
            nt_status: read_nt_status(record),
            stack_addresses: stack,
        },
    )
}

/// Whether a property type holds UTF-16 text.
pub fn is_unicode_string_in_type(in_type: u16) -> (r: bool)
    ensures
        r == (in_type == 1 || in_type == 300 || in_type == 22 || in_type == 304 || in_type == 302),
{
    in_type == 1 || in_type == 300 || in_type == 22 || in_type == 304 || in_type == 302
}

/// Whether a property type holds text in single bytes.
pub fn is_ansi_string_in_type(in_type: u16) -> (r: bool)
    ensures
        r == (in_type == 2 || in_type == 301 || in_type == 23 || in_type == 305 || in_type == 303),
{
    in_type == 2 || in_type == 301 || in_type == 23 || in_type == 305 || in_type == 303
}

/// The encoding of a property, from its declared type where that is known.
pub fn property_string_encoding(in_type: Option<u16>) -> (r: StringEncoding)
    ensures
        r == match in_type {
            Some(t) => if t == 1 || t == 300 || t == 22 || t == 304 || t == 302 {
                StringEncoding::Unicode
            } else if t == 2 || t == 301 || t == 23 || t == 305 || t == 303 {
                StringEncoding::Ansi
            } else {
                StringEncoding::Unknown
            },
            None => StringEncoding::Unknown,
        },
{
    match in_type {
        Some(t) => if is_unicode_string_in_type(t) {
            StringEncoding::Unicode
        } else if is_ansi_string_in_type(t) {
            StringEncoding::Ansi
        } else {
            StringEncoding::Unknown
        },
        None => StringEncoding::Unknown,
    }
}

} // verus!
