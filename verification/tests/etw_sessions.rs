//! Trace sessions, raw records and the end of a collection.

use dbgflow::artifact::ArtifactKind;
use dbgflow::error::DbgFlowError;
use dbgflow::etw::collector::{
    NativeEtwCollector, NativeEtwCollectorFactory, StopAnswer, StopAsk, StopPhase,
};
use dbgflow::etw::decode::{
    ansi_null_terminated_to_string, bytes_to_u32, bytes_to_u64, decode_file_io_event,
    decode_lifecycle_event, decode_stack_walk_event, looks_like_utf16le, property_string_encoding,
    stack_addresses, utf16_null_terminated_to_string, EtwProperty, EtwRecord, ExtendedItem,
    StringEncoding, EVENT_TRACE_TYPE_LOAD, EVENT_TRACE_TYPE_START, FILE_IO_CREATE, FILE_IO_GUID,
    FILE_IO_OP_END, IMAGE_LOAD_GUID, PROCESS_GUID, STACK_WALK_GUID,
};
use dbgflow::etw::processor::EtwProcessor;
use dbgflow::etw::session::{
    enable_flags, property_in_type, stack_events, status_outcome, stop_outcome,
    trace_event_info_string, PropertyInfo,
};
use dbgflow::etw::settings::{
    EtwEventSet, EtwProfileScope, EtwStackConfig, NativeEtwSettings, ProfileCollectorConfig,
};
use dbgflow::ids::SessionId;

fn settings(process: bool, file_io: bool) -> NativeEtwSettings {
    NativeEtwSettings {
        event_sets: [
            if process { Some(EtwEventSet::Process) } else { None },
            if file_io { Some(EtwEventSet::FileIo) } else { None },
        ],
        stacks_enabled: true,
    }
}

fn collector() -> NativeEtwCollector {
    let config = ProfileCollectorConfig::NativeEtw {
        scope: EtwProfileScope::TargetProcess,
        event_sets: vec![EtwEventSet::Process],
        stacks: EtwStackConfig { enabled: false },
    };
    NativeEtwCollectorFactory.create(&config, r"C:\out").expect("collector")
}

fn number(name: &str, value: u32) -> EtwProperty {
    EtwProperty {
        name: name.to_string(),
        bytes: value.to_le_bytes().to_vec(),
        encoding: StringEncoding::Unknown,
    }
}

fn words(text: &str) -> Vec<u8> {
    text.encode_utf16().chain(Some(0)).flat_map(|word| word.to_le_bytes()).collect()
}

fn record(provider: u128, opcode: u32, properties: Vec<EtwProperty>) -> EtwRecord {
    EtwRecord {
        provider,
        opcode,
        timestamp: 50,
        thread_id: 9,
        process_id: 4,
        properties,
        extended: Vec::new(),
        user_data: Vec::new(),
    }
}

#[test]
fn event_sets_bring_their_flags_and_stacks() {
    assert_eq!(enable_flags(&settings(true, false)), 0x7);
    assert_eq!(enable_flags(&settings(false, true)), 0x0600_0300);
    assert_eq!(enable_flags(&settings(true, true)), 0x0600_0307);
    assert_eq!(stack_events(&settings(true, false)).len(), 6);
    let file = stack_events(&settings(false, true));
    assert_eq!(file.len(), 16);
    assert_eq!((file[4].guid, file[4].event_type), (FILE_IO_GUID, FILE_IO_CREATE));
    assert!(file.iter().all(|event| event.event_type != FILE_IO_OP_END));
}

#[test]
fn statuses_mean_errors_or_warnings() {
    assert!(status_outcome("StartTraceW", 0).is_ok());
    assert_eq!(
        status_outcome("StartTraceW", 5).expect_err("denied").message(),
        "StartTraceW failed with Win32 error 5"
    );
    assert!(stop_outcome(0).expect("stopped").is_empty());
    assert_eq!(
        stop_outcome(234).expect("stopped"),
        ["ControlTraceW stop returned ERROR_MORE_DATA after stopping the ETW session"]
    );
    assert_eq!(
        stop_outcome(4201).expect_err("not found").message(),
        "ControlTraceW stop failed with Win32 error 4201"
    );
    let mut processor = EtwProcessor::new(1, settings(true, true));
    processor.note_close_status(0);
    assert!(processor.warnings.is_empty());
    processor.note_close_status(6);
    assert_eq!(processor.warnings, ["CloseTrace returned Win32 error 6"]);
}

#[test]
fn declared_types_give_encodings() {
    let mut buffer = vec![0u8; 4];
    buffer.extend(words("FileName"));
    let second = buffer.len() as u32;
    buffer.extend(words("ImageName"));
    let described = [
        PropertyInfo { is_struct: true, name_offset: second, in_type: 1 },
        PropertyInfo { is_struct: false, name_offset: 4, in_type: 1 },
        PropertyInfo { is_struct: false, name_offset: second, in_type: 2 },
    ];
    assert_eq!(trace_event_info_string(&buffer, 4).as_deref(), Some("FileName"));
    assert_eq!(trace_event_info_string(&buffer, 0), None);
    assert_eq!(trace_event_info_string(&buffer, 4000), None);
    assert_eq!(property_in_type(&buffer, &described, "FileName"), Some(1));
    assert_eq!(property_in_type(&buffer, &described, "ImageName"), Some(2));
    assert_eq!(property_in_type(&buffer, &described, "Other"), None);
    assert_eq!(property_string_encoding(Some(1)), StringEncoding::Unicode);
    assert_eq!(property_string_encoding(Some(301)), StringEncoding::Ansi);
    assert_eq!(property_string_encoding(Some(8)), StringEncoding::Unknown);
    assert_eq!(property_string_encoding(None), StringEncoding::Unknown);
}

#[test]
fn bytes_are_numbers_and_texts() {
    assert_eq!(bytes_to_u32(&[1, 2, 0, 0, 9]), Some(0x201));
    assert_eq!(bytes_to_u32(&[1, 2, 0]), None);
    assert_eq!(bytes_to_u64(&[1, 0, 0, 0]), Some(1));
    assert_eq!(bytes_to_u64(&[0, 0, 0, 0, 1, 0, 0, 0]), Some(1 << 32));
    assert_eq!(utf16_null_terminated_to_string(&words("äb")).as_deref(), Some("äb"));
    assert_eq!(utf16_null_terminated_to_string(&[0, 0]), None);
    assert_eq!(ansi_null_terminated_to_string(b"ab\0cd").as_deref(), Some("ab"));
    assert_eq!(ansi_null_terminated_to_string(b"\0"), None);
    assert!(looks_like_utf16le(&words("a")));
    assert!(!looks_like_utf16le(b"abcd"));
    assert!(!looks_like_utf16le(b"abc"));
}

#[test]
fn records_are_decoded_by_their_provider() {
    let mut warnings = Vec::new();
    let name = EtwProperty {
        name: "ImageFileName".to_string(),
        bytes: b"a.exe\0".to_vec(),
        encoding: StringEncoding::Ansi,
    };
    let started = record(
        PROCESS_GUID,
        EVENT_TRACE_TYPE_START,
        vec![number("ProcessId", 7), number("ParentId", 3), name],
    );
    let event = decode_lifecycle_event(&started, &mut warnings).expect("event");
    assert_eq!((event.event, event.pid, event.parent_pid), ("process_start", 7, Some(3)));
    assert_eq!(event.image_path.as_deref(), Some("a.exe"));
    assert!(warnings.is_empty());

    let anonymous = record(IMAGE_LOAD_GUID, EVENT_TRACE_TYPE_LOAD, Vec::new());
    assert!(decode_lifecycle_event(&anonymous, &mut warnings).is_none());
    assert_eq!(warnings.len(), 1);

    let mut opened = record(
        FILE_IO_GUID,
        FILE_IO_CREATE,
        vec![
            number("FileObject", 0x10),
            EtwProperty {
                name: "OpenPath".to_string(),
                bytes: words(r"C:\x"),
                encoding: StringEncoding::Unicode,
            },
        ],
    );
    opened.extended.push(ExtendedItem {
        ext_type: 6,
        data: [&0u64.to_le_bytes()[..], &0x77u64.to_le_bytes()[..]].concat(),
    });
    let event = decode_file_io_event(&opened).expect("event");
    assert_eq!((event.event, event.pid), ("create", 4));
    assert_eq!(event.path.as_deref(), Some(r"C:\x"));
    assert_eq!(event.path_source, Some("open_path"));
    assert_eq!(event.stack_addresses, [0x77]);
    assert_eq!(stack_addresses(&opened), [0x77]);
    assert!(decode_file_io_event(&started).is_none());
}

#[test]
fn stack_walks_come_from_properties_or_data() {
    let walk = record(
        STACK_WALK_GUID,
        32,
        vec![
            number("EventTimeStamp", 50),
            number("StackProcess", 7),
            number("StackThread", 8),
            number("Stack1", 0x1000),
            number("Stack2", 0x2000),
        ],
    );
    let stack = decode_stack_walk_event(&walk).expect("walk");
    assert_eq!((stack.event_timestamp, stack.stack_process, stack.stack_thread), (50, 7, 8));
    assert_eq!(stack.stack_addresses, [0x1000, 0x2000]);

    let mut raw = record(STACK_WALK_GUID, 32, Vec::new());
    raw.user_data = 60i64.to_le_bytes().to_vec();
    raw.user_data.extend(7u32.to_le_bytes());
    raw.user_data.extend(8u32.to_le_bytes());
    raw.user_data.extend(0x3000u32.to_le_bytes());
    let stack = decode_stack_walk_event(&raw).expect("walk");
    assert_eq!(stack.event_timestamp, 60);
    assert_eq!(stack.stack_addresses, [0x3000]);
    raw.opcode = 33;
    assert!(decode_stack_walk_event(&raw).is_none());
}

#[test]
fn raw_records_reach_the_events() {
    let mut processor = EtwProcessor::new(7, settings(true, true));
    processor.process_record(&record(
        PROCESS_GUID,
        EVENT_TRACE_TYPE_START,
        vec![number("ProcessId", 7)],
    ));
    processor.process_record(&record(
        PROCESS_GUID,
        EVENT_TRACE_TYPE_START,
        vec![number("ProcessId", 8)],
    ));
    processor.process_record(&record(FILE_IO_GUID, FILE_IO_CREATE, vec![number("ProcessId", 7)]));
    assert_eq!(processor.lifecycle_events.len(), 1);
    assert_eq!(processor.lifecycle_events[0].event, "process_start");
    assert_eq!(processor.file_io_events.len(), 1);
    assert_eq!(processor.file_io_events[0].event, "create");
}

#[test]
fn a_collector_starts_once() {
    let mut collector = collector();
    assert_eq!(collector.trace_path, r"C:\out\trace.etl");
    let name = collector.session_to_start(SessionId(1)).expect("name");
    assert_eq!(name, "dbgflow-profile-00000000-0000-0000-0000-000000000001");
    collector.session_started(name.clone());
    assert_eq!(
        collector.session_to_start(SessionId(2)).expect_err("started").message(),
        "native ETW collector already started"
    );
    assert_eq!(collector.session_to_clean(), Some(name));
    collector.session_cleaned(false);
    assert!(collector.session_to_clean().is_some());
    collector.session_cleaned(true);
    assert!(collector.session_to_clean().is_none());
}

#[test]
fn an_unstarted_collection_ends_with_a_warning() {
    let step = collector().begin_stop(Some(1));
    match step.phase {
        StopPhase::Done(Ok(stop)) => {
            assert!(stop.artifacts.is_empty());
            assert_eq!(stop.warnings, ["native ETW collector was not started"]);
        }
        other => panic!("unexpected {other:?}"),
    }
}

#[test]
fn a_failed_stop_leaves_the_session_running() {
    let mut collector = collector();
    collector.session_started("s".to_string());
    let step = collector.begin_stop(Some(1));
    let failed = Err(DbgFlowError::Backend("no".to_string()));
    let step = collector.answer(step.phase, StopAnswer::TraceStopped(failed));
    assert!(matches!(step.phase, StopPhase::Done(Err(_))));
    assert!(collector.session_to_clean().is_some());
}

#[test]
fn a_stopped_collection_reports_its_files() {
    let mut collector = collector();
    collector.session_started("s".to_string());
    collector.target_started(7);
    let step = collector.begin_stop(Some(1));
    assert!(matches!(&step.ask, StopAsk::StopTrace(name) if name == "s"));
    let stopped = StopAnswer::TraceStopped(Ok(vec!["lost".to_string()]));
    let step = collector.answer(step.phase, stopped);
    assert!(matches!(step.ask, StopAsk::PostProcess(7)));
    assert!(collector.session_to_clean().is_none());
    let failed = Err(DbgFlowError::Backend("torn".to_string()));
    let step = collector.answer(step.phase, StopAnswer::PostProcessed(failed));
    match &step.ask {
        StopAsk::EmptyFiles(files) => assert_eq!(files, &[r"C:\out\process.jsonl"]),
        other => panic!("unexpected {other:?}"),
    }
    let step = collector.answer(step.phase, StopAnswer::FilesEmptied(Ok(())));
    match &step.ask {
        StopAsk::WriteSummary(summary) => {
            assert_eq!(summary.target_pid, Some(7));
            assert_eq!(summary.warnings.len(), 2);
        }
        other => panic!("unexpected {other:?}"),
    }
    let failed = Err(DbgFlowError::Artifact("full".to_string()));
    let step = collector.answer(step.phase, StopAnswer::SummaryWritten(failed));
    match step.phase {
        StopPhase::Done(Ok(stop)) => {
            let kinds: Vec<ArtifactKind> =
                stop.artifacts.iter().map(|artifact| artifact.kind).collect();
            assert_eq!(
                kinds,
                [
                    ArtifactKind::ProfileCollectorTrace,
                    ArtifactKind::ProfileCollectorEvents,
                    ArtifactKind::ProfileCollectorSummary,
                ]
            );
            assert_eq!(stop.warnings[0], "lost");
            assert!(stop.warnings[1].starts_with("native ETW post-processing failed: "));
            assert!(stop.warnings[2].starts_with("native ETW summary write failed: "));
        }
        other => panic!("unexpected {other:?}"),
    }
}
