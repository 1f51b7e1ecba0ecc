//! Correlation of trace events, decoding of raw data and resolution of stacks.

use dbgflow::etw::collector::NativeEtwCollector;
use dbgflow::etw::decode::{
    bytes_to_string, decode_stack_walk_user_data, DecodedFileIoEvent, DecodedLifecycleEvent,
    DecodedStackWalkEvent, StringEncoding,
};
use dbgflow::etw::processor::EtwProcessor;
use dbgflow::etw::settings::{
    native_etw_settings, EtwEventSet, EtwProfileScope, EtwStackConfig, NativeEtwSettings,
    ProfileCollectorConfig,
};
use dbgflow::etw::stack::{event_matches_target, resolve_stack_addresses, ModuleInterval};

fn test_settings() -> NativeEtwSettings {
    NativeEtwSettings {
        event_sets: [Some(EtwEventSet::Process), Some(EtwEventSet::FileIo)],
        stacks_enabled: true,
    }
}

#[test]
fn stack_walk_after_lifecycle_event_attaches_by_timestamp_and_thread() {
    let mut processor = EtwProcessor::new(42, test_settings());
    processor.process_lifecycle_event(DecodedLifecycleEvent {
        event_timestamp: 100,
        event_thread_id: 7,
        event: "image_load",
        pid: 42,
        tid: None,
        parent_pid: None,
        image_path: Some("target.dll".to_string()),
        image_base: Some(0x1000),
        image_size: Some(0x1000),
        stack_addresses: Vec::new(),
    });
    processor.process_stack_walk_event(DecodedStackWalkEvent {
        event_timestamp: 100,
        stack_process: 42,
        stack_thread: 7,
        stack_addresses: vec![0x1010, 0x5000],
    });

    processor.finalize_stacks(true);

    assert_eq!(processor.lifecycle_events[0].event_set, "process");
    assert_eq!(processor.lifecycle_events[0].stack.len(), 2);
    assert_eq!(
        processor.lifecycle_events[0].stack[0].as_str(),
        "0x0000000000005000"
    );
    assert_eq!(
        processor.lifecycle_events[0].stack[1].as_str(),
        "target.dll+0x10"
    );
    assert_eq!(processor.lifecycle_stack_stats.total, 2);
    assert_eq!(processor.lifecycle_stack_stats.resolved, 1);
    assert_eq!(processor.lifecycle_stack_stats.unresolved, 1);
}

#[test]
fn process_summary_and_artifact_use_new_event_set_name() {
    let mut processor = EtwProcessor::new(42, test_settings());
    processor.process_lifecycle_event(DecodedLifecycleEvent {
        event_timestamp: 100,
        event_thread_id: 7,
        event: "process_start",
        pid: 42,
        tid: None,
        parent_pid: Some(1),
        image_path: Some("target.exe".to_string()),
        image_base: None,
        image_size: None,
        stack_addresses: Vec::new(),
    });

    let summary = processor.finish();

    assert!(summary.event_set("process").is_some());
    assert_eq!(
        summary.event_set("process").expect("process").event_counts.get("process_start"),
        Some(1)
    );

    let collector = NativeEtwCollector {
        trace_path: r"C:\trace.etl".to_string(),
        process_path: r"C:\process.jsonl".to_string(),
        file_io_path: r"C:\file_io.jsonl".to_string(),
        summary_path: r"C:\summary.json".to_string(),
        settings: test_settings(),
        session_name: None,
        target_pid: None,
    };
    let artifacts = collector.collector_artifacts();

    assert!(artifacts
        .iter()
        .any(|artifact| artifact.path.ends_with("process.jsonl")));
    assert!(!artifacts
        .iter()
        .any(|artifact| artifact.path.ends_with("process_lifecycle.jsonl")));
}

#[test]
fn stack_walk_before_lifecycle_event_is_attached_when_event_arrives() {
    let mut processor = EtwProcessor::new(42, test_settings());
    processor.modules.push(ModuleInterval {
        base: 0x2000,
        size: 0x1000,
        name: "later.dll".to_string(),
        loaded_at: 100,
        unloaded_at: None,
    });
    processor.process_stack_walk_event(DecodedStackWalkEvent {
        event_timestamp: 200,
        stack_process: 42,
        stack_thread: 9,
        stack_addresses: vec![0x2020],
    });
    processor.process_lifecycle_event(DecodedLifecycleEvent {
        event_timestamp: 200,
        event_thread_id: 9,
        event: "thread_start",
        pid: 42,
        tid: Some(123),
        parent_pid: None,
        image_path: None,
        image_base: None,
        image_size: None,
        stack_addresses: Vec::new(),
    });

    processor.finalize_stacks(true);

    assert_eq!(
        processor.lifecycle_events[0].stack[0].as_str(),
        "later.dll+0x20"
    );
    assert_eq!(processor.matched_stack_walk_events, 1);
}

#[test]
fn non_target_stack_walk_without_lifecycle_match_is_not_cached() {
    let mut processor = EtwProcessor::new(42, test_settings());

    processor.process_stack_walk_event(DecodedStackWalkEvent {
        event_timestamp: 300,
        stack_process: 7,
        stack_thread: 9,
        stack_addresses: vec![0x2020],
    });

    assert!(processor.pending_stacks_by_timestamp.is_empty());
    assert_eq!(processor.dropped_pending_stack_walk_events, 1);
}

#[test]
fn file_io_event_resolves_path_from_prior_name_event() {
    let mut processor = EtwProcessor::new(42, test_settings());
    processor.process_file_io_event(DecodedFileIoEvent {
        event_timestamp: 10,
        event_thread_id: 7,
        event: "file_name",
        pid: 42,
        ttid: None,
        path: Some(r"\Device\HarddiskVolume1\data.txt".to_string()),
        path_source: Some("file_name"),
        file_object: Some(0x1000),
        file_key: None,
        irp_ptr: None,
        offset: None,
        io_size: None,
        io_flags: None,
        create_options: None,
        file_attributes: None,
        share_access: None,
        info_class: None,
        extra_info: None,
        nt_status: None,
        stack_addresses: Vec::new(),
    });

    processor.process_file_io_event(DecodedFileIoEvent {
        event_timestamp: 20,
        event_thread_id: 8,
        event: "read",
        pid: 42,
        ttid: Some(8),
        path: None,
        path_source: None,
        file_object: Some(0x1000),
        file_key: None,
        irp_ptr: Some(0x2000),
        offset: Some(0),
        io_size: Some(128),
        io_flags: Some(0),
        create_options: None,
        file_attributes: None,
        share_access: None,
        info_class: None,
        extra_info: None,
        nt_status: None,
        stack_addresses: Vec::new(),
    });

    assert_eq!(processor.file_io_events.len(), 2);
    assert_eq!(
        processor.file_io_events[1].path.as_deref(),
        Some(r"\Device\HarddiskVolume1\data.txt")
    );
    assert_eq!(
        processor.file_io_events[1].path_source,
        Some("file_object_cache")
    );
    assert_eq!(processor.file_path_resolved, 2);
    assert_eq!(processor.file_path_unresolved, 0);
}

#[test]
fn file_io_path_cache_ignores_non_target_name_events() {
    let mut processor = EtwProcessor::new(42, test_settings());
    processor.process_file_io_event(DecodedFileIoEvent {
        event_timestamp: 10,
        event_thread_id: 7,
        event: "file_name",
        pid: 7,
        ttid: None,
        path: Some(r"\Device\HarddiskVolume1\other-process.txt".to_string()),
        path_source: Some("file_name"),
        file_object: Some(0x1000),
        file_key: None,
        irp_ptr: None,
        offset: None,
        io_size: None,
        io_flags: None,
        create_options: None,
        file_attributes: None,
        share_access: None,
        info_class: None,
        extra_info: None,
        nt_status: None,
        stack_addresses: Vec::new(),
    });

    processor.process_file_io_event(DecodedFileIoEvent {
        event_timestamp: 20,
        event_thread_id: 8,
        event: "read",
        pid: 42,
        ttid: Some(8),
        path: None,
        path_source: None,
        file_object: Some(0x1000),
        file_key: None,
        irp_ptr: Some(0x2000),
        offset: Some(0),
        io_size: Some(128),
        io_flags: Some(0),
        create_options: None,
        file_attributes: None,
        share_access: None,
        info_class: None,
        extra_info: None,
        nt_status: None,
        stack_addresses: Vec::new(),
    });

    assert_eq!(processor.file_io_events.len(), 1);
    assert_eq!(processor.file_io_events[0].path, None);
    assert_eq!(processor.file_path_unresolved, 1);
}

#[test]
fn file_io_close_is_ignored_and_removes_path_cache() {
    let mut processor = EtwProcessor::new(42, test_settings());
    processor.process_file_io_event(DecodedFileIoEvent {
        event_timestamp: 10,
        event_thread_id: 7,
        event: "file_name",
        pid: 42,
        ttid: None,
        path: Some(r"\Device\HarddiskVolume1\data.txt".to_string()),
        path_source: Some("file_name"),
        file_object: Some(0x1000),
        file_key: None,
        irp_ptr: None,
        offset: None,
        io_size: None,
        io_flags: None,
        create_options: None,
        file_attributes: None,
        share_access: None,
        info_class: None,
        extra_info: None,
        nt_status: None,
        stack_addresses: Vec::new(),
    });
    assert_eq!(processor.file_io_events.len(), 1);
    processor.process_file_io_event(DecodedFileIoEvent {
        event_timestamp: 20,
        event_thread_id: 7,
        event: "close",
        pid: 42,
        ttid: None,
        path: None,
        path_source: None,
        file_object: Some(0x1000),
        file_key: None,
        irp_ptr: Some(0x2000),
        offset: None,
        io_size: None,
        io_flags: None,
        create_options: None,
        file_attributes: None,
        share_access: None,
        info_class: None,
        extra_info: None,
        nt_status: None,
        stack_addresses: Vec::new(),
    });
    processor.process_file_io_event(DecodedFileIoEvent {
        event_timestamp: 25,
        event_thread_id: 7,
        event: "op_end",
        pid: 42,
        ttid: None,
        path: None,
        path_source: None,
        file_object: None,
        file_key: None,
        irp_ptr: Some(0x2000),
        offset: None,
        io_size: None,
        io_flags: None,
        create_options: None,
        file_attributes: None,
        share_access: None,
        info_class: None,
        extra_info: Some(0),
        nt_status: Some(0),
        stack_addresses: Vec::new(),
    });

    processor.process_file_io_event(DecodedFileIoEvent {
        event_timestamp: 30,
        event_thread_id: 8,
        event: "read",
        pid: 42,
        ttid: Some(8),
        path: None,
        path_source: None,
        file_object: Some(0x1000),
        file_key: None,
        irp_ptr: Some(0x3000),
        offset: Some(0),
        io_size: Some(128),
        io_flags: Some(0),
        create_options: None,
        file_attributes: None,
        share_access: None,
        info_class: None,
        extra_info: None,
        nt_status: None,
        stack_addresses: Vec::new(),
    });

    assert_eq!(processor.file_io_events.len(), 2);
    assert_eq!(processor.file_io_events[1].event, "read");
    assert_eq!(processor.file_io_events[1].path, None);
    assert_eq!(processor.unmatched_op_end_count, 0);
    assert!(!processor.file_io_event_counts.contains_key("close"));
}

#[test]
fn file_io_event_keeps_unresolved_pointer_when_path_is_unknown() {
    let mut processor = EtwProcessor::new(42, test_settings());

    processor.process_file_io_event(DecodedFileIoEvent {
        event_timestamp: 20,
        event_thread_id: 8,
        event: "write",
        pid: 42,
        ttid: Some(8),
        path: None,
        path_source: None,
        file_object: Some(0x1000),
        file_key: Some(0x3000),
        irp_ptr: Some(0x2000),
        offset: Some(64),
        io_size: Some(256),
        io_flags: Some(1),
        create_options: None,
        file_attributes: None,
        share_access: None,
        info_class: None,
        extra_info: None,
        nt_status: None,
        stack_addresses: Vec::new(),
    });

    assert_eq!(processor.file_io_events[0].path, None);
    assert_eq!(
        processor.file_io_events[0].file_object.as_deref(),
        Some("0x0000000000001000")
    );
    assert_eq!(processor.file_path_resolved, 0);
    assert_eq!(processor.file_path_unresolved, 1);
}

#[test]
fn file_io_op_end_enriches_begin_event_without_path_resolution_pressure() {
    let mut processor = EtwProcessor::new(42, test_settings());
    processor.process_file_io_event(DecodedFileIoEvent {
        event_timestamp: 10,
        event_thread_id: 8,
        event: "read",
        pid: 42,
        ttid: Some(8),
        path: None,
        path_source: None,
        file_object: Some(0x1000),
        file_key: None,
        irp_ptr: Some(0x2000),
        offset: Some(0),
        io_size: Some(128),
        io_flags: None,
        create_options: None,
        file_attributes: None,
        share_access: None,
        info_class: None,
        extra_info: None,
        nt_status: None,
        stack_addresses: Vec::new(),
    });

    processor.process_file_io_event(DecodedFileIoEvent {
        event_timestamp: 20,
        event_thread_id: 8,
        event: "op_end",
        pid: 4,
        ttid: None,
        path: None,
        path_source: None,
        file_object: None,
        file_key: None,
        irp_ptr: Some(0x2000),
        offset: None,
        io_size: None,
        io_flags: None,
        create_options: None,
        file_attributes: None,
        share_access: None,
        info_class: None,
        extra_info: Some(128),
        nt_status: Some(0),
        stack_addresses: Vec::new(),
    });

    assert_eq!(processor.file_io_events.len(), 1);
    assert_eq!(processor.file_io_events[0].event, "read");
    assert_eq!(
        processor.file_io_events[0].extra_info.as_deref(),
        Some("0x0000000000000080")
    );
    assert_eq!(
        processor.file_io_events[0].nt_status.as_deref(),
        Some("0x00000000")
    );
    assert_eq!(processor.file_io_events[0].completion_pid, Some(4));
    assert_eq!(processor.file_io_events[0].completion_tid, Some(8));
    assert_eq!(processor.file_io_events[0].completion_sequence, Some(2));
    assert_eq!(processor.matched_op_end_count, 1);
    assert_eq!(processor.unmatched_op_end_count, 0);
    assert!(processor.pending_file_irps.is_empty());
    assert_eq!(processor.file_path_unresolved, 1);
    assert!(!processor.file_io_event_counts.contains_key("op_end"));
}

#[test]
fn file_io_unmatched_op_end_is_counted_without_output() {
    let mut processor = EtwProcessor::new(42, test_settings());

    processor.process_file_io_event(DecodedFileIoEvent {
        event_timestamp: 20,
        event_thread_id: 8,
        event: "op_end",
        pid: 42,
        ttid: None,
        path: None,
        path_source: None,
        file_object: None,
        file_key: None,
        irp_ptr: Some(0x2000),
        offset: None,
        io_size: None,
        io_flags: None,
        create_options: None,
        file_attributes: None,
        share_access: None,
        info_class: None,
        extra_info: Some(128),
        nt_status: Some(0),
        stack_addresses: Vec::new(),
    });

    let summary = processor.finish();

    assert_eq!(
        summary.event_set("file_io").expect("file_io").unmatched_op_end_count,
        Some(1)
    );
    assert_eq!(summary.event_set("file_io").expect("file_io").matched_op_end_count, Some(0));
    assert!(summary
        .warnings
        .iter()
        .any(|warning| warning.contains("without a matching begin event")));
}

#[test]
fn file_io_begin_without_completion_is_counted() {
    let mut processor = EtwProcessor::new(42, test_settings());

    processor.process_file_io_event(DecodedFileIoEvent {
        event_timestamp: 20,
        event_thread_id: 8,
        event: "write",
        pid: 42,
        ttid: Some(8),
        path: Some(r"C:\data.txt".to_string()),
        path_source: Some("open_path"),
        file_object: Some(0x1000),
        file_key: None,
        irp_ptr: Some(0x2000),
        offset: Some(0),
        io_size: Some(128),
        io_flags: None,
        create_options: None,
        file_attributes: None,
        share_access: None,
        info_class: None,
        extra_info: None,
        nt_status: None,
        stack_addresses: Vec::new(),
    });

    let summary = processor.finish();

    assert_eq!(summary.event_set("file_io").expect("file_io").incomplete_io_count, Some(1));
    assert!(summary
        .warnings
        .iter()
        .any(|warning| warning.contains("without a matching OpEnd")));
}

#[test]
fn file_io_reused_irp_warns_and_matches_latest_begin() {
    let mut processor = EtwProcessor::new(42, test_settings());
    processor.process_file_io_event(DecodedFileIoEvent {
        event_timestamp: 10,
        event_thread_id: 7,
        event: "read",
        pid: 42,
        ttid: Some(7),
        path: Some(r"C:\old.txt".to_string()),
        path_source: Some("open_path"),
        file_object: Some(0x1000),
        file_key: None,
        irp_ptr: Some(0x2000),
        offset: Some(0),
        io_size: Some(64),
        io_flags: None,
        create_options: None,
        file_attributes: None,
        share_access: None,
        info_class: None,
        extra_info: None,
        nt_status: None,
        stack_addresses: Vec::new(),
    });
    processor.process_file_io_event(DecodedFileIoEvent {
        event_timestamp: 20,
        event_thread_id: 8,
        event: "write",
        pid: 42,
        ttid: Some(8),
        path: Some(r"C:\new.txt".to_string()),
        path_source: Some("open_path"),
        file_object: Some(0x1000),
        file_key: None,
        irp_ptr: Some(0x2000),
        offset: Some(0),
        io_size: Some(128),
        io_flags: None,
        create_options: None,
        file_attributes: None,
        share_access: None,
        info_class: None,
        extra_info: None,
        nt_status: None,
        stack_addresses: Vec::new(),
    });
    processor.process_file_io_event(DecodedFileIoEvent {
        event_timestamp: 30,
        event_thread_id: 9,
        event: "op_end",
        pid: 4,
        ttid: None,
        path: None,
        path_source: None,
        file_object: None,
        file_key: None,
        irp_ptr: Some(0x2000),
        offset: None,
        io_size: None,
        io_flags: None,
        create_options: None,
        file_attributes: None,
        share_access: None,
        info_class: None,
        extra_info: Some(128),
        nt_status: Some(0),
        stack_addresses: Vec::new(),
    });

    assert_eq!(processor.file_io_events.len(), 2);
    assert_eq!(processor.file_io_events[0].completion_sequence, None);
    assert_eq!(processor.file_io_events[1].completion_sequence, Some(3));

    let summary = processor.finish();

    assert_eq!(
        summary.event_set("file_io").expect("file_io").reused_irp_without_op_end_count,
        Some(1)
    );
    assert_eq!(summary.event_set("file_io").expect("file_io").matched_op_end_count, Some(1));
    assert_eq!(summary.event_set("file_io").expect("file_io").incomplete_io_count, Some(1));
    assert!(summary
        .warnings
        .iter()
        .any(|warning| warning.contains("reused IrpPtr")));
}

#[test]
fn summary_reports_counts_by_event_set() {
    let mut processor = EtwProcessor::new(42, test_settings());
    processor.process_file_io_event(DecodedFileIoEvent {
        event_timestamp: 20,
        event_thread_id: 8,
        event: "read",
        pid: 42,
        ttid: Some(8),
        path: Some(r"C:\data.txt".to_string()),
        path_source: Some("open_path"),
        file_object: Some(0x1000),
        file_key: None,
        irp_ptr: Some(0x2000),
        offset: Some(0),
        io_size: Some(128),
        io_flags: None,
        create_options: None,
        file_attributes: None,
        share_access: None,
        info_class: None,
        extra_info: None,
        nt_status: None,
        stack_addresses: vec![0x5000],
    });
    processor.finalize_stacks(true);

    let summary = processor.finish();

    assert_eq!(summary.event_set("file_io").expect("file_io").event_counts.get("read"),
        Some(1)
    );
    assert_eq!(summary.event_set("file_io").expect("file_io").file_path_resolved, Some(1));
    assert_eq!(summary.event_set("file_io").expect("file_io").stack_frames_total, 1);
}

#[test]
fn summary_warns_when_file_paths_are_unresolved() {
    let mut processor = EtwProcessor::new(42, test_settings());
    processor.process_file_io_event(DecodedFileIoEvent {
        event_timestamp: 20,
        event_thread_id: 8,
        event: "write",
        pid: 42,
        ttid: Some(8),
        path: None,
        path_source: None,
        file_object: Some(0x1000),
        file_key: None,
        irp_ptr: Some(0x2000),
        offset: Some(0),
        io_size: Some(128),
        io_flags: None,
        create_options: None,
        file_attributes: None,
        share_access: None,
        info_class: None,
        extra_info: None,
        nt_status: None,
        stack_addresses: Vec::new(),
    });

    let summary = processor.finish();

    assert!(summary
        .warnings
        .iter()
        .any(|warning| warning.contains("without a resolved path")));
}

#[test]
fn decodes_stack_walk_user_data_as_64_bit_frames() {
    let mut bytes = Vec::new();
    bytes.extend_from_slice(&123_i64.to_ne_bytes());
    bytes.extend_from_slice(&42_u32.to_ne_bytes());
    bytes.extend_from_slice(&7_u32.to_ne_bytes());
    bytes.extend_from_slice(&0x1000_u64.to_ne_bytes());
    bytes.extend_from_slice(&0x2000_u64.to_ne_bytes());

    let stack = decode_stack_walk_user_data(&bytes).expect("decode stack walk data");

    assert_eq!(stack.event_timestamp, 123);
    assert_eq!(stack.stack_process, 42);
    assert_eq!(stack.stack_thread, 7);
    assert_eq!(stack.stack_addresses, vec![0x1000, 0x2000]);
}

#[test]
fn decodes_ansi_process_image_name_without_utf16_misdetect() {
    let text = bytes_to_string(b"cmd.exe\0".to_vec(), StringEncoding::Unknown)
        .expect("decode ansi string");

    assert_eq!(text, "cmd.exe");
}

#[test]
fn decodes_utf16le_image_path() {
    let mut bytes = "cmd.exe"
        .encode_utf16()
        .flat_map(|word| word.to_ne_bytes())
        .collect::<Vec<_>>();
    bytes.extend_from_slice(&0_u16.to_ne_bytes());

    let text =
        bytes_to_string(bytes, StringEncoding::Unknown).expect("decode utf16 string");

    assert_eq!(text, "cmd.exe");
}

#[test]
fn decodes_non_ascii_utf16le_image_path_without_ascii_heuristic() {
    let mut bytes = "模块.dll"
        .encode_utf16()
        .flat_map(|word| word.to_ne_bytes())
        .collect::<Vec<_>>();
    bytes.extend_from_slice(&0_u16.to_ne_bytes());

    let text =
        bytes_to_string(bytes, StringEncoding::Unicode).expect("decode unicode string");

    assert_eq!(text, "模块.dll");
}

#[test]
fn resolves_stack_frame_to_compact_stack_string() {
    let modules = vec![ModuleInterval {
        base: 0x1000,
        size: 0x200,
        name: "app.exe".to_string(),
        loaded_at: 10,
        unloaded_at: None,
    }];

    let frames = resolve_stack_addresses(&[0x1010], &modules, 10);

    assert_eq!(frames[0].value, "app.exe+0x10");
    assert!(frames[0].resolved);
}

#[test]
fn leaves_unknown_stack_frame_unresolved() {
    let frames = resolve_stack_addresses(&[0x5000], &[], 10);

    assert_eq!(frames[0].value, "0x0000000000005000");
    assert!(!frames[0].resolved);
}

#[test]
fn resolves_stack_frame_using_module_active_at_event_timestamp() {
    let modules = vec![
        ModuleInterval {
            base: 0x1000,
            size: 0x200,
            name: "old.dll".to_string(),
            loaded_at: 10,
            unloaded_at: Some(20),
        },
        ModuleInterval {
            base: 0x1000,
            size: 0x200,
            name: "new.dll".to_string(),
            loaded_at: 30,
            unloaded_at: None,
        },
    ];

    let old_frame = resolve_stack_addresses(&[0x1010], &modules, 15);
    let gap_frame = resolve_stack_addresses(&[0x1010], &modules, 25);
    let new_frame = resolve_stack_addresses(&[0x1010], &modules, 35);

    assert_eq!(old_frame[0].value, "old.dll+0x10");
    assert!(old_frame[0].resolved);
    assert_eq!(gap_frame[0].value, "0x0000000000001010");
    assert!(!gap_frame[0].resolved);
    assert_eq!(new_frame[0].value, "new.dll+0x10");
    assert!(new_frame[0].resolved);
}

#[test]
fn filters_lifecycle_events_to_target_pid() {
    assert!(event_matches_target(1234, 1234));
    assert!(!event_matches_target(4321, 1234));
}

#[test]
fn native_etw_settings_rejects_empty_event_sets() {
    let error = native_etw_settings(&ProfileCollectorConfig::NativeEtw {
        scope: EtwProfileScope::TargetProcess,
        event_sets: Vec::new(),
        stacks: EtwStackConfig::default(),
    })
    .expect_err("empty event sets are rejected");

    assert!(error.message().contains("at least one event set"));
}

#[test]
fn native_etw_settings_rejects_duplicate_event_sets() {
    let error = native_etw_settings(&ProfileCollectorConfig::NativeEtw {
        scope: EtwProfileScope::TargetProcess,
        event_sets: vec![EtwEventSet::FileIo, EtwEventSet::FileIo],
        stacks: EtwStackConfig::default(),
    })
    .expect_err("duplicate event sets are rejected");

    assert!(error.message().contains("duplicate native ETW event set"));
}

fn file_event(timestamp: i64, event: &'static str, irp_ptr: Option<u64>) -> DecodedFileIoEvent {
    DecodedFileIoEvent {
        event_timestamp: timestamp,
        event_thread_id: 7,
        event,
        pid: 42,
        ttid: None,
        path: None,
        path_source: None,
        file_object: None,
        file_key: None,
        irp_ptr,
        offset: None,
        io_size: None,
        io_flags: None,
        create_options: None,
        file_attributes: None,
        share_access: None,
        info_class: None,
        extra_info: None,
        nt_status: None,
        stack_addresses: Vec::new(),
    }
}

#[test]
fn every_request_is_accounted_for() {
    let mut processor = EtwProcessor::new(42, test_settings());
    processor.process_file_io_event(file_event(1, "read", Some(1)));
    processor.process_file_io_event(file_event(2, "op_end", Some(1)));
    processor.process_file_io_event(file_event(3, "op_end", Some(1)));
    processor.process_file_io_event(file_event(4, "write", Some(2)));
    processor.process_file_io_event(file_event(5, "write", Some(2)));
    processor.process_file_io_event(file_event(6, "close", Some(2)));
    processor.process_file_io_event(file_event(7, "op_end", Some(2)));
    processor.process_file_io_event(file_event(8, "flush", Some(3)));
    processor.process_file_io_event(file_event(9, "flush", None));

    let begun = processor.file_io_events.iter().filter(|event| event.irp_ptr.is_some()).count();
    let completed =
        processor.file_io_events.iter().filter(|event| event.completion_sequence.is_some()).count();
    assert_eq!(begun, 4);
    assert_eq!(processor.matched_op_end_count, 1);
    assert_eq!(processor.unmatched_op_end_count, 1);
    assert_eq!(processor.reused_irp_without_op_end_count, 2);
    assert_eq!(processor.pending_file_irps.len(), 1);
    assert_eq!(completed, 1);
    assert_eq!(processor.file_io_events.len(), 5);
    for (index, event) in processor.file_io_events.iter().enumerate() {
        assert_eq!(event.sequence, index as u64 + 1);
        assert_eq!(event.event_set, "file_io");
        assert!(event.event != "op_end" && event.event != "close");
    }
}

#[test]
fn every_walk_is_accounted_for() {
    let walk = |timestamp: i64, process: u32| DecodedStackWalkEvent {
        event_timestamp: timestamp,
        stack_process: process,
        stack_thread: 7,
        stack_addresses: vec![0x10],
    };
    let mut processor = EtwProcessor::new(42, test_settings());
    processor.process_stack_walk_event(walk(1, 42));
    processor.process_stack_walk_event(walk(2, 42));
    processor.process_stack_walk_event(walk(2, 42));
    processor.process_stack_walk_event(walk(2, 9));
    processor.process_stack_walk_event(walk(5, 42));
    processor.process_file_io_event(file_event(2, "read", None));

    assert_eq!(processor.stack_walk_events, 5);
    assert_eq!(processor.matched_stack_walk_events, 2);
    assert_eq!(processor.dropped_pending_stack_walk_events, 2);
    assert_eq!(processor.pending_stacks_by_timestamp.len(), 1);
    assert_eq!(processor.pending_stacks_by_timestamp[&5][0].event_timestamp, 5);
}
