//! Log files.

use dbgflow::logging::{civil_from_days, is_managed_log_file, log_file_name, FileLogSink};

#[test]
fn log_file_name_uses_iso_date() {
    assert_eq!(log_file_name(0), "dbgflow-1970-01-01.jsonl");
    assert_eq!(log_file_name(1_780_560_000_000), "dbgflow-2026-06-04.jsonl");
}

#[test]
fn days_have_dates() {
    assert_eq!(civil_from_days(-1), (1969, 12, 31));
    assert_eq!(civil_from_days(11_016), (2000, 2, 29));
    assert_eq!(civil_from_days(11_017), (2000, 3, 1));
    assert_eq!(civil_from_days(47_540), (2100, 2, 28));
    assert_eq!(civil_from_days(47_541), (2100, 3, 1));
    assert_eq!(civil_from_days(-719_468), (0, 3, 1));
}

#[test]
fn only_log_files_are_managed() {
    assert!(is_managed_log_file(r"C:\logs\dbgflow-2000-01-01.jsonl"));
    assert!(is_managed_log_file(r"C:\logs\service.log"));
    assert!(!is_managed_log_file(r"C:\logs\keep.txt"));
    assert!(!is_managed_log_file(r"C:\logs\dbgflow-2000-01-01.txt"));
}

#[test]
fn retention_removes_only_managed_old_logs() {
    let sink = FileLogSink::new(r"C:\logs", 0);
    let now = 1_780_560_000_000;
    assert!(sink.is_expired(r"C:\logs\dbgflow-2000-01-01.jsonl", now - 1, now));
    assert!(!sink.is_expired(r"C:\logs\keep.txt", now - 1, now));
}

#[test]
fn retention_is_counted_in_days() {
    let sink = FileLogSink::new(r"C:\logs", 7);
    let now: u64 = 1_780_560_000_000;
    let week = 7 * 24 * 60 * 60 * 1000;
    let log = r"C:\logs\service.log";
    assert!(!sink.is_expired(log, now - week, now));
    assert!(sink.is_expired(log, now - week - 1, now));
    assert!(!FileLogSink::new(r"C:\logs", u64::MAX).is_expired(log, 0, now));
    assert_eq!(sink.file_for(0), r"C:\logs\dbgflow-1970-01-01.jsonl");
}
