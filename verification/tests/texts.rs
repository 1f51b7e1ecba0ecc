//! Scanning and writing of texts.

use dbgflow::bytes::{as_signed64, le_u32_at, le_u64_at};
use dbgflow::runtime::options::{service_install_help_text, service_uninstall_help_text};
use dbgflow::runtime::service::read_installed_command;
use dbgflow::scan::{
    before_char, contains_text, cut_line_end, ends_with, is_blank, lines_of, lower_text, parse_text,
    same_fold, split_once_at, starts_with, trim_text, words_of,
};
use dbgflow::text::{
    bytes_of, decimal_padded_text, hex_padded_text, join_texts, signed_decimal_text,
};
use dbgflow::validation::{contains_control, contains_line_break, has_parent_component};

#[test]
fn texts_are_scanned() {
    assert_eq!(trim_text(" \t a b\u{a0}\n"), "a b");
    assert!(is_blank("\u{2003} \r"));
    assert!(!is_blank("x"));
    assert!(starts_with("abc", "ab") && !starts_with("a", "ab"));
    assert!(ends_with("abc", "bc") && !ends_with("c", "bc"));
    assert!(contains_text("abc", "b") && contains_text("abc", "") && !contains_text("abc", "ac"));
    assert_eq!(lower_text("AbÄ"), "abÄ");
    assert!(same_fold("AbC", "aBc") && !same_fold("Ä", "ä"));
    assert_eq!(lines_of("a\r\nb\n\nc"), ["a", "b", "", "c"]);
    assert_eq!(lines_of("a\n"), ["a"]);
    assert_eq!(words_of("  a \t bc\n"), ["a", "bc"]);
    assert_eq!(cut_line_end("a\r\n"), "a");
    assert_eq!(
        split_once_at("k=v=w", '='),
        Some(("k".to_string(), "v=w".to_string()))
    );
    assert_eq!(split_once_at("k", '='), None);
    assert_eq!(before_char("a?b?c", '?'), "a");
    assert_eq!(before_char("abc", '?'), "abc");
}

#[test]
fn numbers_are_read_within_their_limit() {
    assert_eq!(parse_text("65535", 10, 65535), Some(65535));
    assert_eq!(parse_text("65536", 10, 65535), None);
    assert_eq!(parse_text("+7", 10, 100), Some(7));
    assert_eq!(parse_text("", 10, 100), None);
    assert_eq!(parse_text("+", 10, 100), None);
    assert_eq!(parse_text("fF", 16, u64::MAX), Some(255));
    assert_eq!(parse_text("fg", 16, u64::MAX), None);
    assert_eq!(le_u32_at(&[9, 1, 0, 0, 0x80], 1), 0x8000_0001);
    assert_eq!(le_u64_at(&[0, 0, 0, 0, 0, 0, 0, 0x80], 0), 1 << 63);
    assert_eq!(as_signed64(u64::MAX), -1);
    assert_eq!(as_signed64(1 << 63), i64::MIN);
}

#[test]
fn numbers_are_filled_up() {
    assert_eq!(signed_decimal_text(i64::MIN), "-9223372036854775808");
    assert_eq!(hex_padded_text(0xab, 4), "00ab");
    assert_eq!(hex_padded_text(0xabcde, 4), "abcde");
    assert_eq!(decimal_padded_text(7, 2), "07");
    assert_eq!(join_texts(&["a".to_string(), "b".to_string()], ", "), "a, b");
    assert_eq!(bytes_of("aü"), "aü".as_bytes());
}

#[test]
fn unwanted_characters_are_found() {
    assert!(contains_control("a\u{7f}") && contains_control("\u{85}") && !contains_control("ä"));
    assert!(contains_line_break("a\rb") && !contains_line_break("ab"));
    assert!(has_parent_component(r"a\..\b") && has_parent_component("..") && !has_parent_component("a..b"));
}

#[test]
fn installed_commands_name_the_service_in_errors() {
    let command = read_installed_command("s", r#""C:\b\x.exe" service run --config C:\c.toml"#)
        .expect("command");
    assert_eq!(command.executable_path, r"C:\b\x.exe");
    assert_eq!(command.config_path, r"C:\c.toml");
    let error = read_installed_command("s", "x.exe").expect_err("error");
    assert!(error.starts_with("parse service 's' command line 'x.exe': "));
    assert!(error.ends_with("; pass --config <path> to uninstall with an explicit config"));
    assert!(service_install_help_text().contains("install"));
    assert!(service_uninstall_help_text().contains("uninstall"));
}
