//! The analysis library called directly.

use dbgflow::error::DbgFlowError;
use dbgflow::ida::direct::{
    applied_mutation, check_status, check_version, commented_mutation, failed_mutation,
    find_function_by_ea, find_function_by_name, format_ea, format_perm, function_count,
    function_info, lookup_function, normalize_limit, page_filter_matches, page_vec, parse_ea,
    path_for_ida_open_database, rename_step, segment_count, segment_info, untried_type,
    validate_range, xref_included, CommentView, HeadsPage, RawXrefBlock, RenameStep, RichSymbols,
    SegmentPrefix, XrefBlock, XrefKind, BADADDR,
};

#[test]
fn ida_open_database_path_strips_drive_verbatim_prefix() {
    let path = path_for_ida_open_database(r"\\?\C:\samples\a.exe");

    assert_eq!(path, r"C:\samples\a.exe");
}

#[test]
fn ida_open_database_path_converts_unc_verbatim_prefix() {
    let path = path_for_ida_open_database(r"\\?\UNC\server\share\a.exe");

    assert_eq!(path, r"\\server\share\a.exe");
}

#[test]
fn ida_open_database_path_leaves_normal_path_unchanged() {
    let path = path_for_ida_open_database(r"C:\samples\a.exe");

    assert_eq!(path, r"C:\samples\a.exe");
}

#[test]
fn addresses_are_written_and_read() {
    assert_eq!(format_ea(0x401000), "0x401000");
    assert_eq!(parse_ea("0x401000"), Some(0x401000));
    assert_eq!(parse_ea(" 0X40 "), Some(0x40));
    assert_eq!(parse_ea("40"), Some(0x40));
    assert_eq!(parse_ea("18446744073709551615"), Some(u64::MAX));
    assert_eq!(parse_ea(""), None);
    assert_eq!(parse_ea("main"), None);
    assert_eq!(parse_ea(&format_ea(u64::MAX)), Some(u64::MAX));
}

#[test]
fn ranges_are_checked() {
    assert!(validate_range("segment", 0, 1, 2).is_ok());
    let error = validate_range("segment", 3, 2, 2).expect_err("empty range");
    assert_eq!(
        error.message(),
        "IDA returned invalid segment range at index 3: 0x2..0x2"
    );
    assert!(validate_range("function", 0, 1, BADADDR).is_err());
    assert_eq!(segment_count(7).expect("count"), 7);
    assert_eq!(
        segment_count(-1).expect_err("negative").message(),
        "IDA returned invalid segment count -1"
    );
    assert!(segment_count(10_001).is_err());
    assert_eq!(function_count(1_000_000).expect("count"), 1_000_000);
    assert!(function_count(1_000_001).is_err());
}

#[test]
fn segments_and_functions_are_described() {
    let prefix = SegmentPrefix { start_ea: 0x1000, end_ea: 0x2000, perm: 5, bitness: 2 };
    let segment = segment_info(0, prefix, Some(".text".to_string())).expect("segment");
    assert_eq!(segment.size, "0x1000");
    assert_eq!(segment.perm, "r-x");
    assert_eq!(segment.bitness, 64);
    let odd = SegmentPrefix { bitness: 3, ..prefix };
    assert_eq!(
        segment_info(4, odd, None).expect_err("bitness").message(),
        "IDA returned invalid segment bitness 3 at index 4"
    );
    assert_eq!(format_perm(7), "rwx");
    assert_eq!(format_perm(0), "---");

    let segments = vec![segment];
    let function = function_info(0, 0x1010, 0x1020, 0x5400, Some("Main".to_string()), &segments)
        .expect("function");
    assert_eq!(function.segment.as_deref(), Some(".text"));
    assert_eq!(function.flags, "0x5400");
    let functions = vec![function];
    assert_eq!(find_function_by_ea(&functions, 0x1010).expect("start").start_ea, "0x1010");
    assert!(find_function_by_ea(&functions, 0x1020).is_none());
    assert_eq!(find_function_by_name(&functions, "main").expect("name").index, 0);
    assert!(lookup_function(&functions, "main", Some(0x5000)).is_some());
    assert!(lookup_function(&functions, "other", None).is_none());
}

#[test]
fn pages_follow_each_other() {
    let (first, place) = page_vec(vec![1, 2, 3, 4, 5], 0, Some(2));
    assert_eq!(first, vec![1, 2]);
    assert_eq!(place.total, 5);
    assert_eq!(place.next_offset, Some(2));
    let (last, place) = page_vec(vec![1, 2, 3, 4, 5], 4, Some(2));
    assert_eq!(last, vec![5]);
    assert_eq!(place.next_offset, None);
    let (none, place) = page_vec(vec![1], 9, None);
    assert!(none.is_empty());
    assert_eq!(place.returned, 0);
    assert_eq!(place.next_offset, None);
    assert_eq!(normalize_limit(None), 100);
    assert_eq!(normalize_limit(Some(0)), 1);
    assert_eq!(normalize_limit(Some(20_000)), 10_000);
    assert!(page_filter_matches(None, &[]));
    assert!(page_filter_matches(Some("MAIN"), &["start", "wmain"]));
    assert!(!page_filter_matches(Some("x"), &["start"]));
}

#[test]
fn heads_are_paged_as_they_are_found() {
    let mut page = HeadsPage::new(1, Some(2));
    for ea in [10, 20, 30, 40] {
        assert!(page.wants(ea, 100));
        page.visit(ea);
    }
    assert!(!page.wants(50, 100));
    let (addresses, place) = page.finish();
    assert_eq!(addresses, vec![20, 30]);
    assert_eq!(place.total, 4);
    assert_eq!(place.next_offset, Some(3));
    assert!(HeadsPage::is_next(10, 20));
    assert!(!HeadsPage::is_next(10, 10));
    assert!(!HeadsPage::is_next(10, BADADDR));
}

#[test]
fn capabilities_need_their_symbols() {
    let ida: Vec<String> = ["qfree", "next_head", "set_cmt"].map(String::from).to_vec();
    let idalib: Vec<String> = vec!["apply_cdecl".to_string()];
    let mut symbols = RichSymbols::load(&ida, &idalib);
    assert_eq!(symbols.missing_symbols.len(), 23);
    assert_eq!(symbols.missing_symbols[0], "get_ea_name");
    let can = symbols.capabilities();
    assert!(can.basic_blocks && can.comments && can.types);
    assert!(!can.strings && !can.decompiler);
    assert!(!symbols.qstring_available());
    symbols.qstring_layout_validated = true;
    assert!(symbols.qstring_available());
    let status = symbols.rich_api_status();
    assert!(status.available);
    assert_eq!(status.warnings.len(), 1);
    assert!(symbols.require_capability("ida.list_xrefs", can.types).is_ok());
    let error = symbols
        .require_capability("ida.list_xrefs", can.xrefs)
        .expect_err("unsupported");
    assert!(error.message().contains("IDA Professional 9.3 x64"));
    assert!(symbols.unsupported_error("rename").message().contains("get_ea_name, "));
}

#[test]
fn versions_and_codes_are_checked() {
    assert!(check_version(9, 3, 1).is_ok());
    assert_eq!(
        check_version(9, 2, 7).expect_err("version").message(),
        "unsupported IDA version 9.2.7; expected 9.3"
    );
    assert!(check_status("open_database", 0).is_ok());
    assert_eq!(
        check_status("open_database", 4).expect_err("code").message(),
        "IDA open_database failed with code 4"
    );
}

#[test]
fn references_are_reported() {
    let mut block = XrefBlock::new();
    assert_eq!(block.raw().from, BADADDR);
    *block.as_mut_ptr() = RawXrefBlock { from: 1, to: 2, iscode: true, type_: 17, user: false };
    let raw = block.raw();
    assert_eq!(raw.to, 2);
    assert!(xref_included(XrefKind::Any, &raw));
    assert!(xref_included(XrefKind::Code, &raw));
    assert!(!xref_included(XrefKind::Data, &raw));
    assert_eq!(RawXrefBlock::default().to, BADADDR);
}

#[test]
fn changes_have_outcomes() {
    let taken = rename_step("0x10", "main", 0x10, Some(0x20), &None, false, false);
    match taken {
        RenameStep::Done(outcome) => {
            assert!(!outcome.success);
            assert_eq!(outcome.error.as_deref(), Some("name already exists at 0x20"));
        }
        other => panic!("not refused: {other:?}"),
    }
    let dry = rename_step("0x10", "main", 0x10, None, &None, true, false);
    assert!(matches!(dry, RenameStep::Done(outcome) if outcome.success && outcome.dry_run));
    let set = rename_step("0x10", "main", 0x10, Some(0x20), &None, false, true);
    assert!(matches!(set, RenameStep::SetName));

    let refused = applied_mutation("0x10", None, "main", false, "set_name");
    assert_eq!(refused.error.as_deref(), Some("set_name returned false"));
    let both = commented_mutation("0x10", None, "note", CommentView::Both, false);
    assert_eq!(
        both.error.as_deref(),
        Some("set_cmt returned false; Hex-Rays decompiler comment view is unavailable")
    );
    assert!(commented_mutation("0x10", None, "note", CommentView::Disassembly, true).success);
    assert!(!untried_type("0x10", "int").success);
    let failed = failed_mutation("x", "y", true, &DbgFlowError::Backend("no".to_string()));
    assert_eq!(failed.error.as_deref(), Some("no"));
}
