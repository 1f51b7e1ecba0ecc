//! Answers put together from what the analysis library reports item by item.

use dbgflow::ida::direct::{
    function_info, FunctionInfo, PageInfo, RawXrefBlock, RichSymbols, XrefKind, BADADDR,
};
use dbgflow::ida::listing::{
    basic_blocks, disassembly_range, item_size, lines_page, list_exports, list_imports,
    list_strings, list_xrefs, literal_text, lookup_result, qstring_text, remove_tags, resolve_ea,
    undecompiled, FoundExport, FoundImport, FoundText, FoundXref, PageRequest, XrefDirection,
};

fn symbols(names: &[&str]) -> RichSymbols {
    let names: Vec<String> = names.iter().map(|name| name.to_string()).collect();
    RichSymbols::load(&names, &[])
}

fn functions() -> Vec<FunctionInfo> {
    vec![
        function_info(0, 0x1000, 0x1010, 0, Some("start".to_string()), &[]).expect("function"),
        function_info(1, 0x1010, 0x1040, 0, Some("finish".to_string()), &[]).expect("function"),
    ]
}

fn everything() -> PageRequest {
    PageRequest {
        filter: None,
        offset: 0,
        limit: None,
    }
}

fn holding(filter: &str) -> PageRequest {
    PageRequest {
        filter: Some(filter.to_string()),
        offset: 0,
        limit: None,
    }
}

#[test]
fn targets_are_addresses_or_names() {
    let all = symbols(&["get_name_ea"]);
    let none = symbols(&[]);
    assert_eq!(resolve_ea(&all, "0x1000", BADADDR).expect("address"), 0x1000);
    assert_eq!(resolve_ea(&none, "0x1000", BADADDR).expect("address"), 0x1000);
    assert_eq!(resolve_ea(&all, "main", 0x77).expect("name"), 0x77);
    assert_eq!(
        resolve_ea(&all, "main", BADADDR).expect_err("unknown").message(),
        "IDA target was not found"
    );
    assert_eq!(
        resolve_ea(&all, "ma\0in", 1).expect_err("zero").message(),
        "IDA target contains NUL"
    );
    assert!(resolve_ea(&none, "main", 0x77)
        .expect_err("no lookup")
        .message()
        .starts_with("IDA direct rich API capability name lookup is unavailable; missing or unavailable symbols: "));
}

#[test]
fn library_texts_lose_one_zero() {
    assert_eq!(qstring_text(b"abc\0".to_vec()), "abc");
    assert_eq!(qstring_text(b"abc".to_vec()), "abc");
    assert_eq!(qstring_text(b"abc\0\0".to_vec()), "abc\0");
    assert_eq!(qstring_text(vec![0xff]), "\u{fffd}");
    assert_eq!(qstring_text(Vec::new()), "");
    assert_eq!(literal_text(3, Some("abc".to_string())), Some("abc".to_string()));
    assert_eq!(literal_text(0, Some("abc".to_string())), None);
    assert_eq!(literal_text(3, Some(String::new())), None);
    assert_eq!(literal_text(3, None), None);
    assert_eq!(item_size(0x10, 0x18), Some(8));
    assert_eq!(item_size(0x10, 0x10), None);
    assert_eq!(item_size(0x10, BADADDR), None);
}

#[test]
fn colours_are_removed_where_they_can_be() {
    let plain = Some("mov".to_string());
    assert_eq!(remove_tags("\u{1}mov", true, plain).expect("plain"), "mov");
    assert_eq!(remove_tags("mov", true, None).expect("kept"), "mov");
    assert_eq!(remove_tags("m\0v", false, None).expect("kept"), "m\0v");
    assert_eq!(
        remove_tags("m\0v", true, None).expect_err("zero").message(),
        "IDA disassembly contains NUL"
    );
}

#[test]
fn strings_are_counted_as_they_are_kept() {
    let found = [
        FoundText { ea: 0x10, value: "Hello".to_string() },
        FoundText { ea: 0x20, value: "grüße".to_string() },
        FoundText { ea: 0x30, value: "hello again".to_string() },
    ];
    let all = list_strings(&found, &everything());
    assert_eq!(all.len(), 3);
    assert_eq!(all[1].length, 7);
    assert_eq!(all[1].ea, "0x20");
    let hellos = list_strings(&found, &holding("HELLO"));
    assert_eq!(hellos.len(), 2);
    assert_eq!(hellos[1].index, 1);
    assert_eq!(hellos[1].value, "hello again");
    let one = list_strings(&found, &holding("0x20"));
    assert_eq!(one.len(), 1);
    assert_eq!(one[0].index, 0);
    let second = PageRequest { filter: None, offset: 1, limit: Some(1) };
    let page = list_strings(&found, &second);
    assert_eq!(page.len(), 1);
    assert_eq!(page[0].index, 1);
}

#[test]
fn imports_keep_their_numbers() {
    let found = [
        FoundImport { ea: 0x10, module: Some("KERNEL32".to_string()), name: Some("ReadFile".to_string()), ordinal: 0 },
        FoundImport { ea: 0x18, module: None, name: None, ordinal: 7 },
        FoundImport { ea: 0x20, module: Some("USER32".to_string()), name: Some("SetFocus".to_string()), ordinal: 0 },
    ];
    let users = list_imports(&found, &holding("user32"));
    assert_eq!(users.len(), 1);
    assert_eq!(users[0].index, 2);
    assert_eq!(users[0].name.as_deref(), Some("SetFocus"));
    assert_eq!(users[0].ordinal, None);
    let all = list_imports(&found, &everything());
    assert_eq!(all[1].ordinal, Some(7));
    assert_eq!(all[1].ea, "0x18");
    assert_eq!(all[1].module, None);
}

#[test]
fn exports_without_an_address_are_unknown() {
    let found = [
        FoundExport { ea: Some(0x10), name: Some("Open".to_string()), ordinal: 1 },
        FoundExport { ea: Some(BADADDR), name: Some("Close".to_string()), ordinal: 2 },
        FoundExport { ea: None, name: None, ordinal: 3 },
    ];
    let unknown = list_exports(&found, &holding("unknown"));
    assert_eq!(unknown.len(), 2);
    assert_eq!(unknown[0].index, 1);
    assert_eq!(unknown[0].name.as_deref(), Some("Close"));
    assert_eq!(unknown[1].ordinal, 3);
    let all = list_exports(&found, &everything());
    assert_eq!(all[0].ea, "0x10");
}

#[test]
fn queries_find_functions() {
    let functions = functions();
    let found = lookup_result(&functions, "0x1014".to_string(), Some(0x1014));
    assert_eq!(found.function.expect("function").name.as_deref(), Some("finish"));
    assert_eq!(found.error, None);
    let named = lookup_result(&functions, "start".to_string(), None);
    assert_eq!(named.function.expect("function").index, 0);
    let missing = lookup_result(&functions, "nowhere".to_string(), Some(0x9000));
    assert!(missing.function.is_none());
    assert_eq!(missing.error.as_deref(), Some("function not found"));
    assert_eq!(missing.query, "nowhere");
}

#[test]
fn lines_are_those_of_the_function() {
    let functions = functions();
    let (function, start, end) = disassembly_range(&functions, 0x1020, 0x1024);
    assert_eq!(function.expect("function").index, 1);
    assert_eq!((start, end), (0x1010, 0x1040));
    let (function, start, end) = disassembly_range(&functions, 0x2000, 0x2004);
    assert!(function.is_none());
    assert_eq!((start, end), (0x2000, 0x2004));
    let (_, start, end) = disassembly_range(&functions, 0x2000, 0);
    assert_eq!((start, end), (0x2000, 0x2001));
    let (_, start, end) = disassembly_range(&functions, u64::MAX, 0);
    assert_eq!((start, end), (u64::MAX, u64::MAX));
    let page = PageInfo { offset: 2, limit: 10, total: 9, returned: 7, next_offset: None };
    assert_eq!(lines_page(page, 5), PageInfo { offset: 2, limit: 10, total: 9, returned: 5, next_offset: None });
}

#[test]
fn blocks_and_source_name_their_function() {
    let functions = functions();
    let blocks = basic_blocks(&functions, "t".to_string(), 0x1004);
    assert_eq!(blocks.blocks.len(), 1);
    assert_eq!(blocks.blocks[0].start_ea, "0x1000");
    assert_eq!(blocks.blocks[0].end_ea, "0x1010");
    assert!(blocks.error.is_none());
    let outside = basic_blocks(&functions, "t".to_string(), 0x1);
    assert!(outside.blocks.is_empty());
    assert_eq!(outside.error.as_deref(), Some("target is not inside a function"));
    let source = undecompiled(&functions, "t".to_string(), 0x1004);
    assert!(source.code.is_none());
    assert_eq!(source.function.expect("function").index, 0);
    assert_eq!(
        source.error.as_deref(),
        Some("Hex-Rays direct decompiler dispatcher is unavailable")
    );
}

#[test]
fn references_from_come_before_references_to() {
    let call = FoundXref {
        block: RawXrefBlock { from: 0x10, to: 0x20, iscode: true, type_: 17, user: false },
        letter: Some(b'p'),
    };
    let read = FoundXref {
        block: RawXrefBlock { from: 0x30, to: 0x10, iscode: false, type_: 3, user: true },
        letter: None,
    };
    let (both, page) = list_xrefs(&[call], &[read], XrefDirection::Both, XrefKind::Any, 0, None);
    assert_eq!(both.len(), 2);
    assert_eq!((both[0].direction, both[0].kind, both[0].letter), ("from", "code", 'p'));
    assert_eq!((both[1].direction, both[1].kind, both[1].letter), ("to", "data", '?'));
    assert!(both[1].user);
    assert_eq!(both[1].from, "0x30");
    assert_eq!(page.total, 2);
    let (data, page) = list_xrefs(&[call], &[read], XrefDirection::Both, XrefKind::Data, 0, None);
    assert_eq!(data.len(), 1);
    assert_eq!(page.total, 1);
    let (to, _) = list_xrefs(&[call], &[read], XrefDirection::To, XrefKind::Any, 0, None);
    assert_eq!(to[0].to, "0x10");
    let (first, page) = list_xrefs(&[call], &[read], XrefDirection::Both, XrefKind::Any, 0, Some(1));
    assert_eq!(first.len(), 1);
    assert_eq!(page.next_offset, Some(1));
}
