//! Laws of the direct use of the analysis library: addresses, symbols, lists, pages and changes.

use crate::error::{DbgFlowError, ErrorView};
use crate::ida::direct;
use crate::ida::direct::{
    any_capability, applied_mutation, check_status, check_version, commented_mutation,
    failed_mutation, find_function_by_ea, find_function_by_name, format_ea, format_perm,
    function_count, function_info, lookup_function, normalize_limit, page_filter_matches, page_vec,
    parse_ea, rename_step, rich_symbols, segment_count, segment_info, untried_type, validate_range,
    xref_included, CommentView, DirectIdaCapabilities, FunctionInfo, HeadsPage, IdaRichApiStatus,
    MutationItemResult, PageInfo, RawXrefBlock, RenameStep, RichSymbols, SegmentInfo,
    SegmentPrefix, XrefBlock, XrefKind,
};
use crate::ida::install;
use crate::ida::install::{
    normalize_ida_runtime_path, resolve_install_dir, resolve_max_workers,
    resolve_python_executable, resolve_vendor_src_dir, supervisor_source_file,
    validate_ida_install_dir, vendor_src_dir, IdaInstall, IdaRuntimeConfig, InstallFacts,
    VendorCandidate,
};
use crate::ida::listing;
use crate::ida::listing::{
    basic_blocks, disassembly_range, item_size, lines_page, list_exports, list_imports,
    list_strings, list_xrefs, literal_text, lookup_result, qstring_text, remove_tags, resolve_ea,
    undecompiled, BasicBlocksResult, DecompileResult, ExportInfo, FoundExport, FoundImport,
    FoundText, FoundXref, FunctionLookup, ImportInfo, PageRequest, StringInfo, XrefDirection,
    XrefInfo,
};
use crate::bytes;
use crate::scan;
use crate::text;
use crate::winpath;
use vstd::prelude::*;

verus! {

/// Addresses are written in the sixteens behind `0x` and read back, with or without that mark.
pub proof fn addresses_are_read_back(n: u64, written: String, s: &str, r: Option<u64>)
    requires
        call_ensures(format_ea, (n,), written),
        s@ == written@,
        call_ensures(parse_ea, (s,), r),
    ensures
        written@ == "0x"@ + text::hex(n as nat),
        r == Some(n),
{
    direct::written_addresses_are_read(n);
}

/// What a segment allows is written as three letters: read, write and execute, each in its place.
pub proof fn permissions_have_their_letters(perm: u8, r: String)
    requires
        call_ensures(format_perm, (perm,), r),
    ensures
        r@.len() == 3,
        r@[0] == (if perm % 8 >= 4 {
            'r'
        } else {
            '-'
        }),
        r@[1] == (if perm % 4 >= 2 {
            'w'
        } else {
            '-'
        }),
        r@[2] == (if perm % 2 == 1 {
            'x'
        } else {
            '-'
        }),
{
}

/// Segments show where they begin, where they end and how large they are, with their letters and the
/// width of their addresses.
pub proof fn segments_are_shown(
    index: usize,
    segment: SegmentPrefix,
    name: Option<String>,
    r: Result<SegmentInfo, DbgFlowError>,
    perm: String,
)
    requires
        call_ensures(segment_info, (index, segment, name), r),
        call_ensures(format_perm, (segment.perm,), perm),
    ensures
        r is Ok <==> segment.start_ea < segment.end_ea && segment.end_ea != 0xffff_ffff_ffff_ffff
            && segment.bitness <= 2,
        r matches Ok(s) ==> {
            &&& s.index == index
            &&& s.start_ea@ == "0x"@ + text::hex(segment.start_ea as nat)
            &&& s.end_ea@ == "0x"@ + text::hex(segment.end_ea as nat)
            &&& s.size@ == "0x"@ + text::hex((segment.end_ea - segment.start_ea) as nat)
            &&& s.perm@ == perm@
            &&& text::view_opt(s.name) == text::view_opt(name)
            &&& segment.bitness == 0 ==> s.bitness == 16
            &&& segment.bitness == 1 ==> s.bitness == 32
            &&& segment.bitness == 2 ==> s.bitness == 64
        },
{
}

/// Functions show where they begin, where they end, how large they are and their flags.
pub proof fn functions_are_shown(
    index: usize,
    start: u64,
    end: u64,
    flags: u64,
    name: Option<String>,
    segments: &[SegmentInfo],
    r: Result<FunctionInfo, DbgFlowError>,
)
    requires
        call_ensures(function_info, (index, start, end, flags, name, segments), r),
    ensures
        r is Ok <==> start < end && end != 0xffff_ffff_ffff_ffff,
        r matches Ok(f) ==> {
            &&& f.index == index
            &&& f.start_ea@ == "0x"@ + text::hex(start as nat)
            &&& f.end_ea@ == "0x"@ + text::hex(end as nat)
            &&& f.size@ == "0x"@ + text::hex((end - start) as nat)
            &&& f.flags@ == "0x"@ + text::hex(flags as nat)
            &&& text::view_opt(f.name) == text::view_opt(name)
            &&& f.prototype is None
            &&& segments@.len() == 0 ==> f.segment is None
        },
        r matches Err(e) ==> e@ == ErrorView::Backend(
            "IDA returned invalid "@ + "function"@ + " range at index "@ + text::decimal(
                index as nat,
            ) + (": "@ + ("0x"@ + text::hex(start as nat)) + ".."@ + ("0x"@ + text::hex(
                end as nat,
            ))),
        ),
{
    assert(direct::segments_view(segments@).len() == segments@.len());
}

/// A function is found by any address inside it and by its name, in any size of letters, and the
/// first one counts.
pub proof fn functions_are_found(
    functions: &[FunctionInfo],
    i: int,
    start: u64,
    end: u64,
    ea: u64,
    by_address: Option<FunctionInfo>,
    query: &str,
    by_name: Option<FunctionInfo>,
    by_both: Option<FunctionInfo>,
    found: FunctionLookup,
    text_query: String,
)
    requires
        0 <= i < functions@.len(),
        functions@[i].start_ea@ == "0x"@ + text::hex(start as nat),
        functions@[i].end_ea@ == "0x"@ + text::hex(end as nat),
        call_ensures(find_function_by_ea, (functions, ea), by_address),
        call_ensures(find_function_by_name, (functions, query), by_name),
        call_ensures(lookup_function, (functions, query, Some(ea)), by_both),
        text_query@ == query@,
        call_ensures(lookup_result, (functions, text_query, Some(ea)), found),
    ensures
        i == 0 && start <= ea < end ==> (by_address matches Some(f) && f@ == functions@[0]@),
        i == 0 ==> (functions@[0].name matches Some(n) ==> (scan::lower_all(n@) == scan::lower_all(
            query@,
        ) ==> (by_name matches Some(f) && f@ == functions@[0]@))),
        functions@.len() == 1 && !(start <= ea < end) ==> by_address is None,
        functions@.len() == 1 && functions@[0].name is None ==> by_name is None,
        by_address matches Some(f) ==> (by_both matches Some(g) && g@ == f@),
        by_address is None ==> direct::function_opt(by_both) == direct::function_opt(by_name),
        found.query@ == query@,
        direct::function_opt(found.function) == direct::function_opt(by_both),
        found.function is Some <==> found.error is None,
        found.function is None ==> text::view_opt(found.error) == Some("function not found"@),
{
    let v = direct::functions_view(functions@);
    assert(v.len() == functions@.len());
    assert(v[i] == functions@[i]@);
    assert(v[0] == functions@[0]@);
    direct::written_addresses_are_read(start);
    direct::written_addresses_are_read(end);
    reveal_with_fuel(direct::function_at, 2);
    reveal_with_fuel(direct::function_named, 2);
    if functions@.len() == 1 {
        assert(v.drop_first().len() == 0);
    }
}

/// A page begins at its offset, holds as many items as are wanted and there are, and says where the
/// next one begins.
pub proof fn pages_hold_what_is_asked_for(
    items: Vec<u64>,
    offset: usize,
    limit: Option<usize>,
    r: (Vec<u64>, PageInfo),
    size: usize,
    i: int,
)
    requires
        call_ensures(page_vec::<u64>, (items, offset, limit), r),
        call_ensures(normalize_limit, (limit,), size),
        items@.len() <= usize::MAX,
    ensures
        limit is None ==> size == 100,
        limit matches Some(n) ==> (1 <= n <= 10000 ==> size == n) && (n == 0 ==> size == 1) && (n
            > 10000 ==> size == 10000),
        r.0@.len() <= size,
        offset <= items@.len() && size <= items@.len() - offset ==> r.0@.len() == size,
        offset <= items@.len() && size > items@.len() - offset ==> r.0@.len() == items@.len()
            - offset,
        offset > items@.len() ==> r.0@.len() == 0,
        0 <= i < r.0@.len() ==> r.0@[i] == items@[offset + i],
        r.1.offset == offset && r.1.limit == size && r.1.total == items@.len() && r.1.returned
            == r.0@.len(),
        offset + r.0@.len() < items@.len() ==> r.1.next_offset == Some(
            (offset + r.0@.len()) as usize,
        ),
        offset + r.0@.len() >= items@.len() ==> r.1.next_offset is None,
{
}

/// Addresses are visited until a page is full: those in front of it are passed over, and one more
/// says that there are others.
pub proof fn visits_fill_a_page(page: &mut HeadsPage, ea: u64, unit: (), more: bool, end: u64)
    requires
        old(page)@.well_formed(),
        !old(page).has_more,
        call_ensures(HeadsPage::visit, (page, ea), unit),
        call_ensures(HeadsPage::wants, (old(page), ea, end), more),
    ensures
        final(page)@.total == old(page)@.total + 1,
        final(page)@.offset == old(page)@.offset && final(page)@.limit == old(page)@.limit,
        old(page).total < old(page).offset ==> final(page)@.addresses == old(page)@.addresses
            && !final(page)@.has_more,
        old(page).offset <= old(page).total < old(page).offset + old(page).limit
            ==> final(page)@.addresses == old(page)@.addresses.push(ea) && !final(page)@.has_more,
        old(page).total >= old(page).offset + old(page).limit ==> final(page)@.addresses
            == old(page)@.addresses && final(page)@.has_more,
        more <==> ea < end && ea != 0xffff_ffff_ffff_ffff,
{
}

/// A new page is empty, and a finished one hands out what it holds.
pub proof fn visited_pages_are_handed_out(
    offset: usize,
    limit: Option<usize>,
    page: HeadsPage,
    size: usize,
    done: HeadsPage,
    r: (Vec<u64>, PageInfo),
    ea: u64,
    next: u64,
    goes_on: bool,
)
    requires
        call_ensures(HeadsPage::new, (offset, limit), page),
        call_ensures(normalize_limit, (limit,), size),
        done@.well_formed(),
        call_ensures(HeadsPage::finish, (done,), r),
        call_ensures(HeadsPage::is_next, (ea, next), goes_on),
    ensures
        page@.addresses.len() == 0 && page@.total == 0 && !page@.has_more,
        page@.offset == offset && page@.limit == size,
        r.0@ == done.addresses@,
        r.1.offset == done.offset && r.1.limit == done.limit && r.1.total == done.total
            && r.1.returned == done.addresses@.len(),
        done.has_more ==> r.1.next_offset == Some((done.offset + done.addresses@.len()) as usize),
        !done.has_more ==> r.1.next_offset is None,
        goes_on <==> next > ea && next != 0xffff_ffff_ffff_ffff,
{
}

/// A filter keeps what holds its text in any of its fields, in any size of letters; without a filter
/// everything is kept.
pub proof fn filters_keep_what_holds_their_text(
    filter: &str,
    fields: &[&str],
    none: Option<&str>,
    front: Seq<char>,
    back: Seq<char>,
    i: int,
    r: bool,
    all: bool,
)
    requires
        none is None,
        call_ensures(page_filter_matches, (Some(filter), fields), r),
        call_ensures(page_filter_matches, (none, fields), all),
    ensures
        all,
        0 <= i < fields@.len() && fields@[i]@ == front + filter@ + back ==> r,
        fields@.len() == 0 ==> !r,
{
    let v = direct::field_views(fields@);
    assert(v.len() == fields@.len());
    if 0 <= i < fields@.len() && fields@[i]@ == front + filter@ + back {
        assert(v[i] == fields@[i]@);
        let a = scan::lower_all(front);
        let f = scan::lower_all(filter@);
        let b = scan::lower_all(back);
        assert(scan::lower_all(v[i]) =~= a + f + b);
        crate::text_laws::part_is_found(a, f, b);
    }
}

/// Codes of zero are good, and the only version that is used is the one that is known.
pub proof fn codes_and_versions_are_judged(
    operation: &str,
    code: i32,
    status: Result<(), DbgFlowError>,
    major: i32,
    minor: i32,
    build: i32,
    version: Result<(), DbgFlowError>,
)
    requires
        call_ensures(check_status, (operation, code), status),
        call_ensures(check_version, (major, minor, build), version),
    ensures
        status is Ok <==> code == 0,
        status matches Err(e) ==> e@ == ErrorView::Backend(
            "IDA "@ + operation@ + " failed with code "@ + text::signed_decimal(code as int),
        ),
        version is Ok <==> major == 9 && minor == 3,
        version matches Err(e) ==> e@ == ErrorView::Backend(
            "unsupported IDA version "@ + (text::signed_decimal(major as int) + "."@
                + text::signed_decimal(minor as int) + "."@ + text::signed_decimal(build as int))
                + "; expected 9.3"@,
        ),
{
}

/// Counts and ranges that make no sense are refused.
pub proof fn counts_and_ranges_are_judged(
    segments: i32,
    segment_total: Result<usize, DbgFlowError>,
    functions: usize,
    function_total: Result<usize, DbgFlowError>,
    kind: &str,
    index: usize,
    start: u64,
    end: u64,
    range: Result<(), DbgFlowError>,
    size: Option<u64>,
)
    requires
        call_ensures(segment_count, (segments,), segment_total),
        call_ensures(function_count, (functions,), function_total),
        call_ensures(validate_range, (kind, index, start, end), range),
        call_ensures(item_size, (start, end), size),
    ensures
        segment_total is Ok <==> 0 <= segments <= 10000,
        segment_total matches Ok(n) ==> n == segments,
        function_total is Ok <==> functions <= 1000000,
        function_total matches Ok(n) ==> n == functions,
        range is Ok <==> start < end && end != 0xffff_ffff_ffff_ffff,
        size is Some <==> start < end && end != 0xffff_ffff_ffff_ffff,
        size matches Some(n) ==> start + n == end,
{
}

/// The symbols that are used are known by name and number.
pub proof fn symbols_are_known(r: [&'static str; 27])
    requires
        call_ensures(rich_symbols, (), r),
    ensures
        r@[0]@ == "qfree"@ && r@[1]@ == "get_ea_name"@ && r@[2]@ == "get_name_ea"@,
        r@[3]@ == "get_func_name"@ && r@[4]@ == "get_segm_name"@,
        r@[5]@ == "generate_disasm_line"@ && r@[6]@ == "tag_remove"@ && r@[7]@ == "next_head"@,
        r@[8]@ == "get_flags_ex"@ && r@[9]@ == "get_item_end"@ && r@[10]@
            == "get_strlit_contents"@,
        r@[11]@ == "get_import_module_qty"@ && r@[12]@ == "get_import_module_name"@ && r@[13]@
            == "enum_import_names"@,
        r@[14]@ == "get_entry_qty"@ && r@[15]@ == "get_entry_ordinal"@ && r@[16]@ == "get_entry"@
            && r@[17]@ == "get_entry_name"@,
        r@[18]@ == "xrefblk_t_first_from"@ && r@[19]@ == "xrefblk_t_next_from"@ && r@[20]@
            == "xrefblk_t_first_to"@ && r@[21]@ == "xrefblk_t_next_to"@,
        r@[22]@ == "xrefchar"@ && r@[23]@ == "set_name"@ && r@[24]@ == "set_cmt"@ && r@[25]@
            == "get_cmt"@ && r@[26]@ == "apply_cdecl"@,
{
    let v = r@.map_values(|s: &'static str| s@);
    assert(v == direct::symbol_names());
    assert forall|i: int| 0 <= i < 27 implies #[trigger] r@[i]@ == v[i] by {}
}

/// Nothing can be done without the symbols that it takes.
pub proof fn capabilities_need_their_symbols(
    symbols: RichSymbols,
    c: DirectIdaCapabilities,
    texts: bool,
    some: bool,
    status: IdaRichApiStatus,
)
    requires
        call_ensures(RichSymbols::capabilities, (&symbols,), c),
        call_ensures(RichSymbols::qstring_available, (&symbols,), texts),
        call_ensures(any_capability, (&c,), some),
        call_ensures(RichSymbols::rich_api_status, (&symbols,), status),
    ensures
        ({
            let has = |name: Seq<char>| text::views(symbols.available@).contains(name);
            &&& texts <==> has("qfree"@) && symbols.qstring_layout_validated
            &&& c.names <==> texts && has("get_name_ea"@) && (has("get_ea_name"@) || has(
                "get_func_name"@,
            ))
            &&& c.disassembly <==> texts && has("generate_disasm_line"@) && has("tag_remove"@)
                && has("next_head"@) && has("get_flags_ex"@)
            &&& c.strings <==> texts && has("next_head"@) && has("get_item_end"@) && has(
                "get_strlit_contents"@,
            )
            &&& c.imports <==> texts && has("get_import_module_qty"@) && has(
                "get_import_module_name"@,
            ) && has("enum_import_names"@)
            &&& c.exports <==> texts && has("get_entry_qty"@) && has("get_entry_ordinal"@) && has(
                "get_entry_name"@,
            )
            &&& c.xrefs <==> symbols.xrefblk_layout_validated && has("xrefblk_t_first_from"@) && has(
                "xrefblk_t_next_from"@,
            ) && has("xrefblk_t_first_to"@) && has("xrefblk_t_next_to"@)
            &&& c.basic_blocks <==> has("next_head"@)
            &&& c.comments <==> has("set_cmt"@)
            &&& c.types <==> has("apply_cdecl"@)
            &&& !c.decompiler
            &&& some <==> c.names || c.disassembly || c.strings || c.imports || c.exports || c.xrefs
                || c.basic_blocks || c.comments || c.types || c.decompiler
            &&& status.available == some && status.capabilities == c && status.direct_bindings
            &&& status.ida_version_gate@ == "IDA Professional 9.3 x64"@
            &&& text::view_opt(status.hexrays) == Some("not_loaded"@)
            &&& text::views(status.missing_symbols@) == text::views(symbols.missing_symbols@)
            &&& status.warnings@.len() > 0 && status.warnings@.last()@
                == "Hex-Rays direct decompiler dispatcher is unavailable in this build"@
        }),
{
    assert(text::views(status.warnings@).last() == status.warnings@.last()@);
}

/// Something can be done if anything can, and nothing if nothing can.
pub proof fn any_capability_is_enough(c: DirectIdaCapabilities, some: bool)
    requires
        call_ensures(any_capability, (&c,), some),
    ensures
        c.names ==> some,
        c.disassembly ==> some,
        c.strings ==> some,
        c.imports ==> some,
        c.exports ==> some,
        c.xrefs ==> some,
        c.basic_blocks ==> some,
        c.comments ==> some,
        c.types ==> some,
        c.decompiler ==> some,
        !c.names && !c.disassembly && !c.strings && !c.imports && !c.exports && !c.xrefs
            && !c.basic_blocks && !c.comments && !c.types && !c.decompiler ==> !some,
{
}

/// What cannot be done is refused with the symbols that are missing.
pub proof fn missing_symbols_are_named(
    symbols: RichSymbols,
    tool: &str,
    capable: bool,
    r: Result<(), DbgFlowError>,
    e: DbgFlowError,
)
    requires
        call_ensures(RichSymbols::require_capability, (&symbols, tool, capable), r),
        call_ensures(RichSymbols::unsupported_error, (&symbols, tool), e),
        symbols.missing_symbols@.len() == 1,
    ensures
        r is Ok <==> capable,
        r matches Err(x) ==> x@ == ErrorView::Backend(
            tool@ + " is unsupported by the IDA direct rich API for "@ + "IDA Professional 9.3 x64"@
                + "; missing or unavailable symbols: "@ + symbols.missing_symbols@[0]@,
        ),
        e@ == ErrorView::Backend(
            "IDA direct rich API capability "@ + tool@
                + " is unavailable; missing or unavailable symbols: "@
                + symbols.missing_symbols@[0]@,
        ),
{
    assert(text::views(symbols.missing_symbols@).len() == 1);
    assert(text::views(symbols.missing_symbols@)[0] == symbols.missing_symbols@[0]@);
}

/// References are kept by their kind.
pub proof fn references_are_kept_by_kind(kind: XrefKind, raw: RawXrefBlock, r: bool)
    requires
        call_ensures(xref_included, (kind, &raw), r),
    ensures
        kind is Any ==> r,
        kind is Code ==> (r <==> raw.iscode),
        kind is Data ==> (r <==> !raw.iscode),
{
}

/// A reference shows which way it goes, between which addresses, whether it is code or data, and its
/// letter; those that leave come before those that arrive.
pub proof fn references_are_shown(
    from: &[FoundXref],
    to: &[FoundXref],
    direction: XrefDirection,
    r: (Vec<XrefInfo>, PageInfo),
)
    requires
        from@.len() == 1,
        to@.len() == 1,
        call_ensures(list_xrefs, (from, to, direction, XrefKind::Any, 0, None), r),
    ensures
        direction is From ==> r.0@.len() == 1 && shows_reference(r.0@[0], from@[0], "from"@),
        direction is To ==> r.0@.len() == 1 && shows_reference(r.0@[0], to@[0], "to"@),
        direction is Both ==> r.0@.len() == 2 && shows_reference(r.0@[0], from@[0], "from"@)
            && shows_reference(r.0@[1], to@[0], "to"@),
        r.1.total == r.0@.len() && r.1.next_offset is None && r.1.offset == 0 && r.1.limit == 100,
{
    reveal_with_fuel(listing::kept_xrefs, 2);
    assert(from@.drop_last().len() == 0);
    assert(to@.drop_last().len() == 0);
    assert(from@.last() == from@[0]);
    assert(to@.last() == to@[0]);
    let w = listing::wanted_xrefs(from@, to@, direction, XrefKind::Any);
    let v = listing::xrefs_view(r.0@);
    assert(w.len() <= 2);
    assert(v =~= w);
    assert(v.len() == r.0@.len());
    assert(v[0] == r.0@[0]@);
    if direction is Both {
        assert(v[1] == r.0@[1]@);
    }
}

/// Whether a reference is shown as it was found.
pub open spec fn shows_reference(x: XrefInfo, found: FoundXref, direction: Seq<char>) -> bool {
    &&& x.direction@ == direction
    &&& x.from@ == "0x"@ + text::hex(found.block.from as nat)
    &&& x.to@ == "0x"@ + text::hex(found.block.to as nat)
    &&& found.block.iscode ==> x.kind@ == "code"@
    &&& !found.block.iscode ==> x.kind@ == "data"@
    &&& found.letter is None ==> x.letter == '?'
    &&& found.letter matches Some(b) ==> x.letter as u32 == b
    &&& x.user == found.block.user
}

/// A text, an import and an export that are found are shown with their address, their names and
/// their number.
pub proof fn found_items_are_shown(
    texts: &[FoundText],
    imports: &[FoundImport],
    exports: &[FoundExport],
    request: PageRequest,
    shown_texts: Vec<StringInfo>,
    shown_imports: Vec<ImportInfo>,
    shown_exports: Vec<ExportInfo>,
)
    requires
        texts@.len() == 1 && imports@.len() == 1 && exports@.len() == 1,
        request.filter is None && request.offset == 0 && request.limit is None,
        call_ensures(list_strings, (texts, &request), shown_texts),
        call_ensures(list_imports, (imports, &request), shown_imports),
        call_ensures(list_exports, (exports, &request), shown_exports),
    ensures
        shown_texts@.len() == 1 && shown_texts@[0].index == 0 && shown_texts@[0].value@
            == texts@[0].value@ && shown_texts@[0].ea@ == "0x"@ + text::hex(texts@[0].ea as nat)
            && shown_texts@[0].length == vstd::utf8::encode_utf8(texts@[0].value@).len(),
        shown_imports@.len() == 1 && shown_imports@[0].index == 0 && shown_imports@[0].ea@ == "0x"@
            + text::hex(imports@[0].ea as nat) && text::view_opt(shown_imports@[0].module)
            == text::view_opt(imports@[0].module) && text::view_opt(shown_imports@[0].name)
            == text::view_opt(imports@[0].name),
        imports@[0].ordinal == 0 ==> shown_imports@[0].ordinal is None,
        imports@[0].ordinal != 0 ==> shown_imports@[0].ordinal == Some(imports@[0].ordinal),
        shown_exports@.len() == 1 && shown_exports@[0].index == 0 && text::view_opt(
            shown_exports@[0].name,
        ) == text::view_opt(exports@[0].name) && shown_exports@[0].ordinal == exports@[0].ordinal,
        exports@[0].ea is None || exports@[0].ea == Some(0xffff_ffff_ffff_ffffu64)
            ==> shown_exports@[0].ea@ == "unknown"@,
        exports@[0].ea matches Some(a) ==> (a != 0xffff_ffff_ffff_ffff ==> shown_exports@[0].ea@
            == "0x"@ + text::hex(a as nat)),
{
    reveal_with_fuel(listing::kept_strings, 2);
    reveal_with_fuel(listing::kept_imports, 2);
    reveal_with_fuel(listing::kept_exports, 2);
    assert(texts@.drop_last().len() == 0 && texts@.last() == texts@[0]);
    assert(imports@.drop_last().len() == 0 && imports@.last() == imports@[0]);
    assert(exports@.drop_last().len() == 0 && exports@.last() == exports@[0]);
    let s = listing::strings_view(shown_texts@);
    let ks = listing::kept_strings(texts@, request.wanted());
    assert(ks.len() == 1);
    assert(s =~= ks);
    assert(s.len() == shown_texts@.len());
    assert(s[0] == shown_texts@[0]@);
    let m = listing::imports_view(shown_imports@);
    let km = listing::kept_imports(imports@, request.wanted());
    assert(km.len() == 1);
    assert(m =~= km);
    assert(m.len() == shown_imports@.len());
    assert(m[0] == shown_imports@[0]@);
    let x = listing::exports_view(shown_exports@);
    let kx = listing::kept_exports(exports@, request.wanted());
    assert(kx.len() == 1);
    assert(x =~= kx);
    assert(x.len() == shown_exports@.len());
    assert(x[0] == shown_exports@[0]@);
}

/// A target is an address or a name; a name has to be one that is known.
pub proof fn targets_are_resolved(
    symbols: RichSymbols,
    target: &str,
    named: u64,
    read: Option<u64>,
    r: Result<u64, DbgFlowError>,
)
    requires
        call_ensures(parse_ea, (target,), read),
        call_ensures(resolve_ea, (&symbols, target, named), r),
    ensures
        read matches Some(ea) ==> r == Ok::<u64, DbgFlowError>(ea),
        read is None && text::views(symbols.available@).contains("get_name_ea"@)
            && !target@.contains('\0') && named != 0xffff_ffff_ffff_ffff ==> r == Ok::<
            u64,
            DbgFlowError,
        >(named),
        read is None && !text::views(symbols.available@).contains("get_name_ea"@) ==> r is Err,
        read is None && text::views(symbols.available@).contains("get_name_ea"@)
            && target@.contains('\0') ==> (r matches Err(e) && e@ == ErrorView::Backend(
            "IDA target contains NUL"@,
        )),
        read is None && text::views(symbols.available@).contains("get_name_ea"@)
            && !target@.contains('\0') && named == 0xffff_ffff_ffff_ffff ==> (r matches Err(e) && e@
            == ErrorView::Backend("IDA target was not found"@)),
{
}

/// What is shown around an address is the function that holds it, or the item there.
pub proof fn ranges_are_shown(
    functions: &[FunctionInfo],
    ea: u64,
    next: u64,
    start: u64,
    end: u64,
    r: (Option<FunctionInfo>, u64, u64),
)
    requires
        call_ensures(disassembly_range, (functions, ea, next), r),
    ensures
        functions@.len() == 0 ==> r.0 is None && r.1 == ea,
        functions@.len() == 0 && next > ea ==> r.2 == next,
        functions@.len() == 0 && next <= ea && ea < u64::MAX ==> r.2 == ea + 1,
        functions@.len() == 1 && functions@[0].start_ea@ == "0x"@ + text::hex(start as nat)
            && functions@[0].end_ea@ == "0x"@ + text::hex(end as nat) && start <= ea < end ==> (
        r.0 matches Some(f) && f@ == functions@[0]@ && r.1 == start && r.2 == end),
{
    let v = direct::functions_view(functions@);
    assert(v.len() == functions@.len());
    reveal_with_fuel(direct::function_at, 2);
    if functions@.len() == 1 {
        assert(v[0] == functions@[0]@);
        direct::written_addresses_are_read(start);
        direct::written_addresses_are_read(end);
    }
}

/// Texts of the library end in front of their zero, and a literal is one that was read and is not
/// empty.
pub proof fn library_texts_are_read(
    b: Vec<u8>,
    r: String,
    read: i64,
    value: Option<String>,
    literal: Option<String>,
)
    requires
        call_ensures(qstring_text, (b,), r),
        call_ensures(literal_text, (read, value), literal),
    ensures
        b@.len() > 0 && b@.last() == 0 ==> r@ == bytes::utf8_lossy(b@.drop_last()),
        b@.len() == 0 || b@.last() != 0 ==> r@ == bytes::utf8_lossy(b@),
        literal is Some <==> read > 0 && (value matches Some(v) && v@.len() > 0),
        literal matches Some(l) ==> (value matches Some(v) && l@ == v@),
{
}

/// The marks in a line are removed if they can be.
pub proof fn marks_are_removed(
    line: &str,
    removes: bool,
    stripped: Option<String>,
    r: Result<String, DbgFlowError>,
)
    requires
        call_ensures(remove_tags, (line, removes, stripped), r),
    ensures
        !removes ==> (r matches Ok(t) && t@ == line@),
        removes && !line@.contains('\0') ==> (stripped matches Some(s) ==> (r matches Ok(t) && t@
            == s@)),
        removes && !line@.contains('\0') && stripped is None ==> (r matches Ok(t) && t@ == line@),
        removes && line@.contains('\0') ==> (r matches Err(e) && e@ == ErrorView::Backend(
            "IDA disassembly contains NUL"@,
        )),
{
}

/// A function is one block, and what is in none has no blocks; nothing is decompiled.
pub proof fn blocks_belong_to_functions(
    functions: &[FunctionInfo],
    target: String,
    ea: u64,
    at: Option<FunctionInfo>,
    blocks: BasicBlocksResult,
    code: DecompileResult,
)
    requires
        call_ensures(find_function_by_ea, (functions, ea), at),
        call_ensures(basic_blocks, (functions, target, ea), blocks),
        call_ensures(undecompiled, (functions, target, ea), code),
    ensures
        blocks.target@ == target@ && code.target@ == target@,
        direct::function_opt(blocks.function) == direct::function_opt(at),
        direct::function_opt(code.function) == direct::function_opt(at),
        at matches Some(f) ==> blocks.blocks@.len() == 1 && blocks.blocks@[0].start_ea@
            == f.start_ea@ && blocks.blocks@[0].end_ea@ == f.end_ea@ && blocks.error is None,
        at is None ==> blocks.blocks@.len() == 0 && text::view_opt(blocks.error) == Some(
            "target is not inside a function"@,
        ),
        code.code is None,
        text::view_opt(code.error) == Some(
            "Hex-Rays direct decompiler dispatcher is unavailable"@,
        ),
{
}

/// A name is set if it is free or may be taken over; when nothing is to be changed, only what would
/// be is said.
pub proof fn names_are_set_if_free(
    target: &str,
    name: &str,
    ea: u64,
    existing: Option<u64>,
    old_name: Option<String>,
    dry_run: bool,
    allow_overwrite: bool,
    r: RenameStep,
)
    requires
        call_ensures(
            rename_step,
            (target, name, ea, existing, &old_name, dry_run, allow_overwrite),
            r,
        ),
    ensures
        ({
            let free = existing is None || existing == Some(ea) || allow_overwrite;
            &&& r is SetName <==> free && !dry_run
            &&& r matches RenameStep::Done(m) ==> {
                &&& m.success <==> free
                &&& m.target@ == target@
                &&& text::view_opt(m.new) == Some(name@)
                &&& text::view_opt(m.old) == text::view_opt(old_name)
                &&& m.dry_run == dry_run
                &&& free ==> m.error is None
                &&& !free ==> text::view_opt(m.error) == Some(
                    "name already exists at "@ + ("0x"@ + text::hex(existing->0 as nat)),
                )
            }
        }),
{
}

/// A change says what it changed and whether it was made, and if not, why.
pub proof fn changes_say_what_came_of_them(
    target: &str,
    old_text: Option<String>,
    new: &str,
    applied: bool,
    function: &str,
    view: CommentView,
    dry_run: bool,
    error: DbgFlowError,
    changed: MutationItemResult,
    commented: MutationItemResult,
    failed: MutationItemResult,
    untried: MutationItemResult,
)
    requires
        call_ensures(applied_mutation, (target, old_text, new, applied, function), changed),
        call_ensures(commented_mutation, (target, old_text, new, view, applied), commented),
        call_ensures(failed_mutation, (target, new, dry_run, &error), failed),
        call_ensures(untried_type, (target, new), untried),
    ensures
        changed.target@ == target@ && commented.target@ == target@ && failed.target@ == target@
            && untried.target@ == target@,
        text::view_opt(changed.new) == Some(new@) && text::view_opt(commented.new) == Some(new@)
            && text::view_opt(failed.new) == Some(new@) && text::view_opt(untried.new) == Some(new@),
        text::view_opt(changed.old) == text::view_opt(old_text),
        text::view_opt(commented.old) == text::view_opt(old_text),
        failed.old is None && untried.old is None,
        changed.success == applied && !changed.dry_run,
        applied ==> changed.error is None,
        !applied ==> text::view_opt(changed.error) == Some(function@ + " returned false"@),
        !failed.success && failed.dry_run == dry_run && text::view_opt(failed.error) == Some(
            error@.text(),
        ),
        !untried.success && untried.dry_run && untried.error is Some,
        commented.success <==> view is Disassembly && applied,
        view is Disassembly && applied ==> commented.error is None,
        view is Disassembly && !applied ==> text::view_opt(commented.error) == Some(
            "set_cmt returned false"@,
        ),
        view is Decompiler || (view is Both && applied) ==> text::view_opt(commented.error) == Some(
            "Hex-Rays decompiler comment view is unavailable"@,
        ),
        view is Both && !applied ==> text::view_opt(commented.error) == Some(
            "set_cmt returned false"@ + "; Hex-Rays decompiler comment view is unavailable"@,
        ),
{
}

/// An empty reference goes nowhere.
pub proof fn empty_references_go_nowhere(block: XrefBlock, raw: RawXrefBlock)
    requires
        call_ensures(XrefBlock::new, (), block),
        call_ensures(XrefBlock::raw, (&block,), raw),
    ensures
        raw.from == 0xffff_ffff_ffff_ffff && raw.to == 0xffff_ffff_ffff_ffff,
        !raw.iscode && !raw.user && raw.type_ == 0,
{
}

/// Where the analysis is installed is what is configured, then what the environment says, then the
/// usual place.
pub proof fn settings_come_before_the_environment(
    c: IdaRuntimeConfig,
    environment: Option<String>,
    dir: String,
    python: String,
    workers: u64,
)
    requires
        call_ensures(resolve_install_dir, (&c, &environment), dir),
        call_ensures(resolve_python_executable, (&c, &environment), python),
        call_ensures(resolve_max_workers, (&c,), workers),
    ensures
        c.install_dir matches Some(d) ==> dir@ == d@,
        c.install_dir is None ==> (environment matches Some(e) ==> dir@ == e@),
        c.install_dir is None && environment is None ==> dir@
            == "C:\\Program Files\\IDA Professional 9.3"@,
        c.python_executable matches Some(p) ==> python@ == p@,
        c.python_executable is None ==> (environment matches Some(e) ==> python@ == e@),
        c.python_executable is None && environment is None ==> python@ == "python"@,
        c.max_workers matches Some(n) ==> workers == n,
        c.max_workers is None ==> workers == 4,
{
}

/// Long forms of paths are made short.
pub proof fn long_paths_are_made_short(path: &str, rest: Seq<char>, r: String, opened: String)
    requires
        call_ensures(normalize_ida_runtime_path, (path,), r),
        call_ensures(direct::path_for_ida_open_database, (path,), opened),
    ensures
        opened@ == r@,
        path@ == "\\\\?\\UNC\\"@ + rest ==> r@ == "\\\\"@ + rest,
        path@ == "\\\\?\\"@ + rest && !scan::starts(rest, "UNC\\"@) ==> r@ == rest,
        path@.len() > 0 && path@[0] != '\\' ==> r@ == path@,
{
    reveal_strlit("\\\\?\\UNC\\");
    reveal_strlit("\\\\?\\");
    reveal_strlit("UNC\\");
    let a = "\\\\?\\UNC\\"@;
    let b = "\\\\?\\"@;
    let s = path@;
    if s == a + rest {
        assert(s.take(8) =~= a);
        assert(s.skip(8) =~= rest);
    } else if s == b + rest {
        assert(s.take(4) =~= b);
        assert(s.skip(4) =~= rest);
        if scan::starts(s, a) {
            assert forall|i: int| 0 <= i < 4 implies rest[i] == a[i + 4] by {
                assert(s[i + 4] == rest[i]);
                assert(s.take(8)[i + 4] == s[i + 4]);
            }
            assert(rest.take(4) =~= "UNC\\"@);
        }
    }
    if s.len() > 0 && s[0] != '\\' {
        if scan::starts(s, a) {
            assert(s.take(8)[0] == '\\');
        }
        if scan::starts(s, b) {
            assert(s.take(4)[0] == '\\');
        }
    }
}

/// An installation is a directory that holds all the files of the analysis.
pub proof fn installations_hold_all_files(
    path: &str,
    absolute: &str,
    facts: Result<InstallFacts, String>,
    r: Result<IdaInstall, DbgFlowError>,
)
    requires
        call_ensures(validate_ida_install_dir, (path, absolute, facts), r),
    ensures
        r is Ok <==> path@.len() > 0 && (facts matches Ok(f) && f.is_dir && f.has_ida_exe
            && f.has_ida_dll && f.has_idalib_dll && f.has_ida_hlp),
        r matches Ok(i) ==> i.ida_dll@ == winpath::joined_path(i.install_dir@, "ida.dll"@)
            && i.idalib_dll@ == winpath::joined_path(i.install_dir@, "idalib.dll"@),
        r matches Ok(i) ==> (facts matches Ok(f) && i.install_dir@ == install::plain_path(
            f.canonical@,
        )),
        path@.len() == 0 ==> (r matches Err(e) && e@ == ErrorView::Backend(
            "IDA install dir must not be empty"@,
        )),
        path@.len() > 0 ==> (facts matches Err(m) ==> (r matches Err(e) && e@ == ErrorView::Backend(
            "invalid IDA install dir "@ + absolute@ + ": "@ + m@,
        ))),
{
}

/// The source of the supervisor is the first place that holds it.
pub proof fn first_source_counts(
    candidates: &[VendorCandidate],
    r: Result<String, DbgFlowError>,
    root: &str,
    dir: String,
    vendor: &str,
    file: String,
)
    requires
        candidates@.len() > 0,
        call_ensures(resolve_vendor_src_dir, (candidates,), r),
        call_ensures(vendor_src_dir, (root,), dir),
        call_ensures(supervisor_source_file, (vendor,), file),
    ensures
        candidates@[0].holds_supervisor ==> (r matches Ok(d) && d@ == candidates@[0].path@),
        candidates@.len() == 2 && !candidates@[0].holds_supervisor && candidates@[1].holds_supervisor
            ==> (r matches Ok(d) && d@ == candidates@[1].path@),
        candidates@.len() == 1 && !candidates@[0].holds_supervisor ==> r is Err,
        dir@ == winpath::joined_path(
            winpath::joined_path(winpath::joined_path(root@, "vendor"@), "ida-pro-mcp"@),
            "src"@,
        ),
        file@ == winpath::joined_path(
            winpath::joined_path(vendor@, "ida_pro_mcp"@),
            "idalib_supervisor.py"@,
        ),
{
    reveal_with_fuel(install::first_holding, 3);
    let rest = candidates@.drop_first();
    if candidates@.len() == 2 {
        assert(rest[0] == candidates@[1]);
    }
}

/// The page of the lines says how many are shown.
pub proof fn pages_of_lines_are_counted(page: PageInfo, lines: usize, r: PageInfo)
    requires
        call_ensures(lines_page, (page, lines), r),
    ensures
        r.returned == lines,
        r.offset == page.offset && r.limit == page.limit && r.total == page.total && r.next_offset
            == page.next_offset,
{
}

} // verus!
