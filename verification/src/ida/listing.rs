//! Answers that are put together from what the analysis library reports one item at a time:
//! texts, imported and exported names, references, lines and blocks.

use crate::bytes;
use crate::error::{DbgFlowError, ErrorView};
use crate::ida::direct;
use crate::ida::direct::{
    find_function_by_ea, format_ea, page_filter_matches, page_vec, parse_ea, xref_included,
    FunctionInfo, FunctionView, PageInfo, RawXrefBlock, RichSymbols, XrefKind, BADADDR,
};
use crate::scan::contains_char;
use crate::text;
use crate::text::{bytes_of, chars_of};
use vstd::prelude::*;

verus! {

/// Which part of a list is wanted.
#[derive(Debug)]
pub struct PageRequest {
    pub filter: Option<String>,
    pub offset: usize,
    pub limit: Option<usize>,
}

impl PageRequest {
    /// The text that the items must hold.
    pub open spec fn wanted(self) -> Option<Seq<char>> {
        text::view_opt(self.filter)
    }

    /// The part of a list.
    pub open spec fn part<T>(self, items: Seq<T>) -> Seq<T> {
        direct::page_of(items, self.offset as int, direct::page_limit(self.limit) as int)
    }
}

fn filter_text(request: &PageRequest) -> (r: Option<&str>)
    ensures
        (match r {
            Some(f) => Some(f@),
            None => None,
        }) == request.wanted(),
{
    match &request.filter {
        Some(filter) => Some(filter.as_str()),
        None => None,
    }
}

/// The address that a target stands for, if it is written as one; or else the address that the
/// library finds for the name.
pub open spec fn target_address(
    symbols: direct::SymbolsView,
    target: Seq<char>,
    named: u64,
) -> Result<nat, Seq<char>> {
    match direct::read_ea(target) {
        Some(ea) => Ok(ea),
        None => if !symbols.has("get_name_ea"@) {
            Err(
                "IDA direct rich API capability "@ + "name lookup"@
                    + " is unavailable; missing or unavailable symbols: "@ + symbols.missing_text(),
            )
        } else if target.contains('\0') {
            Err("IDA target contains NUL"@)
        } else if named == BADADDR {
            Err("IDA target was not found"@)
        } else {
            Ok(named as nat)
        },
    }
}

/// The address that a target stands for. The caller gives the address that the library has for
/// the name, which is looked at only if the target is not written as an address.
pub fn resolve_ea(symbols: &RichSymbols, target: &str, named: u64) -> (r: Result<
    u64,
    DbgFlowError,
>)
    ensures
        match r {
            Ok(ea) => target_address(symbols@, target@, named) == Ok::<nat, Seq<char>>(ea as nat),
            Err(e) => target_address(symbols@, target@, named) matches Err(m) && e@
                == ErrorView::Backend(m),
        },
{
    if let Some(ea) = parse_ea(target) {
        return Ok(ea);
    }
    if !symbols.has("get_name_ea") {
        return Err(symbols.unsupported_error("name lookup"));
    }
    if contains_char(target, '\0') {
        return Err(DbgFlowError::backend("IDA target contains NUL"));
    }
    if named == BADADDR {
        return Err(DbgFlowError::backend("IDA target was not found"));
    }
    Ok(named)
}

/// The text of the library's own kind of string: one zero at its end is not part of it.
pub open spec fn library_text(b: Seq<u8>) -> Seq<char> {
    bytes::utf8_lossy(
        if b.len() > 0 && b.last() == 0 {
            b.drop_last()
        } else {
            b
        },
    )
}

/// The text of the library's own kind of string.
pub fn qstring_text(b: Vec<u8>) -> (r: String)
    ensures
        r@ == library_text(b@),
{
    let mut b = b;
    let size: usize = b.len();
    if size > 0 && b[size - 1] == 0 {
        b.pop();
    }
    bytes::utf8_lossy_text(b.as_slice())
}

/// The text of a literal: one that the library can not read, or that is empty, is none.
pub fn literal_text(read: i64, value: Option<String>) -> (r: Option<String>)
    ensures
        text::view_opt(r) == match value {
            Some(v) => if read > 0 && v@.len() > 0 {
                Some(v@)
            } else {
                None
            },
            None => None,
        },
{
    match value {
        Some(v) => if read > 0 && chars_of(v.as_str()).len() > 0 {
            Some(v)
        } else {
            None
        },
        None => None,
    }
}

/// A line without its colours: as the library gives it back, or as it was if the library gives
/// nothing back. The library can not take one that holds a zero.
pub open spec fn untagged(line: Seq<char>, removes: bool, stripped: Option<Seq<char>>) -> Result<
    Seq<char>,
    Seq<char>,
> {
    if removes && line.contains('\0') {
        Err("IDA disassembly contains NUL"@)
    } else {
        match stripped {
            Some(s) => if removes {
                Ok(s)
            } else {
                Ok(line)
            },
            None => Ok(line),
        }
    }
}

/// A line without its colours. The caller says whether the library can remove them, and what it
/// has given back.
pub fn remove_tags(line: &str, removes: bool, stripped: Option<String>) -> (r: Result<
    String,
    DbgFlowError,
>)
    ensures
        match r {
            Ok(t) => untagged(line@, removes, text::view_opt(stripped)) == Ok::<
                Seq<char>,
                Seq<char>,
            >(t@),
            Err(e) => untagged(line@, removes, text::view_opt(stripped)) matches Err(m) && e@
                == ErrorView::Backend(m),
        },
{
    if removes && contains_char(line, '\0') {
        return Err(DbgFlowError::backend("IDA disassembly contains NUL"));
    }
    match stripped {
        Some(s) => if removes {
            Ok(s)
        } else {
            Ok(line.to_owned())
        },
        None => Ok(line.to_owned()),
    }
}

/// The size of the item at an address, if the library knows where it ends.
pub fn item_size(ea: u64, end: u64) -> (r: Option<u64>)
    ensures
        r == (if end <= ea || end == BADADDR {
            None
        } else {
            Some((end - ea) as u64)
        }),
{
    if end <= ea || end == BADADDR {
        None
    } else {
        Some(end - ea)
    }
}

/// A text that was found in a program.
#[derive(Debug)]
pub struct FoundText {
    pub ea: u64,
    pub value: String,
}

/// A text in the answer.
#[derive(Debug)]
pub struct StringInfo {
    pub index: usize,
    pub ea: String,
    pub length: usize,
    pub value: String,
}

/// The mathematical form of a text in the answer.
#[verifier::ext_equal]
pub struct StringView {
    pub index: nat,
    pub ea: Seq<char>,
    pub length: nat,
    pub value: Seq<char>,
}

impl View for StringInfo {
    type V = StringView;

    open spec fn view(&self) -> StringView {
        StringView {
            index: self.index as nat,
            ea: self.ea@,
            length: self.length as nat,
            value: self.value@,
        }
    }
}

/// The views of a list of texts in the answer.
pub open spec fn strings_view(v: Seq<StringInfo>) -> Seq<StringView> {
    v.map_values(|s: StringInfo| s@)
}

/// The texts that hold the filter, or whose address does. They are counted as they are kept.
pub open spec fn kept_strings(found: Seq<FoundText>, filter: Option<Seq<char>>) -> Seq<StringView>
    decreases found.len(),
{
    if found.len() == 0 {
        Seq::empty()
    } else {
        let before = kept_strings(found.drop_last(), filter);
        let last = found.last();
        if direct::filter_matches(filter, seq![last.value@, direct::ea_text(last.ea)]) {
            before.push(
                StringView {
                    index: before.len(),
                    ea: direct::ea_text(last.ea),
                    length: vstd::utf8::encode_utf8(last.value@).len(),
                    value: last.value@,
                },
            )
        } else {
            before
        }
    }
}

/// The texts that a request asks for.
pub fn list_strings(found: &[FoundText], request: &PageRequest) -> (r: Vec<StringInfo>)
    ensures
        strings_view(r@) == request.part(kept_strings(found@, request.wanted())),
{
    let mut kept: Vec<StringInfo> = Vec::new();
    let mut i: usize = 0;
    assert(found@.take(0) =~= Seq::<FoundText>::empty());
    assert(strings_view(kept@) =~= kept_strings(found@.take(0), request.wanted()));
    while i < found.len()
        invariant
            i <= found@.len(),
            strings_view(kept@) == kept_strings(found@.take(i as int), request.wanted()),
        decreases found@.len() - i,
    {
        assert(found@.take(i + 1).drop_last() =~= found@.take(i as int));
        let item = &found[i];
        let ea = format_ea(item.ea);
        let fields: [&str; 2] = [item.value.as_str(), ea.as_str()];
        assert(direct::field_views(fields@) =~= seq![item.value@, direct::ea_text(item.ea)]);
        if page_filter_matches(filter_text(request), &fields) {
            let index: usize = kept.len();
            let length: usize = bytes_of(item.value.as_str()).len();
            kept.push(StringInfo { index, ea, length, value: item.value.clone() });
            assert(strings_view(kept@) =~= kept_strings(found@.take(i + 1), request.wanted()));
        }
        i += 1;
    }
    assert(found@.take(i as int) =~= found@);
    let ghost all = kept@;
    let (page, _) = page_vec(kept, request.offset, request.limit);
    assert(strings_view(page@) =~= request.part(strings_view(all)));
    page
}

/// A name that a program imports. The ordinal is zero if it is imported by name.
#[derive(Debug)]
pub struct FoundImport {
    pub ea: u64,
    pub module: Option<String>,
    pub name: Option<String>,
    pub ordinal: u64,
}

/// An imported name in the answer.
#[derive(Debug)]
pub struct ImportInfo {
    pub index: usize,
    pub ea: String,
    pub module: Option<String>,
    pub name: Option<String>,
    pub ordinal: Option<u64>,
}

/// The mathematical form of an imported name.
#[verifier::ext_equal]
pub struct ImportView {
    pub index: nat,
    pub ea: Seq<char>,
    pub module: Option<Seq<char>>,
    pub name: Option<Seq<char>>,
    pub ordinal: Option<u64>,
}

impl View for ImportInfo {
    type V = ImportView;

    open spec fn view(&self) -> ImportView {
        ImportView {
            index: self.index as nat,
            ea: self.ea@,
            module: text::view_opt(self.module),
            name: text::view_opt(self.name),
            ordinal: self.ordinal,
        }
    }
}

/// The views of a list of imported names.
pub open spec fn imports_view(v: Seq<ImportInfo>) -> Seq<ImportView> {
    v.map_values(|s: ImportInfo| s@)
}

/// A text that may be missing; a missing one is empty.
pub open spec fn or_empty(o: Option<Seq<char>>) -> Seq<char> {
    match o {
        Some(s) => s,
        None => ""@,
    }
}

fn text_or_empty(o: &Option<String>) -> (r: &str)
    ensures
        r@ == or_empty(text::view_opt(*o)),
{
    match o {
        Some(s) => s.as_str(),
        None => "",
    }
}

/// The imported names that hold the filter in their address, module or name. They keep the
/// numbers that they have among all.
pub open spec fn kept_imports(found: Seq<FoundImport>, filter: Option<Seq<char>>) -> Seq<ImportView>
    decreases found.len(),
{
    if found.len() == 0 {
        Seq::empty()
    } else {
        let before = kept_imports(found.drop_last(), filter);
        let last = found.last();
        let ea = direct::ea_text(last.ea);
        let module = text::view_opt(last.module);
        let name = text::view_opt(last.name);
        if direct::filter_matches(filter, seq![ea, or_empty(module), or_empty(name)]) {
            before.push(
                ImportView {
                    index: (found.len() - 1) as nat,
                    ea,
                    module,
                    name,
                    ordinal: if last.ordinal != 0 {
                        Some(last.ordinal)
                    } else {
                        None
                    },
                },
            )
        } else {
            before
        }
    }
}

/// The imported names that a request asks for.
pub fn list_imports(found: &[FoundImport], request: &PageRequest) -> (r: Vec<ImportInfo>)
    ensures
        imports_view(r@) == request.part(kept_imports(found@, request.wanted())),
{
    let mut kept: Vec<ImportInfo> = Vec::new();
    let mut i: usize = 0;
    assert(found@.take(0) =~= Seq::<FoundImport>::empty());
    assert(imports_view(kept@) =~= kept_imports(found@.take(0), request.wanted()));
    while i < found.len()
        invariant
            i <= found@.len(),
            imports_view(kept@) == kept_imports(found@.take(i as int), request.wanted()),
        decreases found@.len() - i,
    {
        assert(found@.take(i + 1).drop_last() =~= found@.take(i as int));
        let item = &found[i];
        let ea = format_ea(item.ea);
        let fields: [&str; 3] = [
            ea.as_str(),
            text_or_empty(&item.module),
            text_or_empty(&item.name),
        ];
        assert(direct::field_views(fields@) =~= seq![
            direct::ea_text(item.ea),
            or_empty(text::view_opt(item.module)),
            or_empty(text::view_opt(item.name)),
        ]);
        if page_filter_matches(filter_text(request), &fields) {
            let ordinal: Option<u64> = if item.ordinal != 0 {
                Some(item.ordinal)
            } else {
                None
            };
            kept.push(
                ImportInfo {
                    index: i,
                    ea,
                    module: text::copy_opt(&item.module),
                    name: text::copy_opt(&item.name),
                    ordinal,
                },
            );
            assert(imports_view(kept@) =~= kept_imports(found@.take(i + 1), request.wanted()));
        }
        i += 1;
    }
    assert(found@.take(i as int) =~= found@);
    let ghost all = kept@;
    let (page, _) = page_vec(kept, request.offset, request.limit);
    assert(imports_view(page@) =~= request.part(imports_view(all)));
    page
}

/// A name that a program exports. Without an address it is not known where it is.
#[derive(Debug)]
pub struct FoundExport {
    pub ea: Option<u64>,
    pub name: Option<String>,
    pub ordinal: u64,
}

/// An exported name in the answer.
#[derive(Debug)]
pub struct ExportInfo {
    pub index: usize,
    pub ea: String,
    pub name: Option<String>,
    pub ordinal: u64,
}

/// The mathematical form of an exported name.
#[verifier::ext_equal]
pub struct ExportView {
    pub index: nat,
    pub ea: Seq<char>,
    pub name: Option<Seq<char>>,
    pub ordinal: u64,
}

impl View for ExportInfo {
    type V = ExportView;

    open spec fn view(&self) -> ExportView {
        ExportView {
            index: self.index as nat,
            ea: self.ea@,
            name: text::view_opt(self.name),
            ordinal: self.ordinal,
        }
    }
}

/// The views of a list of exported names.
pub open spec fn exports_view(v: Seq<ExportInfo>) -> Seq<ExportView> {
    v.map_values(|s: ExportInfo| s@)
}

/// An address that may not be known.
pub open spec fn known_ea(ea: Option<u64>) -> Seq<char> {
    match ea {
        Some(a) => if a == BADADDR {
            "unknown"@
        } else {
            direct::ea_text(a)
        },
        None => "unknown"@,
    }
}

fn write_known_ea(ea: Option<u64>) -> (r: String)
    ensures
        r@ == known_ea(ea),
{
    match ea {
        Some(a) => if a == BADADDR {
            "unknown".to_owned()
        } else {
            format_ea(a)
        },
        None => "unknown".to_owned(),
    }
}

/// The exported names that hold the filter in their address or name. They keep the numbers that
/// they have among all.
pub open spec fn kept_exports(found: Seq<FoundExport>, filter: Option<Seq<char>>) -> Seq<ExportView>
    decreases found.len(),
{
    if found.len() == 0 {
        Seq::empty()
    } else {
        let before = kept_exports(found.drop_last(), filter);
        let last = found.last();
        let ea = known_ea(last.ea);
        let name = text::view_opt(last.name);
        if direct::filter_matches(filter, seq![ea, or_empty(name), ""@]) {
            before.push(
                ExportView { index: (found.len() - 1) as nat, ea, name, ordinal: last.ordinal },
            )
        } else {
            before
        }
    }
}

/// The exported names that a request asks for.
pub fn list_exports(found: &[FoundExport], request: &PageRequest) -> (r: Vec<ExportInfo>)
    ensures
        exports_view(r@) == request.part(kept_exports(found@, request.wanted())),
{
    let mut kept: Vec<ExportInfo> = Vec::new();
    let mut i: usize = 0;
    assert(found@.take(0) =~= Seq::<FoundExport>::empty());
    assert(exports_view(kept@) =~= kept_exports(found@.take(0), request.wanted()));
    while i < found.len()
        invariant
            i <= found@.len(),
            exports_view(kept@) == kept_exports(found@.take(i as int), request.wanted()),
        decreases found@.len() - i,
    {
        assert(found@.take(i + 1).drop_last() =~= found@.take(i as int));
        let item = &found[i];
        let ea = write_known_ea(item.ea);
        let fields: [&str; 3] = [ea.as_str(), text_or_empty(&item.name), ""];
        assert(direct::field_views(fields@) =~= seq![
            known_ea(item.ea),
            or_empty(text::view_opt(item.name)),
            ""@,
        ]);
        if page_filter_matches(filter_text(request), &fields) {
            kept.push(
                ExportInfo {
                    index: i,
                    ea,
                    name: text::copy_opt(&item.name),
                    ordinal: item.ordinal,
                },
            );
            assert(exports_view(kept@) =~= kept_exports(found@.take(i + 1), request.wanted()));
        }
        i += 1;
    }
    assert(found@.take(i as int) =~= found@);
    let ghost all = kept@;
    let (page, _) = page_vec(kept, request.offset, request.limit);
    assert(exports_view(page@) =~= request.part(exports_view(all)));
    page
}

/// The outcome of a query for a function.
#[derive(Debug)]
pub struct FunctionLookup {
    pub query: String,
    pub function: Option<FunctionInfo>,
    pub error: Option<String>,
}

/// The outcome of a query for a function. The caller gives the address that the query stands for,
/// if there is one.
pub fn lookup_result(functions: &[FunctionInfo], query: String, ea: Option<u64>) -> (r:
    FunctionLookup)
    ensures
        r.query == query,
        direct::function_opt(r.function) == match ea {
            Some(a) => if direct::function_at(direct::functions_view(functions@), a) is Some {
                direct::function_at(direct::functions_view(functions@), a)
            } else {
                direct::function_named(direct::functions_view(functions@), query@)
            },
            None => direct::function_named(direct::functions_view(functions@), query@),
        },
        text::view_opt(r.error) == (if r.function is Some {
            None
        } else {
            Some("function not found"@)
        }),
{
    let function = direct::lookup_function(functions, query.as_str(), ea);
    let error = match &function {
        Some(_) => None,
        None => Some("function not found".to_owned()),
    };
    FunctionLookup { query, function, error }
}

/// The addresses between which lines are shown: those of the function that an address lies in, or
/// else from the address to where the next item begins, and at least one byte.
pub open spec fn shown_range(functions: Seq<FunctionView>, ea: u64, next: u64) -> (nat, nat) {
    let past = if ea == u64::MAX {
        ea as nat
    } else {
        (ea + 1) as nat
    };
    let until = if next >= past {
        next as nat
    } else {
        past
    };
    match direct::function_at(functions, ea) {
        Some(f) => (
            match direct::read_ea(f.start_ea) {
                Some(start) => start,
                None => ea as nat,
            },
            match direct::read_ea(f.end_ea) {
                Some(end) => end,
                None => until,
            },
        ),
        None => (ea as nat, until),
    }
}

/// The function that an address lies in, and the addresses between which lines are shown. The
/// caller gives the address of the next item.
pub fn disassembly_range(functions: &[FunctionInfo], ea: u64, next: u64) -> (r: (
    Option<FunctionInfo>,
    u64,
    u64,
))
    ensures
        direct::function_opt(r.0) == direct::function_at(direct::functions_view(functions@), ea),
        (r.1 as nat, r.2 as nat) == shown_range(direct::functions_view(functions@), ea, next),
{
    let past: u64 = if ea == u64::MAX {
        ea
    } else {
        ea + 1
    };
    let until: u64 = if next >= past {
        next
    } else {
        past
    };
    match find_function_by_ea(functions, ea) {
        Some(function) => {
            let start: u64 = match parse_ea(function.start_ea.as_str()) {
                Some(start) => start,
                None => ea,
            };
            let end: u64 = match parse_ea(function.end_ea.as_str()) {
                Some(end) => end,
                None => until,
            };
            (Some(function), start, end)
        },
        None => (None, ea, until),
    }
}

/// The place of a page of lines: an address without a line is not counted among those returned.
pub fn lines_page(page: PageInfo, lines: usize) -> (r: PageInfo)
    ensures
        r == (PageInfo { returned: lines, ..page }),
{
    PageInfo {
        offset: page.offset,
        limit: page.limit,
        total: page.total,
        returned: lines,
        next_offset: page.next_offset,
    }
}

/// Which way references are followed.
#[derive(Debug, Clone, Copy, PartialEq, Eq, Structural)]
pub enum XrefDirection {
    From,
    To,
    Both,
}

/// A reference as the library reports it, with the letter for its type if the library has one.
#[derive(Debug, Clone, Copy)]
pub struct FoundXref {
    pub block: RawXrefBlock,
    pub letter: Option<u8>,
}

/// The letter that stands for the type of a reference.
pub open spec fn type_letter(letter: Option<u8>) -> char {
    match letter {
        Some(b) => b as char,
        None => '?',
    }
}

/// A reference in the answer.
#[derive(Debug)]
pub struct XrefInfo {
    pub direction: &'static str,
    pub from: String,
    pub to: String,
    pub kind: &'static str,
    pub letter: char,
    pub user: bool,
}

/// The mathematical form of a reference in the answer.
#[verifier::ext_equal]
pub struct XrefView {
    pub direction: Seq<char>,
    pub from: Seq<char>,
    pub to: Seq<char>,
    pub kind: Seq<char>,
    pub letter: char,
    pub user: bool,
}

impl View for XrefInfo {
    type V = XrefView;

    open spec fn view(&self) -> XrefView {
        XrefView {
            direction: self.direction@,
            from: self.from@,
            to: self.to@,
            kind: self.kind@,
            letter: self.letter,
            user: self.user,
        }
    }
}

/// The views of a list of references.
pub open spec fn xrefs_view(v: Seq<XrefInfo>) -> Seq<XrefView> {
    v.map_values(|x: XrefInfo| x@)
}

/// The references of the wanted kind.
pub open spec fn kept_xrefs(found: Seq<FoundXref>, direction: Seq<char>, kind: XrefKind) -> Seq<
    XrefView,
>
    decreases found.len(),
{
    if found.len() == 0 {
        Seq::empty()
    } else {
        let before = kept_xrefs(found.drop_last(), direction, kind);
        let last = found.last();
        if kind == XrefKind::Any || (kind == XrefKind::Code) == last.block.iscode {
            before.push(
                XrefView {
                    direction,
                    from: direct::ea_text(last.block.from),
                    to: direct::ea_text(last.block.to),
                    kind: if last.block.iscode {
                        "code"@
                    } else {
                        "data"@
                    },
                    letter: type_letter(last.letter),
                    user: last.block.user,
                },
            )
        } else {
            before
        }
    }
}

/// Adds the references of the wanted kind.
pub fn collect_xrefs(
    found: &[FoundXref],
    direction: &'static str,
    kind: XrefKind,
    out: &mut Vec<XrefInfo>,
)
    ensures
        xrefs_view(final(out)@) == xrefs_view(old(out)@) + kept_xrefs(found@, direction@, kind),
{
    let ghost before = xrefs_view(out@);
    let mut i: usize = 0;
    assert(found@.take(0) =~= Seq::<FoundXref>::empty());
    assert(xrefs_view(out@) =~= before + kept_xrefs(found@.take(0), direction@, kind));
    while i < found.len()
        invariant
            i <= found@.len(),
            xrefs_view(out@) == before + kept_xrefs(found@.take(i as int), direction@, kind),
        decreases found@.len() - i,
    {
        assert(found@.take(i + 1).drop_last() =~= found@.take(i as int));
        let ghost so_far = out@;
        let item = &found[i];
        if xref_included(kind, &item.block) {
            let name: &'static str = if item.block.iscode {
                "code"
            } else {
                "data"
            };
            let letter: char = match item.letter {
                Some(b) => b as char,
                None => '?',
            };
            out.push(
                XrefInfo {
                    direction,
                    from: format_ea(item.block.from),
                    to: format_ea(item.block.to),
                    kind: name,
                    letter,
                    user: item.block.user,
                },
            );
            assert(xrefs_view(out@) =~= xrefs_view(so_far).push(out@.last()@));
            assert(xrefs_view(out@) =~= before + kept_xrefs(
                found@.take(i + 1),
                direction@,
                kind,
            ));
        }
        i += 1;
    }
    assert(found@.take(i as int) =~= found@);
}

/// All references that a request asks for: those from an address come before those to it.
pub open spec fn wanted_xrefs(
    from: Seq<FoundXref>,
    to: Seq<FoundXref>,
    direction: XrefDirection,
    kind: XrefKind,
) -> Seq<XrefView> {
    let leaving = kept_xrefs(from, "from"@, kind);
    let coming = kept_xrefs(to, "to"@, kind);
    match direction {
        XrefDirection::From => leaving,
        XrefDirection::To => coming,
        XrefDirection::Both => leaving + coming,
    }
}

/// The references that a request asks for, and their place.
pub fn list_xrefs(
    from: &[FoundXref],
    to: &[FoundXref],
    direction: XrefDirection,
    kind: XrefKind,
    offset: usize,
    limit: Option<usize>,
) -> (r: (Vec<XrefInfo>, PageInfo))
    ensures
        xrefs_view(r.0@) == direct::page_of(
            wanted_xrefs(from@, to@, direction, kind),
            offset as int,
            direct::page_limit(limit) as int,
        ),
        r.1 == (PageInfo {
            offset,
            limit: direct::page_limit(limit),
            total: wanted_xrefs(from@, to@, direction, kind).len() as usize,
            returned: r.0@.len() as usize,
            next_offset: if offset + r.0@.len() < wanted_xrefs(from@, to@, direction, kind).len() {
                Some((offset + r.0@.len()) as usize)
            } else {
                None
            },
        }),
{
    let mut xrefs: Vec<XrefInfo> = Vec::new();
    let ghost none = xrefs_view(xrefs@);
    assert(none =~= Seq::<XrefView>::empty());
    if direction != XrefDirection::To {
        collect_xrefs(from, "from", kind, &mut xrefs);
    }
    if direction != XrefDirection::From {
        collect_xrefs(to, "to", kind, &mut xrefs);
    }
    let ghost all = xrefs@;
    assert(xrefs_view(all) =~= wanted_xrefs(from@, to@, direction, kind));
    let r = page_vec(xrefs, offset, limit);
    assert(xrefs_view(r.0@) =~= direct::page_of(
        xrefs_view(all),
        offset as int,
        direct::page_limit(limit) as int,
    ));
    r
}

/// A block of a function.
#[derive(Debug)]
pub struct BasicBlockInfo {
    pub id: u64,
    pub start_ea: String,
    pub end_ea: String,
    pub successors: Vec<u64>,
    pub predecessors: Vec<u64>,
}

/// The blocks of the function that a target lies in.
#[derive(Debug)]
pub struct BasicBlocksResult {
    pub target: String,
    pub function: Option<FunctionInfo>,
    pub blocks: Vec<BasicBlockInfo>,
    pub error: Option<String>,
}

/// The blocks of the function that a target lies in: the whole function is one block.
pub fn basic_blocks(functions: &[FunctionInfo], target: String, ea: u64) -> (r: BasicBlocksResult)
    ensures
        r.target == target,
        direct::function_opt(r.function) == direct::function_at(
            direct::functions_view(functions@),
            ea,
        ),
        match direct::function_at(direct::functions_view(functions@), ea) {
            Some(f) => {
                &&& r.blocks@.len() == 1
                &&& r.blocks@[0].id == 0
                &&& r.blocks@[0].start_ea@ == f.start_ea
                &&& r.blocks@[0].end_ea@ == f.end_ea
                &&& r.blocks@[0].successors@.len() == 0
                &&& r.blocks@[0].predecessors@.len() == 0
                &&& r.error is None
            },
            None => r.blocks@.len() == 0 && text::view_opt(r.error) == Some(
                "target is not inside a function"@,
            ),
        },
{
    let mut blocks: Vec<BasicBlockInfo> = Vec::new();
    match find_function_by_ea(functions, ea) {
        Some(function) => {
            blocks.push(
                BasicBlockInfo {
                    id: 0,
                    start_ea: function.start_ea.clone(),
                    end_ea: function.end_ea.clone(),
                    successors: Vec::new(),
                    predecessors: Vec::new(),
                },
            );
            BasicBlocksResult { target, function: Some(function), blocks, error: None }
        },
        None => BasicBlocksResult {
            target,
            function: None,
            blocks,
            error: Some("target is not inside a function".to_owned()),
        },
    }
}

/// The outcome of a request for the source of a function.
#[derive(Debug)]
pub struct DecompileResult {
    pub target: String,
    pub function: Option<FunctionInfo>,
    pub code: Option<String>,
    pub error: Option<String>,
}

/// The outcome of a request for the source of a function, which the library can not give.
pub fn undecompiled(functions: &[FunctionInfo], target: String, ea: u64) -> (r: DecompileResult)
    ensures
        r.target == target,
        direct::function_opt(r.function) == direct::function_at(
            direct::functions_view(functions@),
            ea,
        ),
        r.code is None,
        text::view_opt(r.error) == Some("Hex-Rays direct decompiler dispatcher is unavailable"@),
{
    DecompileResult {
        target,
        function: find_function_by_ea(functions, ea),
        code: None,
        error: Some("Hex-Rays direct decompiler dispatcher is unavailable".to_owned()),
    }
}

} // verus!
