//! The analysis library called directly: which of its functions are there, and what its answers
//! mean.

use crate::error::{DbgFlowError, ErrorView};
use crate::ida::install::normalize_ida_runtime_path;
use crate::ida::install;
use crate::scan;
use crate::scan::{contains_text, lower_text, parse_text, part, same_fold, starts_with, trim_text};
use crate::text;
use crate::text::{
    cat2, cat3, cat4, cat5, chars_of, copy_opt, copy_texts, decimal_text, hex_text, is_among,
    join_texts, signed_decimal_text,
};
use vstd::prelude::*;

verus! {

/// The address that stands for none.
pub const BADADDR: u64 = 18446744073709551615;

pub const DEFAULT_PAGE_LIMIT: usize = 100;

pub const MAX_PAGE_LIMIT: usize = 10000;

pub const MAX_SEGMENTS: i32 = 10000;

pub const MAX_FUNCTIONS: usize = 1000000;

pub const DIRECT_VERSION_GATE: &'static str = "IDA Professional 9.3 x64";

/// A reference as the library reports it.
#[derive(Debug, Clone, Copy, PartialEq, Eq, Structural)]
pub struct RawXrefBlock {
    pub from: u64,
    pub to: u64,
    pub iscode: bool,
    pub type_: u8,
    pub user: bool,
}

impl Default for RawXrefBlock {
    fn default() -> (r: RawXrefBlock)
        ensures
            r == (RawXrefBlock {
                from: BADADDR,
                to: BADADDR,
                iscode: false,
                type_: 0,
                user: false,
            }),
    {
        RawXrefBlock { from: BADADDR, to: BADADDR, iscode: false, type_: 0, user: false }
    }
}

/// The place that the library reports references to.
#[derive(Debug)]
pub struct XrefBlock {
    raw: RawXrefBlock,
}

impl View for XrefBlock {
    type V = RawXrefBlock;

    closed spec fn view(&self) -> RawXrefBlock {
        self.raw
    }
}

impl XrefBlock {
    /// A place that no reference was reported to.
    pub fn new() -> (r: XrefBlock)
        ensures
            r@ == (RawXrefBlock {
                from: BADADDR,
                to: BADADDR,
                iscode: false,
                type_: 0,
                user: false,
            }),
    {
        XrefBlock {
            raw: RawXrefBlock { from: BADADDR, to: BADADDR, iscode: false, type_: 0, user: false },
        }
    }

    /// The place for the library to write to.
    pub fn as_mut_ptr(&mut self) -> (r: &mut RawXrefBlock)
        ensures
            *r == old(self)@,
            final(self)@ == *final(r),
    {
        &mut self.raw
    }

    /// The reference that was reported last.
    pub fn raw(&self) -> (r: RawXrefBlock)
        ensures
            r == self@,
    {
        self.raw
    }
}

/// A type of the database.
#[derive(Debug, Clone, Copy)]
pub struct TinfoHandle;

/// A failure of the decompiler.
#[derive(Debug, Clone, Copy)]
pub struct HexraysFailure;

/// A decompiled function.
#[derive(Debug, Clone, Copy)]
pub struct CfuncHandle;

/// The number of functions of the library that are not always there.
pub const SYMBOL_COUNT: usize = 27;

/// The functions of the library that are not always there, in the order of their lookup.
pub open spec fn symbol_names() -> Seq<Seq<char>> {
    seq![
        "qfree"@,
        "get_ea_name"@,
        "get_name_ea"@,
        "get_func_name"@,
        "get_segm_name"@,
        "generate_disasm_line"@,
        "tag_remove"@,
        "next_head"@,
        "get_flags_ex"@,
        "get_item_end"@,
        "get_strlit_contents"@,
        "get_import_module_qty"@,
        "get_import_module_name"@,
        "enum_import_names"@,
        "get_entry_qty"@,
        "get_entry_ordinal"@,
        "get_entry"@,
        "get_entry_name"@,
        "xrefblk_t_first_from"@,
        "xrefblk_t_next_from"@,
        "xrefblk_t_first_to"@,
        "xrefblk_t_next_to"@,
        "xrefchar"@,
        "set_name"@,
        "set_cmt"@,
        "get_cmt"@,
        "apply_cdecl"@,
    ]
}

/// The functions of the library that are not always there, in the order of their lookup.
pub fn rich_symbols() -> (r: [&'static str; SYMBOL_COUNT])
    ensures
        r@.map_values(|s: &'static str| s@) == symbol_names(),
{
    let r = [
        "qfree",
        "get_ea_name",
        "get_name_ea",
        "get_func_name",
        "get_segm_name",
        "generate_disasm_line",
        "tag_remove",
        "next_head",
        "get_flags_ex",
        "get_item_end",
        "get_strlit_contents",
        "get_import_module_qty",
        "get_import_module_name",
        "enum_import_names",
        "get_entry_qty",
        "get_entry_ordinal",
        "get_entry",
        "get_entry_name",
        "xrefblk_t_first_from",
        "xrefblk_t_next_from",
        "xrefblk_t_first_to",
        "xrefblk_t_next_to",
        "xrefchar",
        "set_name",
        "set_cmt",
        "get_cmt",
        "apply_cdecl",
    ];
    assert(r@.map_values(|s: &'static str| s@) =~= symbol_names());
    r
}

/// Which of the functions are there, and whether the layouts that some of them need are known to
/// be right.
#[derive(Debug)]
pub struct RichSymbols {
    pub available: Vec<String>,
    pub missing_symbols: Vec<String>,
    pub qstring_layout_validated: bool,
    pub xrefblk_layout_validated: bool,
}

/// The mathematical form of which functions are there.
#[verifier::ext_equal]
pub struct SymbolsView {
    pub available: Seq<Seq<char>>,
    pub missing: Seq<Seq<char>>,
    pub qstring_layout_validated: bool,
    pub xrefblk_layout_validated: bool,
}

impl View for RichSymbols {
    type V = SymbolsView;

    open spec fn view(&self) -> SymbolsView {
        SymbolsView {
            available: text::views(self.available@),
            missing: text::views(self.missing_symbols@),
            qstring_layout_validated: self.qstring_layout_validated,
            xrefblk_layout_validated: self.xrefblk_layout_validated,
        }
    }
}

/// Those of the names that are exported by one of two libraries, or those that are not, in their
/// order.
pub open spec fn lookup(
    names: Seq<Seq<char>>,
    ida: Seq<Seq<char>>,
    idalib: Seq<Seq<char>>,
    found: bool,
) -> Seq<Seq<char>>
    decreases names.len(),
{
    if names.len() == 0 {
        Seq::empty()
    } else if (ida.contains(names.last()) || idalib.contains(names.last())) == found {
        lookup(names.drop_last(), ida, idalib, found).push(names.last())
    } else {
        lookup(names.drop_last(), ida, idalib, found)
    }
}

/// What the directly called library can do.
#[derive(Debug, Clone, Copy, PartialEq, Eq, Structural)]
pub struct DirectIdaCapabilities {
    pub names: bool,
    pub disassembly: bool,
    pub strings: bool,
    pub imports: bool,
    pub exports: bool,
    pub xrefs: bool,
    pub basic_blocks: bool,
    pub comments: bool,
    pub types: bool,
    pub decompiler: bool,
}

impl SymbolsView {
    /// Whether a function is there.
    pub open spec fn has(self, name: Seq<char>) -> bool {
        self.available.contains(name)
    }

    /// Whether texts can be read from the library.
    pub open spec fn reads_texts(self) -> bool {
        self.has("qfree"@) && self.qstring_layout_validated
    }

    /// What the library can do with the functions that are there.
    pub open spec fn can(self) -> DirectIdaCapabilities {
        DirectIdaCapabilities {
            names: self.reads_texts() && self.has("get_name_ea"@) && (self.has("get_ea_name"@)
                || self.has("get_func_name"@)),
            disassembly: self.reads_texts() && self.has("generate_disasm_line"@) && self.has(
                "tag_remove"@,
            ) && self.has("next_head"@) && self.has("get_flags_ex"@),
            strings: self.reads_texts() && self.has("next_head"@) && self.has("get_item_end"@)
                && self.has("get_strlit_contents"@),
            imports: self.reads_texts() && self.has("get_import_module_qty"@) && self.has(
                "get_import_module_name"@,
            ) && self.has("enum_import_names"@),
            exports: self.reads_texts() && self.has("get_entry_qty"@) && self.has(
                "get_entry_ordinal"@,
            ) && self.has("get_entry_name"@),
            xrefs: self.xrefblk_layout_validated && self.has("xrefblk_t_first_from"@) && self.has(
                "xrefblk_t_next_from"@,
            ) && self.has("xrefblk_t_first_to"@) && self.has("xrefblk_t_next_to"@),
            basic_blocks: self.has("next_head"@),
            comments: self.has("set_cmt"@),
            types: self.has("apply_cdecl"@),
            decompiler: false,
        }
    }

    /// The functions that are missing, as a text.
    pub open spec fn missing_text(self) -> Seq<char> {
        if self.missing.len() == 0 {
            "no missing symbol details were reported"@
        } else {
            text::joined(self.missing, ", "@)
        }
    }

    /// What is said of functions that are there but can not be used.
    pub open spec fn warnings(self) -> Seq<Seq<char>> {
        (if self.has("qfree"@) && !self.qstring_layout_validated {
            seq![
                "IDA direct qstring layout validation has not passed; qstring-dependent tools are disabled"@,
            ]
        } else if !self.reads_texts() {
            seq![
                "IDA direct rich API qstring support is unavailable because qfree was not exported"@,
            ]
        } else {
            Seq::empty()
        }) + (if self.has("xrefblk_t_first_from"@) && !self.xrefblk_layout_validated {
            seq![
                "IDA direct xrefblk_t layout validation has not passed; xref tools are disabled"@,
            ]
        } else {
            Seq::empty()
        }) + seq!["Hex-Rays direct decompiler dispatcher is unavailable in this build"@]
    }
}

/// Whether the library can do anything.
pub open spec fn some_capability(c: DirectIdaCapabilities) -> bool {
    c.names || c.disassembly || c.strings || c.imports || c.exports || c.xrefs || c.basic_blocks
        || c.comments || c.types || c.decompiler
}

/// Whether the library can do anything.
pub fn any_capability(capabilities: &DirectIdaCapabilities) -> (r: bool)
    ensures
        r == some_capability(*capabilities),
{
    capabilities.names || capabilities.disassembly || capabilities.strings || capabilities.imports
        || capabilities.exports || capabilities.xrefs || capabilities.basic_blocks
        || capabilities.comments || capabilities.types || capabilities.decompiler
}

/// What can be said of the directly called library.
#[derive(Debug)]
pub struct IdaRichApiStatus {
    pub available: bool,
    pub direct_bindings: bool,
    pub ida_version_gate: String,
    pub capabilities: DirectIdaCapabilities,
    pub missing_symbols: Vec<String>,
    pub hexrays: Option<String>,
    pub warnings: Vec<String>,
}

impl RichSymbols {
    /// Looks the functions up in two libraries. The caller gives the names that each of them
    /// exports. No layout is known to be right then.
    pub fn load(ida: &[String], idalib: &[String]) -> (r: RichSymbols)
        ensures
            r@ == (SymbolsView {
                available: lookup(
                    symbol_names(),
                    text::views(ida@),
                    text::views(idalib@),
                    true,
                ),
                missing: lookup(symbol_names(), text::views(ida@), text::views(idalib@), false),
                qstring_layout_validated: false,
                xrefblk_layout_validated: false,
            }),
    {
        let names = rich_symbols();
        let ghost all = symbol_names();
        let ghost a = text::views(ida@);
        let ghost b = text::views(idalib@);
        let mut available: Vec<String> = Vec::new();
        let mut missing_symbols: Vec<String> = Vec::new();
        let mut i: usize = 0;
        assert(text::views(available@) =~= lookup(all.take(0), a, b, true));
        assert(text::views(missing_symbols@) =~= lookup(all.take(0), a, b, false));
        assert(all.len() == SYMBOL_COUNT);
        while i < SYMBOL_COUNT
            invariant
                i <= SYMBOL_COUNT,
                names@.len() == SYMBOL_COUNT,
                all == names@.map_values(|s: &'static str| s@),
                a == text::views(ida@),
                b == text::views(idalib@),
                text::views(available@) == lookup(all.take(i as int), a, b, true),
                text::views(missing_symbols@) == lookup(all.take(i as int), a, b, false),
            decreases SYMBOL_COUNT - i,
        {
            let name = names[i];
            let ghost before = (available@, missing_symbols@);
            assert(all.take(i as int + 1).drop_last() =~= all.take(i as int));
            assert(all.take(i as int + 1).last() == name@);
            if is_among(name, ida) || is_among(name, idalib) {
                available.push(name.to_owned());
                assert(text::views(available@) =~= text::views(before.0).push(name@));
            } else {
                missing_symbols.push(name.to_owned());
                assert(text::views(missing_symbols@) =~= text::views(before.1).push(name@));
            }
            i += 1;
        }
        assert(all.take(SYMBOL_COUNT as int) =~= all);
        RichSymbols {
            available,
            missing_symbols,
            qstring_layout_validated: false,
            xrefblk_layout_validated: false,
        }
    }

    /// Whether a function is there.
    pub fn has(&self, name: &str) -> (r: bool)
        ensures
            r == self@.has(name@),
    {
        is_among(name, self.available.as_slice())
    }

    /// Whether texts can be read from the library.
    pub fn qstring_available(&self) -> (r: bool)
        ensures
            r == self@.reads_texts(),
    {
        self.has("qfree") && self.qstring_layout_validated
    }

    /// What the library can do.
    pub fn capabilities(&self) -> (r: DirectIdaCapabilities)
        ensures
            r == self@.can(),
    {
        let qstring = self.qstring_available();
        DirectIdaCapabilities {
            names: qstring && self.has("get_name_ea") && (self.has("get_ea_name") || self.has(
                "get_func_name",
            )),
            disassembly: qstring && self.has("generate_disasm_line") && self.has("tag_remove")
                && self.has("next_head") && self.has("get_flags_ex"),
            strings: qstring && self.has("next_head") && self.has("get_item_end") && self.has(
                "get_strlit_contents",
            ),
            imports: qstring && self.has("get_import_module_qty") && self.has(
                "get_import_module_name",
            ) && self.has("enum_import_names"),
            exports: qstring && self.has("get_entry_qty") && self.has("get_entry_ordinal")
                && self.has("get_entry_name"),
            xrefs: self.xrefblk_layout_validated && self.has("xrefblk_t_first_from") && self.has(
                "xrefblk_t_next_from",
            ) && self.has("xrefblk_t_first_to") && self.has("xrefblk_t_next_to"),
            basic_blocks: self.has("next_head"),
            comments: self.has("set_cmt"),
            types: self.has("apply_cdecl"),
            decompiler: false,
        }
    }

    /// What can be said of the library.
    pub fn rich_api_status(&self) -> (r: IdaRichApiStatus)
        ensures
            r.available == some_capability(self@.can()),
            r.direct_bindings,
            r.ida_version_gate@ == DIRECT_VERSION_GATE@,
            r.capabilities == self@.can(),
            text::views(r.missing_symbols@) == self@.missing,
            text::view_opt(r.hexrays) == Some("not_loaded"@),
            text::views(r.warnings@) == self@.warnings(),
    {
        let capabilities = self.capabilities();
        let available = any_capability(&capabilities);
        let mut warnings: Vec<String> = Vec::new();
        if self.has("qfree") && !self.qstring_layout_validated {
            warnings.push(
                "IDA direct qstring layout validation has not passed; qstring-dependent tools are disabled".to_owned(),
            );
        } else if !self.qstring_available() {
            warnings.push(
                "IDA direct rich API qstring support is unavailable because qfree was not exported".to_owned(),
            );
        }
        if self.has("xrefblk_t_first_from") && !self.xrefblk_layout_validated {
            warnings.push(
                "IDA direct xrefblk_t layout validation has not passed; xref tools are disabled".to_owned(),
            );
        }
        warnings.push(
            "Hex-Rays direct decompiler dispatcher is unavailable in this build".to_owned(),
        );
        assert(text::views(warnings@) =~= self@.warnings());
        IdaRichApiStatus {
            available,
            direct_bindings: true,
            ida_version_gate: DIRECT_VERSION_GATE.to_owned(),
            capabilities,
            missing_symbols: copy_texts(&self.missing_symbols),
            hexrays: Some("not_loaded".to_owned()),
            warnings,
        }
    }

    fn missing_text(&self) -> (r: String)
        ensures
            r@ == self@.missing_text(),
    {
        if self.missing_symbols.len() == 0 {
            "no missing symbol details were reported".to_owned()
        } else {
            join_texts(self.missing_symbols.as_slice(), ", ")
        }
    }

    /// Refuses a tool that the library can not serve.
    pub fn require_capability(&self, tool: &str, capable: bool) -> (r: Result<(), DbgFlowError>)
        ensures
            match r {
                Ok(_) => capable,
                Err(e) => !capable && e@ == ErrorView::Backend(
                    tool@ + " is unsupported by the IDA direct rich API for "@
                        + DIRECT_VERSION_GATE@ + "; missing or unavailable symbols: "@
                        + self@.missing_text(),
                ),
            },
    {
        if capable {
            return Ok(());
        }
        Err(
            DbgFlowError::Backend(
                cat5(
                    tool,
                    " is unsupported by the IDA direct rich API for ",
                    DIRECT_VERSION_GATE,
                    "; missing or unavailable symbols: ",
                    self.missing_text().as_str(),
                ),
            ),
        )
    }

    /// The error for something that the library can not do.
    pub fn unsupported_error(&self, capability: &str) -> (r: DbgFlowError)
        ensures
            r@ == ErrorView::Backend(
                "IDA direct rich API capability "@ + capability@
                    + " is unavailable; missing or unavailable symbols: "@ + self@.missing_text(),
            ),
    {
        DbgFlowError::Backend(
            cat4(
                "IDA direct rich API capability ",
                capability,
                " is unavailable; missing or unavailable symbols: ",
                self.missing_text().as_str(),
            ),
        )
    }
}

/// A name that is exported by one of the libraries is found, and any other is missing.
pub proof fn symbols_are_found_or_missing(
    names: Seq<Seq<char>>,
    ida: Seq<Seq<char>>,
    idalib: Seq<Seq<char>>,
    name: Seq<char>,
)
    ensures
        lookup(names, ida, idalib, true).contains(name) <==> names.contains(name) && (ida.contains(
            name,
        ) || idalib.contains(name)),
        lookup(names, ida, idalib, false).contains(name) <==> names.contains(name)
            && !ida.contains(name) && !idalib.contains(name),
    decreases names.len(),
{
    if names.len() > 0 {
        let front = names.drop_last();
        let last = names.last();
        symbols_are_found_or_missing(front, ida, idalib, name);
        let found = lookup(front, ida, idalib, true);
        let missing = lookup(front, ida, idalib, false);
        assert(names.contains(name) <==> front.contains(name) || last == name) by {
            assert(names =~= front.push(last));
            push_contains(front, last, name);
        }
        push_contains(found, last, name);
        push_contains(missing, last, name);
    }
}

proof fn push_contains(s: Seq<Seq<char>>, last: Seq<char>, name: Seq<char>)
    ensures
        s.push(last).contains(name) <==> s.contains(name) || last == name,
{
    let t = s.push(last);
    if s.contains(name) {
        let i = choose|i: int| 0 <= i < s.len() && s[i] == name;
        assert(t[i] == name);
    }
    if last == name {
        assert(t[s.len() as int] == name);
    }
    if t.contains(name) {
        let i = choose|i: int| 0 <= i < t.len() && t[i] == name;
        if i < s.len() {
            assert(s[i] == name);
        }
    }
}

/// What the version of the library means.
pub fn check_version(major: i32, minor: i32, build: i32) -> (r: Result<(), DbgFlowError>)
    ensures
        match r {
            Ok(_) => major == 9 && minor == 3,
            Err(e) => !(major == 9 && minor == 3) && e@ == ErrorView::Backend(
                "unsupported IDA version "@ + (text::signed_decimal(major as int) + "."@
                    + text::signed_decimal(minor as int) + "."@ + text::signed_decimal(
                    build as int,
                )) + "; expected 9.3"@,
            ),
        },
{
    if major == 9 && minor == 3 {
        return Ok(());
    }
    let version = cat5(
        signed_decimal_text(major as i64).as_str(),
        ".",
        signed_decimal_text(minor as i64).as_str(),
        ".",
        signed_decimal_text(build as i64).as_str(),
    );
    Err(
        DbgFlowError::Backend(
            cat3("unsupported IDA version ", version.as_str(), "; expected 9.3"),
        ),
    )
}

/// What a status code of the library means for an operation.
pub fn check_status(operation: &str, code: i32) -> (r: Result<(), DbgFlowError>)
    ensures
        match r {
            Ok(_) => code == 0,
            Err(e) => code != 0 && e@ == ErrorView::Backend(
                "IDA "@ + operation@ + " failed with code "@ + text::signed_decimal(code as int),
            ),
        },
{
    if code == 0 {
        Ok(())
    } else {
        Err(
            DbgFlowError::Backend(
                cat4(
                    "IDA ",
                    operation,
                    " failed with code ",
                    signed_decimal_text(code as i64).as_str(),
                ),
            ),
        )
    }
}

/// The path that the library opens a database by.
pub fn path_for_ida_open_database(path: &str) -> (r: String)
    ensures
        r@ == install::plain_path(path@),
{
    normalize_ida_runtime_path(path)
}

/// Checks the number of segments.
pub fn segment_count(count: i32) -> (r: Result<usize, DbgFlowError>)
    ensures
        match r {
            Ok(n) => 0 <= count <= MAX_SEGMENTS && n == count,
            Err(e) => !(0 <= count <= MAX_SEGMENTS) && e@ == ErrorView::Backend(
                "IDA returned invalid segment count "@ + text::signed_decimal(count as int),
            ),
        },
{
    if count < 0 || count > MAX_SEGMENTS {
        return Err(
            DbgFlowError::Backend(
                cat2(
                    "IDA returned invalid segment count ",
                    signed_decimal_text(count as i64).as_str(),
                ),
            ),
        );
    }
    Ok(count as usize)
}

/// Checks the number of functions.
pub fn function_count(count: usize) -> (r: Result<usize, DbgFlowError>)
    ensures
        match r {
            Ok(n) => count <= MAX_FUNCTIONS && n == count,
            Err(e) => count > MAX_FUNCTIONS && e@ == ErrorView::Backend(
                "IDA returned invalid function count "@ + text::decimal(count as nat),
            ),
        },
{
    if count > MAX_FUNCTIONS {
        return Err(
            DbgFlowError::Backend(
                cat2(
                    "IDA returned invalid function count ",
                    decimal_text(count as u64).as_str(),
                ),
            ),
        );
    }
    Ok(count)
}

/// An address as text.
pub open spec fn ea_text(value: u64) -> Seq<char> {
    "0x"@ + text::hex(value as nat)
}

/// An address as text.
pub fn format_ea(value: u64) -> (r: String)
    ensures
        r@ == ea_text(value),
{
    cat2("0x", hex_text(value).as_str())
}

/// Whether two addresses bound a range.
pub open spec fn is_range(start: u64, end: u64) -> bool {
    start != BADADDR && end != BADADDR && start < end
}

/// Checks a range.
pub fn validate_range(kind: &str, index: usize, start: u64, end: u64) -> (r: Result<
    (),
    DbgFlowError,
>)
    ensures
        match r {
            Ok(_) => is_range(start, end),
            Err(e) => !is_range(start, end) && e@ == ErrorView::Backend(
                "IDA returned invalid "@ + kind@ + " range at index "@ + text::decimal(
                    index as nat,
                ) + (": "@ + ea_text(start) + ".."@ + ea_text(end)),
            ),
        },
{
    if start == BADADDR || end == BADADDR || start >= end {
        let range = cat4(": ", format_ea(start).as_str(), "..", format_ea(end).as_str());
        return Err(
            DbgFlowError::Backend(
                cat5(
                    "IDA returned invalid ",
                    kind,
                    " range at index ",
                    decimal_text(index as u64).as_str(),
                    range.as_str(),
                ),
            ),
        );
    }
    Ok(())
}

/// The address that a text stands for: hexadecimal with or without a mark, or decimal if that is
/// the only way to read it.
pub open spec fn read_ea(value: Seq<char>) -> Option<nat> {
    let s = scan::trim(value);
    if s.len() == 0 {
        None
    } else if scan::starts(s, "0x"@) || scan::starts(s, "0X"@) {
        scan::parse_number(s.skip(2), 16, u64::MAX as nat)
    } else {
        match scan::parse_number(s, 16, u64::MAX as nat) {
            Some(n) => Some(n),
            None => scan::parse_number(s, 10, u64::MAX as nat),
        }
    }
}

/// The address that a text stands for.
pub fn parse_ea(value: &str) -> (r: Option<u64>)
    ensures
        match r {
            Some(n) => read_ea(value@) == Some(n as nat),
            None => read_ea(value@) is None,
        },
{
    let s = trim_text(value);
    if s.as_str().is_empty() {
        return None;
    }
    proof {
        reveal_strlit("0x");
        reveal_strlit("0X");
    }
    if starts_with(s.as_str(), "0x") || starts_with(s.as_str(), "0X") {
        let chars = chars_of(s.as_str());
        let size: usize = chars.len();
        let digits = part(&chars, 2, size);
        assert(digits@ =~= s@.skip(2));
        return parse_text(digits.as_str(), 16, u64::MAX);
    }
    match parse_text(s.as_str(), 16, u64::MAX) {
        Some(n) => Some(n),
        None => parse_text(s.as_str(), 10, u64::MAX),
    }
}

/// A text without white space at its ends is what trimming leaves of it.
proof fn trimmed_already(s: Seq<char>)
    requires
        s.len() > 0,
        !scan::is_white(s[0]),
        !scan::is_white(s.last()),
    ensures
        scan::trim(s) == s,
{
}

/// An address is read back from its text.
pub proof fn written_addresses_are_read(value: u64)
    ensures
        read_ea(ea_text(value)) == Some(value as nat),
{
    let s = ea_text(value);
    let digits = text::hex(value as nat);
    reveal_strlit("0x");
    scan::written_number_is_read_back(value as nat, 16, u64::MAX as nat);
    assert(digits.len() > 0 && digits[0] != '+') by {
        scan::digits_are_digits(value as nat, 16);
    }
    assert(!scan::is_white(s.last())) by {
        scan::digits_are_digits(value as nat, 16);
        assert(s.last() == digits.last());
        assert(scan::digit_value(digits[digits.len() - 1]) < 16);
    }
    assert(s[0] == '0');
    trimmed_already(s);
    assert(s.take(2) =~= "0x"@);
    assert(s.skip(2) =~= digits);
}

/// What is known of a function.
#[derive(Debug)]
pub struct FunctionInfo {
    pub index: usize,
    pub start_ea: String,
    pub end_ea: String,
    pub size: String,
    pub name: Option<String>,
    pub segment: Option<String>,
    pub prototype: Option<String>,
    pub flags: String,
}

/// The mathematical form of what is known of a function.
#[verifier::ext_equal]
pub struct FunctionView {
    pub index: usize,
    pub start_ea: Seq<char>,
    pub end_ea: Seq<char>,
    pub size: Seq<char>,
    pub name: Option<Seq<char>>,
    pub segment: Option<Seq<char>>,
    pub prototype: Option<Seq<char>>,
    pub flags: Seq<char>,
}

impl View for FunctionInfo {
    type V = FunctionView;

    open spec fn view(&self) -> FunctionView {
        FunctionView {
            index: self.index,
            start_ea: self.start_ea@,
            end_ea: self.end_ea@,
            size: self.size@,
            name: text::view_opt(self.name),
            segment: text::view_opt(self.segment),
            prototype: text::view_opt(self.prototype),
            flags: self.flags@,
        }
    }
}

impl FunctionInfo {
    /// A copy.
    pub fn duplicate(&self) -> (r: FunctionInfo)
        ensures
            r@ == self@,
    {
        FunctionInfo {
            index: self.index,
            start_ea: self.start_ea.clone(),
            end_ea: self.end_ea.clone(),
            size: self.size.clone(),
            name: copy_opt(&self.name),
            segment: copy_opt(&self.segment),
            prototype: copy_opt(&self.prototype),
            flags: self.flags.clone(),
        }
    }
}

/// What is known of a segment.
#[derive(Debug)]
pub struct SegmentInfo {
    pub index: usize,
    pub start_ea: String,
    pub end_ea: String,
    pub size: String,
    pub name: Option<String>,
    pub perm: String,
    pub bitness: u32,
}

/// The mathematical form of what is known of a segment.
#[verifier::ext_equal]
pub struct SegmentView {
    pub index: usize,
    pub start_ea: Seq<char>,
    pub end_ea: Seq<char>,
    pub size: Seq<char>,
    pub name: Option<Seq<char>>,
    pub perm: Seq<char>,
    pub bitness: u32,
}

impl View for SegmentInfo {
    type V = SegmentView;

    open spec fn view(&self) -> SegmentView {
        SegmentView {
            index: self.index,
            start_ea: self.start_ea@,
            end_ea: self.end_ea@,
            size: self.size@,
            name: text::view_opt(self.name),
            perm: self.perm@,
            bitness: self.bitness,
        }
    }
}

/// What a segment may be used for: to be read, written and run.
pub open spec fn perm_text(perm: u8) -> Seq<char> {
    seq![
        if (perm / 4) % 2 == 1 {
            'r'
        } else {
            '-'
        },
        if (perm / 2) % 2 == 1 {
            'w'
        } else {
            '-'
        },
        if perm % 2 == 1 {
            'x'
        } else {
            '-'
        },
    ]
}

/// What a segment may be used for.
pub fn format_perm(perm: u8) -> (r: String)
    ensures
        r@ == perm_text(perm),
{
    assert((perm & 4 != 0) == ((perm / 4) % 2 == 1)) by (bit_vector);
    assert((perm & 2 != 0) == ((perm / 2) % 2 == 1)) by (bit_vector);
    assert((perm & 1 != 0) == (perm % 2 == 1)) by (bit_vector);
    let mut r = String::new();
    if perm & 4 != 0 {
        r.push('r');
    } else {
        r.push('-');
    }
    if perm & 2 != 0 {
        r.push('w');
    } else {
        r.push('-');
    }
    if perm & 1 != 0 {
        r.push('x');
    } else {
        r.push('-');
    }
    assert(r@ =~= perm_text(perm));
    r
}

/// A segment as the library reports it.
#[derive(Debug, Clone, Copy, PartialEq, Eq, Structural)]
pub struct SegmentPrefix {
    pub start_ea: u64,
    pub end_ea: u64,
    pub perm: u8,
    pub bitness: u8,
}

/// The number of bits of an address.
pub open spec fn address_bits(bitness: u8) -> u32 {
    if bitness == 0 {
        16
    } else if bitness == 1 {
        32
    } else {
        64
    }
}

/// What is known of a segment that the library reported with a name. A segment that is no range,
/// or whose addresses have no known size, is an error.
pub fn segment_info(index: usize, segment: SegmentPrefix, name: Option<String>) -> (r: Result<
    SegmentInfo,
    DbgFlowError,
>)
    ensures
        match r {
            Ok(s) => is_range(segment.start_ea, segment.end_ea) && segment.bitness <= 2 && s@
                == (SegmentView {
                index,
                start_ea: ea_text(segment.start_ea),
                end_ea: ea_text(segment.end_ea),
                size: ea_text((segment.end_ea - segment.start_ea) as u64),
                name: text::view_opt(name),
                perm: perm_text(segment.perm),
                bitness: address_bits(segment.bitness),
            }),
            Err(e) => if !is_range(segment.start_ea, segment.end_ea) {
                e@ == ErrorView::Backend(
                    "IDA returned invalid segment range at index "@ + text::decimal(index as nat)
                        + (": "@ + ea_text(segment.start_ea) + ".."@ + ea_text(segment.end_ea)),
                )
            } else {
                segment.bitness > 2 && e@ == ErrorView::Backend(
                    "IDA returned invalid segment bitness "@ + text::decimal(
                        segment.bitness as nat,
                    ) + " at index "@ + text::decimal(index as nat),
                )
            },
        },
{
    if let Err(error) = validate_range("segment", index, segment.start_ea, segment.end_ea) {
        proof {
            reveal_strlit("IDA returned invalid ");
            reveal_strlit("segment");
            reveal_strlit(" range at index ");
            reveal_strlit("IDA returned invalid segment range at index ");
            assert("IDA returned invalid "@ + "segment"@ + " range at index "@
                =~= "IDA returned invalid segment range at index "@);
        }
        return Err(error);
    }
    if segment.bitness > 2 {
        return Err(
            DbgFlowError::Backend(
                cat4(
                    "IDA returned invalid segment bitness ",
                    decimal_text(segment.bitness as u64).as_str(),
                    " at index ",
                    decimal_text(index as u64).as_str(),
                ),
            ),
        );
    }
    Ok(
        SegmentInfo {
            index,
            start_ea: format_ea(segment.start_ea),
            end_ea: format_ea(segment.end_ea),
            size: format_ea(segment.end_ea - segment.start_ea),
            name,
            perm: format_perm(segment.perm),
            bitness: if segment.bitness == 0 {
                16
            } else if segment.bitness == 1 {
                32
            } else {
                64
            },
        },
    )
}

/// Whether an address lies in a range that is given as text.
pub open spec fn within(ea: u64, start: Seq<char>, end: Seq<char>) -> bool {
    read_ea(start) matches Some(s) && read_ea(end) matches Some(e) && s <= ea < e
}

fn is_within(ea: u64, start: &str, end: &str) -> (r: bool)
    ensures
        r == within(ea, start@, end@),
{
    match parse_ea(start) {
        None => false,
        Some(s) => match parse_ea(end) {
            None => false,
            Some(e) => ea >= s && ea < e,
        },
    }
}

/// The views of a list of functions.
pub open spec fn functions_view(v: Seq<FunctionInfo>) -> Seq<FunctionView> {
    v.map_values(|f: FunctionInfo| f@)
}

/// The first function that an address lies in.
pub open spec fn function_at(v: Seq<FunctionView>, ea: u64) -> Option<FunctionView>
    decreases v.len(),
{
    if v.len() == 0 {
        None
    } else if within(ea, v[0].start_ea, v[0].end_ea) {
        Some(v[0])
    } else {
        function_at(v.drop_first(), ea)
    }
}

/// The first function with a name, whatever the case of ASCII letters.
pub open spec fn function_named(v: Seq<FunctionView>, name: Seq<char>) -> Option<FunctionView>
    decreases v.len(),
{
    if v.len() == 0 {
        None
    } else if v[0].name matches Some(n) && scan::lower_all(n) == scan::lower_all(name) {
        Some(v[0])
    } else {
        function_named(v.drop_first(), name)
    }
}

/// The view of a function, if there is one.
pub open spec fn function_opt(o: Option<FunctionInfo>) -> Option<FunctionView> {
    match o {
        Some(f) => Some(f@),
        None => None,
    }
}

/// The first function that an address lies in.
pub fn find_function_by_ea(functions: &[FunctionInfo], ea: u64) -> (r: Option<FunctionInfo>)
    ensures
        function_opt(r) == function_at(functions_view(functions@), ea),
{
    let ghost all = functions_view(functions@);
    let mut i: usize = 0;
    assert(all.skip(0) =~= all);
    while i < functions.len()
        invariant
            i <= functions@.len(),
            all == functions_view(functions@),
            function_at(all, ea) == function_at(all.skip(i as int), ea),
        decreases functions@.len() - i,
    {
        assert(all.skip(i as int)[0] == functions@[i as int]@);
        assert(all.skip(i as int).drop_first() =~= all.skip(i as int + 1));
        if is_within(ea, functions[i].start_ea.as_str(), functions[i].end_ea.as_str()) {
            return Some(functions[i].duplicate());
        }
        i += 1;
    }
    None
}

/// The first function with a name, whatever the case of ASCII letters.
pub fn find_function_by_name(functions: &[FunctionInfo], query: &str) -> (r: Option<FunctionInfo>)
    ensures
        function_opt(r) == function_named(functions_view(functions@), query@),
{
    let ghost all = functions_view(functions@);
    let mut i: usize = 0;
    assert(all.skip(0) =~= all);
    while i < functions.len()
        invariant
            i <= functions@.len(),
            all == functions_view(functions@),
            function_named(all, query@) == function_named(all.skip(i as int), query@),
        decreases functions@.len() - i,
    {
        assert(all.skip(i as int)[0] == functions@[i as int]@);
        assert(all.skip(i as int).drop_first() =~= all.skip(i as int + 1));
        let hit = match &functions[i].name {
            Some(name) => same_fold(name.as_str(), query),
            None => false,
        };
        if hit {
            return Some(functions[i].duplicate());
        }
        i += 1;
    }
    None
}

/// The function that a query means: by the address that it stands for, if there is one, or else
/// by its name.
pub fn lookup_function(functions: &[FunctionInfo], query: &str, ea: Option<u64>) -> (r: Option<
    FunctionInfo,
>)
    ensures
        function_opt(r) == match ea {
            Some(a) => if function_at(functions_view(functions@), a) is Some {
                function_at(functions_view(functions@), a)
            } else {
                function_named(functions_view(functions@), query@)
            },
            None => function_named(functions_view(functions@), query@),
        },
{
    if let Some(a) = ea {
        if let Some(found) = find_function_by_ea(functions, a) {
            return Some(found);
        }
    }
    find_function_by_name(functions, query)
}

/// The name of the first segment that an address lies in, of those that have names.
pub open spec fn segment_of(v: Seq<SegmentView>, ea: u64) -> Option<Seq<char>>
    decreases v.len(),
{
    if v.len() == 0 {
        None
    } else if within(ea, v[0].start_ea, v[0].end_ea) && v[0].name is Some {
        v[0].name
    } else {
        segment_of(v.drop_first(), ea)
    }
}

/// The views of a list of segments.
pub open spec fn segments_view(v: Seq<SegmentInfo>) -> Seq<SegmentView> {
    v.map_values(|s: SegmentInfo| s@)
}

fn find_segment(segments: &[SegmentInfo], ea: u64) -> (r: Option<String>)
    ensures
        text::view_opt(r) == segment_of(segments_view(segments@), ea),
{
    let ghost all = segments_view(segments@);
    let mut i: usize = 0;
    assert(all.skip(0) =~= all);
    while i < segments.len()
        invariant
            i <= segments@.len(),
            all == segments_view(segments@),
            segment_of(all, ea) == segment_of(all.skip(i as int), ea),
        decreases segments@.len() - i,
    {
        assert(all.skip(i as int)[0] == segments@[i as int]@);
        assert(all.skip(i as int).drop_first() =~= all.skip(i as int + 1));
        if is_within(ea, segments[i].start_ea.as_str(), segments[i].end_ea.as_str()) {
            if let Some(name) = &segments[i].name {
                return Some(name.clone());
            }
        }
        i += 1;
    }
    None
}

/// What is known of a function that the library reported with a name.
pub fn function_info(
    index: usize,
    start: u64,
    end: u64,
    flags: u64,
    name: Option<String>,
    segments: &[SegmentInfo],
) -> (r: Result<FunctionInfo, DbgFlowError>)
    ensures
        match r {
            Ok(f) => is_range(start, end) && f@ == (FunctionView {
                index,
                start_ea: ea_text(start),
                end_ea: ea_text(end),
                size: ea_text((end - start) as u64),
                name: text::view_opt(name),
                segment: segment_of(segments_view(segments@), start),
                prototype: None,
                flags: ea_text(flags),
            }),
            Err(e) => !is_range(start, end) && e@ == ErrorView::Backend(
                "IDA returned invalid "@ + "function"@ + " range at index "@ + text::decimal(
                    index as nat,
                ) + (": "@ + ea_text(start) + ".."@ + ea_text(end)),
            ),
        },
{
    if let Err(error) = validate_range("function", index, start, end) {
        return Err(error);
    }
    Ok(
        FunctionInfo {
            index,
            start_ea: format_ea(start),
            end_ea: format_ea(end),
            size: format_ea(end - start),
            name,
            segment: find_segment(segments, start),
            prototype: None,
            flags: format_ea(flags),
        },
    )
}

/// A function is found by the address that it starts at, if no function before it holds that
/// address.
pub proof fn functions_are_found_by_start(v: Seq<FunctionView>, i: int, start: u64, end: u64)
    requires
        0 <= i < v.len(),
        is_range(start, end),
        v[i].start_ea == ea_text(start),
        v[i].end_ea == ea_text(end),
        forall|j: int| 0 <= j < i ==> !within(start, (#[trigger] v[j]).start_ea, v[j].end_ea),
    ensures
        function_at(v, start) == Some(v[i]),
    decreases i,
{
    written_addresses_are_read(start);
    written_addresses_are_read(end);
    if i > 0 {
        assert(!within(start, v[0].start_ea, v[0].end_ea));
        let rest = v.drop_first();
        assert forall|j: int| 0 <= j < i - 1 implies !within(
            start,
            (#[trigger] rest[j]).start_ea,
            rest[j].end_ea,
        ) by {
            assert(rest[j] == v[j + 1]);
        }
        functions_are_found_by_start(rest, i - 1, start, end);
    }
}

/// The place of a page in a list.
#[derive(Debug, Clone, Copy, PartialEq, Eq, Structural)]
pub struct PageInfo {
    pub offset: usize,
    pub limit: usize,
    pub total: usize,
    pub returned: usize,
    pub next_offset: Option<usize>,
}

/// How many items a page holds.
pub open spec fn page_limit(limit: Option<usize>) -> usize {
    match limit {
        None => DEFAULT_PAGE_LIMIT,
        Some(n) => if n < 1 {
            1
        } else if n > MAX_PAGE_LIMIT {
            MAX_PAGE_LIMIT
        } else {
            n
        },
    }
}

/// How many items a page holds.
pub fn normalize_limit(limit: Option<usize>) -> (r: usize)
    ensures
        r == page_limit(limit),
        1 <= r <= MAX_PAGE_LIMIT,
{
    match limit {
        None => DEFAULT_PAGE_LIMIT,
        Some(n) => if n < 1 {
            1
        } else if n > MAX_PAGE_LIMIT {
            MAX_PAGE_LIMIT
        } else {
            n
        },
    }
}

/// The smaller of two numbers.
pub open spec fn least(a: int, b: int) -> int {
    if a < b {
        a
    } else {
        b
    }
}

/// A page of a list.
pub open spec fn page_of<T>(items: Seq<T>, offset: int, limit: int) -> Seq<T> {
    items.subrange(
        least(offset, items.len() as int),
        least(offset + limit, items.len() as int),
    )
}

/// A page of a list, and its place.
pub fn page_vec<T>(items: Vec<T>, offset: usize, limit: Option<usize>) -> (r: (Vec<T>, PageInfo))
    ensures
        r.0@ == page_of(items@, offset as int, page_limit(limit) as int),
        r.1 == (PageInfo {
            offset,
            limit: page_limit(limit),
            total: items@.len() as usize,
            returned: r.0@.len() as usize,
            next_offset: if offset + r.0@.len() < items@.len() {
                Some((offset + r.0@.len()) as usize)
            } else {
                None
            },
        }),
{
    let ghost all = items@;
    let limit: usize = normalize_limit(limit);
    let mut items = items;
    let total: usize = items.len();
    let from: usize = if offset < total {
        offset
    } else {
        total
    };
    let mut page = items.split_off(from);
    page.truncate(limit);
    assert(page@ =~= page_of(all, offset as int, limit as int));
    let returned: usize = page.len();
    let next_offset: Option<usize> = if offset < total && returned < total - offset {
        Some(offset + returned)
    } else {
        None
    };
    (page, PageInfo { offset, limit, total, returned, next_offset })
}

/// A page and what follows it make up the list from the start of the page on: going on at the
/// next offset, nothing is left out and nothing comes twice.
pub proof fn pages_follow_each_other<T>(items: Seq<T>, offset: int, limit: int)
    requires
        0 <= offset <= items.len(),
        limit >= 1,
    ensures
        page_of(items, offset, limit) + items.skip(
            offset + page_of(items, offset, limit).len(),
        ) == items.skip(offset),
        offset < items.len() ==> page_of(items, offset, limit).len() > 0,
{
    assert(page_of(items, offset, limit) + items.skip(
        offset + page_of(items, offset, limit).len(),
    ) =~= items.skip(offset));
}

/// The views of a list of texts.
pub open spec fn field_views(fields: Seq<&str>) -> Seq<Seq<char>> {
    fields.map_values(|f: &str| f@)
}

/// Whether one of the fields holds a filter, whatever the case of ASCII letters. Without a filter
/// all do.
pub open spec fn filter_matches(filter: Option<Seq<char>>, fields: Seq<Seq<char>>) -> bool {
    match filter {
        None => true,
        Some(f) => exists|i: int|
            0 <= i < fields.len() && scan::find(
                scan::lower_all(#[trigger] fields[i]),
                scan::lower_all(f),
            ) is Some,
    }
}

/// Whether one of the fields holds a filter, whatever the case of ASCII letters.
pub fn page_filter_matches(filter: Option<&str>, fields: &[&str]) -> (r: bool)
    ensures
        r == filter_matches(
            match filter {
                Some(f) => Some(f@),
                None => None,
            },
            field_views(fields@),
        ),
{
    let asked = match filter {
        None => {
            return true;
        },
        Some(asked) => asked,
    };
    let wanted = lower_text(asked);
    let ghost all = field_views(fields@);
    let mut i: usize = 0;
    while i < fields.len()
        invariant
            i <= fields@.len(),
            all == field_views(fields@),
            filter == Some(asked),
            wanted@ == scan::lower_all(asked@),
            forall|j: int|
                0 <= j < i ==> scan::find(scan::lower_all(#[trigger] all[j]), wanted@) is None,
        decreases fields@.len() - i,
    {
        assert(all[i as int] == fields@[i as int]@);
        let field = lower_text(fields[i]);
        if contains_text(field.as_str(), wanted.as_str()) {
            return true;
        }
        i += 1;
    }
    false
}

/// A page of the addresses at which something begins, as they are found one after the other.
#[derive(Debug)]
pub struct HeadsPage {
    pub offset: usize,
    pub limit: usize,
    pub total: usize,
    pub addresses: Vec<u64>,
    pub has_more: bool,
}

/// The mathematical form of a page of addresses.
#[verifier::ext_equal]
pub struct HeadsView {
    pub offset: int,
    pub limit: int,
    pub total: int,
    pub addresses: Seq<u64>,
    pub has_more: bool,
}

impl View for HeadsPage {
    type V = HeadsView;

    open spec fn view(&self) -> HeadsView {
        HeadsView {
            offset: self.offset as int,
            limit: self.limit as int,
            total: self.total as int,
            addresses: self.addresses@,
            has_more: self.has_more,
        }
    }
}

impl HeadsView {
    /// Nothing was found yet.
    pub open spec fn initial(offset: int, limit: int) -> HeadsView {
        HeadsView { offset, limit, total: 0, addresses: Seq::empty(), has_more: false }
    }

    /// One more address was found. The first one after the page shows that there are more.
    pub open spec fn visited(self, ea: u64) -> HeadsView {
        if self.total >= self.offset && self.addresses.len() < self.limit {
            HeadsView { addresses: self.addresses.push(ea), total: self.total + 1, ..self }
        } else if self.total >= self.offset + self.limit {
            HeadsView { has_more: true, total: self.total + 1, ..self }
        } else {
            HeadsView { total: self.total + 1, ..self }
        }
    }

    /// Addresses were found one after the other.
    pub open spec fn visited_all(self, found: Seq<u64>) -> HeadsView
        decreases found.len(),
    {
        if found.len() == 0 {
            self
        } else {
            self.visited_all(found.drop_last()).visited(found.last())
        }
    }

    /// Whether the page is in order: it holds what was found from its offset on.
    pub open spec fn well_formed(self) -> bool {
        &&& 0 <= self.offset
        &&& 1 <= self.limit <= MAX_PAGE_LIMIT
        &&& 0 <= self.total
        &&& self.addresses.len() == least(
            self.limit,
            if self.total > self.offset {
                self.total - self.offset
            } else {
                0
            },
        )
        &&& self.has_more == (self.total > self.offset + self.limit)
    }
}

/// The page of addresses that were found holds what a page of their list holds, and there are
/// more if the list goes on.
pub proof fn heads_page_is_a_page(offset: int, limit: int, found: Seq<u64>)
    requires
        0 <= offset,
        1 <= limit <= MAX_PAGE_LIMIT,
    ensures
        HeadsView::initial(offset, limit).visited_all(found).well_formed(),
        HeadsView::initial(offset, limit).visited_all(found).total == found.len(),
        HeadsView::initial(offset, limit).visited_all(found).offset == offset,
        HeadsView::initial(offset, limit).visited_all(found).limit == limit,
        HeadsView::initial(offset, limit).visited_all(found).addresses == page_of(
            found,
            offset,
            limit,
        ),
    decreases found.len(),
{
    let start = HeadsView::initial(offset, limit);
    let after = start.visited_all(found);
    if found.len() > 0 {
        let front = found.drop_last();
        heads_page_is_a_page(offset, limit, front);
        assert(after.addresses =~= page_of(found, offset, limit));
    } else {
        assert(after.addresses =~= page_of(found, offset, limit));
    }
}

impl HeadsPage {
    /// A page on which nothing is yet.
    pub fn new(offset: usize, limit: Option<usize>) -> (r: HeadsPage)
        ensures
            r@ == HeadsView::initial(offset as int, page_limit(limit) as int),
            r@.well_formed(),
    {
        let limit: usize = normalize_limit(limit);
        let r = HeadsPage { offset, limit, total: 0, addresses: Vec::new(), has_more: false };
        assert(r@.addresses =~= Seq::<u64>::empty());
        r
    }

    /// Whether the search goes on at an address.
    pub fn wants(&self, ea: u64, end: u64) -> (r: bool)
        ensures
            r == (!self@.has_more && ea < end && ea != BADADDR),
    {
        !self.has_more && ea < end && ea != BADADDR
    }

    /// Whether an address that was found after another is one at which the search can go on.
    pub fn is_next(ea: u64, next: u64) -> (r: bool)
        ensures
            r == (next > ea && next != BADADDR),
    {
        next > ea && next != BADADDR
    }

    /// Takes an address in.
    pub fn visit(&mut self, ea: u64)
        requires
            old(self)@.well_formed(),
            !old(self)@.has_more,
            old(self)@.total < usize::MAX,
        ensures
            final(self)@ == old(self)@.visited(ea),
            final(self)@.well_formed(),
    {
        if self.total >= self.offset && self.addresses.len() < self.limit {
            self.addresses.push(ea);
            self.total = self.total + 1;
        } else if self.total >= self.offset && self.total - self.offset >= self.limit {
            self.has_more = true;
            self.total = self.total + 1;
        } else {
            self.total = self.total + 1;
        }
    }

    /// The page and its place.
    pub fn finish(self) -> (r: (Vec<u64>, PageInfo))
        requires
            self@.well_formed(),
        ensures
            r.0@ == self@.addresses,
            r.1 == (PageInfo {
                offset: self.offset,
                limit: self.limit,
                total: self.total,
                returned: self@.addresses.len() as usize,
                next_offset: if self.has_more {
                    Some((self.offset + self@.addresses.len()) as usize)
                } else {
                    None
                },
            }),
    {
        let returned: usize = self.addresses.len();
        let next_offset: Option<usize> = if self.has_more {
            Some(self.offset + returned)
        } else {
            None
        };
        let page = PageInfo {
            offset: self.offset,
            limit: self.limit,
            total: self.total,
            returned,
            next_offset,
        };
        (self.addresses, page)
    }
}

/// Which references are wanted.
#[derive(Debug, Clone, Copy, PartialEq, Eq, Structural)]
pub enum XrefKind {
    Any,
    Code,
    Data,
}

/// Whether a reference is wanted.
pub fn xref_included(kind: XrefKind, raw: &RawXrefBlock) -> (r: bool)
    ensures
        r == (kind == XrefKind::Any || (kind == XrefKind::Code) == raw.iscode),
{
    match kind {
        XrefKind::Any => true,
        XrefKind::Code => raw.iscode,
        XrefKind::Data => !raw.iscode,
    }
}

/// The outcome of a change.
#[derive(Debug)]
pub struct MutationItemResult {
    pub target: String,
    pub old: Option<String>,
    pub new: Option<String>,
    pub success: bool,
    pub dry_run: bool,
    pub error: Option<String>,
}

/// The mathematical form of the outcome of a change.
#[verifier::ext_equal]
pub struct MutationView {
    pub target: Seq<char>,
    pub old: Option<Seq<char>>,
    pub new: Option<Seq<char>>,
    pub success: bool,
    pub dry_run: bool,
    pub error: Option<Seq<char>>,
}

impl View for MutationItemResult {
    type V = MutationView;

    open spec fn view(&self) -> MutationView {
        MutationView {
            target: self.target@,
            old: text::view_opt(self.old),
            new: text::view_opt(self.new),
            success: self.success,
            dry_run: self.dry_run,
            error: text::view_opt(self.error),
        }
    }
}

/// The outcome of a change that an error kept from being made.
pub fn failed_mutation(target: &str, new: &str, dry_run: bool, error: &DbgFlowError) -> (r:
    MutationItemResult)
    ensures
        r@ == (MutationView {
            target: target@,
            old: None,
            new: Some(new@),
            success: false,
            dry_run,
            error: Some(error@.text()),
        }),
{
    MutationItemResult {
        target: target.to_owned(),
        old: None,
        new: Some(new.to_owned()),
        success: false,
        dry_run,
        error: Some(error.message()),
    }
}

/// What is to be done for a new name.
#[derive(Debug)]
pub enum RenameStep {
    /// The name is set.
    SetName,
    Done(MutationItemResult),
}

/// What is to be done for a new name of an address: nothing if another address has it, unless
/// that may be overwritten, and nothing on a dry run. The caller gives the address that has the
/// name, and the name that the address has.
pub fn rename_step(
    target: &str,
    name: &str,
    ea: u64,
    existing: Option<u64>,
    old: &Option<String>,
    dry_run: bool,
    allow_overwrite: bool,
) -> (r: RenameStep)
    ensures
        match r {
            RenameStep::SetName => !dry_run && (allow_overwrite || existing is None || existing
                == Some(ea)),
            RenameStep::Done(m) => if !allow_overwrite && existing is Some && existing != Some(ea) {
                m@ == (MutationView {
                    target: target@,
                    old: text::view_opt(*old),
                    new: Some(name@),
                    success: false,
                    dry_run,
                    error: Some("name already exists at "@ + ea_text(existing->0)),
                })
            } else {
                dry_run && m@ == (MutationView {
                    target: target@,
                    old: text::view_opt(*old),
                    new: Some(name@),
                    success: true,
                    dry_run,
                    error: None,
                })
            },
        },
{
    if !allow_overwrite {
        if let Some(other) = existing {
            if other != ea {
                return RenameStep::Done(
                    MutationItemResult {
                        target: target.to_owned(),
                        old: copy_opt(old),
                        new: Some(name.to_owned()),
                        success: false,
                        dry_run,
                        error: Some(
                            cat2("name already exists at ", format_ea(other).as_str()),
                        ),
                    },
                );
            }
        }
    }
    if dry_run {
        return RenameStep::Done(
            MutationItemResult {
                target: target.to_owned(),
                old: copy_opt(old),
                new: Some(name.to_owned()),
                success: true,
                dry_run,
                error: None,
            },
        );
    }
    RenameStep::SetName
}

/// The outcome of a change that the library was told to make.
pub fn applied_mutation(
    target: &str,
    old: Option<String>,
    new: &str,
    applied: bool,
    function: &str,
) -> (r: MutationItemResult)
    ensures
        r@ == (MutationView {
            target: target@,
            old: text::view_opt(old),
            new: Some(new@),
            success: applied,
            dry_run: false,
            error: if applied {
                None
            } else {
                Some(function@ + " returned false"@)
            },
        }),
{
    MutationItemResult {
        target: target.to_owned(),
        old,
        new: Some(new.to_owned()),
        success: applied,
        dry_run: false,
        error: if applied {
            None
        } else {
            Some(cat2(function, " returned false"))
        },
    }
}

/// Where a comment is wanted.
#[derive(Debug, Clone, Copy, PartialEq, Eq, Structural)]
pub enum CommentView {
    Disassembly,
    Decompiler,
    Both,
}

/// The outcome of a comment. The caller gives what the library answered, if it was told to set
/// the comment: it is, unless the comment is wanted for the decompiler only. A comment can not be
/// set for the decompiler.
pub fn commented_mutation(
    target: &str,
    old: Option<String>,
    comment: &str,
    view: CommentView,
    applied: bool,
) -> (r: MutationItemResult)
    ensures
        r@ == (MutationView {
            target: target@,
            old: text::view_opt(old),
            new: Some(comment@),
            success: view == CommentView::Disassembly && applied,
            dry_run: false,
            error: if view == CommentView::Disassembly {
                if applied {
                    None
                } else {
                    Some("set_cmt returned false"@)
                }
            } else if view == CommentView::Both && !applied {
                Some(
                    "set_cmt returned false"@
                        + "; Hex-Rays decompiler comment view is unavailable"@,
                )
            } else {
                Some("Hex-Rays decompiler comment view is unavailable"@)
            },
        }),
{
    let error: Option<String> = match view {
        CommentView::Disassembly => if applied {
            None
        } else {
            Some("set_cmt returned false".to_owned())
        },
        CommentView::Decompiler => Some(
            "Hex-Rays decompiler comment view is unavailable".to_owned(),
        ),
        CommentView::Both => if applied {
            Some("Hex-Rays decompiler comment view is unavailable".to_owned())
        } else {
            Some(
                cat2(
                    "set_cmt returned false",
                    "; Hex-Rays decompiler comment view is unavailable",
                ),
            )
        },
    };
    let success = match view {
        CommentView::Disassembly => applied,
        _ => false,
    };
    MutationItemResult {
        target: target.to_owned(),
        old,
        new: Some(comment.to_owned()),
        success,
        dry_run: false,
        error,
    }
}

/// The outcome of a type on a dry run, which can not be had.
pub fn untried_type(target: &str, type_text: &str) -> (r: MutationItemResult)
    ensures
        r@ == (MutationView {
            target: target@,
            old: None,
            new: Some(type_text@),
            success: false,
            dry_run: true,
            error: Some(
                "set_type dry_run validation is unavailable without a validated parse_decl/tinfo direct binding"@,
            ),
        }),
{
    MutationItemResult {
        target: target.to_owned(),
        old: None,
        new: Some(type_text.to_owned()),
        success: false,
        dry_run: true,
        error: Some(
            "set_type dry_run validation is unavailable without a validated parse_decl/tinfo direct binding".to_owned(),
        ),
    }
}

} // verus!
