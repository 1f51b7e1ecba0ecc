//! Laws of what is said when targets, installations or answers of the analysis are wrong.

use crate::error::{DbgFlowError, ErrorView};
use crate::ida::call;
use crate::ida::direct;
use crate::ida::direct::{
    function_count, segment_count, segment_info, untried_type, MutationItemResult, RichSymbols,
    SegmentInfo, SegmentPrefix,
};
use crate::ida::install::{
    resolve_vendor_src_dir, validate_ida_install_dir, IdaInstall, IdaSupervisorRuntime,
    InstallFacts, VendorCandidate,
};
use crate::ida::install;
use crate::ida::model::{CloseView, SessionView};
use crate::ida::supervisor;
use crate::ida::supervisor::{supervisor_env_changes, EnvChange, PendingRequests, SupervisorReply};
use crate::ida::table;
use crate::ida::target::{validate_ida_target, IdaTarget};
use crate::json;
use crate::json::{Json, JsonView};
use crate::profile::target::ResolvedExecutable;
use crate::search_path;
use crate::text;
use vstd::prelude::*;

verus! {

/// A target that cannot be analysed is refused for the reason.
pub proof fn wrong_targets_are_refused_for_the_reason(
    target: IdaTarget,
    found: Result<ResolvedExecutable, String>,
    r: Result<IdaTarget, DbgFlowError>,
)
    requires
        call_ensures(validate_ida_target, (target, found), r),
    ensures
        ({
            let p = target@.place();
            &&& p.len() == 0 ==> (r matches Err(e) && e@ == ErrorView::Backend(
                "IDA target path must not be empty"@,
            ))
            &&& p.len() > 0 && p.contains('\0') ==> (r matches Err(e) && e@ == ErrorView::Backend(
                "IDA target path must not contain NUL bytes"@,
            ))
            &&& p.len() > 0 && !p.contains('\0') ==> (found matches Err(m) ==> (r matches Err(e) && e@
                == ErrorView::Backend("invalid IDA target path "@ + p + ": "@ + m@)))
            &&& p.len() > 0 && !p.contains('\0') ==> (found matches Ok(f) ==> {
                &&& !f.is_file ==> (r matches Err(e) && e@ == ErrorView::Backend(
                    "invalid IDA target path "@ + f.path@ + "; expected an existing file"@,
                ))
                &&& f.is_file && target is Binary ==> r is Ok
                &&& f.is_file && target is Database ==> (r matches Err(e) ==> e@
                    == ErrorView::Backend(
                    "invalid IDA database path "@ + f.path@ + "; expected .idb or .i64"@,
                ))
            })
        }),
{
}

/// An installation that is not complete is refused with the first file that is missing.
pub proof fn incomplete_installations_name_what_is_missing(
    path: &str,
    absolute: &str,
    f: InstallFacts,
    r: Result<IdaInstall, DbgFlowError>,
)
    requires
        path@.len() > 0,
        call_ensures(validate_ida_install_dir, (path, absolute, Ok(f)), r),
    ensures
        !f.is_dir ==> (r matches Err(e) && e@ == ErrorView::Backend(
            "invalid IDA install dir "@ + install::plain_path(f.canonical@)
                + "; expected a directory"@,
        )),
        f.is_dir && !f.has_ida_exe ==> (r matches Err(e) && e@ == ErrorView::Backend(
            "invalid IDA install dir "@ + install::plain_path(f.canonical@) + "; missing "@
                + "ida.exe"@,
        )),
        f.is_dir && f.has_ida_exe && !f.has_ida_dll ==> (r matches Err(e) && e@
            == ErrorView::Backend(
            "invalid IDA install dir "@ + install::plain_path(f.canonical@) + "; missing "@
                + "ida.dll"@,
        )),
        f.is_dir && f.has_ida_exe && f.has_ida_dll && !f.has_idalib_dll ==> (r matches Err(e) && e@
            == ErrorView::Backend(
            "invalid IDA install dir "@ + install::plain_path(f.canonical@) + "; missing "@
                + "idalib.dll"@,
        )),
        f.is_dir && f.has_ida_exe && f.has_ida_dll && f.has_idalib_dll && !f.has_ida_hlp ==> (
        r matches Err(e) && e@ == ErrorView::Backend(
            "invalid IDA install dir "@ + install::plain_path(f.canonical@) + "; missing "@
                + "ida.hlp"@,
        )),
{
}

/// Without the source of the supervisor anywhere, it is said how to name it.
pub proof fn missing_sources_say_how_to_name_them(
    candidates: &[VendorCandidate],
    r: Result<String, DbgFlowError>,
)
    requires
        candidates@.len() == 0,
        call_ensures(resolve_vendor_src_dir, (candidates,), r),
    ensures
        r matches Err(e) && e@ == ErrorView::Backend(
            "ida-pro-mcp vendored src directory was not found; set DBGFLOW_IDA_PRO_MCP_SRC"@,
        ),
        install::DBGFLOW_IDA_DIR_ENV@ == "DBGFLOW_IDA_DIR"@,
        install::DBGFLOW_IDA_PYTHON_ENV@ == "DBGFLOW_IDA_PYTHON"@,
        install::DBGFLOW_IDA_PRO_MCP_SRC_ENV@ == "DBGFLOW_IDA_PRO_MCP_SRC"@,
        install::IDA_INSTALL_ENV@ == "IDADIR"@,
{
}

/// A directory with a quote cannot be put into the variables of the supervisor.
pub proof fn quoted_directories_are_refused(
    runtime: IdaSupervisorRuntime,
    none: Option<String>,
    r: Result<Vec<EnvChange>, DbgFlowError>,
)
    requires
        none is None,
        call_ensures(supervisor_env_changes, (&runtime, &none, &none), r),
    ensures
        runtime.vendor_src_dir@.contains('"') ==> (r matches Err(e) && e@ == ErrorView::Backend(
            "construct PYTHONPATH: "@ + "path segment contains `\"`"@,
        )),
        !runtime.vendor_src_dir@.contains('"') && runtime.install.install_dir@.contains('"') ==> (
        r matches Err(e) && e@ == ErrorView::Backend(
            "construct PATH: "@ + "path segment contains `\"`"@,
        )),
{
    let a = seq![runtime.vendor_src_dir@];
    let b = seq![runtime.install.install_dir@];
    assert(a[0] == runtime.vendor_src_dir@);
    assert(b[0] == runtime.install.install_dir@);
    assert(a.len() == 1 && b.len() == 1);
    if runtime.vendor_src_dir@.contains('"') {
        assert(a[0].contains('"'));
        assert(search_path::joined_entries(a) is None);
    } else {
        assert(search_path::joined_entries(a) is Some);
        if runtime.install.install_dir@.contains('"') {
            assert(b[0].contains('"'));
            assert(search_path::joined_entries(b) is None);
        }
    }
    assert(supervisor::extended_path(runtime.vendor_src_dir@, None)
        == search_path::joined_entries(a));
    assert(supervisor::extended_path(runtime.install.install_dir@, None)
        == search_path::joined_entries(b));
    assert(text::view_opt(none) is None);
}

/// The supervisor has its time and its last words.
pub proof fn supervisors_have_their_time()
    ensures
        supervisor::SUPERVISOR_REQUEST_TIMEOUT_MS == 120000,
        supervisor::OPEN_TIMEOUT_SECONDS == 1800,
        supervisor::SUPERVISOR_EXITED@ == "ida-pro-mcp supervisor exited before responding"@,
        supervisor::SUPERVISOR_KILLED@ == "ida-pro-mcp supervisor was killed"@,
{
}

/// An error without a text is reported as a failure of the supervisor.
pub proof fn silent_errors_are_failures(
    p: &mut PendingRequests,
    response: Json,
    id: u64,
    error: JsonView,
    r: SupervisorReply,
)
    requires
        response@.get("id"@) == Some(JsonView::Unsigned(id)),
        response@.get("error"@) == Some(error),
        error.get("message"@) is None,
        old(p)@.waiting.contains(id),
        call_ensures(PendingRequests::take_response, (p, &response), r),
    ensures
        r matches SupervisorReply::Answered { outcome, .. } && (outcome matches Err(e) && e@
            == ErrorView::Backend("ida-pro-mcp supervisor request failed"@)),
{
}

/// Counts and segments that make no sense are refused with what came.
pub proof fn wrong_counts_say_what_came(
    segments: i32,
    segment_total: Result<usize, DbgFlowError>,
    functions: usize,
    function_total: Result<usize, DbgFlowError>,
    index: usize,
    segment: SegmentPrefix,
    name: Option<String>,
    info: Result<SegmentInfo, DbgFlowError>,
    target: &str,
    type_text: &str,
    untried: MutationItemResult,
)
    requires
        call_ensures(segment_count, (segments,), segment_total),
        call_ensures(function_count, (functions,), function_total),
        call_ensures(segment_info, (index, segment, name), info),
        call_ensures(untried_type, (target, type_text), untried),
    ensures
        segment_total matches Err(e) ==> e@ == ErrorView::Backend(
            "IDA returned invalid segment count "@ + text::signed_decimal(segments as int),
        ),
        function_total matches Err(e) ==> e@ == ErrorView::Backend(
            "IDA returned invalid function count "@ + text::decimal(functions as nat),
        ),
        segment.start_ea >= segment.end_ea ==> (info matches Err(e) && e@ == ErrorView::Backend(
            "IDA returned invalid segment range at index "@ + text::decimal(index as nat) + (": "@
                + direct::ea_text(segment.start_ea) + ".."@ + direct::ea_text(segment.end_ea)),
        )),
        segment.start_ea < segment.end_ea && segment.end_ea != u64::MAX && segment.bitness > 2 ==> (
        info matches Err(e) && e@ == ErrorView::Backend(
            "IDA returned invalid segment bitness "@ + text::decimal(segment.bitness as nat)
                + " at index "@ + text::decimal(index as nat),
        )),
        text::view_opt(untried.error) == Some(
            "set_type dry_run validation is unavailable without a validated parse_decl/tinfo direct binding"@,
        ),
{
}

/// What cannot be used of the library is said in warnings, and missing symbols are listed.
pub proof fn unusable_parts_leave_warnings(symbols: RichSymbols)
    ensures
        ({
            let v = symbols@;
            let w = v.warnings();
            let frees = v.available.contains("qfree"@);
            let refs = v.available.contains("xrefblk_t_first_from"@);
            &&& frees && !v.qstring_layout_validated ==> w[0]
                == "IDA direct qstring layout validation has not passed; qstring-dependent tools are disabled"@
            &&& !frees ==> w[0]
                == "IDA direct rich API qstring support is unavailable because qfree was not exported"@
            &&& frees && v.qstring_layout_validated && refs && !v.xrefblk_layout_validated ==> w[0]
                == "IDA direct xrefblk_t layout validation has not passed; xref tools are disabled"@
            &&& frees && v.qstring_layout_validated && (!refs || v.xrefblk_layout_validated)
                ==> w.len() == 1
            &&& v.missing.len() == 0 ==> v.missing_text()
                == "no missing symbol details were reported"@
            &&& v.missing.len() > 0 ==> v.missing_text() == text::joined(v.missing, ", "@)
        }),
{
}

/// A session that was closed says how its database was saved and that its worker lives on for a
/// while.
pub proof fn closed_sessions_say_what_is_left(s: SessionView, close: CloseView, now: u64)
    ensures
        ({
            let after = table::closed_session(s, close, now);
            &&& after.state is Closed
            &&& after.database_id is None
            &&& after.is_active == Some(false)
            &&& after.last_health matches Some(h) && !h.reachable && h.error is None && (
            h.detail matches Some(d) && d.bool_at("detached"@) == Some(true) && d.text_at(
                "worker_lifecycle"@,
            ) == Some("upstream idle TTL"@) && d.get("save"@) == Some(close.value()))
            &&& after.error is None
        }),
{
    broadcast use json::added_members_are_found;

    reveal_strlit("save");
    reveal_strlit("detached");
    reveal_strlit("worker_lifecycle");
    assert("save"@.len() == 4 && "detached"@.len() == 8 && "worker_lifecycle"@.len() == 16);
}

/// The entries about a call name the tool and its warnings.
pub proof fn calls_are_noted_with_their_warnings(c: call::ToolCallView, warning: Option<Seq<char>>)
    ensures
        call::call_fields(c, warning).text_at("tool"@) == Some(c.tool),
        warning is None ==> call::call_fields(c, warning).get("warnings"@) == Some(
            JsonView::List(Seq::empty()),
        ),
        warning matches Some(w) ==> call::call_fields(c, warning).get("warnings"@) == Some(
            JsonView::List(seq![JsonView::Text(w)]),
        ),
{
    broadcast use json::added_members_are_found;

    reveal_strlit("tool");
    reveal_strlit("warnings");
    assert("tool"@.len() == 4 && "warnings"@.len() == 8);
}

} // verus!
