//! Laws of the tools of the backend that may be called.

use crate::ida::worker;
use crate::ida::worker::{default_upstream_tools, is_allowed_upstream_tool};
use vstd::prelude::*;

verus! {

/// The tools of the backend that may be called are those that are known by name, and no others.
pub proof fn tools_are_allowed_by_name(name: &str, r: bool)
    requires
        call_ensures(is_allowed_upstream_tool, (name,), r),
    ensures
        r <==> known_tool(name@),
{
    worker::offered_tools_are_allowed(name@);
    reveal(worker::offered_tools);
    let all = worker::offered_tools();
    if all.contains(name@) {
        let i = choose|i: int| 0 <= i < all.len() && all[i] == name@;
        assert(all[i] == name@);
    }
    assert(all[0] == "add_bookmark"@);
    assert(all[1] == "analyze_batch"@);
    assert(all[2] == "analyze_component"@);
    assert(all[3] == "analyze_function"@);
    assert(all[4] == "append_comments"@);
    assert(all[5] == "basic_blocks"@);
    assert(all[6] == "callees"@);
    assert(all[7] == "callgraph"@);
    assert(all[8] == "declare_stack"@);
    assert(all[9] == "declare_type"@);
    assert(all[10] == "decompile"@);
    assert(all[11] == "define_code"@);
    assert(all[12] == "define_func"@);
    assert(all[13] == "delete_stack"@);
    assert(all[14] == "diff_before_after"@);
    assert(all[15] == "disasm"@);
    assert(all[16] == "entity_query"@);
    assert(all[17] == "enum_upsert"@);
    assert(all[18] == "export_funcs"@);
    assert(all[19] == "find"@);
    assert(all[20] == "find_bytes"@);
    assert(all[21] == "find_regex"@);
    assert(all[22] == "find_xref_signatures"@);
    assert(all[23] == "force_recompile"@);
    assert(all[24] == "func_profile"@);
    assert(all[25] == "func_query"@);
    assert(all[26] == "get_bytes"@);
    assert(all[27] == "get_global_value"@);
    assert(all[28] == "get_int"@);
    assert(all[29] == "get_string"@);
    assert(all[30] == "idb_save"@);
    assert(all[31] == "imports"@);
    assert(all[32] == "imports_query"@);
    assert(all[33] == "infer_types"@);
    assert(all[34] == "insn_query"@);
    assert(all[35] == "int_convert"@);
    assert(all[36] == "list_funcs"@);
    assert(all[37] == "list_globals"@);
    assert(all[38] == "lookup_funcs"@);
    assert(all[39] == "make_data"@);
    assert(all[40] == "make_signature"@);
    assert(all[41] == "make_signature_for_function"@);
    assert(all[42] == "make_signature_for_range"@);
    assert(all[43] == "patch"@);
    assert(all[44] == "patch_asm"@);
    assert(all[45] == "put_int"@);
    assert(all[46] == "py_eval"@);
    assert(all[47] == "read_struct"@);
    assert(all[48] == "rename"@);
    assert(all[49] == "search_structs"@);
    assert(all[50] == "search_text"@);
    assert(all[51] == "server_health"@);
    assert(all[52] == "set_comments"@);
    assert(all[53] == "set_op_type"@);
    assert(all[54] == "set_type"@);
    assert(all[55] == "stack_frame"@);
    assert(all[56] == "survey_binary"@);
    assert(all[57] == "trace_data_flow"@);
    assert(all[58] == "type_apply_batch"@);
    assert(all[59] == "type_inspect"@);
    assert(all[60] == "type_query"@);
    assert(all[61] == "undefine"@);
    assert(all[62] == "xref_query"@);
    assert(all[63] == "xrefs_to"@);
    assert(all[64] == "xrefs_to_field"@);
}

/// Whether a name is one of the tools of the backend that may be called.
pub open spec fn known_tool(name: Seq<char>) -> bool {
    ||| name == "add_bookmark"@
    ||| name == "analyze_batch"@
    ||| name == "analyze_component"@
    ||| name == "analyze_function"@
    ||| name == "append_comments"@
    ||| name == "basic_blocks"@
    ||| name == "callees"@
    ||| name == "callgraph"@
    ||| name == "declare_stack"@
    ||| name == "declare_type"@
    ||| name == "decompile"@
    ||| name == "define_code"@
    ||| name == "define_func"@
    ||| name == "delete_stack"@
    ||| name == "diff_before_after"@
    ||| name == "disasm"@
    ||| name == "entity_query"@
    ||| name == "enum_upsert"@
    ||| name == "export_funcs"@
    ||| name == "find"@
    ||| name == "find_bytes"@
    ||| name == "find_regex"@
    ||| name == "find_xref_signatures"@
    ||| name == "force_recompile"@
    ||| name == "func_profile"@
    ||| name == "func_query"@
    ||| name == "get_bytes"@
    ||| name == "get_global_value"@
    ||| name == "get_int"@
    ||| name == "get_string"@
    ||| name == "idb_save"@
    ||| name == "imports"@
    ||| name == "imports_query"@
    ||| name == "infer_types"@
    ||| name == "insn_query"@
    ||| name == "int_convert"@
    ||| name == "list_funcs"@
    ||| name == "list_globals"@
    ||| name == "lookup_funcs"@
    ||| name == "make_data"@
    ||| name == "make_signature"@
    ||| name == "make_signature_for_function"@
    ||| name == "make_signature_for_range"@
    ||| name == "patch"@
    ||| name == "patch_asm"@
    ||| name == "put_int"@
    ||| name == "py_eval"@
    ||| name == "read_struct"@
    ||| name == "rename"@
    ||| name == "search_structs"@
    ||| name == "search_text"@
    ||| name == "server_health"@
    ||| name == "set_comments"@
    ||| name == "set_op_type"@
    ||| name == "set_type"@
    ||| name == "stack_frame"@
    ||| name == "survey_binary"@
    ||| name == "trace_data_flow"@
    ||| name == "type_apply_batch"@
    ||| name == "type_inspect"@
    ||| name == "type_query"@
    ||| name == "undefine"@
    ||| name == "xref_query"@
    ||| name == "xrefs_to"@
    ||| name == "xrefs_to_field"@
}

/// The tools that are offered when nothing else is said are the ones that may be called, in the order
/// of their names.
pub proof fn offered_tools_are_listed_in_order(r: [&'static str; 65])
    requires
        call_ensures(default_upstream_tools, (), r),
    ensures
        r@[0]@ == "add_bookmark"@,
        r@[1]@ == "analyze_batch"@,
        r@[2]@ == "analyze_component"@,
        r@[3]@ == "analyze_function"@,
        r@[4]@ == "append_comments"@,
        r@[5]@ == "basic_blocks"@,
        r@[6]@ == "callees"@,
        r@[7]@ == "callgraph"@,
        r@[8]@ == "declare_stack"@,
        r@[9]@ == "declare_type"@,
        r@[10]@ == "decompile"@,
        r@[11]@ == "define_code"@,
        r@[12]@ == "define_func"@,
        r@[13]@ == "delete_stack"@,
        r@[14]@ == "diff_before_after"@,
        r@[15]@ == "disasm"@,
        r@[16]@ == "entity_query"@,
        r@[17]@ == "enum_upsert"@,
        r@[18]@ == "export_funcs"@,
        r@[19]@ == "find"@,
        r@[20]@ == "find_bytes"@,
        r@[21]@ == "find_regex"@,
        r@[22]@ == "find_xref_signatures"@,
        r@[23]@ == "force_recompile"@,
        r@[24]@ == "func_profile"@,
        r@[25]@ == "func_query"@,
        r@[26]@ == "get_bytes"@,
        r@[27]@ == "get_global_value"@,
        r@[28]@ == "get_int"@,
        r@[29]@ == "get_string"@,
        r@[30]@ == "idb_save"@,
        r@[31]@ == "imports"@,
        r@[32]@ == "imports_query"@,
        r@[33]@ == "infer_types"@,
        r@[34]@ == "insn_query"@,
        r@[35]@ == "int_convert"@,
        r@[36]@ == "list_funcs"@,
        r@[37]@ == "list_globals"@,
        r@[38]@ == "lookup_funcs"@,
        r@[39]@ == "make_data"@,
        r@[40]@ == "make_signature"@,
        r@[41]@ == "make_signature_for_function"@,
        r@[42]@ == "make_signature_for_range"@,
        r@[43]@ == "patch"@,
        r@[44]@ == "patch_asm"@,
        r@[45]@ == "put_int"@,
        r@[46]@ == "py_eval"@,
        r@[47]@ == "read_struct"@,
        r@[48]@ == "rename"@,
        r@[49]@ == "search_structs"@,
        r@[50]@ == "search_text"@,
        r@[51]@ == "server_health"@,
        r@[52]@ == "set_comments"@,
        r@[53]@ == "set_op_type"@,
        r@[54]@ == "set_type"@,
        r@[55]@ == "stack_frame"@,
        r@[56]@ == "survey_binary"@,
        r@[57]@ == "trace_data_flow"@,
        r@[58]@ == "type_apply_batch"@,
        r@[59]@ == "type_inspect"@,
        r@[60]@ == "type_query"@,
        r@[61]@ == "undefine"@,
        r@[62]@ == "xref_query"@,
        r@[63]@ == "xrefs_to"@,
        r@[64]@ == "xrefs_to_field"@,
{
    reveal(worker::offered_tools);
    let v = worker::names(r@);
    assert forall|i: int| 0 <= i < 65 implies #[trigger] r@[i]@ == v[i] by {}
}

} // verus!
