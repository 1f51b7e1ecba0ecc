//! Laws of what the recorder says and of where it is.

use crate::error::{DbgFlowError, ErrorView};
use crate::scan;
use crate::text;
use crate::text_laws;
use crate::ttd::options::{
    find_ttd_exe_in_path, TtdRecordMode, TtdRecorderRuntime, TtdReplayCpuSupport,
};
use crate::ttd::options;
use crate::ttd::output;
use crate::ttd::output::{last_non_empty_line, parse_first_recorded_pid};
use crate::winpath;
use vstd::prelude::*;

verus! {

/// The process that is recorded is the number behind the first `PID:`, whatever follows it.
pub proof fn processes_are_read_behind_their_label(
    front: Seq<char>,
    pid: u32,
    tail: Seq<char>,
    text: &str,
    r: Option<u32>,
)
    requires
        text@ == front + "PID:"@ + text::decimal(pid as nat) + tail,
        scan::find(front + "PID:"@ + text::decimal(pid as nat) + tail, "PID:"@) == Some(front.len()),
        !text@.contains('\n'),
        tail.len() > 0 ==> !('0' <= tail[0] <= '9'),
        call_ensures(parse_first_recorded_pid, (text,), r),
    ensures
        r == Some(pid),
{
    let line = text@;
    reveal_strlit("PID:");
    scan::position_facts(line, '\n');
    assert(line.len() > 0);
    assert(scan::lines(line) =~= seq![line]);
    reveal_with_fuel(output::first_pid, 2);
    let d = text::decimal(pid as nat);
    assert(line.skip(front.len() as int + 4) =~= d + tail);
    scan::digits_are_digits(pid as nat, 10);
    assert(scan::digit_value(d[0]) < 10);
    let rest = d + tail;
    assert(rest[0] == d[0]);
    assert(scan::trim_start(rest) == rest);
    run_is_counted(d, tail);
    assert(rest.take(d.len() as int) =~= d);
    scan::written_number_is_read_back(pid as nat, 10, u32::MAX as nat);
}

proof fn run_is_counted(d: Seq<char>, tail: Seq<char>)
    requires
        scan::all_digits(d, 10),
        tail.len() > 0 ==> !('0' <= tail[0] <= '9'),
    ensures
        output::digit_run(d + tail) == d.len(),
    decreases d.len(),
{
    let s = d + tail;
    if d.len() == 0 {
        assert(s =~= tail);
    } else {
        assert(s[0] == d[0]);
        assert(scan::digit_value(d[0]) < 10);
        assert(s.drop_first() =~= d.drop_first() + tail);
        let left = d.drop_first();
        assert forall|i: int| 0 <= i < left.len() implies scan::digit_value(#[trigger] left[i]) < 10 by {
            assert(left[i] == d[i + 1]);
        }
        run_is_counted(left, tail);
    }
}

/// Without that label the process is the number between the last round brackets of the line that
/// says what is recorded.
pub proof fn processes_are_read_between_brackets(
    front: Seq<char>,
    pid: u32,
    tail: Seq<char>,
    text: &str,
    r: Option<u32>,
)
    requires
        text@ == front.push('(') + text::decimal(pid as nat) + tail,
        tail.len() > 0 && tail[0] == ')',
        !tail.contains('('),
        !text@.contains('\n'),
        scan::find(text@, "PID:"@) is None,
        scan::find(text@, "Recording process "@) is Some,
        call_ensures(parse_first_recorded_pid, (text,), r),
    ensures
        r == Some(pid),
{
    let line = text@;
    scan::position_facts(line, '\n');
    assert(line.len() > 0);
    assert(scan::lines(line) =~= seq![line]);
    reveal_with_fuel(output::first_pid, 2);
    let d = text::decimal(pid as nat);
    scan::digits_are_digits(pid as nat, 10);
    let after = d + tail;
    assert forall|i: int| 0 <= i < d.len() implies d[i] != '(' && d[i] != ')' by {
        assert(scan::digit_value(d[i]) < 10);
    }
    assert(!after.contains('(')) by {
        if after.contains('(') {
            let i = choose|i: int| 0 <= i < after.len() && after[i] == '(';
            if i >= d.len() {
                assert(tail[i - d.len()] == '(');
            } else {
                assert(after[i] == d[i]);
            }
        }
    }
    last_bracket(front, after);
    assert(line =~= front.push('(') + after);
    let rest = line.skip(front.len() as int + 1);
    assert(rest =~= after);
    assert(rest[d.len() as int] == ')');
    assert forall|i: int| 0 <= i < d.len() implies rest[i] != ')' by {
        assert(rest[i] == d[i]);
    }
    scan::position_is_first(rest, ')', d.len() as int);
    assert(rest.take(d.len() as int) =~= d);
    scan::written_number_is_read_back(pid as nat, 10, u32::MAX as nat);
}

proof fn last_bracket(front: Seq<char>, after: Seq<char>)
    requires
        !after.contains('('),
    ensures
        scan::last_position(front.push('(') + after, '(') == Some(front.len()),
    decreases after.len(),
{
    let s = front.push('(') + after;
    if after.len() == 0 {
        assert(s =~= front.push('('));
        assert(s.last() == '(');
    } else {
        assert(s.last() == after.last());
        assert(after.contains(after.last()));
        assert(s.drop_last() =~= front.push('(') + after.drop_last());
        let left = after.drop_last();
        assert(!left.contains('(')) by {
            if left.contains('(') {
                let i = choose|i: int| 0 <= i < left.len() && left[i] == '(';
                assert(after[i] == '(');
            }
        }
        last_bracket(front, left);
    }
}

/// A text that names no process gives none: neither label stands in it.
pub proof fn other_texts_name_no_process(text: &str, r: Option<u32>)
    requires
        !text@.contains('\n'),
        scan::find(text@, "PID:"@) is None,
        scan::find(text@, "Recording process "@) is None,
        call_ensures(parse_first_recorded_pid, (text,), r),
    ensures
        r is None,
{
    scan::position_facts(text@, '\n');
    reveal_with_fuel(output::first_pid, 2);
    if text@.len() > 0 {
        assert(scan::lines(text@) =~= seq![text@]);
        assert(seq![text@].drop_first().len() == 0);
    }
}

/// A later line is read only if those in front of it name no process.
pub proof fn first_line_with_a_process_counts(lines: Seq<Seq<char>>, i: int, pid: nat)
    requires
        0 <= i < lines.len(),
        output::line_pid(lines[i]) == Some(pid),
        forall|j: int| 0 <= j < i ==> output::line_pid(#[trigger] lines[j]) is None,
    ensures
        output::first_pid(lines) == Some(pid),
    decreases i,
{
    if i > 0 {
        assert(output::line_pid(lines[0]) is None);
        let rest = lines.drop_first();
        assert forall|j: int| 0 <= j < i - 1 implies output::line_pid(#[trigger] rest[j]) is None by {
            assert(rest[j] == lines[j + 1]);
        }
        first_line_with_a_process_counts(rest, i - 1, pid);
    }
}

/// The last word of a text is its last line that shows something, without the blanks around it.
pub proof fn last_line_that_shows_counts(lines: Seq<Seq<char>>, i: int)
    requires
        0 <= i < lines.len(),
        scan::trim(lines[i]).len() > 0,
        forall|j: int| i < j < lines.len() ==> scan::trim(#[trigger] lines[j]).len() == 0,
    ensures
        output::last_filled(lines) == scan::trim(lines[i]),
    decreases lines.len() - i,
{
    if i < lines.len() - 1 {
        assert(scan::trim(lines[lines.len() - 1]).len() == 0);
        let rest = lines.drop_last();
        assert forall|j: int| i < j < rest.len() implies scan::trim(#[trigger] rest[j]).len() == 0 by {
            assert(rest[j] == lines[j]);
        }
        last_line_that_shows_counts(rest, i);
    }
}

/// A line alone is its own last word, without the blanks around it.
pub proof fn single_lines_are_their_last_word(
    front: Seq<char>,
    core: Seq<char>,
    back: Seq<char>,
    text: &str,
    r: String,
)
    requires
        text@ == front + core + back,
        !text@.contains('\n'),
        text_laws::all_blank(front) && text_laws::all_blank(back),
        core.len() > 0 && text_laws::shows(core[0]) && text_laws::shows(core.last()),
        call_ensures(last_non_empty_line, (text,), r),
    ensures
        r@ == core,
{
    scan::position_facts(text@, '\n');
    assert(scan::lines(text@) =~= seq![text@]);
    text_laws::blanks_around_a_text(front, core, back);
    last_line_that_shows_counts(seq![text@], 0);
}

/// Modes and kinds of support are passed by their names.
pub proof fn modes_have_their_names(
    mode: TtdRecordMode,
    support: TtdReplayCpuSupport,
    m: &'static str,
    s: &'static str,
)
    requires
        call_ensures(TtdRecordMode::as_ttd_arg, (mode,), m),
        call_ensures(TtdReplayCpuSupport::as_ttd_arg, (support,), s),
    ensures
        mode is Automatic ==> m@ == "Automatic"@,
        mode is Manual ==> m@ == "Manual"@,
        support is Default ==> s@ == "Default"@,
        support is MostConservative ==> s@ == "MostConservative"@,
        support is MostAggressive ==> s@ == "MostAggressive"@,
        support is IntelAvxRequired ==> s@ == "IntelAvxRequired"@,
        support is IntelAvx2Required ==> s@ == "IntelAvx2Required"@,
{
}

/// The recorder is the program in the directory that is configured, or the one that is found
/// elsewhere if none is.
pub proof fn recorders_are_where_they_are_configured(
    path: String,
    none: TtdRecorderRuntime,
    some: TtdRecorderRuntime,
    no_candidate: Option<String>,
    candidate: Option<String>,
    is_file: bool,
    elsewhere: Result<String, DbgFlowError>,
    found: Result<String, DbgFlowError>,
    other: Result<String, DbgFlowError>,
)
    requires
        call_ensures(TtdRecorderRuntime::unavailable, (), none),
        call_ensures(TtdRecorderRuntime::with_ttd_dir, (path,), some),
        call_ensures(TtdRecorderRuntime::ttd_exe_candidate, (&none,), no_candidate),
        call_ensures(TtdRecorderRuntime::ttd_exe_candidate, (&some,), candidate),
        call_ensures(TtdRecorderRuntime::ttd_exe, (&some, is_file, elsewhere), found),
        call_ensures(TtdRecorderRuntime::ttd_exe, (&none, is_file, elsewhere), other),
    ensures
        no_candidate is None,
        candidate matches Some(c) && c@ == winpath::joined_path(path@, "TTD.exe"@),
        is_file ==> (found matches Ok(f) && f@ == winpath::joined_path(path@, "TTD.exe"@)),
        !is_file ==> (found matches Err(e) && e@ == ErrorView::Backend(
            "TTD recorder requires TTD.exe under "@ + path@,
        )),
        other == elsewhere,
{
}

/// Of the directories that programs are looked for in, the first that holds the recorder counts.
pub proof fn first_directory_with_the_recorder_counts(
    dirs: &[String],
    found: &[bool],
    i: int,
    r: Result<String, DbgFlowError>,
)
    requires
        dirs@.len() == found@.len(),
        call_ensures(find_ttd_exe_in_path, (dirs, found), r),
        0 <= i < found@.len(),
        found@[i],
        forall|j: int| 0 <= j < i ==> !(#[trigger] found@[j]),
    ensures
        r matches Ok(exe) && exe@ == winpath::joined_path(dirs@[i]@, "TTD.exe"@),
{
    first_mark(found@, i);
}

proof fn first_mark(marks: Seq<bool>, i: int)
    requires
        0 <= i < marks.len(),
        marks[i],
        forall|j: int| 0 <= j < i ==> !(#[trigger] marks[j]),
    ensures
        options::first_marked(marks) == Some(i as nat),
    decreases i,
{
    if i > 0 {
        assert(!marks[0]);
        let rest = marks.drop_first();
        assert forall|j: int| 0 <= j < i - 1 implies !(#[trigger] rest[j]) by {
            assert(rest[j] == marks[j + 1]);
        }
        first_mark(rest, i - 1);
    }
}

} // verus!
