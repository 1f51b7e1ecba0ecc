//! Reading what the recorder leaves behind.

use crate::artifact;
use crate::artifact::{ArtifactKind, ArtifactRef, ArtifactView};
use crate::order;
use crate::scan;
use crate::text;
use crate::text::{cat2, cat3, cat4, chars_of, same, signed_decimal_text};
use crate::winpath;
use vstd::prelude::*;

verus! {

/// The number of decimal digits at the front of a text.
pub open spec fn digit_run(s: Seq<char>) -> nat
    decreases s.len(),
{
    if s.len() == 0 || !('0' <= s[0] <= '9') {
        0
    } else {
        1 + digit_run(s.drop_first())
    }
}

/// The number that follows a text at the front of a line.
pub open spec fn leading_number(s: Seq<char>) -> Option<nat> {
    let rest = scan::trim_start(s);
    scan::parse_number(rest.take(digit_run(rest) as int), 10, u32::MAX as nat)
}

/// The process that a line names behind `PID:`.
pub open spec fn labelled_pid(line: Seq<char>) -> Option<nat> {
    match scan::find(line, "PID:"@) {
        Some(i) => leading_number(line.skip(i as int + 4)),
        None => None,
    }
}

/// The process that a line about the start of a recording names in its last brackets.
pub open spec fn bracketed_pid(line: Seq<char>) -> Option<nat> {
    if scan::find(line, "Recording process "@) is None {
        None
    } else {
        match scan::last_position(line, '(') {
            None => None,
            Some(open) => {
                let rest = line.skip(open as int + 1);
                match scan::position(rest, ')') {
                    None => None,
                    Some(close) => scan::parse_number(
                        rest.take(close as int),
                        10,
                        u32::MAX as nat,
                    ),
                }
            },
        }
    }
}

/// The process that a line names.
pub open spec fn line_pid(line: Seq<char>) -> Option<nat> {
    match labelled_pid(line) {
        Some(pid) => Some(pid),
        None => bracketed_pid(line),
    }
}

/// The process that the first line which names one names.
pub open spec fn first_pid(lines: Seq<Seq<char>>) -> Option<nat>
    decreases lines.len(),
{
    if lines.len() == 0 {
        None
    } else {
        match line_pid(lines[0]) {
            Some(pid) => Some(pid),
            None => first_pid(lines.drop_first()),
        }
    }
}

/// The view of a number that may be missing.
pub open spec fn pid_view(pid: Option<u32>) -> Option<nat> {
    match pid {
        Some(p) => Some(p as nat),
        None => None,
    }
}

fn read_number(chars: &[char], from: usize, to: usize) -> (r: Option<u32>)
    requires
        from <= to <= chars@.len(),
    ensures
        pid_view(r) == scan::parse_number(
            chars@.subrange(from as int, to as int),
            10,
            u32::MAX as nat,
        ),
{
    let part = scan::part(chars, from, to);
    match scan::parse_text(part.as_str(), 10, 0xffff_ffff) {
        Some(n) => Some(n as u32),
        None => None,
    }
}

fn read_leading_number(chars: &[char], from: usize) -> (r: Option<u32>)
    requires
        from <= chars@.len(),
    ensures
        pid_view(r) == leading_number(chars@.skip(from as int)),
{
    let ghost s = chars@.skip(from as int);
    let mut start: usize = from;
    while start < chars.len() && scan::is_white_char(chars[start])
        invariant
            from <= start <= chars@.len(),
            s == chars@.skip(from as int),
            scan::trim_start(s) == scan::trim_start(chars@.skip(start as int)),
        decreases chars@.len() - start,
    {
        assert(chars@.skip(start as int).drop_first() =~= chars@.skip(start + 1));
        start += 1;
    }
    let ghost rest = chars@.skip(start as int);
    assert(scan::trim_start(s) == rest);
    let mut end: usize = start;
    while end < chars.len() && '0' <= chars[end] && chars[end] <= '9'
        invariant
            start <= end <= chars@.len(),
            rest == chars@.skip(start as int),
            digit_run(rest) == (end - start) + digit_run(chars@.skip(end as int)),
        decreases chars@.len() - end,
    {
        assert(chars@.skip(end as int).drop_first() =~= chars@.skip(end + 1));
        end += 1;
    }
    assert(digit_run(chars@.skip(end as int)) == 0);
    assert(rest.take(end - start) =~= chars@.subrange(start as int, end as int));
    read_number(chars, start, end)
}

fn read_line_pid(line: &str) -> (r: Option<u32>)
    ensures
        pid_view(r) == line_pid(line@),
{
    let chars = chars_of(line);
    let size: usize = chars.len();
    let label = chars_of("PID:");
    proof {
        reveal_strlit("PID:");
    }
    assert(line@.skip(0) =~= line@);
    match scan::find_from(chars.as_slice(), label.as_slice(), 0) {
        Some(i) => {
            let found = read_leading_number(chars.as_slice(), i + 4);
            if found.is_some() {
                return found;
            }
        },
        None => {},
    }
    if !scan::contains_text(line, "Recording process ") {
        return None;
    }
    match scan::last_position_of(chars.as_slice(), '(') {
        None => None,
        Some(open) => match scan::position_from(chars.as_slice(), ')', open + 1) {
            None => None,
            Some(close) => {
                assert(line@.skip(open + 1).take(close - (open + 1)) =~= line@.subrange(
                    open + 1,
                    close as int,
                ));
                read_number(chars.as_slice(), open + 1, close)
            },
        },
    }
}

/// The process that the output of the recorder names first.
pub fn parse_first_recorded_pid(text: &str) -> (r: Option<u32>)
    ensures
        pid_view(r) == first_pid(scan::lines(text@)),
{
    let lines = scan::lines_of(text);
    let ghost all = scan::lines(text@);
    let mut i: usize = 0;
    assert(all.skip(0) =~= all);
    while i < lines.len()
        invariant
            i <= lines@.len(),
            all == text::views(lines@),
            all == scan::lines(text@),
            first_pid(all) == first_pid(all.skip(i as int)),
        decreases lines@.len() - i,
    {
        assert(all.skip(i as int)[0] == lines@[i as int]@);
        assert(all.skip(i as int).drop_first() =~= all.skip(i + 1));
        let found = read_line_pid(lines[i].as_str());
        if found.is_some() {
            return found;
        }
        i += 1;
    }
    assert(all.skip(i as int).len() == 0);
    None
}

/// The last line that is not blank, without white space on either side; an empty text if
/// there is none.
pub open spec fn last_filled(lines: Seq<Seq<char>>) -> Seq<char>
    decreases lines.len(),
{
    if lines.len() == 0 {
        Seq::empty()
    } else if scan::trim(lines.last()).len() > 0 {
        scan::trim(lines.last())
    } else {
        last_filled(lines.drop_last())
    }
}

/// The last line of a text that is not blank.
pub fn last_non_empty_line(text: &str) -> (r: String)
    ensures
        r@ == last_filled(scan::lines(text@)),
{
    let lines = scan::lines_of(text);
    let ghost all = scan::lines(text@);
    let mut i: usize = lines.len();
    assert(all.take(i as int) =~= all);
    while i > 0
        invariant
            i <= lines@.len(),
            all == text::views(lines@),
            all == scan::lines(text@),
            last_filled(all) == last_filled(all.take(i as int)),
        decreases i,
    {
        assert(all.take(i as int).last() == lines@[i - 1]@);
        assert(all.take(i as int).drop_last() =~= all.take(i - 1));
        let line = scan::trim_text(lines[i - 1].as_str());
        if !line.as_str().is_empty() {
            return line;
        }
        i -= 1;
    }
    assert(all.take(0).len() == 0);
    String::new()
}

/// An exit code that may be missing.
pub open spec fn code_text(code: Option<i32>) -> Seq<char> {
    match code {
        Some(n) => "Some("@ + text::signed_decimal(n as int) + ")"@,
        None => "None"@,
    }
}

fn write_code(code: Option<i32>) -> (r: String)
    ensures
        r@ == code_text(code),
{
    match code {
        Some(n) => cat3("Some(", signed_decimal_text(n as i64).as_str(), ")"),
        None => "None".to_owned(),
    }
}

/// What is said of a recorder that failed: the last line of its error output, or else of its
/// output.
pub open spec fn error_summary(stdout: Seq<char>, stderr: Seq<char>, code: Option<i32>) -> Seq<
    char,
> {
    let start = "TTD recorder exited with code "@ + code_text(code);
    if scan::trim(stderr).len() > 0 {
        start + ": "@ + last_filled(scan::lines(stderr))
    } else if scan::trim(stdout).len() > 0 {
        start + ": "@ + last_filled(scan::lines(stdout))
    } else {
        start
    }
}

/// What is said of a recorder that failed.
pub fn recorder_error_summary(stdout: &str, stderr: &str, exit_code: Option<i32>) -> (r: String)
    ensures
        r@ == error_summary(stdout@, stderr@, exit_code),
{
    let code = write_code(exit_code);
    let start = "TTD recorder exited with code ";
    if !scan::is_blank(stderr) {
        cat4(start, code.as_str(), ": ", last_non_empty_line(stderr).as_str())
    } else if !scan::is_blank(stdout) {
        cat4(start, code.as_str(), ": ", last_non_empty_line(stdout).as_str())
    } else {
        cat2(start, code.as_str())
    }
}

/// What a file that the recorder wrote holds, by its extension.
pub open spec fn file_kind(path: Seq<char>) -> Option<ArtifactKind> {
    match winpath::extension(path) {
        None => None,
        Some(e) => {
            let lower = scan::lower_all(e);
            if lower == "run"@ {
                Some(ArtifactKind::TtdTrace)
            } else if lower == "idx"@ {
                Some(ArtifactKind::TtdTraceIndex)
            } else if lower == "out"@ || lower == "err"@ {
                Some(ArtifactKind::TtdRecorderOutput)
            } else {
                None
            }
        },
    }
}

/// The files of a kind, in the order of the list.
pub open spec fn of_kind(files: Seq<Seq<char>>, kind: ArtifactKind) -> Seq<Seq<char>>
    decreases files.len(),
{
    if files.len() == 0 {
        Seq::empty()
    } else {
        let before = of_kind(files.drop_last(), kind);
        if file_kind(files.last()) == Some(kind) {
            before.push(files.last())
        } else {
            before
        }
    }
}

/// The files of a kind, in alphabetical order.
pub open spec fn found_of_kind(files: Seq<Seq<char>>, kind: ArtifactKind) -> Seq<ArtifactView> {
    order::sort(of_kind(files, kind)).map_values(|path: Seq<char>| ArtifactView { kind, path })
}

/// The files that the recorder wrote.
#[derive(Debug)]
pub struct DiscoveredTtdArtifacts {
    pub traces: Vec<ArtifactRef>,
    pub trace_indexes: Vec<ArtifactRef>,
    pub recorder_logs: Vec<ArtifactRef>,
}

/// The mathematical form of the files that the recorder wrote.
#[verifier::ext_equal]
pub struct DiscoveredView {
    pub traces: Seq<ArtifactView>,
    pub trace_indexes: Seq<ArtifactView>,
    pub recorder_logs: Seq<ArtifactView>,
}

impl View for DiscoveredTtdArtifacts {
    type V = DiscoveredView;

    open spec fn view(&self) -> DiscoveredView {
        DiscoveredView {
            traces: artifact::artifacts_view(self.traces@),
            trace_indexes: artifact::artifacts_view(self.trace_indexes@),
            recorder_logs: artifact::artifacts_view(self.recorder_logs@),
        }
    }
}

/// The files of a directory that the recorder wrote.
pub open spec fn discovered(files: Seq<Seq<char>>) -> DiscoveredView {
    DiscoveredView {
        traces: found_of_kind(files, ArtifactKind::TtdTrace),
        trace_indexes: found_of_kind(files, ArtifactKind::TtdTraceIndex),
        recorder_logs: found_of_kind(files, ArtifactKind::TtdRecorderOutput),
    }
}

fn kind_of_file(path: &str) -> (r: Option<ArtifactKind>)
    ensures
        r == file_kind(path@),
{
    match winpath::extension_of(path) {
        None => None,
        Some(extension) => {
            let lower = scan::lower_text(extension.as_str());
            if same(lower.as_str(), "run") {
                Some(ArtifactKind::TtdTrace)
            } else if same(lower.as_str(), "idx") {
                Some(ArtifactKind::TtdTraceIndex)
            } else if same(lower.as_str(), "out") || same(lower.as_str(), "err") {
                Some(ArtifactKind::TtdRecorderOutput)
            } else {
                None
            }
        },
    }
}

fn select(files: &[String], kind: ArtifactKind) -> (r: Vec<ArtifactRef>)
    ensures
        artifact::artifacts_view(r@) == found_of_kind(text::views(files@), kind),
{
    let ghost all = text::views(files@);
    let mut paths: Vec<String> = Vec::new();
    let mut i: usize = 0;
    assert(all.take(0) =~= Seq::<Seq<char>>::empty());
    assert(text::views(paths@) =~= of_kind(all.take(0), kind));
    while i < files.len()
        invariant
            i <= files@.len(),
            all == text::views(files@),
            text::views(paths@) == of_kind(all.take(i as int), kind),
        decreases files@.len() - i,
    {
        assert(all.take(i + 1).drop_last() =~= all.take(i as int));
        assert(all.take(i + 1).last() == files@[i as int]@);
        let ghost before = text::views(paths@);
        match kind_of_file(files[i].as_str()) {
            Some(found) => {
                if found == kind {
                    paths.push(files[i].clone());
                    assert(text::views(paths@) =~= before.push(files@[i as int]@));
                }
            },
            None => {},
        }
        i += 1;
    }
    assert(all.take(i as int) =~= all);
    let sorted = order::sort_texts(paths.as_slice());
    let ghost want = order::sort(of_kind(all, kind));
    let mut out: Vec<ArtifactRef> = Vec::new();
    let mut j: usize = 0;
    while j < sorted.len()
        invariant
            j <= sorted@.len(),
            want == text::views(sorted@),
            out@.len() == j,
            forall|k: int|
                0 <= k < j ==> (#[trigger] out@[k])@ == (ArtifactView { kind, path: want[k] }),
        decreases sorted@.len() - j,
    {
        out.push(ArtifactRef { kind, path: sorted[j].clone() });
        assert(out@[j as int]@ == (ArtifactView { kind, path: want[j as int] }));
        j += 1;
    }
    assert(artifact::artifacts_view(out@) =~= found_of_kind(all, kind));
    out
}

/// Picks out of the files of a directory those that the recorder wrote.
pub fn discover_ttd_artifacts(files: &[String]) -> (r: DiscoveredTtdArtifacts)
    ensures
        r@ == discovered(text::views(files@)),
{
    DiscoveredTtdArtifacts {
        traces: select(files, ArtifactKind::TtdTrace),
        trace_indexes: select(files, ArtifactKind::TtdTraceIndex),
        recorder_logs: select(files, ArtifactKind::TtdRecorderOutput),
    }
}

} // verus!
