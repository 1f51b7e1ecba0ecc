//! Laws of recordings: what is asked for reaches the recorder, and what the recorder leaves behind
//! is reported as what it is.

use crate::artifact::{ArtifactKind, ArtifactView};
use crate::error::{DbgFlowError, ErrorView};
use crate::json;
use crate::order;
use crate::ids;
use crate::ids::SessionId;
use crate::profile::request::SingleActiveJob;
use crate::profile::target::ResolvedExecutable;
use crate::scan;
use crate::text;
use crate::ttd::args;
use crate::ttd::args::{build_ttd_args, ttd_stop_target, ProcessTtdRecorderRunner, RecorderWait};
use crate::ttd::options;
use crate::ttd::options::{
    find_ttd_exe_in_path, RecordTtd, TtdRecordMode, TtdRecorderExit, TtdRecorderRuntime,
    TtdRecordingCompletionReason, TtdRecordingOptions, TtdRecordingStatus, TtdReplayCpuSupport,
    TtdTarget,
};
use crate::ttd::output;
use crate::ttd::output::{discover_ttd_artifacts, recorder_error_summary, DiscoveredTtdArtifacts};
use crate::ttd::record;
use crate::ttd::record::{AnswerView, MetadataView, PhaseView, ProgressView, TtdAsk, TtdJob, TtdRun};
use crate::ttd::validation::{validate_ttd_options, validate_ttd_target};
use crate::winpath;
use vstd::prelude::*;

verus! {

/// How many switches are set.
pub open spec fn switches(o: TtdRecordingOptions) -> int {
    (if o.no_ui {
        1int
    } else {
        0int
    }) + (if o.accept_eula {
        1int
    } else {
        0int
    }) + (if o.children {
        1int
    } else {
        0int
    }) + (if o.ring {
        1int
    } else {
        0int
    })
}

/// Where the arguments behind the modules begin.
pub open spec fn behind_modules(o: TtdRecordingOptions) -> int {
    4 + switches(o) + 2 * o.modules@.len()
}

/// Where the arguments about the target begin.
pub open spec fn behind_options(o: TtdRecordingOptions) -> int {
    behind_modules(o) + (if o.record_mode == TtdRecordMode::Automatic {
        0int
    } else {
        2int
    }) + (if o.replay_cpu_support == TtdReplayCpuSupport::Default {
        0int
    } else {
        2int
    })
}

/// The recorder is told first where to write, then the switches that were asked for, each exactly
/// if it was, and then how large a file may become.
pub proof fn switches_are_passed_as_asked(
    target: TtdTarget,
    o: TtdRecordingOptions,
    traces_dir: &str,
    r: Vec<String>,
)
    requires
        call_ensures(build_ttd_args, (&target, &o, traces_dir), r),
    ensures
        ({
            let v = text::views(r@);
            let n = switches(o);
            let given = v.subrange(2, 2 + n);
            &&& v.len() >= behind_options(o)
            &&& v[0] == "-out"@
            &&& v[1] == traces_dir@
            &&& given.contains("-noUI"@) <==> o.no_ui
            &&& given.contains("-accepteula"@) <==> o.accept_eula
            &&& given.contains("-children"@) <==> o.children
            &&& given.contains("-ring"@) <==> o.ring
            &&& v[2 + n] == "-maxFile"@
            &&& v[3 + n] == text::decimal(o.max_file_mb as nat)
        }),
{
    in_four_parts(target, o, traces_dir@);
    given_switches(o);
    let v = text::views(r@);
    let n = switches(o);
    let head = head_args(o, traces_dir@);
    assert(head.len() == 4 + n);
    assert(v.len() >= behind_options(o));
    assert(v.take(4 + n) =~= head);
    assert(v.subrange(2, 2 + n) =~= head.subrange(2, 2 + n));
    assert(head.subrange(2, 2 + n) =~= switch_args(o));
    assert(v[0] == v.take(4 + n)[0] && v[1] == v.take(4 + n)[1]);
    assert(v[2 + n] == v.take(4 + n)[2 + n] && v[3 + n] == v.take(4 + n)[3 + n]);
}

#[verifier::opaque]
spec fn switch_args(o: TtdRecordingOptions) -> Seq<Seq<char>> {
    args::flag(o.no_ui, "-noUI"@) + args::flag(o.accept_eula, "-accepteula"@) + args::flag(
        o.children,
        "-children"@,
    ) + args::flag(o.ring, "-ring"@)
}

spec fn head_args(o: TtdRecordingOptions, traces_dir: Seq<char>) -> Seq<Seq<char>> {
    seq!["-out"@, traces_dir] + switch_args(o) + seq![
        "-maxFile"@,
        text::decimal(o.max_file_mb as nat),
    ]
}

spec fn mode_args(o: TtdRecordingOptions) -> Seq<Seq<char>> {
    args::setting(
        o.record_mode != TtdRecordMode::Automatic,
        "-recordmode"@,
        options::mode_name(o.record_mode),
    ) + args::setting(
        o.replay_cpu_support != TtdReplayCpuSupport::Default,
        "-replayCpuSupport"@,
        options::support_name(o.replay_cpu_support),
    )
}

proof fn in_four_parts(target: TtdTarget, o: TtdRecordingOptions, traces_dir: Seq<char>)
    ensures
        args::recorder_args(target, o, traces_dir) == head_args(o, traces_dir)
            + args::module_args(o.modules@) + mode_args(o) + args::target_args(target),
        head_args(o, traces_dir).len() == 4 + switches(o),
        args::module_args(o.modules@).len() == 2 * o.modules@.len(),
        mode_args(o).len() == behind_options(o) - behind_modules(o),
{
    reveal(switch_args);
    modules_take_two(o.modules@);
    regrouped(
        seq!["-out"@, traces_dir],
        args::flag(o.no_ui, "-noUI"@),
        args::flag(o.accept_eula, "-accepteula"@),
        args::flag(o.children, "-children"@),
        args::flag(o.ring, "-ring"@),
        seq!["-maxFile"@, text::decimal(o.max_file_mb as nat)],
        args::module_args(o.modules@),
        args::setting(
            o.record_mode != TtdRecordMode::Automatic,
            "-recordmode"@,
            options::mode_name(o.record_mode),
        ),
        args::setting(
            o.replay_cpu_support != TtdReplayCpuSupport::Default,
            "-replayCpuSupport"@,
            options::support_name(o.replay_cpu_support),
        ),
        args::target_args(target),
    );
}

proof fn regrouped(
    a: Seq<Seq<char>>,
    b: Seq<Seq<char>>,
    c: Seq<Seq<char>>,
    d: Seq<Seq<char>>,
    e: Seq<Seq<char>>,
    f: Seq<Seq<char>>,
    g: Seq<Seq<char>>,
    h: Seq<Seq<char>>,
    i: Seq<Seq<char>>,
    j: Seq<Seq<char>>,
)
    ensures
        a + b + c + d + e + f + g + h + i + j == a + (b + c + d + e) + f + g + (h + i) + j,
{
    assert(a + b + c + d + e =~= a + (b + c + d + e));
    let k = a + (b + c + d + e) + f + g;
    assert(k + h + i =~= k + (h + i));
}

proof fn parts_in_place(
    a: Seq<Seq<char>>,
    b: Seq<Seq<char>>,
    c: Seq<Seq<char>>,
    d: Seq<Seq<char>>,
)
    ensures
        forall|i: int| 0 <= i < b.len() ==> #[trigger] (a + b + c + d)[a.len() + i] == b[i],
        forall|i: int|
            0 <= i < c.len() ==> #[trigger] (a + b + c + d)[a.len() + b.len() + i] == c[i],
{
}

proof fn given_switches(o: TtdRecordingOptions)
    ensures
        switch_args(o).len() == switches(o),
        switch_args(o).contains("-noUI"@) <==> o.no_ui,
        switch_args(o).contains("-accepteula"@) <==> o.accept_eula,
        switch_args(o).contains("-children"@) <==> o.children,
        switch_args(o).contains("-ring"@) <==> o.ring,
{
    reveal(switch_args);
    reveal_strlit("-noUI");
    reveal_strlit("-accepteula");
    reveal_strlit("-children");
    reveal_strlit("-ring");
    assert("-noUI"@.len() == 5 && "-accepteula"@.len() == 11 && "-children"@.len() == 9 && "-ring"@.len() == 5);
    assert("-noUI"@[1] == 'n' && "-ring"@[1] == 'r');
    let given = switch_args(o);
    let a: int = if o.no_ui {
        1
    } else {
        0
    };
    let b: int = a + if o.accept_eula {
        1int
    } else {
        0int
    };
    let c: int = b + if o.children {
        1int
    } else {
        0int
    };
    if o.no_ui {
        assert(given[0] == "-noUI"@);
    }
    if o.accept_eula {
        assert(given[a] == "-accepteula"@);
    }
    if o.children {
        assert(given[b] == "-children"@);
    }
    if o.ring {
        assert(given[c] == "-ring"@);
    }
    assert forall|i: int| 0 <= i < given.len() implies {
        ||| o.no_ui && given[i] == "-noUI"@
        ||| o.accept_eula && given[i] == "-accepteula"@
        ||| o.children && given[i] == "-children"@
        ||| o.ring && given[i] == "-ring"@
    } by {}
}

/// Whether options differ in one switch, which is off in the first and on in the second.
pub open spec fn one_switch_more(
    off: TtdRecordingOptions,
    on: TtdRecordingOptions,
    switch: Seq<char>,
) -> bool {
    ||| switch == "-children"@ && !off.children && on == (TtdRecordingOptions {
        children: true,
        ..off
    })
    ||| switch == "-noUI"@ && !off.no_ui && on == (TtdRecordingOptions { no_ui: true, ..off })
    ||| switch == "-accepteula"@ && !off.accept_eula && on == (TtdRecordingOptions {
        accept_eula: true,
        ..off
    })
    ||| switch == "-ring"@ && !off.ring && on == (TtdRecordingOptions { ring: true, ..off })
}

/// To ask for one switch more adds that switch to the arguments and changes nothing else.
pub proof fn each_switch_adds_one_argument(
    target: TtdTarget,
    off: TtdRecordingOptions,
    on: TtdRecordingOptions,
    traces_dir: &str,
    without: Vec<String>,
    with: Vec<String>,
    switch: Seq<char>,
)
    requires
        call_ensures(build_ttd_args, (&target, &off, traces_dir), without),
        call_ensures(build_ttd_args, (&target, &on, traces_dir), with),
        one_switch_more(off, on, switch),
    ensures
        exists|k: int|
            2 <= k <= 2 + switches(off) && text::views(with@) == #[trigger] text::views(
                without@,
            ).insert(k, switch),
{
    around_the_switches(target, off, traces_dir@);
    around_the_switches(target, on, traces_dir@);
    one_switch_inserted(off, on, switch);
    same_rest(target, off, on, switch);
    let k = choose|k: int|
        0 <= k <= switches(off) && switch_args(on) == #[trigger] switch_args(off).insert(k, switch);
    let front = seq!["-out"@, traces_dir@];
    let rest = rest_args(target, off);
    inserted_in_the_middle(front, switch_args(off), rest, k, switch);
    assert(text::views(without@) == front + switch_args(off) + rest);
    assert(text::views(with@) == front + switch_args(on) + rest);
    assert(front.len() == 2);
    assert(text::views(with@) == text::views(without@).insert(2 + k, switch));
}

#[verifier::opaque]
spec fn rest_args(target: TtdTarget, o: TtdRecordingOptions) -> Seq<Seq<char>> {
    seq!["-maxFile"@, text::decimal(o.max_file_mb as nat)] + args::module_args(o.modules@)
        + mode_args(o) + args::target_args(target)
}

proof fn same_rest(
    target: TtdTarget,
    off: TtdRecordingOptions,
    on: TtdRecordingOptions,
    switch: Seq<char>,
)
    requires
        one_switch_more(off, on, switch),
    ensures
        rest_args(target, on) == rest_args(target, off),
{
    reveal(rest_args);
}

proof fn around_the_switches(target: TtdTarget, o: TtdRecordingOptions, traces_dir: Seq<char>)
    ensures
        args::recorder_args(target, o, traces_dir) == seq!["-out"@, traces_dir] + switch_args(o)
            + rest_args(target, o),
        switch_args(o).len() == switches(o),
{
    switches_are_counted(o);
    in_four_parts(target, o, traces_dir);
    let out = seq!["-out"@, traces_dir];
    let size = seq!["-maxFile"@, text::decimal(o.max_file_mb as nat)];
    put_together(
        out,
        switch_args(o),
        size,
        args::module_args(o.modules@),
        mode_args(o),
        args::target_args(target),
    );
    assert(rest_args(target, o) == size + args::module_args(o.modules@) + mode_args(o)
        + args::target_args(target)) by {
        reveal(rest_args);
    }
}

proof fn switches_are_counted(o: TtdRecordingOptions)
    ensures
        switch_args(o).len() == switches(o),
{
    reveal(switch_args);
}

proof fn put_together(
    out: Seq<Seq<char>>,
    given: Seq<Seq<char>>,
    size: Seq<Seq<char>>,
    modules: Seq<Seq<char>>,
    modes: Seq<Seq<char>>,
    target: Seq<Seq<char>>,
)
    ensures
        (out + given + size) + modules + modes + target == out + given + (size + modules + modes
            + target),
{
    assert((out + given + size) + modules + modes + target =~= out + given + (size + modules + modes
        + target));
}

proof fn inserted_in_the_middle(
    front: Seq<Seq<char>>,
    middle: Seq<Seq<char>>,
    rest: Seq<Seq<char>>,
    k: int,
    x: Seq<char>,
)
    requires
        0 <= k <= middle.len(),
    ensures
        (front + middle + rest).insert(front.len() + k, x) == front + middle.insert(k, x) + rest,
{
    assert((front + middle + rest).insert(front.len() + k, x) =~= front + middle.insert(k, x)
        + rest);
}

proof fn one_switch_inserted(
    off: TtdRecordingOptions,
    on: TtdRecordingOptions,
    switch: Seq<char>,
)
    requires
        one_switch_more(off, on, switch),
    ensures
        exists|k: int|
            0 <= k <= switches(off) && switch_args(on) == #[trigger] switch_args(off).insert(
                k,
                switch,
            ),
{
    reveal(switch_args);
    reveal_strlit("-noUI");
    reveal_strlit("-accepteula");
    reveal_strlit("-children");
    reveal_strlit("-ring");
    assert("-noUI"@.len() == 5 && "-accepteula"@.len() == 11 && "-children"@.len() == 9 && "-ring"@.len() == 5);
    assert("-noUI"@[1] == 'n' && "-ring"@[1] == 'r');
    let n: int = if off.no_ui {
        1
    } else {
        0
    };
    let e: int = if off.accept_eula {
        1
    } else {
        0
    };
    let c: int = if off.children {
        1
    } else {
        0
    };
    let k: int = if switch == "-noUI"@ {
        0
    } else if switch == "-accepteula"@ {
        n
    } else if switch == "-children"@ {
        n + e
    } else {
        n + e + c
    };
    assert(switch_args(on) =~= switch_args(off).insert(k, switch));
}

proof fn modules_take_two(modules: Seq<String>)
    ensures
        args::module_args(modules).len() == 2 * modules.len(),
    decreases modules.len(),
{
    if modules.len() > 0 {
        modules_take_two(modules.drop_last());
    }
}

proof fn module_in_place(modules: Seq<String>, i: int)
    requires
        0 <= i < modules.len(),
    ensures
        args::module_args(modules)[2 * i] == "-module"@,
        args::module_args(modules)[2 * i + 1] == modules[i]@,
    decreases modules.len(),
{
    let rest = modules.drop_last();
    modules_take_two(rest);
    let pair = seq!["-module"@, modules.last()@];
    assert(args::module_args(modules) == args::module_args(rest) + pair);
    if i < rest.len() {
        module_in_place(rest, i);
        assert(rest[i] == modules[i]);
    } else {
        assert((args::module_args(rest) + pair)[2 * i] == pair[0]);
        assert((args::module_args(rest) + pair)[2 * i + 1] == pair[1]);
    }
}

/// Each module is passed behind an option of its own, in the order of the request; the mode and the
/// demand on the processor are passed by their names if they are not the usual ones.
pub proof fn modules_and_modes_are_passed_as_asked(
    target: TtdTarget,
    o: TtdRecordingOptions,
    traces_dir: &str,
    r: Vec<String>,
    i: int,
)
    requires
        call_ensures(build_ttd_args, (&target, &o, traces_dir), r),
    ensures
        ({
            let v = text::views(r@);
            let start = 4 + switches(o);
            let m = behind_modules(o);
            let c = if o.record_mode == TtdRecordMode::Manual {
                m + 2
            } else {
                m
            };
            &&& 0 <= i < o.modules@.len() ==> v[start + 2 * i] == "-module"@ && v[start + 2 * i + 1]
                == o.modules@[i]@
            &&& o.record_mode == TtdRecordMode::Manual ==> v[m] == "-recordmode"@ && v[m + 1]
                == "Manual"@
            &&& o.replay_cpu_support == TtdReplayCpuSupport::MostConservative ==> v[c]
                == "-replayCpuSupport"@ && v[c + 1] == "MostConservative"@
            &&& o.replay_cpu_support == TtdReplayCpuSupport::MostAggressive ==> v[c]
                == "-replayCpuSupport"@ && v[c + 1] == "MostAggressive"@
            &&& o.replay_cpu_support == TtdReplayCpuSupport::IntelAvxRequired ==> v[c]
                == "-replayCpuSupport"@ && v[c + 1] == "IntelAvxRequired"@
            &&& o.replay_cpu_support == TtdReplayCpuSupport::IntelAvx2Required ==> v[c]
                == "-replayCpuSupport"@ && v[c + 1] == "IntelAvx2Required"@
        }),
{
    in_four_parts(target, o, traces_dir@);
    let v = text::views(r@);
    let start = 4 + switches(o);
    let modules = args::module_args(o.modules@);
    let modes = mode_args(o);
    let m = behind_modules(o);
    let head = head_args(o, traces_dir@);
    let t = args::target_args(target);
    parts_in_place(head, modules, modes, t);
    if 0 <= i < o.modules@.len() {
        module_in_place(o.modules@, i);
        assert(v[head.len() + 2 * i] == modules[2 * i]);
        assert(v[head.len() + (2 * i + 1)] == modules[2 * i + 1]);
    }
    assert(m == head.len() + modules.len());
    assert forall|j: int| 0 <= j < modes.len() implies #[trigger] v[m + j] == modes[j] by {
        assert(v[head.len() + modules.len() + j] == modes[j]);
    }
    if o.record_mode == TtdRecordMode::Manual {
        assert(v[m + 0] == modes[0] && v[m + 1] == modes[1]);
        if o.replay_cpu_support != TtdReplayCpuSupport::Default {
            assert(v[m + 2] == modes[2] && v[m + 3] == modes[3]);
        }
    } else if o.replay_cpu_support != TtdReplayCpuSupport::Default {
        assert(v[m + 0] == modes[0] && v[m + 1] == modes[1]);
    }
}

/// The target comes last: a program to launch with its own arguments as they are, a process to
/// attach to by its number, or a program to wait for, with the filter on its command line.
pub proof fn targets_are_passed_last(
    target: TtdTarget,
    o: TtdRecordingOptions,
    traces_dir: &str,
    r: Vec<String>,
)
    requires
        call_ensures(build_ttd_args, (&target, &o, traces_dir), r),
    ensures
        ({
            let v = text::views(r@).skip(behind_options(o));
            &&& target matches TtdTarget::Launch { executable, args } ==> {
                &&& v.len() == 2 + args@.len()
                &&& v[0] == "-launch"@
                &&& v[1] == executable@
                &&& forall|i: int| 0 <= i < args@.len() ==> v[2 + i] == (#[trigger] args@[i])@
            }
            &&& target matches TtdTarget::Attach { pid } ==> v == seq![
                "-attach"@,
                text::decimal(pid as nat),
            ]
            &&& target matches TtdTarget::Monitor { program, cmd_line_filter } ==> v == match cmd_line_filter {
                Some(filter) => seq!["-cmdLineFilter"@, filter@, "-monitor"@, program@],
                None => seq!["-monitor"@, program@],
            }
        }),
{
    in_four_parts(target, o, traces_dir@);
    let v = text::views(r@).skip(behind_options(o));
    let t = args::target_args(target);
    assert(v =~= t);
    if let TtdTarget::Launch { executable, args } = target {
        assert forall|i: int| 0 <= i < args@.len() implies v[2 + i] == (#[trigger] args@[i])@ by {
            assert(t[2 + i] == text::views(args@)[i]);
        }
    }
    if let TtdTarget::Monitor { program, cmd_line_filter } = target {
        if let Some(filter) = cmd_line_filter {
            assert(t =~= seq!["-cmdLineFilter"@, filter@, "-monitor"@, program@]);
        } else {
            assert(t =~= seq!["-monitor"@, program@]);
        }
    }
}

/// A recorder is told to stop what it records: everything it monitors, or the process that it
/// recorded, or, where none is known, the process it was attached to or the program it launched.
pub proof fn recorders_stop_what_they_record(
    target: TtdTarget,
    pid: Option<u32>,
    r: Option<String>,
    runner: ProcessTtdRecorderRunner,
    what: &str,
    arguments: Vec<String>,
)
    requires
        call_ensures(ttd_stop_target, (&target, pid), r),
        call_ensures(ProcessTtdRecorderRunner::stop_args, (&runner, what), arguments),
    ensures
        target is Monitor ==> (r matches Some(s) && s@ == "all"@),
        target !is Monitor ==> (pid matches Some(p) ==> (r matches Some(s) && s@ == text::decimal(
            p as nat,
        ))),
        pid is None ==> (target matches TtdTarget::Attach { pid: p } ==> (r matches Some(s) && s@
            == text::decimal(p as nat))),
        pid is None ==> (target matches TtdTarget::Launch { executable, .. } ==> text::view_opt(r)
            == winpath::parts(executable@).file_name()),
        text::views(arguments@) == seq!["-stop"@, what@, "-wait"@, "10"@],
{
}

/// A look at the recorder: it counts as done if it has ended, as late if its time is over, and is
/// looked at again otherwise. One that was ended counts as late.
pub proof fn recorders_are_watched(
    runner: ProcessTtdRecorderRunner,
    exited: Option<Option<i32>>,
    late: bool,
    r: RecorderWait,
    code: Option<i32>,
    killed: TtdRecorderExit,
)
    requires
        call_ensures(ProcessTtdRecorderRunner::poll, (&runner, exited, late), r),
        call_ensures(ProcessTtdRecorderRunner::killed, (&runner, code), killed),
    ensures
        exited matches Some(c) ==> (r matches RecorderWait::Finished(x) && x.exit_code == c
            && !x.timed_out),
        exited is None && late ==> r is Kill,
        exited is None && !late ==> r == RecorderWait::Pause(25),
        killed.timed_out && killed.exit_code == code,
{
}

/// The recorder is the one in its own directory, which must be there; without a directory it is
/// the first one where programs are looked for.
pub proof fn recorders_are_found(
    runtime: TtdRecorderRuntime,
    dir: Option<&String>,
    there: bool,
    elsewhere: Result<String, DbgFlowError>,
    r: Result<String, DbgFlowError>,
    dirs: &[String],
    marks: &[bool],
    i: int,
    found: Result<String, DbgFlowError>,
)
    requires
        call_ensures(TtdRecorderRuntime::ttd_dir, (&runtime,), dir),
        call_ensures(TtdRecorderRuntime::ttd_exe, (&runtime, there, elsewhere), r),
        dirs@.len() == marks@.len(),
        call_ensures(find_ttd_exe_in_path, (dirs, marks), found),
    ensures
        dir is None ==> r == elsewhere,
        dir matches Some(d) ==> (r is Ok <==> there),
        dir matches Some(d) ==> (r matches Ok(exe) ==> exe@ == winpath::joined_path(
            d@,
            "TTD.exe"@,
        )),
        0 <= i < marks@.len() && marks@[i] && (forall|j: int| 0 <= j < i ==> !#[trigger] marks@[j])
            ==> (found matches Ok(exe) && exe@ == winpath::joined_path(dirs@[i]@, "TTD.exe"@)),
        (forall|j: int| 0 <= j < marks@.len() ==> !#[trigger] marks@[j]) ==> found is Err,
{
    first_mark(marks@);
}

proof fn first_mark(marks: Seq<bool>)
    ensures
        match options::first_marked(marks) {
            Some(n) => n < marks.len() && marks[n as int] && forall|j: int|
                0 <= j < n ==> !#[trigger] marks[j],
            None => forall|j: int| 0 <= j < marks.len() ==> !#[trigger] marks[j],
        },
    decreases marks.len(),
{
    if marks.len() > 0 && !marks[0] {
        let rest = marks.drop_first();
        first_mark(rest);
        match options::first_marked(rest) {
            Some(n) => {
                assert forall|j: int| 0 <= j < n + 1 implies !#[trigger] marks[j] by {
                    if j > 0 {
                        assert(!rest[j - 1]);
                    }
                }
            },
            None => {
                assert forall|j: int| 0 <= j < marks.len() implies !#[trigger] marks[j] by {
                    if j > 0 {
                        assert(!rest[j - 1]);
                    }
                }
            },
        }
    }
}

/// A file is taken for a trace, an index or output of the recorder by what it ends in, and for
/// nothing else; the files of each kind are listed in order.
pub proof fn files_are_sorted_by_kind(files: &[String], r: DiscoveredTtdArtifacts, path: Seq<char>)
    requires
        call_ensures(discover_ttd_artifacts, (files,), r),
    ensures
        ({
            let there = text::views(files@).contains(path);
            let end = match winpath::extension(path) {
                Some(e) => scan::lower_all(e),
                None => Seq::empty(),
            };
            &&& r@.traces.contains(ArtifactView { kind: ArtifactKind::TtdTrace, path }) <==> there
                && end == "run"@
            &&& r@.trace_indexes.contains(ArtifactView { kind: ArtifactKind::TtdTraceIndex, path })
                <==> there && end == "idx"@
            &&& r@.recorder_logs.contains(
                ArtifactView { kind: ArtifactKind::TtdRecorderOutput, path },
            ) <==> there && (end == "out"@ || end == "err"@)
            &&& forall|i: int, j: int|
                0 <= i <= j < r@.traces.len() ==> order::text_le(
                    (#[trigger] r@.traces[i]).path,
                    (#[trigger] r@.traces[j]).path,
                )
        }),
{
    reveal_strlit("run");
    reveal_strlit("idx");
    reveal_strlit("out");
    reveal_strlit("err");
    assert("run"@.len() == 3 && "idx"@.len() == 3 && "out"@.len() == 3 && "err"@.len() == 3);
    assert("run"@[0] == 'r' && "idx"@[0] == 'i');
    assert("run"@[0] == 'r' && "out"@[0] == 'o');
    assert("run"@[0] == 'r' && "err"@[0] == 'e');
    assert("idx"@[0] == 'i' && "out"@[0] == 'o');
    assert("idx"@[0] == 'i' && "err"@[0] == 'e');
    assert("out"@[0] == 'o' && "err"@[0] == 'e');
    let all = text::views(files@);
    picked(all, ArtifactKind::TtdTrace, path);
    picked(all, ArtifactKind::TtdTraceIndex, path);
    picked(all, ArtifactKind::TtdRecorderOutput, path);
    let traces = order::sort(output::of_kind(all, ArtifactKind::TtdTrace));
    order::sort_sorts(output::of_kind(all, ArtifactKind::TtdTrace));
    assert forall|i: int, j: int| 0 <= i <= j < r@.traces.len() implies order::text_le(
        (#[trigger] r@.traces[i]).path,
        (#[trigger] r@.traces[j]).path,
    ) by {
        assert(r@.traces[i].path == traces[i] && r@.traces[j].path == traces[j]);
    }
}

proof fn picked(files: Seq<Seq<char>>, kind: ArtifactKind, path: Seq<char>)
    ensures
        output::found_of_kind(files, kind).contains(ArtifactView { kind, path }) <==> files.contains(
            path,
        ) && output::file_kind(path) == Some(kind),
{
    broadcast use vstd::seq_lib::group_to_multiset_ensures;

    picked_before_sorting(files, kind, path);
    let some = output::of_kind(files, kind);
    let sorted = order::sort(some);
    order::sort_sorts(some);
    assert(sorted.contains(path) <==> some.contains(path)) by {
        assert(sorted.to_multiset().count(path) == some.to_multiset().count(path));
    }
    let found = output::found_of_kind(files, kind);
    if sorted.contains(path) {
        let i = choose|i: int| 0 <= i < sorted.len() && sorted[i] == path;
        assert(found[i] == (ArtifactView { kind, path }));
    }
    if found.contains(ArtifactView { kind, path }) {
        let i = choose|i: int| 0 <= i < found.len() && found[i] == (ArtifactView { kind, path });
        assert(sorted[i] == path);
    }
}

proof fn picked_before_sorting(files: Seq<Seq<char>>, kind: ArtifactKind, path: Seq<char>)
    ensures
        output::of_kind(files, kind).contains(path) <==> files.contains(path)
            && output::file_kind(path) == Some(kind),
    decreases files.len(),
{
    if files.len() > 0 {
        let rest = files.drop_last();
        picked_before_sorting(rest, kind, path);
        let before = output::of_kind(rest, kind);
        let all = output::of_kind(files, kind);
        assert(files[files.len() - 1] == files.last());
        if rest.contains(path) {
            let i = choose|i: int| 0 <= i < rest.len() && rest[i] == path;
            assert(files[i] == path);
        }
        if files.contains(path) && files.last() != path {
            let i = choose|i: int| 0 <= i < files.len() && files[i] == path;
            assert(rest[i] == path);
        }
        if before.contains(path) {
            let i = choose|i: int| 0 <= i < before.len() && before[i] == path;
            assert(all[i] == path);
        }
        if output::file_kind(files.last()) == Some(kind) {
            assert(all[all.len() - 1] == files.last());
            if all.contains(path) && path != files.last() {
                let i = choose|i: int| 0 <= i < all.len() && all[i] == path;
                assert(before[i] == path);
            }
        }
    }
}

/// What is said of a recorder that failed names its exit code and, where it wrote something, the
/// last words of its error output, or else of its output.
pub proof fn failures_say_the_last_words(
    stdout: &str,
    stderr: &str,
    code: Option<i32>,
    r: String,
)
    requires
        call_ensures(recorder_error_summary, (stdout, stderr, code), r),
    ensures
        ({
            let start = "TTD recorder exited with code "@ + (match code {
                Some(n) => "Some("@ + text::signed_decimal(n as int) + ")"@,
                None => "None"@,
            });
            &&& scan::trim(stderr@).len() > 0 ==> r@ == start + ": "@ + output::last_filled(
                scan::lines(stderr@),
            )
            &&& scan::trim(stderr@).len() == 0 && scan::trim(stdout@).len() > 0 ==> r@ == start
                + ": "@ + output::last_filled(scan::lines(stdout@))
            &&& scan::trim(stderr@).len() == 0 && scan::trim(stdout@).len() == 0 ==> r@ == start
        }),
{
}

/// A target is recorded as it was asked for, with the path that was found for its program. A
/// launched program must be a file, and a process must have a number.
pub proof fn targets_stay_what_they_are(
    target: TtdTarget,
    found: Result<ResolvedExecutable, String>,
    r: Result<TtdTarget, DbgFlowError>,
)
    requires
        call_ensures(validate_ttd_target, (target, found), r),
    ensures
        target matches TtdTarget::Attach { pid } ==> (r is Ok <==> pid != 0) && (r matches Ok(t)
            ==> t == target),
        target matches TtdTarget::Launch { executable, args } ==> {
            &&& r is Ok ==> (found matches Ok(f) && f.is_file)
            &&& r matches Ok(t) ==> t == (TtdTarget::Launch { executable: found->Ok_0.path, args })
            &&& (found matches Ok(f) && f.is_file) && (forall|i: int|
                0 <= i < args@.len() ==> !(#[trigger] args@[i])@.contains('\0')) ==> r is Ok
            &&& (exists|i: int| 0 <= i < args@.len() && (#[trigger] args@[i])@.contains('\0'))
                ==> r is Err
        },
        target matches TtdTarget::Monitor { program, cmd_line_filter } ==> {
            &&& scan::trim(program@).len() == 0 ==> r is Err
            &&& r matches Ok(t) ==> (t matches TtdTarget::Monitor { program: p, cmd_line_filter: c }
                && c == cmd_line_filter && (winpath::parts(program@).absolute() ==> (found matches Ok(
                f,
            ) && f.is_file && p == f.path)) && (!winpath::parts(program@).absolute() ==> p
                == program))
            &&& cmd_line_filter matches Some(f) ==> scan::trim(f@).len() == 0 ==> r is Err
        },
{
}

/// A file may be up to 32768 megabytes large in a ring and up to 1048576 otherwise, and must not
/// be empty.
pub proof fn sizes_are_bounded(
    o: TtdRecordingOptions,
    target: TtdTarget,
    r: Result<(), DbgFlowError>,
)
    requires
        call_ensures(validate_ttd_options, (&o, &target), r),
    ensures
        r is Ok ==> 1 <= o.max_file_mb <= 1048576,
        r is Ok && o.ring ==> o.max_file_mb <= 32768,
        r is Ok && target !is Monitor ==> o.modules@.len() <= 64,
        o.modules@.len() == 0 && 1 <= o.max_file_mb <= 32768 ==> r is Ok,
        o.modules@.len() == 0 && !o.ring && 1 <= o.max_file_mb <= 1048576 ==> r is Ok,
{
}

/// How a recording did and why it ended have their own names.
pub proof fn outcomes_have_their_names(m: MetadataView)
    ensures
        ({
            let f = record::end_fields(m);
            &&& m.status == TtdRecordingStatus::Completed ==> f.text_at("status"@) == Some(
                "Completed"@,
            )
            &&& m.status == TtdRecordingStatus::TimedOut ==> f.text_at("status"@) == Some(
                "TimedOut"@,
            )
            &&& m.status == TtdRecordingStatus::Failed ==> f.text_at("status"@) == Some("Failed"@)
            &&& m.completion_reason == TtdRecordingCompletionReason::TargetExited ==> f.text_at(
                "completion_reason"@,
            ) == Some("TargetExited"@)
            &&& m.completion_reason == TtdRecordingCompletionReason::Timeout ==> f.text_at(
                "completion_reason"@,
            ) == Some("Timeout"@)
            &&& m.completion_reason == TtdRecordingCompletionReason::RecorderError ==> f.text_at(
                "completion_reason"@,
            ) == Some("RecorderError"@)
            &&& m.completion_reason == TtdRecordingCompletionReason::RecorderUnavailable
                ==> f.text_at("completion_reason"@) == Some("RecorderUnavailable"@)
            &&& f.unsigned_at("duration_ms"@) == Some(m.duration_ms)
            &&& f.unsigned_at("trace_count"@) == Some(m.discovered.traces.len() as u64)
        }),
{
    broadcast use json::added_members_are_found;

    reveal_strlit("status");
    reveal_strlit("completion_reason");
    reveal_strlit("duration_ms");
    reveal_strlit("trace_count");
    assert("status"@.len() == 6 && "completion_reason"@.len() == 17 && "duration_ms"@.len() == 11 && "trace_count"@.len() == 11);
    assert("duration_ms"@[0] == 'd' && "trace_count"@[0] == 't');
}

/// A recording is complete exactly if the recorder ran to its end in time, without a failing exit
/// code, and left a trace; it then ended because its target did.
pub proof fn outcomes_are_judged(
    progress: ProgressView,
    discovered: output::DiscoveredView,
    duration_ms: u64,
)
    ensures
        ({
            let m = record::outcome(progress, discovered, duration_ms);
            let good_code = progress.exit.exit_code is None || progress.exit.exit_code == Some(0i32);
            let done = progress.failure is None && !progress.exit.timed_out && good_code
                && discovered.traces.len() > 0;
            &&& m.status == TtdRecordingStatus::Completed <==> done
            &&& m.completion_reason == TtdRecordingCompletionReason::TargetExited <==> done
            &&& m.error is None <==> done || progress.failure is None && progress.exit.timed_out
            &&& m.target_pid == progress.target_pid
            &&& m.recorder_exit_code == progress.exit.exit_code
            &&& m.duration_ms == duration_ms
            &&& m.discovered == discovered
            &&& m.warnings == progress.warnings
            &&& progress.failure matches Some(f) ==> m.error == Some(f) && m.completion_reason
                == TtdRecordingCompletionReason::RecorderError
        }),
{
}

/// A recording goes through its steps in order: the recorder is run, its output is read, it is
/// stopped if it was late, its files are looked for, and the outcome is written down.
pub proof fn recordings_take_their_steps(
    job: TtdJob,
    exit: TtdRecorderExit,
    stdout: Seq<char>,
    stderr: Seq<char>,
    progress: ProgressView,
    files: Seq<Seq<char>>,
    metadata: MetadataView,
    stop_tried: bool,
    ran: bool,
    path: Seq<char>,
    duration_ms: u64,
)
    ensures
        record::after(job, PhaseView::Run, AnswerView::Ran(Ok(exit)), duration_ms).phase == (
        PhaseView::ReadOutput { exit }),
        !exit.timed_out ==> (record::after(
            job,
            PhaseView::ReadOutput { exit },
            AnswerView::Output { stdout, stderr },
            duration_ms,
        ).phase matches PhaseView::Discover { progress: p } && p.exit == exit && p.stdout == stdout
            && p.stderr == stderr && p.failure is None && p.warnings.len() == 0 && !p.stop_tried),
        record::after(
            job,
            PhaseView::Discover { progress },
            AnswerView::Files(Ok(files)),
            duration_ms,
        ).phase matches PhaseView::Report { metadata: m, stop_tried: s, ran: r } && s
            == progress.stop_tried && (r <==> progress.failure is None) && m.duration_ms
            == duration_ms,
        record::after(
            job,
            PhaseView::Report { metadata, stop_tried, ran },
            AnswerView::Written(Ok(path)),
            duration_ms,
        ).phase matches PhaseView::Done(Ok(o)) && o.summary == metadata && o.recording_id == job.id
            && o.metadata == (ArtifactView { kind: ArtifactKind::TtdRecordingMetadata, path })
            && o.events == (ArtifactView {
            kind: ArtifactKind::TtdRecordingEvents,
            path: job.paths.events@,
        }) && o.recorder_stdout == (ArtifactView {
            kind: ArtifactKind::TtdRecorderOutput,
            path: job.paths.stdout@,
        }) && o.recorder_stderr == (ArtifactView {
            kind: ArtifactKind::TtdRecorderOutput,
            path: job.paths.stderr@,
        }) && (stop_tried <==> o.recorder_stop_stdout is Some) && (stop_tried
            <==> o.recorder_stop_stderr is Some) && (stop_tried ==> o.recorder_stop_stdout->0.path
            == job.paths.stop_stdout@ && o.recorder_stop_stderr->0.path == job.paths.stop_stderr@),
{
}

/// The recorder is run, and stopped, for as long and with the files that the job says.
pub proof fn recorders_are_run_as_asked(run: TtdRun, ask: TtdAsk)
    requires
        call_ensures(TtdRun::ask, (&run,), ask),
    ensures
        run.phase is Run ==> (ask matches TtdAsk::Run(i) && i.timeout_ms == run.job.request.timeout_ms
            && i.ttd_exe@ == run.job.ttd_exe@ && i.stdout_path@ == run.job.paths.stdout@
            && i.stderr_path@ == run.job.paths.stderr@),
        run.phase matches crate::ttd::record::TtdPhase::Stop { stop_target, .. } ==> (
        ask matches TtdAsk::Stop(i) && i.timeout_ms == 15000 && i.stop_target@ == stop_target@
            && i.ttd_exe@ == run.job.ttd_exe@ && i.stdout_path@ == run.job.paths.stop_stdout@
            && i.stderr_path@ == run.job.paths.stop_stderr@),
        run.phase is ReadOutput ==> ask is ReadOutput,
        run.phase is Discover ==> ask is Discover,
        run.phase is Report ==> ask is Report,
        run.phase is Done ==> ask is Nothing,
{
}

/// A recording is admitted as it was asked for, if its target and options are good, it has some
/// time, the recorder is there and no other recording runs; then it is the one that runs.
pub proof fn recordings_are_admitted_one_at_a_time(
    jobs: &mut SingleActiveJob,
    id: SessionId,
    target: Result<TtdTarget, DbgFlowError>,
    timeout_ms: u64,
    o: TtdRecordingOptions,
    exe: Result<String, DbgFlowError>,
    r: Result<(RecordTtd, String), DbgFlowError>,
)
    requires
        call_ensures(record::admit_recording, (jobs, id, target, timeout_ms, o, exe), r),
    ensures
        r is Ok ==> target is Ok && timeout_ms > 0 && exe is Ok && old(jobs).active is None
            && 1 <= o.max_file_mb <= 1048576,
        r matches Ok((request, ttd)) ==> Ok::<TtdTarget, DbgFlowError>(request.target) == target
            && request.timeout_ms == timeout_ms && request.options == o && Ok::<
            String,
            DbgFlowError,
        >(ttd) == exe && final(jobs).active == Some(id),
        r is Err ==> final(jobs).active == old(jobs).active,
        target is Ok && timeout_ms == 0 ==> (r matches Err(e) && e@ == ErrorView::Backend(
            "TTD recording timeout_ms must be greater than zero"@,
        )),
        target is Ok && timeout_ms > 0 && exe is Ok && o.modules@.len() == 0 && 1 <= o.max_file_mb
            <= 32768 ==> (r matches Err(e) ==> (old(jobs).active matches Some(other) && e@
            == ErrorView::Backend(
            "another TTD recording job is already active: "@ + ids::uuid_text(other.0),
        ))),
{
}

} // verus!
