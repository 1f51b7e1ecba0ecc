//! The command lines of the recorder.

use crate::text;
use crate::text::decimal_text;
use crate::ttd::options;
use crate::ttd::options::{
    TtdRecordMode, TtdRecorderExit, TtdRecordingOptions, TtdReplayCpuSupport, TtdTarget,
};
use crate::winpath;
use vstd::prelude::*;

verus! {

/// A list that holds a text, or an empty one.
pub open spec fn flag(on: bool, name: Seq<char>) -> Seq<Seq<char>> {
    if on {
        seq![name]
    } else {
        Seq::empty()
    }
}

/// A list that holds a name and a value, or an empty one.
pub open spec fn setting(on: bool, name: Seq<char>, value: Seq<char>) -> Seq<Seq<char>> {
    if on {
        seq![name, value]
    } else {
        Seq::empty()
    }
}

/// Each module behind the option that names it.
pub open spec fn module_args(modules: Seq<String>) -> Seq<Seq<char>>
    decreases modules.len(),
{
    if modules.len() == 0 {
        Seq::empty()
    } else {
        module_args(modules.drop_last()) + seq!["-module"@, modules.last()@]
    }
}

/// The arguments that name the target.
pub open spec fn target_args(target: TtdTarget) -> Seq<Seq<char>> {
    match target {
        TtdTarget::Launch { executable, args } => seq!["-launch"@, executable@] + text::views(
            args@,
        ),
        TtdTarget::Attach { pid } => seq!["-attach"@, text::decimal(pid as nat)],
        TtdTarget::Monitor { program, cmd_line_filter } => (match cmd_line_filter {
            Some(filter) => seq!["-cmdLineFilter"@, filter@],
            None => Seq::empty(),
        }) + seq!["-monitor"@, program@],
    }
}

/// The arguments of the recorder.
pub open spec fn recorder_args(
    target: TtdTarget,
    o: TtdRecordingOptions,
    traces_dir: Seq<char>,
) -> Seq<Seq<char>> {
    seq!["-out"@, traces_dir] + flag(o.no_ui, "-noUI"@) + flag(o.accept_eula, "-accepteula"@)
        + flag(o.children, "-children"@) + flag(o.ring, "-ring"@) + seq![
        "-maxFile"@,
        text::decimal(o.max_file_mb as nat),
    ] + module_args(o.modules@) + setting(
        o.record_mode != TtdRecordMode::Automatic,
        "-recordmode"@,
        options::mode_name(o.record_mode),
    ) + setting(
        o.replay_cpu_support != TtdReplayCpuSupport::Default,
        "-replayCpuSupport"@,
        options::support_name(o.replay_cpu_support),
    ) + target_args(target)
}

fn push_arg(args: &mut Vec<String>, arg: &str)
    ensures
        text::views(final(args)@) == text::views(old(args)@) + seq![arg@],
{
    args.push(arg.to_owned());
    assert(text::views(args@) =~= text::views(old(args)@) + seq![arg@]);
}

fn push_flag(args: &mut Vec<String>, on: bool, name: &str)
    ensures
        text::views(final(args)@) == text::views(old(args)@) + flag(on, name@),
{
    if on {
        push_arg(args, name);
    }
    assert(text::views(args@) =~= text::views(old(args)@) + flag(on, name@));
}

fn push_setting(args: &mut Vec<String>, on: bool, name: &str, value: &str)
    ensures
        text::views(final(args)@) == text::views(old(args)@) + setting(on, name@, value@),
{
    if on {
        push_arg(args, name);
        push_arg(args, value);
    }
    assert(text::views(args@) =~= text::views(old(args)@) + setting(on, name@, value@));
}

fn push_all(args: &mut Vec<String>, more: &[String])
    ensures
        text::views(final(args)@) == text::views(old(args)@) + text::views(more@),
{
    let ghost before = text::views(args@);
    let mut i: usize = 0;
    assert(before =~= before + text::views(more@.take(0)));
    while i < more.len()
        invariant
            i <= more@.len(),
            text::views(args@) == before + text::views(more@.take(i as int)),
        decreases more@.len() - i,
    {
        push_arg(args, more[i].as_str());
        assert(text::views(more@.take(i + 1)) =~= text::views(more@.take(i as int)) + seq![
            more@[i as int]@,
        ]);
        assert(text::views(args@) =~= before + text::views(more@.take(i + 1)));
        i += 1;
    }
    assert(more@.take(i as int) =~= more@);
}

fn push_modules(args: &mut Vec<String>, modules: &[String])
    ensures
        text::views(final(args)@) == text::views(old(args)@) + module_args(modules@),
{
    let ghost before = text::views(args@);
    let mut i: usize = 0;
    assert(modules@.take(0) =~= Seq::<String>::empty());
    assert(before =~= before + module_args(modules@.take(0)));
    while i < modules.len()
        invariant
            i <= modules@.len(),
            text::views(args@) == before + module_args(modules@.take(i as int)),
        decreases modules@.len() - i,
    {
        push_setting(args, true, "-module", modules[i].as_str());
        assert(modules@.take(i + 1).drop_last() =~= modules@.take(i as int));
        assert(modules@.take(i + 1).last() == modules@[i as int]);
        assert(text::views(args@) =~= before + module_args(modules@.take(i + 1)));
        i += 1;
    }
    assert(modules@.take(i as int) =~= modules@);
}

/// The arguments with which the recorder records a target.
pub fn build_ttd_args(
    target: &TtdTarget,
    options: &TtdRecordingOptions,
    traces_dir: &str,
) -> (r: Vec<String>)
    ensures
        text::views(r@) == recorder_args(*target, *options, traces_dir@),
{
    let mut args: Vec<String> = Vec::new();
    push_setting(&mut args, true, "-out", traces_dir);
    assert(text::views(args@) =~= seq!["-out"@, traces_dir@]);
    push_flag(&mut args, options.no_ui, "-noUI");
    push_flag(&mut args, options.accept_eula, "-accepteula");
    push_flag(&mut args, options.children, "-children");
    push_flag(&mut args, options.ring, "-ring");
    push_setting(&mut args, true, "-maxFile", decimal_text(options.max_file_mb as u64).as_str());
    push_modules(&mut args, options.modules.as_slice());
    push_setting(
        &mut args,
        options.record_mode != TtdRecordMode::Automatic,
        "-recordmode",
        options.record_mode.as_ttd_arg(),
    );
    push_setting(
        &mut args,
        options.replay_cpu_support != TtdReplayCpuSupport::Default,
        "-replayCpuSupport",
        options.replay_cpu_support.as_ttd_arg(),
    );
    let ghost front = text::views(args@);
    match target {
        TtdTarget::Launch { executable, args: target_args } => {
            push_setting(&mut args, true, "-launch", executable.as_str());
            push_all(&mut args, target_args.as_slice());
        },
        TtdTarget::Attach { pid } => {
            push_setting(&mut args, true, "-attach", decimal_text(*pid as u64).as_str());
        },
        TtdTarget::Monitor { program, cmd_line_filter } => {
            match cmd_line_filter {
                Some(filter) => {
                    push_setting(&mut args, true, "-cmdLineFilter", filter.as_str());
                },
                None => {},
            }
            push_setting(&mut args, true, "-monitor", program.as_str());
        },
    }
    assert(text::views(args@) =~= front + target_args(*target));
    args
}

/// What the recorder is told to stop: all that it monitors, the process that it records, or a
/// program by its name.
pub open spec fn stop_target(target: TtdTarget, recorded_pid: Option<u32>) -> Option<Seq<char>> {
    match target {
        TtdTarget::Monitor { .. } => Some("all"@),
        TtdTarget::Attach { pid } => Some(
            text::decimal(
                match recorded_pid {
                    Some(p) => p as nat,
                    None => pid as nat,
                },
            ),
        ),
        TtdTarget::Launch { executable, .. } => match recorded_pid {
            Some(p) => Some(text::decimal(p as nat)),
            None => winpath::parts(executable@).file_name(),
        },
    }
}

/// What the recorder is told to stop.
pub fn ttd_stop_target(target: &TtdTarget, recorded_pid: Option<u32>) -> (r: Option<String>)
    ensures
        text::view_opt(r) == stop_target(*target, recorded_pid),
{
    match target {
        TtdTarget::Monitor { .. } => Some("all".to_owned()),
        TtdTarget::Attach { pid } => {
            let process: u32 = match recorded_pid {
                Some(recorded) => recorded,
                None => *pid,
            };
            Some(decimal_text(process as u64))
        },
        TtdTarget::Launch { executable, .. } => match recorded_pid {
            Some(recorded) => Some(decimal_text(recorded as u64)),
            None => winpath::file_name(executable.as_str()),
        },
    }
}

/// Runs the recorder as a process of this machine.
#[derive(Debug)]
pub struct ProcessTtdRecorderRunner;

/// What the runner does next while the recorder runs.
#[derive(Debug, Clone, Copy, PartialEq, Eq, Structural)]
pub enum RecorderWait {
    /// The recorder is done.
    Finished(TtdRecorderExit),
    /// End the recorder; it timed out.
    Kill,
    /// Look again after a pause of this many milliseconds.
    Pause(u64),
}

impl ProcessTtdRecorderRunner {
    /// The arguments with which the recorder is told to stop.
    pub fn stop_args(&self, stop_target: &str) -> (r: Vec<String>)
        ensures
            text::views(r@) == seq!["-stop"@, stop_target@, "-wait"@, "10"@],
    {
        let mut args: Vec<String> = Vec::new();
        push_setting(&mut args, true, "-stop", stop_target);
        push_setting(&mut args, true, "-wait", "10");
        assert(text::views(args@) =~= seq!["-stop"@, stop_target@, "-wait"@, "10"@]);
        args
    }

    /// Decides after a look at the recorder: its exit, if it has one, counts before the timeout.
    pub fn poll(&self, exited: Option<Option<i32>>, deadline_passed: bool) -> (r: RecorderWait)
        ensures
            r == match exited {
                Some(exit_code) => RecorderWait::Finished(
                    TtdRecorderExit { exit_code, timed_out: false },
                ),
                None => if deadline_passed {
                    RecorderWait::Kill
                } else {
                    RecorderWait::Pause(25)
                },
            },
    {
        match exited {
            Some(exit_code) => RecorderWait::Finished(
                TtdRecorderExit { exit_code, timed_out: false },
            ),
            None => if deadline_passed {
                RecorderWait::Kill
            } else {
                RecorderWait::Pause(25)
            },
        }
    }

    /// The exit of a recorder that was ended.
    pub fn killed(&self, exit_code: Option<i32>) -> (r: TtdRecorderExit)
        ensures
            r == (TtdRecorderExit { exit_code, timed_out: true }),
    {
        TtdRecorderExit { exit_code, timed_out: true }
    }
}

} // verus!
