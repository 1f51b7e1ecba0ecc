//! What is recorded, and how.

use crate::error::{DbgFlowError, ErrorView};
use crate::text;
use crate::text::cat2;
use crate::winpath;
use vstd::prelude::*;

verus! {

/// What is recorded.
#[derive(Debug)]
pub enum TtdTarget {
    /// A program that is started.
    Launch { executable: String, args: Vec<String> },
    /// A process that runs.
    Attach { pid: u32 },
    /// Each process of a program that starts from now on.
    Monitor { program: String, cmd_line_filter: Option<String> },
}

/// Whether the recorder starts to record by itself.
#[derive(Debug, Clone, Copy, PartialEq, Eq, Structural)]
pub enum TtdRecordMode {
    Automatic,
    Manual,
}

/// The name of a mode.
pub open spec fn mode_name(mode: TtdRecordMode) -> Seq<char> {
    match mode {
        TtdRecordMode::Automatic => "Automatic"@,
        TtdRecordMode::Manual => "Manual"@,
    }
}

impl TtdRecordMode {
    /// The name of the mode.
    pub fn as_ttd_arg(self) -> (r: &'static str)
        ensures
            r@ == mode_name(self),
    {
        match self {
            TtdRecordMode::Automatic => "Automatic",
            TtdRecordMode::Manual => "Manual",
        }
    }
}

/// What a processor must be able to do to replay a recording.
#[derive(Debug, Clone, Copy, PartialEq, Eq, Structural)]
pub enum TtdReplayCpuSupport {
    Default,
    MostConservative,
    MostAggressive,
    IntelAvxRequired,
    IntelAvx2Required,
}

/// The name of a demand on the processor.
pub open spec fn support_name(support: TtdReplayCpuSupport) -> Seq<char> {
    match support {
        TtdReplayCpuSupport::Default => "Default"@,
        TtdReplayCpuSupport::MostConservative => "MostConservative"@,
        TtdReplayCpuSupport::MostAggressive => "MostAggressive"@,
        TtdReplayCpuSupport::IntelAvxRequired => "IntelAvxRequired"@,
        TtdReplayCpuSupport::IntelAvx2Required => "IntelAvx2Required"@,
    }
}

impl TtdReplayCpuSupport {
    /// The name of the demand.
    pub fn as_ttd_arg(self) -> (r: &'static str)
        ensures
            r@ == support_name(self),
    {
        match self {
            TtdReplayCpuSupport::Default => "Default",
            TtdReplayCpuSupport::MostConservative => "MostConservative",
            TtdReplayCpuSupport::MostAggressive => "MostAggressive",
            TtdReplayCpuSupport::IntelAvxRequired => "IntelAvxRequired",
            TtdReplayCpuSupport::IntelAvx2Required => "IntelAvx2Required",
        }
    }
}

/// How a target is recorded.
#[derive(Debug)]
pub struct TtdRecordingOptions {
    pub children: bool,
    pub no_ui: bool,
    pub accept_eula: bool,
    pub ring: bool,
    pub max_file_mb: u32,
    pub modules: Vec<String>,
    pub record_mode: TtdRecordMode,
    pub replay_cpu_support: TtdReplayCpuSupport,
}

impl Default for TtdRecordingOptions {
    fn default() -> (r: Self)
        ensures
            !r.children,
            r.no_ui,
            !r.accept_eula,
            !r.ring,
            r.max_file_mb == 2048,
            r.modules@.len() == 0,
            r.record_mode == TtdRecordMode::Automatic,
            r.replay_cpu_support == TtdReplayCpuSupport::Default,
    {
        TtdRecordingOptions {
            children: false,
            no_ui: true,
            accept_eula: false,
            ring: false,
            max_file_mb: 2048,
            modules: Vec::new(),
            record_mode: TtdRecordMode::Automatic,
            replay_cpu_support: TtdReplayCpuSupport::Default,
        }
    }
}

/// A request for a recording.
#[derive(Debug)]
pub struct RecordTtd {
    pub target: TtdTarget,
    pub timeout_ms: u64,
    pub options: TtdRecordingOptions,
}

/// How a recording did.
#[derive(Debug, Clone, Copy, PartialEq, Eq, Structural)]
pub enum TtdRecordingStatus {
    Completed,
    TimedOut,
    Failed,
}

/// The name of a status.
pub open spec fn status_name(status: TtdRecordingStatus) -> Seq<char> {
    match status {
        TtdRecordingStatus::Completed => "Completed"@,
        TtdRecordingStatus::TimedOut => "TimedOut"@,
        TtdRecordingStatus::Failed => "Failed"@,
    }
}

/// Why a recording ended.
#[derive(Debug, Clone, Copy, PartialEq, Eq, Structural)]
pub enum TtdRecordingCompletionReason {
    TargetExited,
    Timeout,
    RecorderError,
    RecorderUnavailable,
}

/// The name of a reason.
pub open spec fn reason_name(reason: TtdRecordingCompletionReason) -> Seq<char> {
    match reason {
        TtdRecordingCompletionReason::TargetExited => "TargetExited"@,
        TtdRecordingCompletionReason::Timeout => "Timeout"@,
        TtdRecordingCompletionReason::RecorderError => "RecorderError"@,
        TtdRecordingCompletionReason::RecorderUnavailable => "RecorderUnavailable"@,
    }
}

/// How a run of the recorder ended.
#[derive(Debug, Clone, Copy, PartialEq, Eq, Structural)]
pub struct TtdRecorderExit {
    pub exit_code: Option<i32>,
    pub timed_out: bool,
}

/// Where the recorder is.
#[derive(Debug)]
pub struct TtdRecorderRuntime {
    dir: Option<String>,
}

impl Default for TtdRecorderRuntime {
    /// The recorder is where programs are looked for.
    fn default() -> (r: TtdRecorderRuntime)
        ensures
            r.place() is None,
    {
        TtdRecorderRuntime::unavailable()
    }
}

impl TtdRecorderRuntime {
    /// The directory of the recorder, if it is known.
    pub closed spec fn place(self) -> Option<Seq<char>> {
        text::view_opt(self.dir)
    }

    /// The recorder is where programs are looked for.
    pub fn unavailable() -> (r: TtdRecorderRuntime)
        ensures
            r.place() is None,
    {
        TtdRecorderRuntime { dir: None }
    }

    /// The recorder is in this directory.
    pub fn with_ttd_dir(path: String) -> (r: TtdRecorderRuntime)
        ensures
            r.place() == Some(path@),
    {
        TtdRecorderRuntime { dir: Some(path) }
    }

    /// The directory of the recorder, if it is known.
    pub fn ttd_dir(&self) -> (r: Option<&String>)
        ensures
            match r {
                Some(s) => self.place() == Some(s@),
                None => self.place() is None,
            },
    {
        match &self.dir {
            Some(dir) => Some(dir),
            None => None,
        }
    }

    /// The file that the recorder must be, if its directory is known.
    pub fn ttd_exe_candidate(&self) -> (r: Option<String>)
        ensures
            text::view_opt(r) == match self.place() {
                Some(dir) => Some(winpath::joined_path(dir, "TTD.exe"@)),
                None => None,
            },
    {
        match &self.dir {
            Some(dir) => Some(winpath::join(dir.as_str(), "TTD.exe")),
            None => None,
        }
    }

    /// The recorder: the file in its directory, which must exist, or else what was found where
    /// programs are looked for.
    pub fn ttd_exe(
        &self,
        candidate_is_file: bool,
        elsewhere: Result<String, DbgFlowError>,
    ) -> (r: Result<String, DbgFlowError>)
        ensures
            match self.place() {
                Some(dir) => if candidate_is_file {
                    r matches Ok(exe) && exe@ == winpath::joined_path(dir, "TTD.exe"@)
                } else {
                    r matches Err(e) && e@ == ErrorView::Backend(
                        "TTD recorder requires TTD.exe under "@ + dir,
                    )
                },
                None => r == elsewhere,
            },
    {
        match &self.dir {
            Some(dir) => if candidate_is_file {
                Ok(winpath::join(dir.as_str(), "TTD.exe"))
            } else {
                Err(
                    DbgFlowError::Backend(
                        cat2("TTD recorder requires TTD.exe under ", dir.as_str()),
                    ),
                )
            },
            None => elsewhere,
        }
    }
}

/// The first position that is marked.
pub open spec fn first_marked(marks: Seq<bool>) -> Option<nat>
    decreases marks.len(),
{
    if marks.len() == 0 {
        None
    } else if marks[0] {
        Some(0)
    } else {
        match first_marked(marks.drop_first()) {
            Some(n) => Some(n + 1),
            None => None,
        }
    }
}

/// The recorder in the first of the directories where programs are looked for that has it.
/// `found` says of each directory whether it does.
pub fn find_ttd_exe_in_path(dirs: &[String], found: &[bool]) -> (r: Result<String, DbgFlowError>)
    requires
        dirs@.len() == found@.len(),
    ensures
        match first_marked(found@) {
            Some(n) => n < dirs@.len() && (r matches Ok(exe) && exe@ == winpath::joined_path(
                dirs@[n as int]@,
                "TTD.exe"@,
            )),
            None => r matches Err(e) && e@ == ErrorView::Backend(
                "TTD.exe was not found in PATH; configure tools.ttd_dir or debugger.dbgeng_dir"@,
            ),
        },
{
    let mut i: usize = 0;
    assert(found@.skip(0) =~= found@);
    while i < found.len()
        invariant
            i <= found@.len(),
            dirs@.len() == found@.len(),
            first_marked(found@) == match first_marked(found@.skip(i as int)) {
                Some(n) => Some(n + i as nat),
                None => None,
            },
        decreases found@.len() - i,
    {
        assert(found@.skip(i as int).drop_first() =~= found@.skip(i + 1));
        assert(found@.skip(i as int)[0] == found@[i as int]);
        if found[i] {
            return Ok(winpath::join(dirs[i].as_str(), "TTD.exe"));
        }
        i += 1;
    }
    assert(found@.skip(i as int).len() == 0);
    Err(
        DbgFlowError::backend(
            "TTD.exe was not found in PATH; configure tools.ttd_dir or debugger.dbgeng_dir",
        ),
    )
}

} // verus!
