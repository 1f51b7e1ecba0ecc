//! The target of a profile.

use crate::error::{DbgFlowError, ErrorView};
use crate::scan;
use crate::text::cat2;
use vstd::prelude::*;

verus! {

/// What is run under a profile.
#[derive(Debug)]
pub enum ProfileTarget {
    /// A program and its arguments.
    Launch { executable: String, args: Vec<String> },
}

/// How a run of the target ended.
#[derive(Debug, Clone, Copy, PartialEq, Eq, Structural)]
pub enum TargetExit {
    Exited { pid: u32, exit_code: Option<i32> },
    TimedOut { pid: u32 },
}

impl TargetExit {
    /// The process that ran.
    pub open spec fn process(self) -> u32 {
        match self {
            TargetExit::Exited { pid, .. } => pid,
            TargetExit::TimedOut { pid } => pid,
        }
    }
}

/// What is told of a target while it runs.
pub trait TargetEventSink {
    fn target_started(&self, pid: u32);
}

/// A sink that nobody listens to.
#[derive(Debug)]
pub struct NoopTargetEventSink;

impl TargetEventSink for NoopTargetEventSink {
    fn target_started(&self, _pid: u32) {
    }
}

/// Runs targets as processes of this machine.
#[derive(Debug)]
pub struct ProcessTargetRunner;

/// What the runner does next while a target runs.
#[derive(Debug, Clone, Copy, PartialEq, Eq, Structural)]
pub enum WaitStep {
    /// The run is over.
    Finished(TargetExit),
    /// Look again after a pause of this many milliseconds.
    Pause(u64),
}

impl ProcessTargetRunner {
    /// Decides after a look at the process: its exit, if it has one, counts before the timeout.
    pub fn poll(&self, pid: u32, exited: Option<Option<i32>>, deadline_passed: bool) -> (r: WaitStep)
        ensures
            r == match exited {
                Some(exit_code) => WaitStep::Finished(TargetExit::Exited { pid, exit_code }),
                None => if deadline_passed {
                    WaitStep::Finished(TargetExit::TimedOut { pid })
                } else {
                    WaitStep::Pause(25)
                },
            },
    {
        match exited {
            Some(exit_code) => WaitStep::Finished(TargetExit::Exited { pid, exit_code }),
            None => if deadline_passed {
                WaitStep::Finished(TargetExit::TimedOut { pid })
            } else {
                WaitStep::Pause(25)
            },
        }
    }
}

/// Whether a text of a list holds a zero character.
pub open spec fn some_nul(args: Seq<String>) -> bool {
    exists|i: int| 0 <= i < args.len() && (#[trigger] args[i])@.contains('\0')
}

/// What the file system says of the executable of a target.
#[derive(Debug)]
pub struct ResolvedExecutable {
    /// The canonical path.
    pub path: String,
    pub is_file: bool,
}

/// Checks a target whose executable was looked up: it must be a file, and no argument may hold
/// a zero character.
pub fn validate_profile_target(
    target: ProfileTarget,
    resolved: Result<ResolvedExecutable, String>,
) -> (r: Result<ProfileTarget, DbgFlowError>)
    ensures
        match (target, resolved) {
            (ProfileTarget::Launch { executable: _, args }, Ok(found)) => {
                if !found.is_file {
                    r matches Err(e) && e@ == ErrorView::Backend(
                        "profile launch executable is not a file: "@ + found.path@,
                    )
                } else if some_nul(args@) {
                    r matches Err(e) && e@ == ErrorView::Backend(
                        "profile launch arguments must not contain NUL bytes"@,
                    )
                } else {
                    r == Ok::<ProfileTarget, DbgFlowError>(
                        ProfileTarget::Launch { executable: found.path, args },
                    )
                }
            },
            (_, Err(error)) => r matches Err(e) && e@ == ErrorView::Backend(
                "invalid profile launch executable: "@ + error@,
            ),
        },
{
    match target {
        ProfileTarget::Launch { executable: _, args } => {
            let found = match resolved {
                Ok(found) => found,
                Err(error) => {
                    return Err(
                        DbgFlowError::Backend(
                            cat2("invalid profile launch executable: ", error.as_str()),
                        ),
                    );
                },
            };
            if !found.is_file {
                return Err(
                    DbgFlowError::Backend(
                        cat2("profile launch executable is not a file: ", found.path.as_str()),
                    ),
                );
            }
            if any_nul(args.as_slice()) {
                return Err(
                    DbgFlowError::backend("profile launch arguments must not contain NUL bytes"),
                );
            }
            Ok(ProfileTarget::Launch { executable: found.path, args })
        },
    }
}

/// Whether a text of a list holds a zero character.
pub fn any_nul(args: &[String]) -> (r: bool)
    ensures
        r == some_nul(args@),
{
    let mut i: usize = 0;
    while i < args.len()
        invariant
            i <= args@.len(),
            forall|j: int| 0 <= j < i ==> !(#[trigger] args@[j])@.contains('\0'),
        decreases args@.len() - i,
    {
        if scan::contains_char(args[i].as_str(), '\0') {
            assert(args@[i as int]@.contains('\0'));
            return true;
        }
        i += 1;
    }
    false
}

} // verus!
