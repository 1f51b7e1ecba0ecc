//! Settings of a trace session.

use crate::error::{DbgFlowError, ErrorView};
use crate::text::cat2;
use vstd::prelude::*;

verus! {

/// A group of events that can be recorded together.
#[derive(Debug, Clone, Copy, PartialEq, Eq, Structural)]
pub enum EtwEventSet {
    Process,
    FileIo,
}

/// Whose events are recorded.
#[derive(Debug, Clone, Copy, PartialEq, Eq, Structural)]
pub enum EtwProfileScope {
    TargetProcess,
    System,
}

/// Whether call stacks are recorded.
#[derive(Debug, Clone, Copy, PartialEq, Eq, Structural)]
pub struct EtwStackConfig {
    pub enabled: bool,
}

impl Default for EtwStackConfig {
    fn default() -> (r: Self)
        ensures
            r == (EtwStackConfig { enabled: false }),
    {
        EtwStackConfig { enabled: false }
    }
}

/// The configuration of one collector of a profile.
#[derive(Debug)]
pub enum ProfileCollectorConfig {
    NativeEtw { scope: EtwProfileScope, event_sets: Vec<EtwEventSet>, stacks: EtwStackConfig },
}

/// Checked settings: each event set at most once, in a fixed order.
#[derive(Debug, Clone, Copy)]
pub struct NativeEtwSettings {
    pub event_sets: [Option<EtwEventSet>; 2],
    pub stacks_enabled: bool,
}

/// The name of an event set.
pub open spec fn event_set_view(event_set: EtwEventSet) -> Seq<char> {
    match event_set {
        EtwEventSet::Process => "process"@,
        EtwEventSet::FileIo => "file_io"@,
    }
}

/// The position of the first element that occurs more than once.
pub open spec fn first_repeated(event_sets: Seq<EtwEventSet>, i: int) -> bool {
    &&& 0 <= i < event_sets.len()
    &&& repeated(event_sets, i)
    &&& forall|j: int| 0 <= j < i ==> !repeated(event_sets, j)
}

/// Whether the element at `i` occurs at another position too.
pub open spec fn repeated(event_sets: Seq<EtwEventSet>, i: int) -> bool {
    exists|j: int| 0 <= j < event_sets.len() && j != i && #[trigger] event_sets[j] == event_sets[i]
}

/// The number of occurrences of an event set.
pub open spec fn occurrences(event_sets: Seq<EtwEventSet>, wanted: EtwEventSet) -> nat
    decreases event_sets.len(),
{
    if event_sets.len() == 0 {
        0
    } else {
        occurrences(event_sets.drop_last(), wanted) + if event_sets.last() == wanted {
            1nat
        } else {
            0nat
        }
    }
}

proof fn occurrences_found(event_sets: Seq<EtwEventSet>, wanted: EtwEventSet)
    ensures
        occurrences(event_sets, wanted) > 0 <==> event_sets.contains(wanted),
    decreases event_sets.len(),
{
    if event_sets.len() > 0 {
        let rest = event_sets.drop_last();
        occurrences_found(rest, wanted);
        if rest.contains(wanted) {
            let i = choose|i: int| 0 <= i < rest.len() && rest[i] == wanted;
            assert(event_sets[i] == wanted);
        }
        if event_sets.contains(wanted) && event_sets.last() != wanted {
            let i = choose|i: int| 0 <= i < event_sets.len() && event_sets[i] == wanted;
            assert(rest[i] == wanted);
        }
        if event_sets.last() == wanted {
            assert(event_sets[event_sets.len() - 1] == wanted);
        }
    }
}

proof fn occurrences_repeated(event_sets: Seq<EtwEventSet>, i: int)
    requires
        0 <= i < event_sets.len(),
    ensures
        occurrences(event_sets, event_sets[i]) > 1 <==> repeated(event_sets, i),
    decreases event_sets.len(),
{
    let rest = event_sets.drop_last();
    let wanted = event_sets[i];
    if i == event_sets.len() - 1 {
        occurrences_found(rest, wanted);
        if rest.contains(wanted) {
            let j = choose|j: int| 0 <= j < rest.len() && rest[j] == wanted;
            assert(event_sets[j] == wanted);
            assert(repeated(event_sets, i));
        }
        if repeated(event_sets, i) {
            let j = choose|j: int|
                0 <= j < event_sets.len() && j != i && #[trigger] event_sets[j] == event_sets[i];
            assert(rest[j] == wanted);
        }
    } else {
        occurrences_repeated(rest, i);
        occurrences_found(rest, wanted);
        assert(rest[i] == wanted);
        if repeated(rest, i) {
            let j = choose|j: int|
                0 <= j < rest.len() && j != i && #[trigger] rest[j] == rest[i];
            assert(event_sets[j] == wanted);
        }
        if event_sets.last() == wanted {
            assert(event_sets[event_sets.len() - 1] == wanted);
            assert(repeated(event_sets, i));
        } else if repeated(event_sets, i) {
            let j = choose|j: int|
                0 <= j < event_sets.len() && j != i && #[trigger] event_sets[j] == event_sets[i];
            assert(rest[j] == rest[i]);
        }
    }
}

fn count_of(event_sets: &[EtwEventSet], wanted: EtwEventSet) -> (r: usize)
    ensures
        r == occurrences(event_sets@, wanted),
{
    let mut count: usize = 0;
    let mut i: usize = 0;
    while i < event_sets.len()
        invariant
            i <= event_sets@.len(),
            count <= i,
            count == occurrences(event_sets@.take(i as int), wanted),
        decreases event_sets@.len() - i,
    {
        if event_sets[i] == wanted {
            count += 1;
        }
        i += 1;
        assert(event_sets@.take(i as int).drop_last() =~= event_sets@.take(i as int - 1));
    }
    assert(event_sets@.take(event_sets@.len() as int) =~= event_sets@);
    count
}

/// Whether an outcome is what the check of a collector configuration gives.
pub open spec fn settings_checked(
    config: ProfileCollectorConfig,
    r: Result<NativeEtwSettings, DbgFlowError>,
) -> bool {
    match config {
        ProfileCollectorConfig::NativeEtw { scope, event_sets, stacks } => {
            if scope != EtwProfileScope::TargetProcess {
                r matches Err(e) && e@ == ErrorView::Backend(
                    "native ETW scope must be target_process"@,
                )
            } else if event_sets@.len() == 0 {
                r matches Err(e) && e@ == ErrorView::Backend(
                    "native ETW event_sets must contain at least one event set"@,
                )
            } else if exists|i: int| first_repeated(event_sets@, i) {
                r matches Err(e) && exists|i: int|
                    #[trigger] first_repeated(event_sets@, i) && e@ == ErrorView::Backend(
                        "duplicate native ETW event set is not supported: "@ + event_set_view(
                            event_sets@[i],
                        ),
                    )
            } else {
                &&& r matches Ok(s)
                &&& s.stacks_enabled == stacks.enabled
                &&& s.well_formed()
                &&& forall|set: EtwEventSet| #[trigger]
                    s.requests(set) <==> event_sets@.contains(set)
            }
        },
    }
}

/// Checks a collector configuration.
pub fn native_etw_settings(config: &ProfileCollectorConfig) -> (r: Result<
    NativeEtwSettings,
    DbgFlowError,
>)
    ensures
        settings_checked(*config, r),
{
    match config {
        ProfileCollectorConfig::NativeEtw { scope, event_sets, stacks } => {
            if *scope != EtwProfileScope::TargetProcess {
                return Err(DbgFlowError::backend("native ETW scope must be target_process"));
            }
            if event_sets.is_empty() {
                return Err(
                    DbgFlowError::backend(
                        "native ETW event_sets must contain at least one event set",
                    ),
                );
            }
            let mut process: Option<EtwEventSet> = None;
            let mut file_io: Option<EtwEventSet> = None;
            let mut i: usize = 0;
            while i < event_sets.len()
                invariant
                    i <= event_sets@.len(),
                    process == (if event_sets@.take(i as int).contains(EtwEventSet::Process) {
                        Some(EtwEventSet::Process)
                    } else {
                        None
                    }),
                    file_io == (if event_sets@.take(i as int).contains(EtwEventSet::FileIo) {
                        Some(EtwEventSet::FileIo)
                    } else {
                        None
                    }),
                    forall|j: int| 0 <= j < i ==> !repeated(event_sets@, j),
                    *config == (ProfileCollectorConfig::NativeEtw {
                        scope: *scope,
                        event_sets: *event_sets,
                        stacks: *stacks,
                    }),
                    *scope == EtwProfileScope::TargetProcess,
                    event_sets@.len() > 0,
                decreases event_sets@.len() - i,
            {
                let event_set = event_sets[i];
                proof {
                    occurrences_repeated(event_sets@, i as int);
                }
                if count_of(event_sets.as_slice(), event_set) > 1 {
                    let name = event_set_name(event_set);
                    assert(first_repeated(event_sets@, i as int));
                    return Err(
                        DbgFlowError::Backend(
                            cat2("duplicate native ETW event set is not supported: ", name),
                        ),
                    );
                }
                match event_set {
                    EtwEventSet::Process => process = Some(EtwEventSet::Process),
                    EtwEventSet::FileIo => file_io = Some(EtwEventSet::FileIo),
                }
                i += 1;
                proof {
                    let now = event_sets@.take(i as int);
                    let before = event_sets@.take(i as int - 1);
                    assert(now =~= before.push(event_set));
                    assert(now[i as int - 1] == event_set);
                    assert forall|set: EtwEventSet| now.contains(set) <==> before.contains(set)
                        || set == event_set by {
                        if before.contains(set) {
                            let k = choose|k: int| 0 <= k < before.len() && before[k] == set;
                            assert(now[k] == set);
                        }
                        if now.contains(set) && set != event_set {
                            let k = choose|k: int| 0 <= k < now.len() && now[k] == set;
                            assert(before[k] == set);
                        }
                    }
                }
            }
            assert(event_sets@.take(event_sets@.len() as int) =~= event_sets@);
            assert(!exists|i: int| first_repeated(event_sets@, i));
            let settings = NativeEtwSettings {
                event_sets: [process, file_io],
                stacks_enabled: stacks.enabled,
            };
            assert forall|set: EtwEventSet| #[trigger]
                settings.requests(set) <==> event_sets@.contains(set) by {
                match set {
                    EtwEventSet::Process => {},
                    EtwEventSet::FileIo => {},
                }
            }
            Ok(settings)
        },
    }
}

impl NativeEtwSettings {
    /// Each slot is empty or holds the event set that it is for.
    pub open spec fn well_formed(self) -> bool {
        &&& self.event_sets@[0] matches Some(s) ==> s == EtwEventSet::Process
        &&& self.event_sets@[1] matches Some(s) ==> s == EtwEventSet::FileIo
    }

    /// Whether an event set was asked for.
    pub open spec fn requests(self, event_set: EtwEventSet) -> bool {
        self.event_sets@[0] == Some(event_set) || self.event_sets@[1] == Some(event_set)
    }

    /// The names of the event sets, in the order of the slots.
    pub open spec fn names(self) -> Seq<Seq<char>> {
        (match self.event_sets@[0] {
            Some(s) => seq![event_set_view(s)],
            None => Seq::empty(),
        }) + (match self.event_sets@[1] {
            Some(s) => seq![event_set_view(s)],
            None => Seq::empty(),
        })
    }

    /// Whether an event set was asked for.
    pub fn includes(&self, event_set: EtwEventSet) -> (r: bool)
        ensures
            r == self.requests(event_set),
    {
        let first = match self.event_sets[0] {
            Some(s) => s == event_set,
            None => false,
        };
        let second = match self.event_sets[1] {
            Some(s) => s == event_set,
            None => false,
        };
        first || second
    }

    /// The names of the event sets.
    pub fn event_set_names(&self) -> (r: Vec<&'static str>)
        ensures
            r@.map_values(|s: &'static str| s@) == self.names(),
    {
        let mut out: Vec<&'static str> = Vec::new();
        if let Some(s) = self.event_sets[0] {
            out.push(event_set_name(s));
        }
        if let Some(s) = self.event_sets[1] {
            out.push(event_set_name(s));
        }
        assert(out@.map_values(|s: &'static str| s@) =~= self.names());
        out
    }
}

/// The name of an event set.
pub fn event_set_name(event_set: EtwEventSet) -> (r: &'static str)
    ensures
        r@ == event_set_view(event_set),
{
    match event_set {
        EtwEventSet::Process => "process",
        EtwEventSet::FileIo => "file_io",
    }
}

} // verus!
