//! The request for a profile.

use crate::error::{DbgFlowError, ErrorView};
use crate::etw::settings::{EtwEventSet, EtwProfileScope, EtwStackConfig, ProfileCollectorConfig};
use crate::ids;
use crate::ids::SessionId;
use crate::profile::target::ProfileTarget;
use crate::text::cat2;
use vstd::prelude::*;

verus! {

/// The kind of a collector.
#[derive(Debug, Clone, Copy, PartialEq, Eq, Structural)]
pub enum ProfileCollectorKind {
    NativeEtw,
}

/// The name of a kind.
pub open spec fn kind_name(kind: ProfileCollectorKind) -> Seq<char> {
    match kind {
        ProfileCollectorKind::NativeEtw => "NativeEtw"@,
    }
}

/// The kind of a collector.
pub open spec fn config_kind(config: ProfileCollectorConfig) -> ProfileCollectorKind {
    match config {
        ProfileCollectorConfig::NativeEtw { .. } => ProfileCollectorKind::NativeEtw,
    }
}

/// The name under which a collector keeps its files.
pub open spec fn config_name(config: ProfileCollectorConfig) -> Seq<char> {
    match config {
        ProfileCollectorConfig::NativeEtw { .. } => "native_etw"@,
    }
}

impl ProfileCollectorConfig {
    /// The kind of the collector.
    pub fn kind(&self) -> (r: ProfileCollectorKind)
        ensures
            r == config_kind(*self),
    {
        match self {
            ProfileCollectorConfig::NativeEtw { .. } => ProfileCollectorKind::NativeEtw,
        }
    }

    /// The name under which the collector keeps its files.
    pub fn artifact_name(&self) -> (r: &'static str)
        ensures
            r@ == config_name(*self),
    {
        match self {
            ProfileCollectorConfig::NativeEtw { .. } => "native_etw",
        }
    }
}

/// Whether a configuration is the one that is used when none is given: all event sets of the
/// target process, with stacks.
pub open spec fn is_default_config(config: ProfileCollectorConfig) -> bool {
    match config {
        ProfileCollectorConfig::NativeEtw { scope, event_sets, stacks } => {
            &&& scope == EtwProfileScope::TargetProcess
            &&& event_sets@ == seq![EtwEventSet::Process, EtwEventSet::FileIo]
            &&& stacks.enabled
        },
    }
}

impl Default for ProfileCollectorConfig {
    fn default() -> (r: Self)
        ensures
            is_default_config(r),
    {
        let mut event_sets: Vec<EtwEventSet> = Vec::new();
        event_sets.push(EtwEventSet::Process);
        event_sets.push(EtwEventSet::FileIo);
        assert(event_sets@ =~= seq![EtwEventSet::Process, EtwEventSet::FileIo]);
        ProfileCollectorConfig::NativeEtw {
            scope: EtwProfileScope::TargetProcess,
            event_sets,
            stacks: EtwStackConfig { enabled: true },
        }
    }
}

/// The collectors that a request names: none at all stands for the default one, but a list
/// must not be empty.
pub fn requested_collectors(named: Option<Vec<ProfileCollectorConfig>>) -> (r: Result<
    Vec<ProfileCollectorConfig>,
    String,
>)
    ensures
        match named {
            None => r matches Ok(v) && v@.len() == 1 && is_default_config(v@[0]),
            Some(list) => if list@.len() == 0 {
                r matches Err(e) && e@ == "collectors must contain at least one collector"@
            } else {
                r == Ok::<Vec<ProfileCollectorConfig>, String>(list)
            },
        },
{
    match named {
        None => {
            let mut v: Vec<ProfileCollectorConfig> = Vec::new();
            v.push(ProfileCollectorConfig::default());
            Ok(v)
        },
        Some(list) => if list.len() == 0 {
            Err("collectors must contain at least one collector".to_owned())
        } else {
            Ok(list)
        },
    }
}

/// A request for a profile.
#[derive(Debug)]
pub struct RunProfile {
    pub target: ProfileTarget,
    pub timeout_ms: u64,
    pub collectors: Vec<ProfileCollectorConfig>,
}

impl RunProfile {
    /// The request with the default collector, if it names none.
    pub fn with_default_collectors(self) -> (r: RunProfile)
        ensures
            r.target == self.target,
            r.timeout_ms == self.timeout_ms,
            if self.collectors@.len() == 0 {
                r.collectors@.len() == 1 && is_default_config(r.collectors@[0])
            } else {
                r.collectors == self.collectors
            },
    {
        if self.collectors.len() > 0 {
            return self;
        }
        let mut collectors: Vec<ProfileCollectorConfig> = Vec::new();
        collectors.push(ProfileCollectorConfig::default());
        RunProfile { target: self.target, timeout_ms: self.timeout_ms, collectors }
    }
}

/// Whether an earlier collector has the kind of the one at `i`.
pub open spec fn kind_repeats(collectors: Seq<ProfileCollectorConfig>, i: int) -> bool {
    exists|j: int|
        0 <= j < i && config_kind(#[trigger] collectors[j]) == config_kind(collectors[i])
}

/// Whether no two collectors have the same kind.
pub open spec fn kinds_differ(collectors: Seq<ProfileCollectorConfig>) -> bool {
    forall|i: int| 0 <= i < collectors.len() ==> !(#[trigger] kind_repeats(collectors, i))
}

/// Whether the collector at `i` is the first one whose kind occurred before.
pub open spec fn first_repeat(collectors: Seq<ProfileCollectorConfig>, i: int) -> bool {
    &&& 0 <= i < collectors.len()
    &&& kind_repeats(collectors, i)
    &&& forall|j: int| 0 <= j < i ==> !(#[trigger] kind_repeats(collectors, j))
}

/// Refuses a request in which two collectors have the same kind; the error names that kind.
pub fn reject_duplicate_collectors(collectors: &[ProfileCollectorConfig]) -> (r: Result<
    (),
    DbgFlowError,
>)
    ensures
        r is Ok <==> kinds_differ(collectors@),
        r matches Err(e) ==> exists|i: int| #[trigger]
            first_repeat(collectors@, i) && e@ == ErrorView::Backend(
                "duplicate profile collector kind is not supported: "@ + kind_name(
                    config_kind(collectors@[i]),
                ),
            ),
{
    let mut i: usize = 0;
    while i < collectors.len()
        invariant
            i <= collectors@.len(),
            forall|j: int| 0 <= j < i ==> !(#[trigger] kind_repeats(collectors@, j)),
        decreases collectors@.len() - i,
    {
        let kind = collectors[i].kind();
        let mut j: usize = 0;
        while j < i
            invariant
                j <= i < collectors@.len(),
                kind == config_kind(collectors@[i as int]),
                forall|k: int| 0 <= k < i ==> !(#[trigger] kind_repeats(collectors@, k)),
                forall|k: int| 0 <= k < j ==> config_kind(#[trigger] collectors@[k]) != kind,
            decreases i - j,
        {
            if collectors[j].kind() == kind {
                assert(config_kind(collectors@[j as int]) == config_kind(collectors@[i as int]));
                assert(first_repeat(collectors@, i as int));
                let name: &str = match kind {
                    ProfileCollectorKind::NativeEtw => "NativeEtw",
                };
                return Err(
                    DbgFlowError::Backend(
                        cat2("duplicate profile collector kind is not supported: ", name),
                    ),
                );
            }
            j += 1;
        }
        i += 1;
    }
    Ok(())
}

/// Admits one job at a time.
#[derive(Debug)]
pub struct SingleActiveJob {
    pub active: Option<SessionId>,
}

impl SingleActiveJob {
    /// No job is active.
    pub fn new() -> (r: SingleActiveJob)
        ensures
            r.active is None,
    {
        SingleActiveJob { active: None }
    }

    /// Makes a job the active one, unless another is. The error begins with `busy` and names
    /// the job that is active.
    pub fn start(&mut self, id: SessionId, busy: &str) -> (r: Result<(), DbgFlowError>)
        ensures
            match old(self).active {
                None => r is Ok && final(self).active == Some(id),
                Some(other) => *final(self) == *old(self) && (r matches Err(e) && e@
                    == ErrorView::Backend(busy@ + ids::uuid_text(other.0))),
            },
    {
        match &self.active {
            None => {
                self.active = Some(id);
                Ok(())
            },
            Some(other) => Err(DbgFlowError::Backend(cat2(busy, other.to_text().as_str()))),
        }
    }

    /// Ends the active job.
    pub fn finish(&mut self)
        ensures
            final(self).active is None,
    {
        self.active = None;
    }
}

/// Admits a request: its target is good, it allows for some time, no two of its collectors have
/// the same kind, and no other profile is active. They are looked at in this order.
pub fn admit_profile(
    jobs: &mut SingleActiveJob,
    id: SessionId,
    target: Result<ProfileTarget, DbgFlowError>,
    timeout_ms: u64,
    collectors: Vec<ProfileCollectorConfig>,
) -> (r: Result<RunProfile, DbgFlowError>)
    ensures
        r is Ok <==> target is Ok && timeout_ms != 0 && (collectors@.len() == 0 || kinds_differ(
            collectors@,
        )) && old(jobs).active is None,
        r matches Ok(request) ==> {
            &&& target == Ok::<ProfileTarget, DbgFlowError>(request.target)
            &&& request.timeout_ms == timeout_ms
            &&& final(jobs).active == Some(id)
            &&& if collectors@.len() == 0 {
                request.collectors@.len() == 1 && is_default_config(request.collectors@[0])
            } else {
                request.collectors == collectors
            }
        },
        r matches Err(e) ==> {
            &&& *final(jobs) == *old(jobs)
            &&& if let Err(error) = target {
                e == error
            } else if timeout_ms == 0 {
                e@ == ErrorView::Backend("profile timeout_ms must be greater than zero"@)
            } else if collectors@.len() > 0 && !kinds_differ(collectors@) {
                exists|i: int| #[trigger]
                    first_repeat(collectors@, i) && e@ == ErrorView::Backend(
                        "duplicate profile collector kind is not supported: "@ + kind_name(
                            config_kind(collectors@[i]),
                        ),
                    )
            } else {
                old(jobs).active matches Some(other) && e@ == ErrorView::Backend(
                    "another profile job is already active: "@ + ids::uuid_text(other.0),
                )
            }
        },
{
    let target = match target {
        Ok(target) => target,
        Err(error) => {
            return Err(error);
        },
    };
    let request = (RunProfile { target, timeout_ms, collectors }).with_default_collectors();
    if request.timeout_ms == 0 {
        return Err(DbgFlowError::backend("profile timeout_ms must be greater than zero"));
    }
    match reject_duplicate_collectors(request.collectors.as_slice()) {
        Ok(()) => {},
        Err(error) => {
            return Err(error);
        },
    }
    match jobs.start(id, "another profile job is already active: ") {
        Ok(()) => Ok(request),
        Err(error) => Err(error),
    }
}

} // verus!
