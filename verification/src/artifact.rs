//! References to the files that a job leaves behind.

use vstd::prelude::*;

verus! {

/// What a file holds.
#[derive(Debug, Clone, Copy, PartialEq, Eq, Structural)]
pub enum ArtifactKind {
    ProfileTrace,
    ProfileMetadata,
    ProfileEvents,
    ProfileStdout,
    ProfileStderr,
    ProfileCollectorTrace,
    ProfileCollectorEvents,
    ProfileCollectorSummary,
    TtdTrace,
    TtdTraceIndex,
    TtdRecorderOutput,
    TtdRecordingEvents,
    TtdRecordingMetadata,
    ReverseSessionMetadata,
    ReverseSessionEvents,
    ReverseSessionOutput,
}

/// A file that a job left behind.
#[derive(Debug)]
pub struct ArtifactRef {
    pub kind: ArtifactKind,
    pub path: String,
}

/// The mathematical form of a reference.
#[verifier::ext_equal]
pub struct ArtifactView {
    pub kind: ArtifactKind,
    pub path: Seq<char>,
}

impl View for ArtifactRef {
    type V = ArtifactView;

    open spec fn view(&self) -> ArtifactView {
        ArtifactView { kind: self.kind, path: self.path@ }
    }
}

/// The views of a list of references.
pub open spec fn artifacts_view(v: Seq<ArtifactRef>) -> Seq<ArtifactView> {
    v.map_values(|a: ArtifactRef| a@)
}

impl ArtifactRef {
    /// A copy of the reference.
    pub fn duplicate(&self) -> (r: ArtifactRef)
        ensures
            r@ == self@,
    {
        ArtifactRef { kind: self.kind, path: self.path.clone() }
    }
}

} // verus!
