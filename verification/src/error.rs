//! The pipeline's error taxonomy.
//!
//! Every stage fails fast: any error aborts the run, is never retried, and
//! is surfaced to the operator with stage-identifying context. The first
//! five variants are produced by the maintenance pipeline; the last two
//! belong to the build-time path (native compilation and interface
//! generation), which consumes the relocated artifacts.

use vstd::prelude::*;

verus! {

/// Which of the two generated basefiles an error or an artifact refers to.
#[derive(Clone, Copy, Debug, PartialEq, Eq, Structural)]
pub enum ArtifactKind {
    /// The generated, self-contained source unit.
    SourceUnit,
    /// The generated, self-contained header unit.
    HeaderUnit,
}

/// Why a pipeline run aborted. There is no local recovery: each variant is
/// fatal to the run that raised it.
#[derive(Clone, Copy, Debug, PartialEq, Eq, Structural)]
pub enum PipelineError {
    /// The wrapper's own version descriptor could not be read as the root
    /// package, or its build-metadata segment names no release tag.
    Configuration,
    /// Fetching the full upstream repository failed.
    SyncFetch,
    /// Checking out the pinned release tag failed.
    SyncCheckout,
    /// The upstream build tooling exited unsuccessfully; the run keeps the
    /// tool's diagnostic output for the operator.
    BuildTool,
    /// A generated artifact was absent from the build output, or moving it
    /// into the wrapper's source tree failed.
    Relocation { kind: ArtifactKind },
    /// No compatible native compiler was found, or compilation failed.
    Toolchain,
    /// Parsing the relocated header or applying the binding rules failed.
    Generation,
}

} // verus!
