//! The ordinary, recoverable errors of a build.
use vstd::prelude::*;

verus! {

/// A build step that failed. Each variant carries the path or resource it
/// failed on, and the diagnostic of the external tool where there was one.
///
/// Every one of these triggers a rollback of the staging volume. A failure
/// to destroy that volume is not among them: it is fatal, and the build
/// orchestrator reports it apart (see `pipeline::Action::Abort`).
#[derive(Debug, PartialEq, Eq)]
pub enum BuildError {
    VolumeCreate(String),
    VolumeSnapshot(String),
    VolumeStream(String),
    UnsupportedArchiveFormat(String),
    ArchiveExtract(String),
    ToolInstall(String),
    /// No supported distribution was found in the staged tree at this root.
    UnsupportedDistro(String),
    ManifestWrite(String),
    Io(String),
}

} // verus!
