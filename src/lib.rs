//! Building an LX-brand root filesystem image from a vendor user-land
//! archive.
//!
//! The library decides everything the build does and proves it: which
//! archiver run extracts the archive, which operations customise the staged
//! tree for the guest's distribution, which volume-manager calls create,
//! snapshot and destroy the staging volume, what the manifest says of the
//! artifact, and in which order the steps run with the rollback on failure
//! (`pipeline`). The caller performs the actions and reports their outcomes.
pub mod error;
pub mod text;
pub mod command;
pub mod fsops;
pub mod volume;
pub mod archive;
pub mod actions;
pub mod guest;
pub mod image;
pub mod manifest;
pub mod pipeline;
