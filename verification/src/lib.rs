//! Core engine of a small build orchestrator for native C projects.
//!
//! The library models target triples, the project/workspace manifest
//! format, recursive dependency resolution, and the planning of
//! compile and link commands. All logic here is verified; reading
//! files, spawning the toolchain and version control live outside,
//! in the surrounding application, which feeds plain values in.

pub mod deps;
pub mod error;
pub mod init;
pub mod manifest;
pub mod plan;
pub mod project;
pub mod strutil;
pub mod targets;
pub mod util;
pub mod workspace;

use vstd::prelude::*;

verus! {

/// Name of the manifest file a project directory must contain.
pub const SPORK_FILE_NAME: &'static str = "Spork.toml";

} // verus!
