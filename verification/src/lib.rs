//! Verified core of a runtime-acquisition and self-update engine.
//!
//! The library resolves the running platform to a canonical key, discovers
//! installed runtimes and selects one under a fixed precedence order,
//! resolves artifact versions from a release manifest, decides whether a
//! downloaded artifact may be published based on its digest, and drives a
//! crash-safe protocol for replacing a running executable.
//!
//! Everything that reads the environment, the filesystem, or the network
//! lives in the surrounding program, which hands plain values in and
//! mirrors decided effects back out.

use vstd::prelude::*;

pub mod cli;
pub mod config;
pub mod download;
pub mod error;
pub mod install;
pub mod jre;
pub mod justj;
pub mod launch;
pub mod manifest;
pub mod platform;
pub mod selfupdate;
pub mod text;

pub use error::ExitCode;
pub use error::KarateError;

verus! {

} // verus!
