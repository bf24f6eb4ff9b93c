//! Sandbox-construction core for a grading tool.
//!
//! The library builds an isolated filesystem for running untrusted submitted
//! code against a project template: a read-only base image, a self-overlay of
//! the sandbox root, and nested overlays for the project template and the
//! student submission.  Construction and teardown are strictly ordered and
//! fully reversible under partial failure, and the grade token printed by the
//! confined run script is parsed defensively.
//!
//! The privileged operations themselves (mount, unmount, mkdir, recursive
//! removal) and all process handling are delegated to an external driver:
//! the library decides *what* to do and in *which order*, as plain data
//! ([`ops::PrivOp`]), and consumes the outcomes as events.

use vstd::prelude::*;

pub mod auth;
pub mod compose;
pub mod container;
pub mod effects;
pub mod harness;
pub mod model;
pub mod ops;

verus! {

/// The error taxonomy of the sandbox core.
///
/// A nonzero exit of the build or run script is *not* an error of this core:
/// it is ordinary data, judged by the caller.
#[derive(Clone, Copy, Debug, PartialEq, Eq)]
pub enum SandboxError {
    /// A privileged mount/unmount/mkdir/remove operation exited nonzero;
    /// carries the exit code when known.
    PrivilegeOperation { exit_code: Option<i32> },
    /// The required display identifier is absent from the environment.
    Environment,
    /// A path cannot be represented in the required text form.
    PathEncoding,
    /// A script process could not be started at all.
    Spawn,
}

} // verus!
