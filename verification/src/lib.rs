//! Decision logic of a process-execution interposer that runs foreign-architecture
//! executables through a user-mode emulator.
//!
//! The crate turns the raw strings of an `exec*` call into an [`ExecRequest`],
//! probes the target's ELF header for its CPU architecture, and decides whether the
//! call passes through unchanged or is rewritten to start an emulator launcher. It
//! performs no I/O: file contents and lookup results are handed in as plain values.

pub mod arch;
pub mod args;
pub mod env;
pub mod error;
pub mod interception;
pub mod path;
pub mod probe;
pub mod request;
pub mod rewrite;
pub mod text;
pub mod trampoline;

pub use arch::ArchitectureTag;
pub use args::Args;
pub use env::{Env, Environment};
pub use error::{ErrorCode, ExecError};
pub use interception::{
    execl, execle, execlp, execv, execve, execvp, execvpe, Action, Event, Interception, Outcome,
    Settings, Stage,
};
pub use path::Path;
pub use request::{ExecRequest, TargetSpec};
pub use rewrite::{rewrite, RewritePlan};
pub use trampoline::{serialize, CallImage};
