//! Disposable project workspaces in which a Rust expression is compiled,
//! run, and its printed result read back.
//!
//! The library decides what to do; the caller performs each filesystem or
//! build-tool action it is handed and reports the outcome back. Every
//! operation owns the sandbox until it finishes, so operations on one
//! sandbox never overlap.
pub mod evaluate;
pub mod install;
pub mod layout;
pub mod program;
pub mod sandbox;

pub use evaluate::{EvalError, EvalStage, EvalStep, Evaluation};
pub use install::{InstallError, InstallStep, Installer};
pub use layout::{join, workspace_home, workspace_root, PROJECT_NAME};
pub use program::{wrapper_program, wrapper_source, ENTRY_POINT, OUTPUT_FILE};
pub use sandbox::{Provision, Sandbox};
