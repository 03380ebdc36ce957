//! Drives the terraform command-line tool: per-session workspaces, typed
//! input variables, the argument vector of each operation, and the reading
//! of the tool results.
pub mod args;
pub mod executor;
pub mod inputs;
pub mod outcome;
pub mod workspace;

pub use workspace::{executable, executable_path};
