//! Declarative manager for terminal-multiplexer plugins.
//!
//! The library holds the decisions of the tool: where plugins live on disk,
//! which declarations a configuration may hold, which action each plugin
//! needs for a command, which directories `clean` removes, how the outcomes
//! of a run add up to an exit code, and which arguments the version-control
//! child processes receive.

pub mod args;
pub mod clean;
pub mod config;
pub mod discover;
pub mod dispatch;
pub mod error;
pub mod git;
pub mod inspect;
pub mod path;
pub mod plugins;
pub mod reconcile;
pub mod run;
pub mod report;
pub mod settings;
pub mod text;
