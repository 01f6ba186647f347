//! The command line, as plain values.

use vstd::prelude::*;

verus! {

/// What the tool was asked to do.
pub struct Cli {
    /// A configuration file to read instead of the standard one.
    pub config: Option<String>,
    /// The verb, if one was given.
    pub command: Option<Commands>,
}

/// The verbs of the tool.
#[derive(Debug, Clone, Copy, PartialEq, Eq, Structural)]
pub enum Commands {
    /// Installs the declared plugins that are missing.
    Install,
    /// Updates the declared plugins.
    Update,
    /// Removes the plugins that are no longer declared.
    Clean,
    /// Installs, then sources the entry scripts of every plugin.
    Init,
}

} // verus!
