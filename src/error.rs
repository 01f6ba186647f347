//! Errors of the tool, and the exit code that each one ends a command with.

use vstd::prelude::*;

verus! {

/// Errors that abort a command before any plugin is touched.
#[derive(Debug, Clone, PartialEq, Eq)]
pub enum PluginError {
    /// A directory could not be created; carries the system's diagnostic.
    CantCreateDir(String),
    /// The host exposes no standard data directory.
    CantFindDataDir,
    /// An error that fits no other kind.
    Unknown,
    /// The host exposes no standard configuration directory.
    CantFindConfigDir,
    /// The configuration file does not exist.
    ConfigMissing,
    /// The configuration file exists but could not be read.
    ConfigUnreadable(String),
    /// The configuration file is not a well-formed plugin list; carries the diagnostic.
    ConfigMalformed(String),
    /// The declaration at this index breaks an invariant of a plugin set.
    ConfigInvalid(usize),
    /// Another run holds the advisory lock of the data root.
    LockHeld,
}

/// Exit code of a command that ended with `e`.
pub open spec fn error_exit_code(e: PluginError) -> i32 {
    match e {
        PluginError::ConfigMissing | PluginError::ConfigUnreadable(_)
        | PluginError::ConfigMalformed(_) | PluginError::ConfigInvalid(_) => 2,
        PluginError::CantCreateDir(_) | PluginError::CantFindDataDir
        | PluginError::CantFindConfigDir | PluginError::LockHeld => 3,
        PluginError::Unknown => 1,
    }
}

impl PluginError {
    /// Configuration errors end with 2, environment errors with 3.
    pub fn exit_code(&self) -> (r: i32)
        ensures
            r == error_exit_code(*self),
    {
        match self {
            PluginError::ConfigMissing | PluginError::ConfigUnreadable(_)
            | PluginError::ConfigMalformed(_) | PluginError::ConfigInvalid(_) => 2,
            PluginError::CantCreateDir(_) | PluginError::CantFindDataDir
            | PluginError::CantFindConfigDir | PluginError::LockHeld => 3,
            PluginError::Unknown => 1,
        }
    }
}

/// Why a single plugin action failed. It is recorded in that plugin's outcome
/// and does not stop the other actions.
#[derive(Debug, Clone, PartialEq, Eq)]
pub enum ActionError {
    /// The child process could not be launched.
    ChildSpawnFailed,
    /// The child process ran and exited with a non-zero status.
    ChildNonZero { exit: i32, stderr: String },
    /// The child process was ended by a signal.
    ChildSignalled,
    /// The action ran past its wall-clock limit and was killed.
    Timeout,
    /// A filesystem operation of the action failed.
    Filesystem(String),
}

/// What a finished child process means for its action: exit status zero is
/// success, another status a failure carrying the captured standard error,
/// and no status at all a signal.
pub fn child_status(code: Option<i32>, stderr: String) -> (r: Result<(), ActionError>)
    ensures
        code == Some(0i32) ==> r is Ok,
        (code is Some && code != Some(0i32)) ==> r == Err::<(), ActionError>(
            ActionError::ChildNonZero { exit: code->0, stderr },
        ),
        code is None ==> r == Err::<(), ActionError>(ActionError::ChildSignalled),
{
    match code {
        Some(0) => Ok(()),
        Some(c) => Err(ActionError::ChildNonZero { exit: c, stderr }),
        None => Err(ActionError::ChildSignalled),
    }
}

} // verus!
