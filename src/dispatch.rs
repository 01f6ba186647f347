//! The start of a command that changes the plugin tree. It loads the
//! configuration, then resolves (and creates) the data root, then takes the
//! run lock. The first of these that fails aborts the command with that
//! error, before any action runs: actions are planned only from a `Ready`
//! start, which holds the plugin set and the data root.

use vstd::prelude::*;

use crate::config::ConfigFile;
use crate::error::{error_exit_code, PluginError};

verus! {

/// Where the start of a command stands.
pub enum Startup {
    /// The configuration is loaded; the data root comes next.
    Loaded(ConfigFile),
    /// The data root is known; the run lock comes next.
    Rooted(ConfigFile, String),
    /// The lock is held: the command may act on this plugin set and root.
    Ready(ConfigFile, String),
    /// A step failed; the command ends with this error and acts on nothing.
    Aborted(PluginError),
}

/// The start after loading the configuration.
pub open spec fn start_of(conf: Result<ConfigFile, PluginError>) -> Startup {
    match conf {
        Ok(c) => Startup::Loaded(c),
        Err(e) => Startup::Aborted(e),
    }
}

/// The start after resolving the data root; only a loaded start moves on.
pub open spec fn with_root_of(s: Startup, root: Result<String, PluginError>) -> Startup {
    match s {
        Startup::Loaded(c) => match root {
            Ok(p) => Startup::Rooted(c, p),
            Err(e) => Startup::Aborted(e),
        },
        _ => s,
    }
}

/// The start after taking the run lock; only a rooted start moves on.
pub open spec fn with_lock_of(s: Startup, lock: Result<(), PluginError>) -> Startup {
    match s {
        Startup::Rooted(c, p) => match lock {
            Ok(()) => Startup::Ready(c, p),
            Err(e) => Startup::Aborted(e),
        },
        _ => s,
    }
}

/// Begins a command with the outcome of loading its configuration.
pub fn start(conf: Result<ConfigFile, PluginError>) -> (r: Startup)
    ensures
        r == start_of(conf),
{
    match conf {
        Ok(c) => Startup::Loaded(c),
        Err(e) => Startup::Aborted(e),
    }
}

/// Goes on with the outcome of resolving and creating the data root.
pub fn with_root(s: Startup, root: Result<String, PluginError>) -> (r: Startup)
    ensures
        r == with_root_of(s, root),
{
    match s {
        Startup::Loaded(c) => match root {
            Ok(p) => Startup::Rooted(c, p),
            Err(e) => Startup::Aborted(e),
        },
        _ => s,
    }
}

/// Goes on with the outcome of taking the run lock.
pub fn with_lock(s: Startup, lock: Result<(), PluginError>) -> (r: Startup)
    ensures
        r == with_lock_of(s, lock),
{
    match s {
        Startup::Rooted(c, p) => match lock {
            Ok(()) => Startup::Ready(c, p),
            Err(e) => Startup::Aborted(e),
        },
        _ => s,
    }
}

impl Startup {
    /// Whether the data root is to be resolved next.
    pub fn wants_root(&self) -> (r: bool)
        ensures
            r == (*self is Loaded),
    {
        match self {
            Startup::Loaded(_) => true,
            _ => false,
        }
    }

    /// The data root whose lock is to be taken next, if that is the next step.
    pub fn wants_lock(&self) -> (r: Option<&String>)
        ensures
            match *self {
                Startup::Rooted(_, p) => r == Some(&p),
                _ => r is None,
            },
    {
        match self {
            Startup::Rooted(_, p) => Some(p),
            _ => None,
        }
    }

    /// The exit code of an aborted start: 2 for a configuration error, 3 for
    /// an environment error.
    pub fn exit_code(&self) -> (r: Option<i32>)
        ensures
            match *self {
                Startup::Aborted(e) => r == Some(error_exit_code(e)),
                _ => r is None,
            },
    {
        match self {
            Startup::Aborted(e) => Some(e.exit_code()),
            _ => None,
        }
    }
}

/// A command reaches `Ready`, and so acts, only when the configuration
/// loaded, the data root resolved and the lock was taken; otherwise it ends
/// with the first error in that order, and plans no action.
pub proof fn lemma_abort_before_acting(
    conf: Result<ConfigFile, PluginError>,
    root: Result<String, PluginError>,
    lock: Result<(), PluginError>,
)
    ensures
        ({
            let s = with_lock_of(with_root_of(start_of(conf), root), lock);
            &&& (s is Ready <==> conf is Ok && root is Ok && lock is Ok)
            &&& (conf is Err ==> s == Startup::Aborted(conf->Err_0))
            &&& (conf is Ok && root is Err ==> s == Startup::Aborted(root->Err_0))
            &&& (conf is Ok && root is Ok && lock is Err ==> s == Startup::Aborted(lock->Err_0))
            &&& (s is Ready ==> s == Startup::Ready(conf->Ok_0, root->Ok_0))
        }),
{
}

} // verus!
