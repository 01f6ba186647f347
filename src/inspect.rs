//! The integrity inspector: what state a plugin location is in.

use vstd::prelude::*;

use crate::path::{join_text, joined};

verus! {

/// The state of one plugin location, recomputed on every run.
#[derive(Debug, Clone, Copy, PartialEq, Eq, Structural)]
pub enum InstallationState {
    /// The location does not exist.
    Absent,
    /// The location holds a shallow clone.
    Shallow,
    /// The location exists but is no usable clone.
    Broken,
    /// The location holds a clone that passes the integrity check.
    Healthy,
}

/// The state of a location from what was found there: whether the location
/// exists, whether it holds `.git`, whether it holds `.git/shallow`, and
/// whether the integrity check passed. The checks are made in that order;
/// later facts do not matter once an earlier one decides.
pub open spec fn state_of(exists: bool, git_dir: bool, shallow: bool, check_passed: bool) -> InstallationState {
    if !exists {
        InstallationState::Absent
    } else if !git_dir {
        InstallationState::Broken
    } else if shallow {
        InstallationState::Shallow
    } else if !check_passed {
        InstallationState::Broken
    } else {
        InstallationState::Healthy
    }
}

/// Whether the integrity check has to run to decide the state: only when the
/// location exists, holds `.git`, and is not shallow.
pub fn needs_integrity_check(exists: bool, git_dir: bool, shallow: bool) -> (r: bool)
    ensures
        r == (exists && git_dir && !shallow),
        !r ==> forall|c1: bool, c2: bool|
            state_of(exists, git_dir, shallow, c1) == state_of(exists, git_dir, shallow, c2),
{
    exists && git_dir && !shallow
}

/// The state of a location from what was found there.
pub fn inspect(exists: bool, git_dir: bool, shallow: bool, check_passed: bool) -> (r: InstallationState)
    ensures
        r == state_of(exists, git_dir, shallow, check_passed),
{
    if !exists {
        InstallationState::Absent
    } else if !git_dir {
        InstallationState::Broken
    } else if shallow {
        InstallationState::Shallow
    } else if !check_passed {
        InstallationState::Broken
    } else {
        InstallationState::Healthy
    }
}

/// Whether an existing location holds a full clone that passes the integrity
/// check.
pub fn is_fully_cloned_repo(git_dir: bool, shallow: bool, check_passed: bool) -> (r: bool)
    ensures
        r == (state_of(true, git_dir, shallow, check_passed) == InstallationState::Healthy),
        r == (git_dir && !shallow && check_passed),
{
    git_dir && !shallow && check_passed
}

/// `<location>/.git`, whose absence makes a location broken.
pub fn git_dir_path(location: &str) -> (r: String)
    ensures
        r@ == joined(location@, ".git"@),
{
    join_text(location, ".git")
}

/// `<location>/.git/shallow`, the marker of a shallow clone.
pub fn shallow_marker_path(location: &str) -> (r: String)
    ensures
        r@ == joined(joined(location@, ".git"@), "shallow"@),
{
    let g = git_dir_path(location);
    join_text(g.as_str(), "shallow")
}

} // verus!
