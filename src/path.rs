//! Where plugins live on disk.
//!
//! Paths are held as text with `/` between components. The location of a
//! plugin is `<data_root>/<owner>/<repo>`.

use vstd::prelude::*;

use crate::error::PluginError;
use crate::path::tmux_dirs::{data_dir_in, data_root_in};

pub mod tmux_dirs;

verus! {

/// `base` with one more component `name`.
pub open spec fn joined(base: Seq<char>, name: Seq<char>) -> Seq<char> {
    base + seq!['/'] + name
}

/// The location of the plugin `owner/repo` under `root`.
pub open spec fn location_of(root: Seq<char>, owner: Seq<char>, repo: Seq<char>) -> Seq<char> {
    joined(joined(root, owner), repo)
}

/// `base` followed by `/` and `name`.
pub fn join_text(base: &str, name: &str) -> (r: String)
    ensures
        r@ == joined(base@, name@),
{
    let sep = "/";
    proof {
        reveal_strlit("/");
    }
    let r = String::from_str(base).concat(sep).concat(name);
    assert(r@ =~= joined(base@, name@));
    r
}

/// A directory of the plugin tree: the data root or a path below it.
pub struct PluginDir {
    path: String,
}

impl View for PluginDir {
    type V = Seq<char>;

    closed spec fn view(&self) -> Seq<char> {
        self.path@
    }
}

impl PluginDir {
    /// The data root, `<base>/tmux/plugins`, under the data directory `base`;
    /// `CantFindDataDir` where the host has none.
    pub fn new(base: Option<String>) -> (r: Result<Self, PluginError>)
        ensures
            match base {
                Some(b) => r is Ok && r->Ok_0@ == data_root_in(b@),
                None => r == Err::<Self, PluginError>(PluginError::CantFindDataDir),
            },
    {
        match data_dir_in(base) {
            Ok(root) => Ok(PluginDir { path: root }),
            Err(e) => Err(e),
        }
    }

    /// The directory at `path`.
    pub fn at(path: &str) -> (r: Self)
        ensures
            r@ == path@,
    {
        PluginDir { path: String::from_str(path) }
    }

    /// The directory `name` inside this one.
    pub fn join(&mut self, name: &str) -> (r: Self)
        ensures
            r@ == joined(old(self)@, name@),
            final(self)@ == old(self)@,
    {
        PluginDir { path: join_text(self.path.as_str(), name) }
    }

    /// Starts a builder for the location of one plugin.
    pub fn builder<'a>() -> (r: PluginDirBuilder<'a>)
        ensures
            r.owner@.len() == 0,
            r.repo@.len() == 0,
    {
        PluginDirBuilder::new()
    }

    /// The path as text.
    pub fn as_path(&self) -> (r: &str)
        ensures
            r@ == self@,
    {
        self.path.as_str()
    }
}

/// Collects the owner and the repository of a plugin, then yields its location.
pub struct PluginDirBuilder<'a> {
    pub owner: &'a str,
    pub repo: &'a str,
}

impl<'a> PluginDirBuilder<'a> {
    /// A builder with an empty owner and an empty repository.
    pub fn new() -> (r: PluginDirBuilder<'a>)
        ensures
            r.owner@.len() == 0,
            r.repo@.len() == 0,
    {
        let empty = "";
        proof {
            reveal_strlit("");
        }
        PluginDirBuilder { owner: empty, repo: empty }
    }

    /// Sets the repository name.
    pub fn repo(self, repo: &'a str) -> (r: PluginDirBuilder<'a>)
        ensures
            r.owner == self.owner,
            r.repo == repo,
    {
        PluginDirBuilder { owner: self.owner, repo }
    }

    /// Sets the owner name.
    pub fn owner(self, owner: &'a str) -> (r: PluginDirBuilder<'a>)
        ensures
            r.owner == owner,
            r.repo == self.repo,
    {
        PluginDirBuilder { owner, repo: self.repo }
    }

    /// The location `<data_root>/<owner>/<repo>`.
    pub fn build(self, data_root: &str) -> (r: PluginDir)
        ensures
            r@ == location_of(data_root@, self.owner@, self.repo@),
    {
        PluginDir::at(data_root).join(self.owner).join(self.repo)
    }
}

impl<'a> Default for PluginDirBuilder<'a> {
    fn default() -> (r: PluginDirBuilder<'a>)
        ensures
            r.owner@.len() == 0,
            r.repo@.len() == 0,
    {
        PluginDirBuilder::new()
    }
}

} // verus!
