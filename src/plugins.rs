//! Plugin declarations.

use vstd::prelude::*;

use crate::git::{Git, clone_args_of, host_of};
use crate::path::{PluginDir, location_of};
use crate::text::texts;

pub use crate::config::ConfigFile;

verus! {

/// The host of a plugin that names no platform.
pub const DEFAULT_HOST: &'static str = "github.com";

/// The owner of the default plugin, the manager itself.
pub const DEFAULT_OWNER: &'static str = "abhinandh-s";

/// The repository of the default plugin, the manager itself.
pub const DEFAULT_REPO: &'static str = "lazy.tmux";

/// What a declaration holds, as text.
pub struct PluginSpec {
    pub owner: Seq<char>,
    pub repo: Seq<char>,
    pub platform: Option<Seq<char>>,
    pub branch: Option<Seq<char>>,
}

/// The text of an optional string.
pub open spec fn opt_text(o: Option<String>) -> Option<Seq<char>> {
    match o {
        Some(s) => Some(s@),
        None => None,
    }
}

/// One plugin declaration of the configuration: a repository `owner/repo`
/// on a hosting platform, optionally at a named branch.
#[derive(Debug)]
pub struct Plugins {
    owner: String,
    repo: String,
    platform: Option<String>,
    branch: Option<String>,
}

impl View for Plugins {
    type V = PluginSpec;

    closed spec fn view(&self) -> PluginSpec {
        PluginSpec {
            owner: self.owner@,
            repo: self.repo@,
            platform: opt_text(self.platform),
            branch: opt_text(self.branch),
        }
    }
}

fn clone_opt(o: &Option<String>) -> (r: Option<String>)
    ensures
        opt_text(r) == opt_text(*o),
{
    match o {
        Some(s) => Some(s.clone()),
        None => None,
    }
}

fn opt_str(o: &Option<String>) -> (r: Option<&str>)
    ensures
        match r {
            Some(s) => opt_text(*o) == Some(s@),
            None => o is None,
        },
{
    match o {
        Some(s) => Some(s.as_str()),
        None => None,
    }
}

impl Clone for Plugins {
    fn clone(&self) -> (r: Self)
        ensures
            r@ == self@,
    {
        Plugins {
            owner: self.owner.clone(),
            repo: self.repo.clone(),
            platform: clone_opt(&self.platform),
            branch: clone_opt(&self.branch),
        }
    }
}

impl Default for Plugins {
    /// The manager itself: `abhinandh-s/lazy.tmux` on the default host.
    fn default() -> (r: Self)
        ensures
            r@ == (PluginSpec {
                owner: DEFAULT_OWNER@,
                repo: DEFAULT_REPO@,
                platform: Some(DEFAULT_HOST@),
                branch: None,
            }),
    {
        Plugins {
            owner: String::from_str(DEFAULT_OWNER),
            repo: String::from_str(DEFAULT_REPO),
            platform: Some(String::from_str(DEFAULT_HOST)),
            branch: None,
        }
    }
}

impl Plugins {
    /// A declaration with the given fields.
    pub fn new(
        owner: String,
        repo: String,
        platform: Option<String>,
        branch: Option<String>,
    ) -> (r: Self)
        ensures
            r@ == (PluginSpec {
                owner: owner@,
                repo: repo@,
                platform: opt_text(platform),
                branch: opt_text(branch),
            }),
    {
        Plugins { owner, repo, platform, branch }
    }

    /// The namespace on the hosting platform.
    pub fn owner(&self) -> (r: &str)
        ensures
            r@ == self@.owner,
    {
        self.owner.as_str()
    }

    /// Replaces the owner.
    pub fn set_owner(&mut self, owner: String)
        ensures
            final(self)@ == (PluginSpec { owner: owner@, ..old(self)@ }),
    {
        self.owner = owner;
    }

    /// The repository name.
    pub fn repo(&self) -> (r: &str)
        ensures
            r@ == self@.repo,
    {
        self.repo.as_str()
    }

    /// Replaces the repository name.
    pub fn set_repo(&mut self, repo: String)
        ensures
            final(self)@ == (PluginSpec { repo: repo@, ..old(self)@ }),
    {
        self.repo = repo;
    }

    /// The hosting platform, where one is declared.
    pub fn platform(&self) -> (r: Option<&String>)
        ensures
            match r {
                Some(p) => self@.platform == Some(p@),
                None => self@.platform is None,
            },
    {
        self.platform.as_ref()
    }

    /// Replaces the hosting platform.
    pub fn set_platform(&mut self, platform: Option<String>)
        ensures
            final(self)@ == (PluginSpec { platform: opt_text(platform), ..old(self)@ }),
    {
        self.platform = platform;
    }

    /// The branch, where one is declared.
    pub fn branch(&self) -> (r: Option<&String>)
        ensures
            match r {
                Some(b) => self@.branch == Some(b@),
                None => self@.branch is None,
            },
    {
        self.branch.as_ref()
    }

    /// Replaces the branch.
    pub fn set_branch(&mut self, branch: Option<String>)
        ensures
            final(self)@ == (PluginSpec { branch: opt_text(branch), ..old(self)@ }),
    {
        self.branch = branch;
    }

    /// A multi-line description of the declaration, naming the default host
    /// where no platform is declared and `none` where no branch is.
    pub fn describe(&self) -> (r: String)
        ensures
            r@ == "Plugin:\n  owner: "@ + self@.owner + "\n  repo: "@ + self@.repo + "\n  platform: "@
                + host_of(self@.platform) + "\n  branch: "@ + (match self@.branch {
                Some(b) => b,
                None => "none"@,
            }),
    {
        let host: &str = match &self.platform {
            Some(p) => p.as_str(),
            None => DEFAULT_HOST,
        };
        let branch: &str = match &self.branch {
            Some(b) => b.as_str(),
            None => "none",
        };
        String::from_str("Plugin:\n  owner: ").concat(self.owner.as_str()).concat("\n  repo: ").concat(
            self.repo.as_str(),
        ).concat("\n  platform: ").concat(host).concat("\n  branch: ").concat(branch)
    }

    /// The version-control driver for this plugin.
    pub fn git(&self) -> (r: Git<'_>)
        ensures
            r@ == self@,
    {
        Git::new(self.owner.as_str(), self.repo.as_str(), opt_str(&self.platform), opt_str(&self.branch))
    }

    /// The location of this plugin under `data_root`.
    pub fn location(&self, data_root: &str) -> (r: PluginDir)
        ensures
            r@ == location_of(data_root@, self@.owner, self@.repo),
    {
        PluginDir::builder().owner(self.owner.as_str()).repo(self.repo.as_str()).build(data_root)
    }

    /// The arguments of the child process that installs this plugin: a
    /// shallow clone into its location under `data_root`.
    pub fn install(&self, data_root: &str) -> (r: Vec<String>)
        ensures
            texts(r@) == clone_args_of(self@, location_of(data_root@, self@.owner, self@.repo)),
    {
        let dir = self.location(data_root);
        self.git().clone_args(dir.as_path())
    }
}

} // verus!
