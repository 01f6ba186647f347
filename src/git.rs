//! The arguments of the version-control child processes.
//!
//! Clones are shallow (`--depth=1`); pulls are fast-forward only, so that an
//! update never writes a merge commit into a repository that has diverged.

use vstd::prelude::*;

use crate::plugins::{PluginSpec, DEFAULT_HOST};
use crate::text::texts;

verus! {

/// The host of a plugin: its platform, or the default host.
pub open spec fn host_of(platform: Option<Seq<char>>) -> Seq<char> {
    match platform {
        Some(p) => p,
        None => DEFAULT_HOST@,
    }
}

/// `https://<host>/<owner>/<repo>.git`.
pub open spec fn remote_url_of(p: PluginSpec) -> Seq<char> {
    "https://"@ + host_of(p.platform) + "/"@ + p.owner + "/"@ + p.repo + ".git"@
}

/// `clone --depth=1 [--branch <b>] -- <url> <target>`.
pub open spec fn clone_args_of(p: PluginSpec, target: Seq<char>) -> Seq<Seq<char>> {
    let branch = match p.branch {
        Some(b) => seq!["--branch"@, b],
        None => Seq::<Seq<char>>::empty(),
    };
    seq!["clone"@, "--depth=1"@] + branch + seq!["--"@, remote_url_of(p), target]
}

/// `-C <target> pull --ff-only`.
pub open spec fn pull_args_of(target: Seq<char>) -> Seq<Seq<char>> {
    seq!["-C"@, target, "pull"@, "--ff-only"@]
}

/// `-C <target> fsck --full`.
pub open spec fn fsck_args_of(target: Seq<char>) -> Seq<Seq<char>> {
    seq!["-C"@, target, "fsck"@, "--full"@]
}

/// One plugin as the version-control driver sees it.
pub struct Git<'a> {
    owner: &'a str,
    repo: &'a str,
    platform: Option<&'a str>,
    branch: Option<&'a str>,
}

impl<'a> View for Git<'a> {
    type V = PluginSpec;

    closed spec fn view(&self) -> PluginSpec {
        PluginSpec {
            owner: self.owner@,
            repo: self.repo@,
            platform: match self.platform {
                Some(p) => Some(p@),
                None => None,
            },
            branch: match self.branch {
                Some(b) => Some(b@),
                None => None,
            },
        }
    }
}

impl<'a> Git<'a> {
    /// The driver for the plugin `owner/repo` on `platform`, at `branch`.
    pub fn new(
        owner: &'a str,
        repo: &'a str,
        platform: Option<&'a str>,
        branch: Option<&'a str>,
    ) -> (r: Self)
        ensures
            r@.owner == owner@,
            r@.repo == repo@,
            r@.platform == (match platform {
                Some(p) => Some(p@),
                None => None::<Seq<char>>,
            }),
            r@.branch == (match branch {
                Some(b) => Some(b@),
                None => None::<Seq<char>>,
            }),
    {
        Git { owner, repo, platform, branch }
    }

    /// The remote to clone from.
    pub fn remote_url(&self) -> (r: String)
        ensures
            r@ == remote_url_of(self@),
    {
        let host: &str = match self.platform {
            Some(p) => p,
            None => DEFAULT_HOST,
        };
        let r = String::from_str("https://").concat(host).concat("/").concat(self.owner).concat(
            "/",
        ).concat(self.repo).concat(".git");
        r
    }

    /// The arguments that clone this plugin into `target`.
    pub fn clone_args(&self, target: &str) -> (r: Vec<String>)
        ensures
            texts(r@) == clone_args_of(self@, target@),
    {
        let mut r: Vec<String> = Vec::new();
        r.push(String::from_str("clone"));
        r.push(String::from_str("--depth=1"));
        match self.branch {
            Some(b) => {
                r.push(String::from_str("--branch"));
                r.push(String::from_str(b));
            },
            None => {},
        }
        r.push(String::from_str("--"));
        r.push(self.remote_url());
        r.push(String::from_str(target));
        assert(texts(r@) =~= clone_args_of(self@, target@));
        r
    }

    /// The arguments that fast-forward the clone at `target`.
    pub fn pull_args(&self, target: &str) -> (r: Vec<String>)
        ensures
            texts(r@) == pull_args_of(target@),
    {
        let r: Vec<String> = vec![
            String::from_str("-C"),
            String::from_str(target),
            String::from_str("pull"),
            String::from_str("--ff-only"),
        ];
        assert(texts(r@) =~= pull_args_of(target@));
        r
    }

    /// The arguments that check the integrity of the clone at `target`.
    pub fn fsck_args(&self, target: &str) -> (r: Vec<String>)
        ensures
            texts(r@) == fsck_args_of(target@),
    {
        let r: Vec<String> = vec![
            String::from_str("-C"),
            String::from_str(target),
            String::from_str("fsck"),
            String::from_str("--full"),
        ];
        assert(texts(r@) =~= fsck_args_of(target@));
        r
    }
}

} // verus!
