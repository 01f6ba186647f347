//! The standard directories of the tool, from the host's base directories.
//!
//! The configuration file is `<config_base>/tmux/plugins.toml`; plugin data
//! lives under `<data_base>/tmux/plugins`.

use vstd::prelude::*;

use crate::error::PluginError;
use crate::path::{join_text, joined, location_of};

verus! {

/// Relies on `dirs::data_dir`: the user's data directory, if the host has one.
/// A path that is not valid Unicode counts as none.
#[verifier::external_body]
fn user_data_base() -> (r: Option<String>) {
    dirs::data_dir().and_then(|p| p.to_str().map(|s| s.to_string()))
}

/// Relies on `dirs::config_local_dir`: the user's local configuration
/// directory, if the host has one. A path that is not valid Unicode counts as none.
#[verifier::external_body]
fn user_config_base() -> (r: Option<String>) {
    dirs::config_local_dir().and_then(|p| p.to_str().map(|s| s.to_string()))
}

/// `<base>/tmux/plugins`.
pub open spec fn data_root_in(base: Seq<char>) -> Seq<char> {
    joined(joined(base, "tmux"@), "plugins"@)
}

/// `<base>/tmux`.
pub open spec fn tmux_config_in(base: Seq<char>) -> Seq<char> {
    joined(base, "tmux"@)
}

/// The data root under the data directory `base`, or `CantFindDataDir`
/// where the host has none.
pub fn data_dir_in(base: Option<String>) -> (r: Result<String, PluginError>)
    ensures
        match base {
            Some(b) => r is Ok && r->Ok_0@ == data_root_in(b@),
            None => r == Err::<String, PluginError>(PluginError::CantFindDataDir),
        },
{
    match base {
        Some(b) => {
            let t = join_text(b.as_str(), "tmux");
            Ok(join_text(t.as_str(), "plugins"))
        },
        None => Err(PluginError::CantFindDataDir),
    }
}

/// The data root, `<data_base>/tmux/plugins`, where plugins are installed.
pub fn data_dir() -> (r: Result<String, PluginError>)
    ensures
        r is Ok ==> exists|b: Seq<char>| r->Ok_0@ == data_root_in(b),
        r is Err ==> r == Err::<String, PluginError>(PluginError::CantFindDataDir),
{
    let base = user_data_base();
    let r = data_dir_in(base);
    proof {
        if r is Ok {
            assert(r->Ok_0@ == data_root_in(base->0@));
        }
    }
    r
}

/// The tool's configuration directory under the configuration directory
/// `base`, or `CantFindConfigDir` where the host has none.
pub fn config_dir_in(base: Option<String>) -> (r: Result<String, PluginError>)
    ensures
        match base {
            Some(b) => r is Ok && r->Ok_0@ == tmux_config_in(b@),
            None => r == Err::<String, PluginError>(PluginError::CantFindConfigDir),
        },
{
    match base {
        Some(b) => Ok(join_text(b.as_str(), "tmux")),
        None => Err(PluginError::CantFindConfigDir),
    }
}

/// The tool's configuration directory, `<config_base>/tmux`. Nothing is created.
pub fn config_dir() -> (r: Result<String, PluginError>)
    ensures
        r is Ok ==> exists|b: Seq<char>| r->Ok_0@ == tmux_config_in(b),
        r is Err ==> r == Err::<String, PluginError>(PluginError::CantFindConfigDir),
{
    let base = user_config_base();
    let r = config_dir_in(base);
    proof {
        if r is Ok {
            assert(r->Ok_0@ == tmux_config_in(base->0@));
        }
    }
    r
}

/// The configuration file under the configuration directory `base`, or
/// `CantFindConfigDir` where the host has none.
pub fn config_file_in(base: Option<String>) -> (r: Result<String, PluginError>)
    ensures
        match base {
            Some(b) => r is Ok && r->Ok_0@ == joined(tmux_config_in(b@), "plugins.toml"@),
            None => r == Err::<String, PluginError>(PluginError::CantFindConfigDir),
        },
{
    match config_dir_in(base) {
        Ok(d) => Ok(join_text(d.as_str(), "plugins.toml")),
        Err(e) => Err(e),
    }
}

/// The configuration file, `<config_base>/tmux/plugins.toml`.
pub fn config_file() -> (r: Result<String, PluginError>)
    ensures
        r is Ok ==> exists|b: Seq<char>| r->Ok_0@ == joined(tmux_config_in(b), "plugins.toml"@),
        r is Err ==> r == Err::<String, PluginError>(PluginError::CantFindConfigDir),
{
    let base = user_config_base();
    let r = config_file_in(base);
    proof {
        if r is Ok {
            assert(r->Ok_0@ == joined(tmux_config_in(base->0@), "plugins.toml"@));
        }
    }
    r
}

/// The location of the plugin `owner/repo` under the data directory `base`,
/// or `CantFindDataDir` where the host has none.
pub fn plugin_dir_in(base: Option<String>, repo: &str, owner: &str) -> (r: Result<String, PluginError>)
    ensures
        match base {
            Some(b) => r is Ok && r->Ok_0@ == location_of(data_root_in(b@), owner@, repo@),
            None => r == Err::<String, PluginError>(PluginError::CantFindDataDir),
        },
{
    match data_dir_in(base) {
        Ok(root) => {
            let o = join_text(root.as_str(), owner);
            Ok(join_text(o.as_str(), repo))
        },
        Err(e) => Err(e),
    }
}

/// The location of the plugin `owner/repo`: `<data_root>/<owner>/<repo>`.
pub fn plugin_dir(repo: &str, owner: &str) -> (r: Result<String, PluginError>)
    ensures
        r is Ok ==> exists|b: Seq<char>|
            r->Ok_0@ == location_of(data_root_in(b), owner@, repo@),
        r is Err ==> r == Err::<String, PluginError>(PluginError::CantFindDataDir),
{
    let base = user_data_base();
    let r = plugin_dir_in(base, repo, owner);
    proof {
        if r is Ok {
            assert(r->Ok_0@ == location_of(data_root_in(base->0@), owner@, repo@));
        }
    }
    r
}

} // verus!
