use lazy_tmux::git::Git;
use lazy_tmux::plugins::{Plugins, DEFAULT_HOST, DEFAULT_OWNER, DEFAULT_REPO};

#[test]
fn default_is_the_manager() {
    let p = Plugins::default();
    assert_eq!(p.owner(), DEFAULT_OWNER);
    assert_eq!(p.repo(), DEFAULT_REPO);
    assert_eq!(p.platform().map(|s| s.as_str()), Some(DEFAULT_HOST));
    assert_eq!(p.branch(), None);
    assert_eq!(DEFAULT_HOST, "github.com");
}

#[test]
fn setters_replace_one_field() {
    let mut p = Plugins::default();
    p.set_owner("catppuccin".to_string());
    p.set_repo("tmux".to_string());
    p.set_platform(None);
    p.set_branch(Some("main".to_string()));
    assert_eq!(p.owner(), "catppuccin");
    assert_eq!(p.repo(), "tmux");
    assert_eq!(p.platform(), None);
    assert_eq!(p.branch().map(|s| s.as_str()), Some("main"));
    let q = p.clone();
    assert_eq!(q.owner(), "catppuccin");
}

#[test]
fn install_clones_into_location() {
    let p = Plugins::new("catppuccin".to_string(), "tmux".to_string(), None, None);
    let args = p.install("/d");
    assert_eq!(
        args,
        vec!["clone", "--depth=1", "--", "https://github.com/catppuccin/tmux.git", "/d/catppuccin/tmux"]
    );
    assert_eq!(p.location("/d").as_path(), "/d/catppuccin/tmux");
}

#[test]
fn clone_names_branch_and_platform() {
    let g = Git::new("o", "r", Some("gitlab.com"), Some("dev"));
    assert_eq!(g.remote_url(), "https://gitlab.com/o/r.git");
    assert_eq!(
        g.clone_args("/t"),
        vec!["clone", "--depth=1", "--branch", "dev", "--", "https://gitlab.com/o/r.git", "/t"]
    );
}

#[test]
fn pull_is_fast_forward_only() {
    let g = Git::new("o", "r", None, None);
    assert_eq!(g.pull_args("/t"), vec!["-C", "/t", "pull", "--ff-only"]);
    assert_eq!(g.fsck_args("/t"), vec!["-C", "/t", "fsck", "--full"]);
}

#[test]
fn describe_names_defaults() {
    let p = Plugins::new("catppuccin".to_string(), "tmux".to_string(), None, None);
    assert_eq!(
        p.describe(),
        "Plugin:\n  owner: catppuccin\n  repo: tmux\n  platform: github.com\n  branch: none"
    );
}
