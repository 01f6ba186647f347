use lazy_tmux::path::tmux_dirs::{config_dir_in, config_file_in, data_dir_in, plugin_dir, plugin_dir_in};
use lazy_tmux::path::{join_text, PluginDir};
use lazy_tmux::error::PluginError;
use std::path::PathBuf;

#[test]
fn plugin_path_new() {
    let base = dirs::data_dir().unwrap();
    let root = PluginDir::new(Some(base.to_str().unwrap().to_string())).unwrap();
    let p = PluginDir::builder()
        .repo("lazy.tmux")
        .owner("abhinandh-s")
        .build(root.as_path());
    assert_eq!(
        PathBuf::from(p.as_path()),
        base.join("tmux/plugins/abhinandh-s/lazy.tmux")
    );
}

#[test]
fn new_resolves_data_root() {
    let root = PluginDir::new(Some("/home/u/.local/share".to_string())).unwrap();
    assert_eq!(root.as_path(), "/home/u/.local/share/tmux/plugins");
    assert!(matches!(PluginDir::new(None), Err(PluginError::CantFindDataDir)));
}

#[test]
fn join_adds_one_separator() {
    assert_eq!(join_text("/data", "owner"), "/data/owner");
    let mut d = PluginDir::at("/data");
    let j = d.join("x");
    assert_eq!(j.as_path(), "/data/x");
    assert_eq!(d.as_path(), "/data");
}

#[test]
fn empty_builder_has_empty_names() {
    let b = PluginDir::builder();
    assert_eq!(b.owner, "");
    assert_eq!(b.repo, "");
}

#[test]
fn data_root_is_under_tmux_plugins() {
    assert_eq!(
        data_dir_in(Some("/home/u/.local/share".to_string())),
        Ok("/home/u/.local/share/tmux/plugins".to_string())
    );
    assert_eq!(data_dir_in(None), Err(PluginError::CantFindDataDir));
}

#[test]
fn config_dir_is_under_tmux() {
    assert_eq!(
        config_dir_in(Some("/home/u/.config".to_string())),
        Ok("/home/u/.config/tmux".to_string())
    );
    assert_eq!(config_dir_in(None), Err(PluginError::CantFindConfigDir));
}

#[test]
fn plugin_dir_is_owner_then_repo() {
    if let Ok(p) = plugin_dir("tmux", "catppuccin") {
        assert!(p.ends_with("/tmux/plugins/catppuccin/tmux"));
    }
}

#[test]
fn config_file_and_plugin_dir_in_base() {
    assert_eq!(
        config_file_in(Some("/c".to_string())),
        Ok("/c/tmux/plugins.toml".to_string())
    );
    assert_eq!(config_file_in(None), Err(PluginError::CantFindConfigDir));
    assert_eq!(
        plugin_dir_in(Some("/d".to_string()), "tmux", "catppuccin"),
        Ok("/d/tmux/plugins/catppuccin/tmux".to_string())
    );
    assert_eq!(plugin_dir_in(None, "r", "o"), Err(PluginError::CantFindDataDir));
}
