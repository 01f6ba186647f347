use lazy_tmux::config::ConfigFile;
use lazy_tmux::dispatch::{start, with_lock, with_root, Startup};
use lazy_tmux::error::PluginError;

#[test]
fn ready_after_config_root_and_lock() {
    let s = start(Ok(ConfigFile::empty()));
    assert!(s.wants_root());
    let s = with_root(s, Ok("/d".to_string()));
    assert_eq!(s.wants_lock().map(|r| r.as_str()), Some("/d"));
    let s = with_lock(s, Ok(()));
    assert!(matches!(&s, Startup::Ready(_, root) if root == "/d"));
    assert_eq!(s.exit_code(), None);
}

#[test]
fn config_error_aborts_first() {
    let s = start(Err(PluginError::ConfigInvalid(0)));
    assert!(!s.wants_root());
    let s = with_root(s, Ok("/d".to_string()));
    assert!(s.wants_lock().is_none());
    let s = with_lock(s, Ok(()));
    assert!(matches!(s, Startup::Aborted(PluginError::ConfigInvalid(0))));
    assert_eq!(s.exit_code(), Some(2));
}

#[test]
fn missing_data_dir_aborts() {
    let s = with_root(start(Ok(ConfigFile::empty())), Err(PluginError::CantFindDataDir));
    let s = with_lock(s, Ok(()));
    assert!(matches!(s, Startup::Aborted(PluginError::CantFindDataDir)));
    assert_eq!(s.exit_code(), Some(3));
}

#[test]
fn held_lock_aborts() {
    let s = with_root(start(Ok(ConfigFile::empty())), Ok("/d".to_string()));
    let s = with_lock(s, Err(PluginError::LockHeld));
    assert!(matches!(s, Startup::Aborted(PluginError::LockHeld)));
    assert_eq!(s.exit_code(), Some(3));
}
