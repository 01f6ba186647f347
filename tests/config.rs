use lazy_tmux::config::{
    plugin_from_fields, plugins_from_document, validate_plugins, ConfigFile, ConfigRead,
};
use lazy_tmux::error::PluginError;
use lazy_tmux::plugins::Plugins;

fn decl(owner: &str, repo: &str) -> Plugins {
    Plugins::new(owner.to_string(), repo.to_string(), None, None)
}

#[test]
fn test_name() {
    let text = "[[plugins]]\nowner = \"abhinadh-s\"\nrepo = \"lazy.tmux\"\n";
    let conf = ConfigFile::parse(text).unwrap();
    let root = "/home/u/.local/share/tmux/plugins";
    for i in conf.plugins() {
        let args = i.install(root);
        assert!(args.last().unwrap().ends_with("tmux/plugins/abhinadh-s/lazy.tmux"));
    }
}

#[test]
fn parses_plugins_in_file_order() {
    let text = "[[plugins]]\nowner = \"catppuccin\"\nrepo  = \"tmux\"\n\n[[plugins]]\nowner  = \"tmux-plugins\"\nrepo   = \"tmux-sensible\"\nbranch = \"master\"\n";
    let conf = ConfigFile::parse(text).unwrap();
    let ps = conf.plugins();
    assert_eq!(ps.len(), 2);
    assert_eq!(ps[0].owner(), "catppuccin");
    assert_eq!(ps[0].repo(), "tmux");
    assert_eq!(ps[0].platform(), None);
    assert_eq!(ps[1].owner(), "tmux-plugins");
    assert_eq!(ps[1].repo(), "tmux-sensible");
    assert_eq!(ps[1].branch().map(|b| b.as_str()), Some("master"));
}

#[test]
fn duplicate_declarations_are_invalid() {
    let text = "[[plugins]]\nowner = \"a\"\nrepo = \"b\"\n[[plugins]]\nowner = \"a\"\nrepo = \"b\"\n";
    assert_eq!(ConfigFile::parse(text).err(), Some(PluginError::ConfigInvalid(1)));
}

#[test]
fn slash_in_owner_or_repo_is_invalid() {
    let text = "[[plugins]]\nowner = \"a/b\"\nrepo = \"c\"\n";
    assert_eq!(ConfigFile::parse(text).err(), Some(PluginError::ConfigInvalid(0)));
    let text = "[[plugins]]\nowner = \"a\"\nrepo = \"c/d\"\n";
    assert_eq!(ConfigFile::parse(text).err(), Some(PluginError::ConfigInvalid(0)));
}

#[test]
fn empty_or_spaced_names_are_invalid() {
    assert_eq!(validate_plugins(&vec![decl("", "x")]), Err(PluginError::ConfigInvalid(0)));
    assert_eq!(validate_plugins(&vec![decl("a", "b"), decl("a b", "x")]), Err(PluginError::ConfigInvalid(1)));
    assert_eq!(validate_plugins(&vec![decl("a", "b"), decl("a", "c")]), Ok(()));
}

#[test]
fn unknown_field_is_malformed() {
    let text = "[[plugins]]\nowner = \"a\"\nrepo = \"b\"\ncolour = \"red\"\n";
    assert!(matches!(ConfigFile::parse(text), Err(PluginError::ConfigMalformed(_))));
    let text = "[other]\nx = 1\n";
    assert!(matches!(ConfigFile::parse(text), Err(PluginError::ConfigMalformed(_))));
}

#[test]
fn missing_repo_is_malformed() {
    let text = "[[plugins]]\nowner = \"a\"\n";
    assert!(matches!(ConfigFile::parse(text), Err(PluginError::ConfigMalformed(_))));
}

#[test]
fn syntax_error_is_malformed() {
    match ConfigFile::parse("[[plugins]\nowner =") {
        Err(PluginError::ConfigMalformed(m)) => assert!(m.contains("TOML parse error at line")),
        other => panic!("expected a parse error, got {:?}", other.err()),
    }
}

#[test]
fn empty_document_is_empty_set() {
    assert_eq!(ConfigFile::parse("").unwrap().plugins().len(), 0);
    assert_eq!(ConfigFile::parse("plugins = []").unwrap().plugins().len(), 0);
}

#[test]
fn load_outcomes() {
    assert_eq!(ConfigFile::load(ConfigRead::Missing, false).err(), Some(PluginError::ConfigMissing));
    assert_eq!(ConfigFile::load(ConfigRead::Missing, true).unwrap().plugins().len(), 0);
    assert_eq!(
        ConfigFile::load(ConfigRead::Unreadable("denied".to_string()), false).err(),
        Some(PluginError::ConfigUnreadable("denied".to_string()))
    );
    let c = ConfigFile::load(ConfigRead::Contents("[[plugins]]\nowner = \"a\"\nrepo = \"b\"\n".to_string()), false);
    assert_eq!(c.unwrap().plugins().len(), 1);
}

#[test]
fn fields_give_declaration() {
    let fields = vec![
        ("repo".to_string(), "tmux".to_string()),
        ("owner".to_string(), "catppuccin".to_string()),
        ("platform".to_string(), "gitlab.com".to_string()),
    ];
    let p = plugin_from_fields(&fields).unwrap();
    assert_eq!(p.owner(), "catppuccin");
    assert_eq!(p.repo(), "tmux");
    assert_eq!(p.platform().map(|s| s.as_str()), Some("gitlab.com"));
    assert_eq!(p.branch(), None);
    let unknown = vec![("owner".to_string(), "a".to_string()), ("colour".to_string(), "x".to_string())];
    assert!(matches!(plugin_from_fields(&unknown), Err(PluginError::ConfigMalformed(_))));
    let no_owner = vec![("repo".to_string(), "x".to_string())];
    assert!(matches!(plugin_from_fields(&no_owner), Err(PluginError::ConfigMalformed(_))));
}

#[test]
fn document_gives_tables_in_order() {
    let table = |o: &str, r: &str| vec![("owner".to_string(), o.to_string()), ("repo".to_string(), r.to_string())];
    let doc = vec![("plugins".to_string(), vec![table("b", "2"), table("a", "1")])];
    let ps = plugins_from_document(&doc).unwrap();
    assert_eq!(ps.len(), 2);
    assert_eq!((ps[0].owner(), ps[0].repo()), ("b", "2"));
    assert_eq!((ps[1].owner(), ps[1].repo()), ("a", "1"));
    let other = vec![("themes".to_string(), vec![])];
    assert!(matches!(plugins_from_document(&other), Err(PluginError::ConfigMalformed(_))));
}

#[test]
fn non_string_value_is_malformed() {
    let text = "[[plugins]]\nowner = \"a\"\nrepo = 3\n";
    assert!(matches!(ConfigFile::parse(text), Err(PluginError::ConfigMalformed(_))));
}

#[test]
fn dot_names_are_invalid() {
    assert_eq!(validate_plugins(&vec![decl("..", "plugins")]), Err(PluginError::ConfigInvalid(0)));
    assert_eq!(validate_plugins(&vec![decl("a", ".")]), Err(PluginError::ConfigInvalid(0)));
    assert_eq!(validate_plugins(&vec![decl("...", ".a")]), Ok(()));
}

#[test]
fn new_config_validates() {
    assert!(ConfigFile::new(vec![decl("a", "b")]).is_ok());
    assert_eq!(ConfigFile::new(vec![decl("a", "b"), decl("a", "b")]).err(), Some(PluginError::ConfigInvalid(1)));
    assert_eq!(ConfigFile::empty().into_plugins().len(), 0);
}

#[test]
fn error_exit_codes() {
    assert_eq!(PluginError::ConfigInvalid(0).exit_code(), 2);
    assert_eq!(PluginError::ConfigMissing.exit_code(), 2);
    assert_eq!(PluginError::LockHeld.exit_code(), 3);
    assert_eq!(PluginError::CantFindDataDir.exit_code(), 3);
}
