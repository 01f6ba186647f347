use lazy_tmux::args::Commands;
use lazy_tmux::discover::{is_hidden, is_tmux_file, select_scripts, WalkEntry};
use lazy_tmux::error::ActionError;
use lazy_tmux::run::{Outcome, SkipReason};
use lazy_tmux::report::{decimal, label, outcome_line, DIAGNOSTIC_WIDTH};
use lazy_tmux::settings::{parse_positive, pool_size};
use lazy_tmux::text::{first_line, is_segment_str, same_text};

#[test]
fn decimal_digits() {
    assert_eq!(decimal(0), "0");
    assert_eq!(decimal(7), "7");
    assert_eq!(decimal(130), "130");
    assert_eq!(decimal(usize::MAX), usize::MAX.to_string());
}

#[test]
fn lines_are_single() {
    let long = format!("first line{}\nsecond", "x".repeat(500));
    let e = ActionError::ChildNonZero { exit: 1, stderr: long };
    let line = outcome_line(Commands::Update, "o", "r", &Outcome::Failed(e));
    assert!(!line.contains('\n'));
    assert_eq!(line.len(), "o/r: ".len() + DIAGNOSTIC_WIDTH);
    assert!(line.starts_with("o/r: git failed: first line"));
    assert_eq!(outcome_line(Commands::Update, "o", "r", &Outcome::Succeeded), "updated: o/r");
    assert_eq!(outcome_line(Commands::Install, "o", "r", &Outcome::Succeeded), "installed: o/r");
    assert_eq!(
        outcome_line(Commands::Install, "o", "r", &Outcome::Skipped(SkipReason::Cancelled)),
        "cancelled: o/r"
    );
    assert_eq!(label("o", "r"), "o/r");
}

#[test]
fn first_line_cuts() {
    assert_eq!(first_line("abc\ndef", 10), "abc");
    assert_eq!(first_line("abcdef", 3), "abc");
    assert_eq!(first_line("", 3), "");
    assert_eq!(ActionError::Timeout.describe(), "timed out");
}

#[test]
fn segments() {
    assert!(is_segment_str("tmux-sensible"));
    assert!(!is_segment_str(""));
    assert!(!is_segment_str("a/b"));
    assert!(!is_segment_str("a\tb"));
    assert!(!is_segment_str("a\u{3000}b"));
    assert!(!is_segment_str("."));
    assert!(!is_segment_str(".."));
    assert!(is_segment_str(".tmux"));
    assert!(same_text("abc", "abc"));
    assert!(!same_text("abc", "abd"));
}

#[test]
fn entry_script_names() {
    assert!(is_tmux_file("catppuccin.tmux"));
    assert!(!is_tmux_file(".tmux"));
    assert!(!is_tmux_file("plugin.sh"));
    assert!(!is_tmux_file("tmux"));
    assert!(is_hidden(".git"));
    assert!(!is_hidden("scripts"));
}

#[test]
fn scripts_keep_walk_order() {
    let e = |p: &str, n: &str, f: bool| WalkEntry { path: p.to_string(), name: n.to_string(), is_file: f };
    let entries = vec![
        e("/d/a/lazy.tmux", "lazy.tmux", false),
        e("/d/a/lazy.tmux/b.tmux", "b.tmux", true),
        e("/d/a/lazy.tmux/a.sh", "a.sh", true),
        e("/d/a/lazy.tmux/a.tmux", "a.tmux", true),
    ];
    assert_eq!(select_scripts(&entries), vec!["/d/a/lazy.tmux/b.tmux", "/d/a/lazy.tmux/a.tmux"]);
}

#[test]
fn positive_integers() {
    assert_eq!(parse_positive("8"), Some(8));
    assert_eq!(parse_positive("0"), None);
    assert_eq!(parse_positive(""), None);
    assert_eq!(parse_positive("-3"), None);
    assert_eq!(parse_positive("12a"), None);
    assert_eq!(parse_positive("99999999999999999999999"), None);
    assert_eq!(parse_positive(&usize::MAX.to_string()), Some(usize::MAX));
}

#[test]
fn pool_sizes() {
    assert_eq!(pool_size(3, 8, None), 3);
    assert_eq!(pool_size(20, 8, None), 8);
    assert_eq!(pool_size(20, 8, Some(2)), 2);
    assert_eq!(pool_size(0, 8, None), 1);
}
