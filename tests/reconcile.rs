use lazy_tmux::args::Commands;
use lazy_tmux::error::{child_status, ActionError};
use lazy_tmux::inspect::{
    git_dir_path, inspect, is_fully_cloned_repo, needs_integrity_check, shallow_marker_path,
    InstallationState,
};
use lazy_tmux::plugins::Plugins;
use lazy_tmux::clean::{clean_targets, is_declared};
use lazy_tmux::reconcile::{
    install_plugins, install_plugins_one_by_one, plan, plan_action, steps_for, update_plugins,
    Action, Step,
};
use lazy_tmux::run::{Outcome, Run, SkipReason, TaskState};
use lazy_tmux::report::{counts, summary_line};

use InstallationState::{Absent, Broken, Healthy, Shallow};

fn decl(owner: &str, repo: &str) -> Plugins {
    Plugins::new(owner.to_string(), repo.to_string(), None, None)
}

fn pair(o: &str, r: &str) -> (String, String) {
    (o.to_string(), r.to_string())
}

#[test]
fn action_table() {
    assert_eq!(plan_action(Commands::Install, Absent), Action::Clone);
    assert_eq!(plan_action(Commands::Install, Shallow), Action::Skip);
    assert_eq!(plan_action(Commands::Install, Broken), Action::Recreate);
    assert_eq!(plan_action(Commands::Install, Healthy), Action::Skip);
    assert_eq!(plan_action(Commands::Update, Absent), Action::Clone);
    assert_eq!(plan_action(Commands::Update, Shallow), Action::Recreate);
    assert_eq!(plan_action(Commands::Update, Broken), Action::Recreate);
    assert_eq!(plan_action(Commands::Update, Healthy), Action::Pull);
    assert_eq!(plan_action(Commands::Init, Broken), Action::Recreate);
    assert_eq!(plan_action(Commands::Clean, Absent), Action::Skip);
}

#[test]
fn inspector_order() {
    assert_eq!(inspect(false, true, true, true), Absent);
    assert_eq!(inspect(true, false, true, true), Broken);
    assert_eq!(inspect(true, true, true, false), Shallow);
    assert_eq!(inspect(true, true, false, false), Broken);
    assert_eq!(inspect(true, true, false, true), Healthy);
    assert!(needs_integrity_check(true, true, false));
    assert!(!needs_integrity_check(true, true, true));
    assert!(is_fully_cloned_repo(true, false, true));
    assert!(!is_fully_cloned_repo(true, true, true));
    assert_eq!(git_dir_path("/d/a/b"), "/d/a/b/.git");
    assert_eq!(shallow_marker_path("/d/a/b"), "/d/a/b/.git/shallow");
}

#[test]
fn install_on_empty_root_clones() {
    let p = decl("catppuccin", "tmux");
    let actions = install_plugins(&vec![Absent]);
    assert_eq!(actions, vec![Action::Clone]);
    let steps = steps_for(actions[0], &p, "/data");
    assert_eq!(steps.len(), 1);
    match &steps[0] {
        Step::Git(args) => assert_eq!(args.last().unwrap(), "/data/catppuccin/tmux"),
        Step::RemoveDir(_) => panic!("a clone removes nothing"),
    }
    let mut run = Run::new(1);
    assert!(run.begin(0));
    run.finish(0, Outcome::Succeeded);
    assert_eq!(run.exit_code(), 0);
}

#[test]
fn install_on_healthy_skips() {
    let actions = install_plugins(&vec![Healthy]);
    assert_eq!(actions, vec![Action::Skip]);
    assert!(steps_for(Action::Skip, &decl("catppuccin", "tmux"), "/data").is_empty());
    assert!(install_plugins_one_by_one(&vec![Healthy]).is_empty());
    let line = lazy_tmux::report::outcome_line(
        Commands::Install,
        "catppuccin",
        "tmux",
        &Outcome::Skipped(SkipReason::UpToDate),
    );
    assert_eq!(line, "skipped: catppuccin/tmux");
}

#[test]
fn update_on_shallow_recreates() {
    let actions = update_plugins(&vec![Shallow]);
    assert_eq!(actions, vec![Action::Recreate]);
    let steps = steps_for(Action::Recreate, &decl("catppuccin", "tmux"), "/data");
    assert_eq!(steps.len(), 2);
    match &steps[0] {
        Step::RemoveDir(d) => assert_eq!(d, "/data/catppuccin/tmux"),
        Step::Git(_) => panic!("a recreation removes first"),
    }
    match &steps[1] {
        Step::Git(args) => assert_eq!(args[0], "clone"),
        Step::RemoveDir(_) => panic!("a recreation clones second"),
    }
}

#[test]
fn update_on_healthy_pulls() {
    let steps = steps_for(Action::Pull, &decl("a", "b"), "/d");
    match &steps[0] {
        Step::Git(args) => assert_eq!(args, &vec!["-C", "/d/a/b", "pull", "--ff-only"]),
        Step::RemoveDir(_) => panic!("a pull removes nothing"),
    }
}

#[test]
fn clean_removes_undeclared_only() {
    let declared = vec![decl("A", "a"), decl("B", "b")];
    let disk = vec![pair("A", "a"), pair("B", "b"), pair("C", "c")];
    assert_eq!(clean_targets(&declared, &disk), vec![pair("C", "c")]);
    assert!(is_declared(&declared, "B", "b"));
    assert!(!is_declared(&declared, "C", "c"));
}

#[test]
fn clean_leaves_other_shapes() {
    let disk = vec![pair("x y", "a"), pair("o", "r"), pair("", "z")];
    assert_eq!(clean_targets(&vec![], &disk), vec![pair("o", "r")]);
}

#[test]
fn empty_configuration_plans_nothing() {
    assert!(plan(Commands::Install, &vec![]).is_empty());
    assert!(plan(Commands::Update, &vec![]).is_empty());
    let disk = vec![pair("a", "b"), pair("c", "d")];
    assert_eq!(clean_targets(&vec![], &disk), disk);
}

#[test]
fn second_install_clones_nothing() {
    let first = install_plugins(&vec![Absent, Broken, Shallow, Healthy]);
    assert_eq!(first, vec![Action::Clone, Action::Recreate, Action::Skip, Action::Skip]);
    let second = install_plugins(&vec![Shallow, Shallow, Shallow, Healthy]);
    assert!(second.iter().all(|a| *a == Action::Skip));
    assert_eq!(install_plugins_one_by_one(&vec![Absent, Healthy, Broken]), vec![0, 2]);
}

#[test]
fn two_failures_exit_one() {
    let mut run = Run::new(2);
    for i in 0..2 {
        assert!(run.begin(i));
        let status = child_status(Some(128), "fatal: repository not found".to_string());
        run.finish(i, Outcome::Failed(status.unwrap_err()));
    }
    assert!(run.is_finished());
    assert_eq!(run.exit_code(), 1);
    assert_eq!(counts(&run), (0, 2, 0));
    let outcome = |i: usize| match run.task(i) {
        TaskState::Done(o) => o.clone(),
        other => panic!("task {} is not done: {:?}", i, other),
    };
    let a = lazy_tmux::report::outcome_line(Commands::Install, "bad", "one", &outcome(0));
    let b = lazy_tmux::report::outcome_line(Commands::Install, "bad", "two", &outcome(1));
    assert_eq!(a, "bad/one: git failed: fatal: repository not found");
    assert_eq!(b, "bad/two: git failed: fatal: repository not found");
    assert_eq!(summary_line(&run), "succeeded: 0, failed: 2, skipped: 0");
}

#[test]
fn interrupt_after_first() {
    let mut run = Run::new(3);
    assert!(run.begin(0));
    run.finish(0, Outcome::Succeeded);
    assert!(run.begin(1));
    run.cancel();
    assert_eq!(run.task(1), &TaskState::Running);
    assert_eq!(run.task(2), &TaskState::Done(Outcome::Skipped(SkipReason::Cancelled)));
    assert!(!run.begin(2));
    assert!(!run.is_finished());
    run.finish(1, Outcome::Succeeded);
    assert!(run.is_finished());
    assert!(run.is_cancelled());
    assert_eq!(run.exit_code(), 130);
    assert_eq!(summary_line(&run), "succeeded: 2, failed: 0, skipped: 1");
}

#[test]
fn child_status_cases() {
    assert_eq!(child_status(Some(0), String::new()), Ok(()));
    assert_eq!(
        child_status(Some(2), "e".to_string()),
        Err(ActionError::ChildNonZero { exit: 2, stderr: "e".to_string() })
    );
    assert_eq!(child_status(None, String::new()), Err(ActionError::ChildSignalled));
}
