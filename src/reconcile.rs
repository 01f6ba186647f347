//! The reconciler: which action each declared plugin needs for a command,
//! and the steps that carry each action out.

use vstd::prelude::*;

use crate::args::Commands;
use crate::git::{clone_args_of, pull_args_of};
use crate::inspect::InstallationState;
use crate::path::location_of;
use crate::plugins::{PluginSpec, Plugins};
use crate::text::texts;

verus! {

/// What the reconciler does to one plugin location.
#[derive(Debug, Clone, Copy, PartialEq, Eq, Structural)]
pub enum Action {
    /// Clone into the absent location.
    Clone,
    /// Fast-forward the existing clone.
    Pull,
    /// Remove the location, then clone into it.
    Recreate,
    /// Leave the location as it is.
    Skip,
}

/// The action for a location in state `s` under `verb`:
///
/// | verb           | Absent | Shallow  | Broken   | Healthy |
/// |----------------|--------|----------|----------|---------|
/// | install, init  | Clone  | Skip     | Recreate | Skip    |
/// | update         | Clone  | Recreate | Recreate | Pull    |
/// | clean          | Skip   | Skip     | Skip     | Skip    |
///
/// `clean` does not act on declared plugins; it removes undeclared ones.
pub open spec fn action_for(verb: Commands, s: InstallationState) -> Action {
    match verb {
        Commands::Install | Commands::Init => match s {
            InstallationState::Absent => Action::Clone,
            InstallationState::Broken => Action::Recreate,
            _ => Action::Skip,
        },
        Commands::Update => match s {
            InstallationState::Absent => Action::Clone,
            InstallationState::Healthy => Action::Pull,
            _ => Action::Recreate,
        },
        Commands::Clean => Action::Skip,
    }
}

/// The action for one location.
pub fn plan_action(verb: Commands, s: InstallationState) -> (r: Action)
    ensures
        r == action_for(verb, s),
{
    match verb {
        Commands::Install | Commands::Init => match s {
            InstallationState::Absent => Action::Clone,
            InstallationState::Broken => Action::Recreate,
            _ => Action::Skip,
        },
        Commands::Update => match s {
            InstallationState::Absent => Action::Clone,
            InstallationState::Healthy => Action::Pull,
            _ => Action::Recreate,
        },
        Commands::Clean => Action::Skip,
    }
}

/// The actions of `verb` for locations in the states `states`, one each.
pub open spec fn plan_of(verb: Commands, states: Seq<InstallationState>) -> Seq<Action> {
    states.map_values(|s: InstallationState| action_for(verb, s))
}

/// The action of `verb` for each location, in declared order.
pub fn plan(verb: Commands, states: &Vec<InstallationState>) -> (r: Vec<Action>)
    ensures
        r@ == plan_of(verb, states@),
{
    let mut r: Vec<Action> = Vec::new();
    let n = states.len();
    let mut i: usize = 0;
    while i < n
        invariant
            n == states@.len(),
            i <= n,
            r@ == plan_of(verb, states@.take(i as int)),
        decreases n - i,
    {
        r.push(plan_action(verb, states[i]));
        assert(plan_of(verb, states@.take(i + 1)) =~= plan_of(verb, states@.take(i as int)).push(
            action_for(verb, states@[i as int]),
        ));
        i = i + 1;
    }
    assert(states@.take(n as int) =~= states@);
    r
}

/// The actions of `install` for the declared plugins, whose locations are in
/// the states `states`.
pub fn install_plugins(states: &Vec<InstallationState>) -> (r: Vec<Action>)
    ensures
        r@ == plan_of(Commands::Install, states@),
{
    plan(Commands::Install, states)
}

/// The actions of `update` for the declared plugins, whose locations are in
/// the states `states`.
pub fn update_plugins(states: &Vec<InstallationState>) -> (r: Vec<Action>)
    ensures
        r@ == plan_of(Commands::Update, states@),
{
    plan(Commands::Update, states)
}

/// The positions, in increasing order, of the locations that `install` has
/// work for, when the plugins are installed one at a time.
pub fn install_plugins_one_by_one(states: &Vec<InstallationState>) -> (r: Vec<usize>)
    ensures
        forall|k: int| 0 <= k < r@.len() ==> r@[k] < states@.len(),
        forall|k: int, l: int| 0 <= k < l < r@.len() ==> r@[k] < r@[l],
        forall|i: int|
            0 <= i < states@.len() ==> (r@.contains(i as usize) <==> action_for(
                Commands::Install,
                #[trigger] states@[i],
            ) != Action::Skip),
{
    let mut r: Vec<usize> = Vec::new();
    let n = states.len();
    let mut i: usize = 0;
    while i < n
        invariant
            n == states@.len(),
            i <= n,
            forall|k: int| 0 <= k < r@.len() ==> r@[k] < i,
            forall|k: int, l: int| 0 <= k < l < r@.len() ==> r@[k] < r@[l],
            forall|j: int|
                0 <= j < i ==> (r@.contains(j as usize) <==> action_for(
                    Commands::Install,
                    #[trigger] states@[j],
                ) != Action::Skip),
        decreases n - i,
    {
        let ghost old_r = r@;
        if plan_action(Commands::Install, states[i]) != Action::Skip {
            r.push(i);
            assert forall|j: int| 0 <= j < i implies (#[trigger] r@.contains(j as usize)
                <==> old_r.contains(j as usize)) by {
                if r@.contains(j as usize) {
                    let k = choose|k: int| 0 <= k < r@.len() && r@[k] == j as usize;
                    if k < old_r.len() {
                        assert(old_r[k] == j as usize);
                    }
                }
                if old_r.contains(j as usize) {
                    let k = choose|k: int| 0 <= k < old_r.len() && old_r[k] == j as usize;
                    assert(r@[k] == j as usize);
                }
            }
            assert(r@[r@.len() - 1] == i);
        } else {
            assert(!r@.contains(i));
        }
        i = i + 1;
    }
    r
}

/// One step of an action, as the outside world performs it.
pub enum Step {
    /// Remove the directory and everything below it.
    RemoveDir(String),
    /// Run the version-control binary with these arguments.
    Git(Vec<String>),
}

/// A step, as text.
pub enum StepSpec {
    RemoveDir(Seq<char>),
    Git(Seq<Seq<char>>),
}

/// The text of a step.
pub open spec fn step_spec(s: Step) -> StepSpec {
    match s {
        Step::RemoveDir(d) => StepSpec::RemoveDir(d@),
        Step::Git(a) => StepSpec::Git(texts(a@)),
    }
}

/// The steps of `a` on the plugin `p` under `root`: a clone writes the
/// location, a recreation removes it first, a pull fast-forwards it, a skip
/// does nothing.
pub open spec fn steps_of(a: Action, p: PluginSpec, root: Seq<char>) -> Seq<StepSpec> {
    let loc = location_of(root, p.owner, p.repo);
    match a {
        Action::Clone => seq![StepSpec::Git(clone_args_of(p, loc))],
        Action::Recreate => seq![StepSpec::RemoveDir(loc), StepSpec::Git(clone_args_of(p, loc))],
        Action::Pull => seq![StepSpec::Git(pull_args_of(loc))],
        Action::Skip => Seq::empty(),
    }
}

/// The steps that carry out `a` for `plugin` under `data_root`, in order.
pub fn steps_for(a: Action, plugin: &Plugins, data_root: &str) -> (r: Vec<Step>)
    ensures
        r@.map_values(|s: Step| step_spec(s)) == steps_of(a, plugin@, data_root@),
{
    let loc = plugin.location(data_root);
    let mut r: Vec<Step> = Vec::new();
    match a {
        Action::Clone => {
            r.push(Step::Git(plugin.git().clone_args(loc.as_path())));
        },
        Action::Recreate => {
            r.push(Step::RemoveDir(String::from_str(loc.as_path())));
            r.push(Step::Git(plugin.git().clone_args(loc.as_path())));
        },
        Action::Pull => {
            r.push(Step::Git(plugin.git().pull_args(loc.as_path())));
        },
        Action::Skip => {},
    }
    assert(r@.map_values(|s: Step| step_spec(s)) =~= steps_of(a, plugin@, data_root@));
    r
}

/// The state of a location after `a` succeeded on it in state `s`. A clone
/// is shallow (`--depth=1`); a fast-forward keeps a healthy clone healthy.
pub open spec fn state_after(a: Action, s: InstallationState) -> InstallationState {
    match a {
        Action::Skip => s,
        Action::Clone | Action::Recreate => InstallationState::Shallow,
        Action::Pull => InstallationState::Healthy,
    }
}

/// A location that holds a clone which `install` accepts.
pub open spec fn usable(s: InstallationState) -> bool {
    s == InstallationState::Shallow || s == InstallationState::Healthy
}

/// After `install`, each declared location either holds a usable clone or
/// its clone was attempted and is reported failed: `install` skips only
/// usable locations, and clones into every other one.
pub proof fn lemma_install_leaves_usable(s: InstallationState)
    ensures
        usable(state_after(action_for(Commands::Install, s), s)),
        action_for(Commands::Install, s) == Action::Skip <==> usable(s),
        !usable(s) ==> action_for(Commands::Install, s) == Action::Clone
            || action_for(Commands::Install, s) == Action::Recreate,
{
}

/// The states that a successful `install` leaves, location by location.
pub open spec fn states_after_install(states: Seq<InstallationState>) -> Seq<InstallationState> {
    states.map_values(|s: InstallationState| state_after(action_for(Commands::Install, s), s))
}

/// A second `install` on an unchanged configuration clones nothing: after a
/// successful first run every location is skipped, and a skip runs no step.
pub proof fn lemma_install_idempotent(states: Seq<InstallationState>)
    ensures
        plan_of(Commands::Install, states_after_install(states)) == Seq::new(
            states.len(),
            |i: int| Action::Skip,
        ),
        forall|p: PluginSpec, root: Seq<char>| #[trigger] steps_of(Action::Skip, p, root).len() == 0,
{
    assert(plan_of(Commands::Install, states_after_install(states)) =~= Seq::new(
        states.len(),
        |i: int| Action::Skip,
    ));
}

/// `update` on a healthy location only fast-forwards it: its single step runs
/// `pull --ff-only`, which never writes a merge commit.
pub proof fn lemma_update_fast_forwards(p: PluginSpec, root: Seq<char>)
    ensures
        action_for(Commands::Update, InstallationState::Healthy) == Action::Pull,
        steps_of(Action::Pull, p, root) == seq![
            StepSpec::Git(pull_args_of(location_of(root, p.owner, p.repo))),
        ],
        pull_args_of(location_of(root, p.owner, p.repo)).contains("--ff-only"@),
{
    assert(pull_args_of(location_of(root, p.owner, p.repo))[3] == "--ff-only"@);
}

/// Every step of an action stays in the location of its own plugin: it
/// removes that location, clones into it, or fast-forwards the clone there.
/// So `install`, `update` and `init` create, change or remove no directory of
/// the tree but the locations of declared plugins.
pub proof fn lemma_steps_stay_in_location(a: Action, p: PluginSpec, root: Seq<char>)
    ensures
        forall|k: int| 0 <= k < steps_of(a, p, root).len() ==> match #[trigger] steps_of(a, p, root)[k] {
            StepSpec::RemoveDir(d) => d == location_of(root, p.owner, p.repo),
            StepSpec::Git(args) => (args == clone_args_of(p, location_of(root, p.owner, p.repo))
                && args.last() == location_of(root, p.owner, p.repo)) || (args == pull_args_of(
                location_of(root, p.owner, p.repo),
            ) && args[1] == location_of(root, p.owner, p.repo)),
        },
{
}

/// A location that a run left without a usable clone (absent, or broken by a
/// clone that did not finish) is cloned again by the next `install`.
pub proof fn lemma_next_install_recovers(s: InstallationState)
    requires
        s == InstallationState::Absent || s == InstallationState::Broken,
    ensures
        action_for(Commands::Install, s) == Action::Clone || action_for(Commands::Install, s)
            == Action::Recreate,
{
}

} // verus!
