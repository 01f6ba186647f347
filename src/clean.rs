//! The `clean` verb: which directories of the plugin tree are removed.
//!
//! `clean` works on the directories two levels below the data root. It
//! removes each one that has the shape of a plugin location and that no
//! declaration names; declared directories and directories of another shape
//! are left alone.

use vstd::prelude::*;

use crate::args::Commands;
use crate::config::{decls, plugin_set_ok};
use crate::inspect::InstallationState;
use crate::plugins::{PluginSpec, Plugins};
use crate::reconcile::plan_of;
use crate::text::{is_segment, is_segment_str, same_text};

verus! {

/// A directory two levels below the data root, as `(owner, repo)`.
pub type Entry = (Seq<char>, Seq<char>);

/// The text of a listed directory.
pub open spec fn entry_texts(v: Seq<(String, String)>) -> Seq<Entry> {
    v.map_values(|e: (String, String)| (e.0@, e.1@))
}

/// A directory that has the shape of a plugin location: both names are one
/// path segment.
pub open spec fn plugin_shaped(e: Entry) -> bool {
    is_segment(e.0) && is_segment(e.1)
}

/// Some declaration of `ps` has its location at `e`.
pub open spec fn declares(ps: Seq<PluginSpec>, e: Entry) -> bool {
    exists|i: int| 0 <= i < ps.len() && (#[trigger] ps[i]).owner == e.0 && ps[i].repo == e.1
}

/// The locations that `ps` declares.
pub open spec fn declared_set(ps: Seq<PluginSpec>) -> Set<Entry> {
    Set::new(|e: Entry| declares(ps, e))
}

/// `clean` removes a directory that has the shape of a plugin location and
/// is not declared.
pub open spec fn removable(ps: Seq<PluginSpec>, e: Entry) -> bool {
    plugin_shaped(e) && !declares(ps, e)
}

/// The directories of the listing `disk` that `clean` removes, in listing order.
pub open spec fn clean_removes(ps: Seq<PluginSpec>, disk: Seq<Entry>) -> Seq<Entry> {
    disk.filter(|e: Entry| removable(ps, e))
}

/// Whether some plugin of `plugins` lives at `owner/repo`.
pub fn is_declared(plugins: &Vec<Plugins>, owner: &str, repo: &str) -> (r: bool)
    ensures
        r == declares(decls(plugins@), (owner@, repo@)),
{
    let ghost ps = decls(plugins@);
    let n = plugins.len();
    let mut i: usize = 0;
    while i < n
        invariant
            n == plugins@.len(),
            ps == decls(plugins@),
            i <= n,
            forall|k: int| 0 <= k < i ==> !((#[trigger] ps[k]).owner == owner@ && ps[k].repo == repo@),
        decreases n - i,
    {
        let p = &plugins[i];
        assert(p@ == ps[i as int]);
        if same_text(p.owner(), owner) && same_text(p.repo(), repo) {
            return true;
        }
        i = i + 1;
    }
    false
}

/// The directories of the listing `on_disk` that `clean` removes: those with
/// the shape of a plugin location that no plugin of `plugins` declares.
/// Declared directories and directories of another shape are kept.
pub fn clean_targets(plugins: &Vec<Plugins>, on_disk: &Vec<(String, String)>) -> (r: Vec<(String, String)>)
    ensures
        entry_texts(r@) == clean_removes(decls(plugins@), entry_texts(on_disk@)),
{
    let ghost ps = decls(plugins@);
    let ghost disk = entry_texts(on_disk@);
    let mut r: Vec<(String, String)> = Vec::new();
    let n = on_disk.len();
    let mut i: usize = 0;
    while i < n
        invariant
            n == on_disk@.len(),
            ps == decls(plugins@),
            disk == entry_texts(on_disk@),
            i <= n,
            entry_texts(r@) == clean_removes(ps, disk.take(i as int)),
        decreases n - i,
    {
        let (owner, repo) = &on_disk[i];
        let ghost e: Entry = (owner@, repo@);
        proof {
            reveal(Seq::filter);
            assert(disk.take(i + 1).drop_last() =~= disk.take(i as int));
            assert(disk.take(i + 1).last() == e);
        }
        let shaped = is_segment_str(owner.as_str()) && is_segment_str(repo.as_str());
        if shaped && !is_declared(plugins, owner.as_str(), repo.as_str()) {
            r.push((owner.clone(), repo.clone()));
            assert(entry_texts(r@) =~= clean_removes(ps, disk.take(i as int)).push(e));
        }
        i = i + 1;
    }
    assert(disk.take(n as int) =~= disk);
    r
}

proof fn lemma_removes_exactly(ps: Seq<PluginSpec>, disk: Seq<Entry>)
    ensures
        forall|e: Entry|
            #[trigger] clean_removes(ps, disk).contains(e) <==> (disk.contains(e) && removable(ps, e)),
{
    let pred = |e: Entry| removable(ps, e);
    assert forall|e: Entry|
        #[trigger] clean_removes(ps, disk).contains(e) <==> (disk.contains(e) && removable(ps, e)) by {
        if disk.contains(e) && removable(ps, e) {
            let i = choose|i: int| 0 <= i < disk.len() && disk[i] == e;
            disk.lemma_filter_contains(pred, i);
        }
        if clean_removes(ps, disk).contains(e) {
            disk.lemma_filter_contains_rev(pred, e);
        }
    }
}

/// The tree that `clean` leaves of the listing `disk`.
pub open spec fn tree_after_clean(ps: Seq<PluginSpec>, disk: Seq<Entry>) -> Set<Entry> {
    disk.to_set().difference(clean_removes(ps, disk).to_set())
}

/// After `clean`, every directory with the shape of a plugin location that
/// remains is declared; every directory of another shape is left in place;
/// and no declared location is removed.
pub proof fn lemma_clean_leaves_declared(ps: Seq<PluginSpec>, disk: Seq<Entry>)
    ensures
        forall|e: Entry| #[trigger]
            tree_after_clean(ps, disk).contains(e) && plugin_shaped(e) ==> declares(ps, e),
        forall|e: Entry|
            disk.contains(e) && !plugin_shaped(e) ==> #[trigger] tree_after_clean(ps, disk).contains(e),
        forall|e: Entry|
            disk.contains(e) && declares(ps, e) ==> #[trigger] tree_after_clean(ps, disk).contains(e),
{
    lemma_removes_exactly(ps, disk);
}

/// `install` then `clean` is a no-op: when every directory with the shape of
/// a plugin location is declared before `install`, and `install` adds only
/// declared locations, the following `clean` removes nothing.
pub proof fn lemma_install_then_clean(ps: Seq<PluginSpec>, before: Seq<Entry>, after_install: Seq<Entry>)
    requires
        forall|e: Entry| #[trigger] before.contains(e) && plugin_shaped(e) ==> declares(ps, e),
        forall|e: Entry| #[trigger] after_install.contains(e) ==> before.contains(e) || declares(ps, e),
    ensures
        clean_removes(ps, after_install).len() == 0,
{
    lemma_removes_exactly(ps, after_install);
    if clean_removes(ps, after_install).len() > 0 {
        let e = clean_removes(ps, after_install)[0];
        assert(clean_removes(ps, after_install).contains(e));
    }
}

/// `clean` then a successful `install` restores the declared set exactly: the
/// directories with the shape of a plugin location are then the declared
/// locations, no more and no fewer.
pub proof fn lemma_clean_then_install(ps: Seq<PluginSpec>, disk: Seq<Entry>)
    requires
        plugin_set_ok(ps),
    ensures
        tree_after_clean(ps, disk).union(declared_set(ps)).filter(|e: Entry| plugin_shaped(e))
            == declared_set(ps),
{
    lemma_removes_exactly(ps, disk);
    let after = tree_after_clean(ps, disk).union(declared_set(ps));
    assert forall|e: Entry| declared_set(ps).contains(e) implies plugin_shaped(e) by {
        let i = choose|i: int| 0 <= i < ps.len() && (#[trigger] ps[i]).owner == e.0 && ps[i].repo == e.1;
        assert(crate::config::decl_ok_at(ps, i));
    }
    assert(after.filter(|e: Entry| plugin_shaped(e)) =~= declared_set(ps));
}

/// A run of `install`, `update` or `init` on the declarations `ps` changes
/// no entry of the tree but declared locations, since each of its steps stays
/// in its own plugin's location (`lemma_steps_stay_in_location`). So a tree
/// that `clean` left, where every directory with the shape of a plugin
/// location is declared, keeps that property, and every entry of another
/// shape is as it was.
pub proof fn lemma_run_keeps_clean_tree(ps: Seq<PluginSpec>, before: Set<Entry>, after: Set<Entry>)
    requires
        plugin_set_ok(ps),
        forall|e: Entry| #[trigger] before.contains(e) && plugin_shaped(e) ==> declares(ps, e),
        forall|e: Entry| !declares(ps, e) ==> (#[trigger] after.contains(e) <==> before.contains(e)),
    ensures
        forall|e: Entry| #[trigger] after.contains(e) && plugin_shaped(e) ==> declares(ps, e),
        forall|e: Entry| !plugin_shaped(e) ==> (#[trigger] after.contains(e) <==> before.contains(e)),
{
    assert forall|e: Entry| declares(ps, e) implies plugin_shaped(e) by {
        let i = choose|i: int| 0 <= i < ps.len() && (#[trigger] ps[i]).owner == e.0 && ps[i].repo == e.1;
        assert(crate::config::decl_ok_at(ps, i));
    }
}

/// With an empty configuration there is nothing to install or update, and
/// `clean` removes every directory with the shape of a plugin location.
pub proof fn lemma_empty_configuration(verb: Commands, disk: Seq<Entry>)
    ensures
        plan_of(verb, Seq::<InstallationState>::empty()).len() == 0,
        forall|e: Entry|
            #[trigger] clean_removes(Seq::<PluginSpec>::empty(), disk).contains(e) <==> (
            disk.contains(e) && plugin_shaped(e)),
{
    lemma_removes_exactly(Seq::<PluginSpec>::empty(), disk);
}

} // verus!
