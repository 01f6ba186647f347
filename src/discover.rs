//! The executable discoverer: which files of a plugin are entry scripts.
//!
//! A walk of a plugin location does not enter a directory whose name starts
//! with a dot, and yields every file whose extension is `tmux`.

use vstd::prelude::*;

use crate::text::starts_with_char;

verus! {

/// The name starts with a dot.
pub open spec fn hidden_name(name: Seq<char>) -> bool {
    name.len() > 0 && name[0] == '.'
}

/// The name has the extension `tmux`: it ends in `.tmux` and something comes
/// before that dot.
pub open spec fn tmux_name(name: Seq<char>) -> bool {
    name.len() > 5 && name.subrange(name.len() - 5, name.len() as int) == ".tmux"@
}

/// Whether the walk skips the entry `name` and everything below it.
pub fn is_hidden(name: &str) -> (r: bool)
    ensures
        r == hidden_name(name@),
{
    starts_with_char(name, '.')
}

/// Whether the file `name` is an entry script.
pub fn is_tmux_file(name: &str) -> (r: bool)
    ensures
        r == tmux_name(name@),
{
    let n = name.unicode_len();
    if n <= 5 {
        return false;
    }
    proof {
        reveal_strlit(".tmux");
    }
    let tail = name.substring_char(n - 5, n);
    crate::text::same_text(tail, ".tmux")
}

/// One entry of a walk: its path, its own name, and whether it is a file.
pub struct WalkEntry {
    pub path: String,
    pub name: String,
    pub is_file: bool,
}

/// The entry is an entry script.
pub open spec fn is_script(e: WalkEntry) -> bool {
    e.is_file && tmux_name(e.name@)
}

/// The paths of the entry scripts among `entries`, in walk order.
pub open spec fn scripts_of(entries: Seq<WalkEntry>) -> Seq<Seq<char>>
    decreases entries.len(),
{
    if entries.len() == 0 {
        Seq::empty()
    } else if is_script(entries.last()) {
        scripts_of(entries.drop_last()).push(entries.last().path@)
    } else {
        scripts_of(entries.drop_last())
    }
}

/// The paths of the entry scripts among the entries of a walk, in walk order.
pub fn select_scripts(entries: &Vec<WalkEntry>) -> (r: Vec<String>)
    ensures
        crate::text::texts(r@) == scripts_of(entries@),
{
    let mut r: Vec<String> = Vec::new();
    let n = entries.len();
    let mut i: usize = 0;
    while i < n
        invariant
            n == entries@.len(),
            i <= n,
            crate::text::texts(r@) == scripts_of(entries@.take(i as int)),
        decreases n - i,
    {
        assert(entries@.take(i + 1).drop_last() =~= entries@.take(i as int));
        let e = &entries[i];
        if e.is_file && is_tmux_file(e.name.as_str()) {
            r.push(e.path.clone());
            assert(crate::text::texts(r@) =~= scripts_of(entries@.take(i as int)).push(e.path@));
        }
        i = i + 1;
    }
    assert(entries@.take(n as int) =~= entries@);
    r
}

} // verus!
