//! The configuration loader.
//!
//! A configuration is a document with one array of tables, `plugins`; each
//! table holds the strings `owner` and `repo`, and optionally `platform` and
//! `branch`. Any other key is rejected. A plugin set is valid when every
//! owner and repository is one path segment (non-empty, no `/`, no
//! whitespace, neither `.` nor `..`) and no two declarations share a
//! location `owner/repo`.

use vstd::prelude::*;

use crate::error::PluginError;
use crate::plugins::PluginSpec;
use crate::text::{is_segment, is_segment_str, same_text};

pub use crate::plugins::Plugins;

verus! {

/// A table of a parsed configuration: its keys with their string values.
pub type FieldsSpec = Seq<(Seq<char>, Seq<char>)>;

/// A parsed configuration: its top-level keys, each with an array of tables.
pub type DocSpec = Seq<(Seq<char>, Seq<FieldsSpec>)>;

/// The document that `text` is, read as top-level keys that each hold an
/// array of tables of strings; `None` where the text is no such document.
pub uninterp spec fn document_of(text: Seq<char>) -> Option<DocSpec>;

/// The text of a table's entries.
pub open spec fn fields_view(v: Seq<(String, String)>) -> FieldsSpec {
    v.map_values(|e: (String, String)| (e.0@, e.1@))
}

/// The text of a parsed document.
pub open spec fn doc_view(v: Seq<(String, Vec<Vec<(String, String)>>)>) -> DocSpec {
    v.map_values(
        |e: (String, Vec<Vec<(String, String)>>)|
            (e.0@, e.1@.map_values(|t: Vec<(String, String)>| fields_view(t@))),
    )
}

/// Relies on `toml::from_str`: parses `text` as a document whose top-level
/// keys each hold an array of tables of strings, the shape of a plugin list.
/// The result depends on the text alone; a text of another shape fails with
/// the parser's diagnostic (the `Display` of `toml::de::Error`).
#[verifier::external_body]
fn parse_document(text: &str) -> (r: Result<Vec<(String, Vec<Vec<(String, String)>>)>, String>)
    ensures
        match r {
            Ok(d) => document_of(text@) == Some(doc_view(d@)),
            Err(_) => document_of(text@) is None,
        },
{
    match toml::from_str::<
        std::collections::BTreeMap<String, Vec<std::collections::BTreeMap<String, String>>>,
    >(text) {
        Ok(doc) => Ok(
            doc.into_iter().map(|(k, ts)| (k, ts.into_iter().map(|t| t.into_iter().collect()).collect())).collect(),
        ),
        Err(e) => Err(e.to_string()),
    }
}

/// Whether `d` and `e` would share a location.
pub open spec fn same_location(d: PluginSpec, e: PluginSpec) -> bool {
    d.owner == e.owner && d.repo == e.repo
}

/// The declaration at `i` is valid on its own and shares its location with
/// no declaration before it.
pub open spec fn decl_ok_at(ps: Seq<PluginSpec>, i: int) -> bool {
    &&& is_segment(ps[i].owner)
    &&& is_segment(ps[i].repo)
    &&& forall|j: int| 0 <= j < i ==> !same_location(#[trigger] ps[j], ps[i])
}

/// Every declaration is valid and every location is declared at most once.
pub open spec fn plugin_set_ok(ps: Seq<PluginSpec>) -> bool {
    forall|i: int| 0 <= i < ps.len() ==> decl_ok_at(ps, i)
}

/// The declarations of a list of plugins.
pub open spec fn decls(v: Seq<Plugins>) -> Seq<PluginSpec> {
    v.map_values(|p: Plugins| p@)
}

/// `i` is the first declaration that breaks an invariant of a plugin set.
pub open spec fn first_invalid(ps: Seq<PluginSpec>, i: int) -> bool {
    &&& 0 <= i < ps.len()
    &&& !decl_ok_at(ps, i)
    &&& forall|k: int| 0 <= k < i ==> decl_ok_at(ps, k)
}

/// Checks the invariants of a plugin set. Fails with `ConfigInvalid(i)`, `i`
/// the first declaration that breaks one.
pub fn validate_plugins(plugins: &Vec<Plugins>) -> (r: Result<(), PluginError>)
    ensures
        match r {
            Ok(()) => plugin_set_ok(decls(plugins@)),
            Err(e) => e is ConfigInvalid && first_invalid(decls(plugins@), e->ConfigInvalid_0 as int),
        },
{
    let ghost ps = decls(plugins@);
    let n = plugins.len();
    let mut i: usize = 0;
    while i < n
        invariant
            n == plugins@.len(),
            ps == decls(plugins@),
            i <= n,
            forall|k: int| 0 <= k < i ==> decl_ok_at(ps, k),
        decreases n - i,
    {
        let p = &plugins[i];
        if !is_segment_str(p.owner()) || !is_segment_str(p.repo()) {
            return Err(PluginError::ConfigInvalid(i));
        }
        let mut j: usize = 0;
        while j < i
            invariant
                n == plugins@.len(),
                ps == decls(plugins@),
                i < n,
                j <= i,
                p@ == ps[i as int],
                forall|k: int| 0 <= k < i ==> decl_ok_at(ps, k),
                forall|k: int| 0 <= k < j ==> !same_location(#[trigger] ps[k], ps[i as int]),
            decreases i - j,
        {
            let q = &plugins[j];
            assert(q@ == ps[j as int]);
            if same_text(q.owner(), p.owner()) && same_text(q.repo(), p.repo()) {
                assert(same_location(ps[j as int], ps[i as int]));
                return Err(PluginError::ConfigInvalid(i));
            }
            j = j + 1;
        }
        i = i + 1;
    }
    Ok(())
}

/// The keys that a plugin table may hold.
pub open spec fn known_key(k: Seq<char>) -> bool {
    k == "owner"@ || k == "repo"@ || k == "platform"@ || k == "branch"@
}

/// The value of the last entry of `fs` under `key`.
pub open spec fn lookup(fs: FieldsSpec, key: Seq<char>) -> Option<Seq<char>>
    decreases fs.len(),
{
    if fs.len() == 0 {
        None
    } else if fs.last().0 == key {
        Some(fs.last().1)
    } else {
        lookup(fs.drop_last(), key)
    }
}

/// A plugin table: every key known, owner and repo present.
pub open spec fn fields_ok(fs: FieldsSpec) -> bool {
    &&& forall|i: int| 0 <= i < fs.len() ==> known_key((#[trigger] fs[i]).0)
    &&& lookup(fs, "owner"@) is Some
    &&& lookup(fs, "repo"@) is Some
}

/// The declaration that a plugin table states.
pub open spec fn decl_of_fields(fs: FieldsSpec) -> PluginSpec {
    PluginSpec {
        owner: lookup(fs, "owner"@)->0,
        repo: lookup(fs, "repo"@)->0,
        platform: lookup(fs, "platform"@),
        branch: lookup(fs, "branch"@),
    }
}

/// A document is a plugin list: its only key is `plugins`, and every table
/// under it is a plugin table.
pub open spec fn doc_ok(d: DocSpec) -> bool {
    forall|i: int|
        0 <= i < d.len() ==> (#[trigger] d[i]).0 == "plugins"@ && forall|j: int|
            0 <= j < d[i].1.len() ==> fields_ok(#[trigger] d[i].1[j])
}

/// The declarations of the tables of a document, in order.
pub open spec fn doc_decls(d: DocSpec) -> Seq<PluginSpec>
    decreases d.len(),
{
    if d.len() == 0 {
        Seq::empty()
    } else {
        doc_decls(d.drop_last()) + d.last().1.map_values(|t: FieldsSpec| decl_of_fields(t))
    }
}

/// The declarations of a plugin list, in file order; `None` where the
/// document is no plugin list.
pub open spec fn plugins_of_doc(d: DocSpec) -> Option<Seq<PluginSpec>> {
    if doc_ok(d) {
        Some(doc_decls(d))
    } else {
        None
    }
}

proof fn lemma_keys_distinct()
    ensures
        "owner"@ != "repo"@,
        "owner"@ != "platform"@,
        "owner"@ != "branch"@,
        "repo"@ != "platform"@,
        "repo"@ != "branch"@,
        "platform"@ != "branch"@,
{
    reveal_strlit("owner");
    reveal_strlit("repo");
    reveal_strlit("platform");
    reveal_strlit("branch");
    assert("owner"@.len() == 5);
    assert("repo"@.len() == 4);
    assert("platform"@.len() == 8);
    assert("branch"@.len() == 6);
}

proof fn lemma_lookup_step(fs: FieldsSpec, i: int, key: Seq<char>)
    requires
        0 <= i < fs.len(),
    ensures
        lookup(fs.take(i + 1), key) == (if fs[i].0 == key {
            Some(fs[i].1)
        } else {
            lookup(fs.take(i), key)
        }),
{
    assert(fs.take(i + 1).drop_last() =~= fs.take(i));
}

fn malformed(what: &str) -> (r: PluginError)
    ensures
        r is ConfigMalformed,
{
    PluginError::ConfigMalformed(String::from_str(what))
}

/// The declaration of one plugin table, given its entries. Fails with
/// `ConfigMalformed` on an unknown key or a missing owner or repo.
pub fn plugin_from_fields(fields: &Vec<(String, String)>) -> (r: Result<Plugins, PluginError>)
    ensures
        r is Ok <==> fields_ok(fields_view(fields@)),
        r is Ok ==> r->Ok_0@ == decl_of_fields(fields_view(fields@)),
        r is Err ==> r->Err_0 is ConfigMalformed,
{
    let ghost fs = fields_view(fields@);
    let mut owner: Option<String> = None;
    let mut repo: Option<String> = None;
    let mut platform: Option<String> = None;
    let mut branch: Option<String> = None;
    let n = fields.len();
    let mut i: usize = 0;
    while i < n
        invariant
            n == fields@.len(),
            fs == fields_view(fields@),
            i <= n,
            forall|k: int| 0 <= k < i ==> known_key((#[trigger] fs[k]).0),
            crate::plugins::opt_text(owner) == lookup(fs.take(i as int), "owner"@),
            crate::plugins::opt_text(repo) == lookup(fs.take(i as int), "repo"@),
            crate::plugins::opt_text(platform) == lookup(fs.take(i as int), "platform"@),
            crate::plugins::opt_text(branch) == lookup(fs.take(i as int), "branch"@),
        decreases n - i,
    {
        proof {
            lemma_keys_distinct();
            lemma_lookup_step(fs, i as int, "owner"@);
            lemma_lookup_step(fs, i as int, "repo"@);
            lemma_lookup_step(fs, i as int, "platform"@);
            lemma_lookup_step(fs, i as int, "branch"@);
        }
        let (key, value) = &fields[i];
        let text = value.clone();
        let k = key.as_str();
        if same_text(k, "owner") {
            owner = Some(text);
        } else if same_text(k, "repo") {
            repo = Some(text);
        } else if same_text(k, "platform") {
            platform = Some(text);
        } else if same_text(k, "branch") {
            branch = Some(text);
        } else {
            return Err(malformed("unknown plugin field"));
        }
        i = i + 1;
    }
    assert(fs.take(n as int) =~= fs);
    match (owner, repo) {
        (Some(o), Some(r)) => Ok(Plugins::new(o, r, platform, branch)),
        _ => Err(malformed("a plugin lacks its owner or its repo")),
    }
}

/// The declarations of a parsed document, in file order: every table under
/// `plugins`, each through `plugin_from_fields`. A document with another key,
/// or with a table that is no plugin table, fails with `ConfigMalformed`.
pub fn plugins_from_document(doc: &Vec<(String, Vec<Vec<(String, String)>>)>) -> (r: Result<Vec<Plugins>, PluginError>)
    ensures
        match plugins_of_doc(doc_view(doc@)) {
            Some(ps) => r is Ok && decls(r->Ok_0@) == ps,
            None => r is Err && r->Err_0 is ConfigMalformed,
        },
{
    let ghost d = doc_view(doc@);
    let mut out: Vec<Plugins> = Vec::new();
    let n = doc.len();
    let mut i: usize = 0;
    while i < n
        invariant
            n == doc@.len(),
            d == doc_view(doc@),
            i <= n,
            doc_ok(d.take(i as int)),
            decls(out@) == doc_decls(d.take(i as int)),
        decreases n - i,
    {
        assert(d.take(i + 1).drop_last() =~= d.take(i as int));
        let (key, tables) = &doc[i];
        if !same_text(key.as_str(), "plugins") {
            assert(!doc_ok(d)) by {
                assert(d[i as int].0 != "plugins"@);
            }
            return Err(malformed("unknown top-level key"));
        }
        let ghost ts = d[i as int].1;
        let ghost before = decls(out@);
        let m = tables.len();
        let mut j: usize = 0;
        while j < m
            invariant
                n == doc@.len(),
                d == doc_view(doc@),
                i < n,
                m == tables@.len(),
                *tables == doc@[i as int].1,
                ts == d[i as int].1,
                ts.len() == m,
                j <= m,
                forall|k: int| 0 <= k < j ==> fields_ok(#[trigger] ts[k]),
                decls(out@) == before + ts.take(j as int).map_values(|t: FieldsSpec| decl_of_fields(t)),
            decreases m - j,
        {
            assert(ts[j as int] == fields_view(tables@[j as int]@));
            match plugin_from_fields(&tables[j]) {
                Ok(p) => {
                    let ghost old_out = out@;
                    out.push(p);
                    assert(decls(out@) =~= decls(old_out).push(decl_of_fields(ts[j as int])));
                    assert(ts.take(j + 1).map_values(|t: FieldsSpec| decl_of_fields(t)) =~= ts.take(
                        j as int,
                    ).map_values(|t: FieldsSpec| decl_of_fields(t)).push(decl_of_fields(ts[j as int])));
                    assert(decls(out@) =~= before + ts.take(j + 1).map_values(
                        |t: FieldsSpec| decl_of_fields(t),
                    ));
                },
                Err(e) => {
                    assert(!doc_ok(d)) by {
                        assert(!fields_ok(d[i as int].1[j as int]));
                    }
                    return Err(e);
                },
            }
            j = j + 1;
        }
        assert(ts.take(m as int) =~= ts);
        assert(doc_ok(d.take(i + 1))) by {
            assert forall|a: int| 0 <= a < i + 1 implies (#[trigger] d.take(i + 1)[a]).0 == "plugins"@
                && forall|b: int| 0 <= b < d.take(i + 1)[a].1.len() ==> fields_ok(
                #[trigger] d.take(i + 1)[a].1[b],
            ) by {
                if a < i {
                    assert(d.take(i + 1)[a] == d.take(i as int)[a]);
                }
            }
        }
        i = i + 1;
    }
    assert(d.take(n as int) =~= d);
    Ok(out)
}

/// How reading the configuration file went.
pub enum ConfigRead {
    /// The file does not exist.
    Missing,
    /// The file exists but reading it failed; carries the diagnostic.
    Unreadable(String),
    /// The contents of the file.
    Contents(String),
}

/// A validated plugin set, in the order of the configuration file.
pub struct ConfigFile {
    plugins: Vec<Plugins>,
}

impl View for ConfigFile {
    type V = Seq<PluginSpec>;

    closed spec fn view(&self) -> Seq<PluginSpec> {
        decls(self.plugins@)
    }
}

impl ConfigFile {
    /// The set has no duplicate location and every name is one segment.
    pub open spec fn well_formed(&self) -> bool {
        plugin_set_ok(self@)
    }

    /// The plugin set `plugins`, or `ConfigInvalid` as `validate_plugins` says.
    pub fn new(plugins: Vec<Plugins>) -> (r: Result<ConfigFile, PluginError>)
        ensures
            match r {
                Ok(c) => c@ == decls(plugins@) && c.well_formed(),
                Err(e) => e is ConfigInvalid && first_invalid(
                    decls(plugins@),
                    e->ConfigInvalid_0 as int,
                ),
            },
    {
        match validate_plugins(&plugins) {
            Ok(()) => Ok(ConfigFile { plugins }),
            Err(e) => Err(e),
        }
    }

    /// The empty plugin set.
    pub fn empty() -> (r: ConfigFile)
        ensures
            r@.len() == 0,
            r.well_formed(),
    {
        let r = ConfigFile { plugins: Vec::new() };
        assert(r@ =~= Seq::<PluginSpec>::empty());
        r
    }

    /// What parsing `text` gives: `ConfigMalformed` for a text that is no
    /// plugin list, `ConfigInvalid(i)` for a list whose declaration `i` is the
    /// first to break an invariant, and otherwise the declarations in file order.
    pub open spec fn parse_result_ok(text: Seq<char>, r: Result<ConfigFile, PluginError>) -> bool {
        match document_of(text) {
            None => r is Err && r->Err_0 is ConfigMalformed,
            Some(d) => match plugins_of_doc(d) {
                None => r is Err && r->Err_0 is ConfigMalformed,
                Some(ps) => if plugin_set_ok(ps) {
                    r is Ok && r->Ok_0@ == ps && r->Ok_0.well_formed()
                } else {
                    r is Err && r->Err_0 is ConfigInvalid && first_invalid(
                        ps,
                        r->Err_0->ConfigInvalid_0 as int,
                    )
                },
            },
        }
    }

    /// Parses and validates the text of a configuration file.
    pub fn parse(text: &str) -> (r: Result<ConfigFile, PluginError>)
        ensures
            ConfigFile::parse_result_ok(text@, r),
    {
        match parse_document(text) {
            Ok(doc) => match plugins_from_document(&doc) {
                Ok(plugins) => {
                    let r = ConfigFile::new(plugins);
                    proof {
                        if r is Err {
                            assert(!plugin_set_ok(decls(plugins@))) by {
                                let i = r->Err_0->ConfigInvalid_0 as int;
                                assert(!decl_ok_at(decls(plugins@), i));
                            }
                        }
                    }
                    r
                },
                Err(e) => Err(e),
            },
            Err(m) => Err(PluginError::ConfigMalformed(m)),
        }
    }

    /// The plugin set of a command, from the outcome of reading its
    /// configuration file. A missing file is the empty set where
    /// `tolerate_missing` holds (listing), and `ConfigMissing` otherwise.
    pub fn load(read: ConfigRead, tolerate_missing: bool) -> (r: Result<ConfigFile, PluginError>)
        ensures
            read is Missing && tolerate_missing ==> r is Ok && r->Ok_0@.len() == 0,
            read is Missing && !tolerate_missing ==> r == Err::<ConfigFile, PluginError>(
                PluginError::ConfigMissing,
            ),
            read is Unreadable ==> r == Err::<ConfigFile, PluginError>(
                PluginError::ConfigUnreadable(read->Unreadable_0),
            ),
            read is Contents ==> ConfigFile::parse_result_ok(read->Contents_0@, r),
    {
        match read {
            ConfigRead::Missing => {
                if tolerate_missing {
                    Ok(ConfigFile::empty())
                } else {
                    Err(PluginError::ConfigMissing)
                }
            },
            ConfigRead::Unreadable(m) => Err(PluginError::ConfigUnreadable(m)),
            ConfigRead::Contents(text) => ConfigFile::parse(text.as_str()),
        }
    }

    /// The declarations, in file order.
    pub fn plugins(&self) -> (r: &Vec<Plugins>)
        ensures
            decls(r@) == self@,
    {
        &self.plugins
    }

    /// The declarations, in file order.
    pub fn into_plugins(self) -> (r: Vec<Plugins>)
        ensures
            decls(r@) == self@,
    {
        self.plugins
    }
}

} // verus!
