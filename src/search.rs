//! Search over the index: an entry matches when the lower-cased query
//! occurs in the lower-cased id, name, description or one of its tags.

use crate::model::{PackageEntry, PluginEntry, RegistryIndex, SearchQuery, SearchResults};
use vstd::prelude::*;

verus! {

/// What `str::to_lowercase` makes of a text.
pub uninterp spec fn lower_of(s: Seq<char>) -> Seq<char>;

/// Relies on `str::to_lowercase`: the lower-case form of `s`, which depends
/// on the characters of `s` alone.
#[verifier::external_body]
fn lowercase(s: &str) -> (r: String)
    ensures
        r@ == lower_of(s@),
{
    s.to_lowercase()
}

/// `p` occurs in `s` as a run of consecutive characters.
pub open spec fn contains_text(s: Seq<char>, p: Seq<char>) -> bool {
    exists|i: int| 0 <= i && i + p.len() <= s.len() && #[trigger] s.subrange(i, i + p.len()) == p
}

/// Relies on `str::contains` with a `&str` pattern: whether `p` occurs in
/// `s`.
#[verifier::external_body]
fn text_contains(s: &str, p: &str) -> (r: bool)
    ensures
        r == contains_text(s@, p@),
{
    s.contains(p)
}

/// Field `f` matches query `q`, already lower-cased.
pub open spec fn field_matches(f: Seq<char>, q: Seq<char>) -> bool {
    contains_text(lower_of(f), q)
}

pub open spec fn tags_match(tags: Seq<String>, q: Seq<char>) -> bool {
    exists|t: int| 0 <= t < tags.len() && field_matches(#[trigger] tags[t]@, q)
}

/// Package entry `e` matches query `q`, already lower-cased.
pub open spec fn package_matches(e: PackageEntry, q: Seq<char>) -> bool {
    field_matches(e.id@, q) || field_matches(e.name@, q) || field_matches(e.description@, q)
        || tags_match(e.tags@, q)
}

/// Plugin entry `e` matches query `q`, already lower-cased.
pub open spec fn plugin_matches(e: PluginEntry, q: Seq<char>) -> bool {
    field_matches(e.id@, q) || field_matches(e.name@, q) || field_matches(e.description@, q)
        || tags_match(e.tags@, q)
}

/// `a` holds the same values as `b`.
pub open spec fn same_package(a: PackageEntry, b: PackageEntry) -> bool {
    &&& a.id@ == b.id@
    &&& a.name@ == b.name@
    &&& a.description@ == b.description@
    &&& a.plugin_count == b.plugin_count
    &&& a.plugin_ids.deep_view() == b.plugin_ids.deep_view()
    &&& a.latest_version@ == b.latest_version@
    &&& a.downloads == b.downloads
    &&& a.author@ == b.author@
    &&& a.tags.deep_view() == b.tags.deep_view()
}

pub open spec fn text_option(o: Option<String>) -> Option<Seq<char>> {
    match o {
        Some(s) => Some(s@),
        None => None,
    }
}

/// `a` holds the same values as `b`.
pub open spec fn same_plugin(a: PluginEntry, b: PluginEntry) -> bool {
    &&& a.id@ == b.id@
    &&& a.name@ == b.name@
    &&& a.description@ == b.description@
    &&& a.plugin_type@ == b.plugin_type@
    &&& text_option(a.package_id) == text_option(b.package_id)
    &&& a.latest_version@ == b.latest_version@
    &&& a.downloads == b.downloads
    &&& a.author@ == b.author@
    &&& a.tags.deep_view() == b.tags.deep_view()
}

/// The entries of `entries` that match `q`, in their order.
pub open spec fn matching_packages(entries: Seq<PackageEntry>, q: Seq<char>) -> Seq<PackageEntry> {
    entries.filter(package_pred(q))
}

pub open spec fn package_pred(q: Seq<char>) -> spec_fn(PackageEntry) -> bool {
    |e: PackageEntry| package_matches(e, q)
}

proof fn lemma_matching_packages_step(entries: Seq<PackageEntry>, q: Seq<char>, i: int)
    requires
        0 <= i < entries.len(),
    ensures
        matching_packages(entries.subrange(0, i + 1), q) == if package_matches(entries[i], q) {
            matching_packages(entries.subrange(0, i), q).push(entries[i])
        } else {
            matching_packages(entries.subrange(0, i), q)
        },
{
    let next = entries.subrange(0, i + 1);
    let f = package_pred(q);
    assert(next.drop_last() =~= entries.subrange(0, i));
    assert(next.last() == entries[i]);
    assert(f(entries[i]) == package_matches(entries[i], q));
    reveal(Seq::filter);
    assert(next.filter(f) == if f(next.last()) {
        next.drop_last().filter(f).push(next.last())
    } else {
        next.drop_last().filter(f)
    });
}

/// The entries of `entries` that match `q`, in their order.
pub open spec fn matching_plugins(entries: Seq<PluginEntry>, q: Seq<char>) -> Seq<PluginEntry> {
    entries.filter(plugin_pred(q))
}

pub open spec fn plugin_pred(q: Seq<char>) -> spec_fn(PluginEntry) -> bool {
    |e: PluginEntry| plugin_matches(e, q)
}

proof fn lemma_matching_plugins_step(entries: Seq<PluginEntry>, q: Seq<char>, i: int)
    requires
        0 <= i < entries.len(),
    ensures
        matching_plugins(entries.subrange(0, i + 1), q) == if plugin_matches(entries[i], q) {
            matching_plugins(entries.subrange(0, i), q).push(entries[i])
        } else {
            matching_plugins(entries.subrange(0, i), q)
        },
{
    let next = entries.subrange(0, i + 1);
    let f = plugin_pred(q);
    assert(next.drop_last() =~= entries.subrange(0, i));
    assert(next.last() == entries[i]);
    assert(f(entries[i]) == plugin_matches(entries[i], q));
    reveal(Seq::filter);
    assert(next.filter(f) == if f(next.last()) {
        next.drop_last().filter(f).push(next.last())
    } else {
        next.drop_last().filter(f)
    });
}

/// A search of this kind looks at packages: no kind, `all` or `package`.
pub open spec fn wants_packages(kind: Option<String>) -> bool {
    match kind {
        None => true,
        Some(k) => k@ == "all"@ || k@ == "package"@,
    }
}

/// A search of this kind looks at plugins: no kind, `all` or `plugin`.
pub open spec fn wants_plugins(kind: Option<String>) -> bool {
    match kind {
        None => true,
        Some(k) => k@ == "all"@ || k@ == "plugin"@,
    }
}

fn copy_text_option(o: &Option<String>) -> (r: Option<String>)
    ensures
        text_option(r) == text_option(*o),
{
    match o {
        Some(s) => Some(s.clone()),
        None => None,
    }
}

fn copy_package(e: &PackageEntry) -> (r: PackageEntry)
    ensures
        same_package(r, *e),
{
    PackageEntry {
        id: e.id.clone(),
        name: e.name.clone(),
        description: e.description.clone(),
        plugin_count: e.plugin_count,
        plugin_ids: e.plugin_ids.clone(),
        latest_version: e.latest_version.clone(),
        downloads: e.downloads,
        author: e.author.clone(),
        tags: e.tags.clone(),
    }
}

fn copy_plugin(e: &PluginEntry) -> (r: PluginEntry)
    ensures
        same_plugin(r, *e),
{
    PluginEntry {
        id: e.id.clone(),
        name: e.name.clone(),
        description: e.description.clone(),
        plugin_type: e.plugin_type.clone(),
        package_id: copy_text_option(&e.package_id),
        latest_version: e.latest_version.clone(),
        downloads: e.downloads,
        author: e.author.clone(),
        tags: e.tags.clone(),
    }
}

fn field_matches_exec(f: &str, q: &str) -> (r: bool)
    ensures
        r == field_matches(f@, q@),
{
    let lower = lowercase(f);
    text_contains(lower.as_str(), q)
}

fn tags_match_exec(tags: &Vec<String>, q: &str) -> (r: bool)
    ensures
        r == tags_match(tags@, q@),
{
    let mut t: usize = 0;
    while t < tags.len()
        invariant
            t <= tags@.len(),
            forall|j: int| 0 <= j < t ==> !field_matches(#[trigger] tags@[j]@, q@),
        decreases tags@.len() - t,
    {
        if field_matches_exec(tags[t].as_str(), q) {
            return true;
        }
        t = t + 1;
    }
    false
}

fn package_matches_exec(e: &PackageEntry, q: &str) -> (r: bool)
    ensures
        r == package_matches(*e, q@),
{
    field_matches_exec(e.id.as_str(), q) || field_matches_exec(e.name.as_str(), q)
        || field_matches_exec(e.description.as_str(), q) || tags_match_exec(&e.tags, q)
}

fn plugin_matches_exec(e: &PluginEntry, q: &str) -> (r: bool)
    ensures
        r == plugin_matches(*e, q@),
{
    field_matches_exec(e.id.as_str(), q) || field_matches_exec(e.name.as_str(), q)
        || field_matches_exec(e.description.as_str(), q) || tags_match_exec(&e.tags, q)
}

/// Copies of the package entries that match `q`, already lower-cased.
pub fn filter_packages(entries: &Vec<PackageEntry>, q: &str) -> (r: Vec<PackageEntry>)
    ensures
        r@.len() == matching_packages(entries@, q@).len(),
        forall|k: int|
            0 <= k < r@.len() ==> same_package(#[trigger] r@[k], matching_packages(entries@, q@)[k]),
{
    let mut out: Vec<PackageEntry> = Vec::new();
    let mut i: usize = 0;
    while i < entries.len()
        invariant
            i <= entries@.len(),
            out@.len() == matching_packages(entries@.subrange(0, i as int), q@).len(),
            forall|k: int|
                0 <= k < out@.len() ==> same_package(
                    #[trigger] out@[k],
                    matching_packages(entries@.subrange(0, i as int), q@)[k],
                ),
        decreases entries@.len() - i,
    {
        proof {
            lemma_matching_packages_step(entries@, q@, i as int);
        }
        if package_matches_exec(&entries[i], q) {
            let c = copy_package(&entries[i]);
            out.push(c);
        }
        i = i + 1;
    }
    assert(entries@.subrange(0, entries@.len() as int) =~= entries@);
    out
}

/// Copies of the plugin entries that match `q`, already lower-cased.
pub fn filter_plugins(entries: &Vec<PluginEntry>, q: &str) -> (r: Vec<PluginEntry>)
    ensures
        r@.len() == matching_plugins(entries@, q@).len(),
        forall|k: int|
            0 <= k < r@.len() ==> same_plugin(#[trigger] r@[k], matching_plugins(entries@, q@)[k]),
{
    let mut out: Vec<PluginEntry> = Vec::new();
    let mut i: usize = 0;
    while i < entries.len()
        invariant
            i <= entries@.len(),
            out@.len() == matching_plugins(entries@.subrange(0, i as int), q@).len(),
            forall|k: int|
                0 <= k < out@.len() ==> same_plugin(
                    #[trigger] out@[k],
                    matching_plugins(entries@.subrange(0, i as int), q@)[k],
                ),
        decreases entries@.len() - i,
    {
        proof {
            lemma_matching_plugins_step(entries@, q@, i as int);
        }
        if plugin_matches_exec(&entries[i], q) {
            let c = copy_plugin(&entries[i]);
            out.push(c);
        }
        i = i + 1;
    }
    assert(entries@.subrange(0, entries@.len() as int) =~= entries@);
    out
}

fn is_word(s: &String, w: &str) -> (r: bool)
    ensures
        r == (s@ == w@),
{
    *s == String::from_str(w)
}

impl RegistryIndex {
    /// The entries that match a search: of the kinds the query asks for,
    /// those whose id, name, description or a tag holds the query text,
    /// compared in lower case.
    pub fn search(&self, query: &SearchQuery) -> (r: SearchResults)
        ensures
            wants_packages(query.kind) ==> {
                &&& r.packages@.len() == matching_packages(self.packages@, lower_of(query.q@)).len()
                &&& forall|k: int|
                    0 <= k < r.packages@.len() ==> same_package(
                        #[trigger] r.packages@[k],
                        matching_packages(self.packages@, lower_of(query.q@))[k],
                    )
            },
            !wants_packages(query.kind) ==> r.packages@.len() == 0,
            wants_plugins(query.kind) ==> {
                &&& r.plugins@.len() == matching_plugins(self.plugins@, lower_of(query.q@)).len()
                &&& forall|k: int|
                    0 <= k < r.plugins@.len() ==> same_plugin(
                        #[trigger] r.plugins@[k],
                        matching_plugins(self.plugins@, lower_of(query.q@))[k],
                    )
            },
            !wants_plugins(query.kind) ==> r.plugins@.len() == 0,
    {
        let q = lowercase(query.q.as_str());
        let (packages_wanted, plugins_wanted) = match &query.kind {
            None => (true, true),
            Some(k) => {
                let all = is_word(k, "all");
                (all || is_word(k, "package"), all || is_word(k, "plugin"))
            },
        };
        let packages = if packages_wanted {
            filter_packages(&self.packages, q.as_str())
        } else {
            Vec::new()
        };
        let plugins = if plugins_wanted {
            filter_plugins(&self.plugins, q.as_str())
        } else {
            Vec::new()
        };
        SearchResults { packages, plugins }
    }
}

} // verus!
