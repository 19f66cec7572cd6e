//! The index document: which entities exist, their display fields, their
//! latest version and their download counts, and how publishing and
//! downloading change it.

use crate::model::{EntityKind, PackageEntry, PluginEntry, RegistryIndex};
use crate::version::{
    comparable, is_release, lemma_comparable_order, semver_greater, semver_parse, version_order,
};
use core::cmp::Ordering;
use vstd::prelude::*;

verus! {

/// Schema version of a freshly created index.
pub const INDEX_SCHEMA_VERSION: u32 = 1;

/// The latest version after `candidate` is published over `current`: the
/// candidate when it takes precedence, `current` otherwise.
pub open spec fn next_latest(current: Seq<char>, candidate: Seq<char>) -> Seq<char> {
    if version_order(candidate, current) == Ordering::Greater {
        candidate
    } else {
        current
    }
}

pub open spec fn has_package(entries: Seq<PackageEntry>, id: Seq<char>) -> bool {
    exists|i: int| 0 <= i < entries.len() && entries[i].id@ == id
}

pub open spec fn first_package_at(entries: Seq<PackageEntry>, id: Seq<char>, i: int) -> bool {
    &&& 0 <= i < entries.len()
    &&& entries[i].id@ == id
    &&& forall|j: int| 0 <= j < i ==> entries[j].id@ != id
}

pub open spec fn has_plugin(entries: Seq<PluginEntry>, id: Seq<char>) -> bool {
    exists|i: int| 0 <= i < entries.len() && entries[i].id@ == id
}

pub open spec fn first_plugin_at(entries: Seq<PluginEntry>, id: Seq<char>, i: int) -> bool {
    &&& 0 <= i < entries.len()
    &&& entries[i].id@ == id
    &&& forall|j: int| 0 <= j < i ==> entries[j].id@ != id
}

/// `n` is package entry `o` after a publish of `version` with these display
/// fields: display fields overwritten, latest version advanced only when
/// `version` takes precedence, counters kept.
pub open spec fn package_refreshed(
    o: PackageEntry,
    n: PackageEntry,
    name: Seq<char>,
    description: Seq<char>,
    author: Seq<char>,
    tags: Vec<String>,
    version: Seq<char>,
) -> bool {
    &&& n.id == o.id
    &&& n.name@ == name
    &&& n.description@ == description
    &&& n.author@ == author
    &&& n.tags == tags
    &&& n.latest_version@ == next_latest(o.latest_version@, version)
    &&& n.downloads == o.downloads
    &&& n.plugin_count == o.plugin_count
    &&& n.plugin_ids == o.plugin_ids
}

/// `n` is the entry created by the first publish of package `id`.
pub open spec fn package_created(
    n: PackageEntry,
    id: Seq<char>,
    name: Seq<char>,
    description: Seq<char>,
    author: Seq<char>,
    tags: Vec<String>,
    version: Seq<char>,
) -> bool {
    &&& n.id@ == id
    &&& n.name@ == name
    &&& n.description@ == description
    &&& n.author@ == author
    &&& n.tags == tags
    &&& n.latest_version@ == version
    &&& n.downloads == 0
    &&& n.plugin_count == 0
    &&& n.plugin_ids@.len() == 0
}

/// `n` is plugin entry `o` after a publish of `version` with these display
/// fields.
pub open spec fn plugin_refreshed(
    o: PluginEntry,
    n: PluginEntry,
    name: Seq<char>,
    description: Seq<char>,
    plugin_type: Seq<char>,
    author: Seq<char>,
    tags: Vec<String>,
    version: Seq<char>,
) -> bool {
    &&& n.id == o.id
    &&& n.name@ == name
    &&& n.description@ == description
    &&& n.plugin_type@ == plugin_type
    &&& n.author@ == author
    &&& n.tags == tags
    &&& n.latest_version@ == next_latest(o.latest_version@, version)
    &&& n.downloads == o.downloads
    &&& n.package_id == o.package_id
}

/// `n` is the entry created by the first publish of plugin `id`.
pub open spec fn plugin_created(
    n: PluginEntry,
    id: Seq<char>,
    name: Seq<char>,
    description: Seq<char>,
    plugin_type: Seq<char>,
    author: Seq<char>,
    tags: Vec<String>,
    version: Seq<char>,
) -> bool {
    &&& n.id@ == id
    &&& n.name@ == name
    &&& n.description@ == description
    &&& n.plugin_type@ == plugin_type
    &&& n.author@ == author
    &&& n.tags == tags
    &&& n.latest_version@ == version
    &&& n.downloads == 0
    &&& n.package_id is None
}

/// `after` is `before` with the entry at `i` replaced by some entry.
pub open spec fn same_but_at<T>(before: Seq<T>, after: Seq<T>, i: int) -> bool {
    &&& after.len() == before.len()
    &&& forall|j: int| 0 <= j < before.len() && j != i ==> after[j] == before[j]
}

/// `after` is `before` with one entry appended.
pub open spec fn appended<T>(before: Seq<T>, after: Seq<T>) -> bool {
    &&& after.len() == before.len() + 1
    &&& forall|j: int| 0 <= j < before.len() ==> after[j] == before[j]
}

/// Puts the display fields of a publish into a package entry, and advances
/// its latest version when `version` takes precedence.
fn refresh_package(
    e: &mut PackageEntry,
    name: &str,
    description: &str,
    version: &str,
    author: &str,
    tags: Vec<String>,
)
    ensures
        package_refreshed(*old(e), *final(e), name@, description@, author@, tags, version@),
{
    if semver_greater(version, e.latest_version.as_str()) {
        e.latest_version = String::from_str(version);
    }
    e.name = String::from_str(name);
    e.description = String::from_str(description);
    e.author = String::from_str(author);
    e.tags = tags;
}

/// Puts the display fields of a publish into a plugin entry, and advances
/// its latest version when `version` takes precedence.
fn refresh_plugin(
    e: &mut PluginEntry,
    name: &str,
    description: &str,
    plugin_type: &str,
    version: &str,
    author: &str,
    tags: Vec<String>,
)
    ensures
        plugin_refreshed(
            *old(e),
            *final(e),
            name@,
            description@,
            plugin_type@,
            author@,
            tags,
            version@,
        ),
{
    if semver_greater(version, e.latest_version.as_str()) {
        e.latest_version = String::from_str(version);
    }
    e.name = String::from_str(name);
    e.description = String::from_str(description);
    e.plugin_type = String::from_str(plugin_type);
    e.author = String::from_str(author);
    e.tags = tags;
}

impl RegistryIndex {
    /// An index with no entries.
    pub fn empty() -> (r: Self)
        ensures
            r.version == INDEX_SCHEMA_VERSION,
            r.updated_at == 0,
            r.packages@.len() == 0,
            r.plugins@.len() == 0,
    {
        RegistryIndex {
            version: INDEX_SCHEMA_VERSION,
            updated_at: 0,
            packages: Vec::new(),
            plugins: Vec::new(),
        }
    }

    /// Position of the entry of package `id`, the first one if several.
    pub fn package_position(&self, id: &str) -> (r: Option<usize>)
        ensures
            match r {
                Some(i) => first_package_at(self.packages@, id@, i as int),
                None => !has_package(self.packages@, id@),
            },
    {
        let key = String::from_str(id);
        let mut i: usize = 0;
        while i < self.packages.len()
            invariant
                key@ == id@,
                i <= self.packages@.len(),
                forall|j: int| 0 <= j < i ==> self.packages@[j].id@ != id@,
            decreases self.packages@.len() - i,
        {
            if self.packages[i].id == key {
                return Some(i);
            }
            i = i + 1;
        }
        None
    }

    /// Position of the entry of plugin `id`, the first one if several.
    pub fn plugin_position(&self, id: &str) -> (r: Option<usize>)
        ensures
            match r {
                Some(i) => first_plugin_at(self.plugins@, id@, i as int),
                None => !has_plugin(self.plugins@, id@),
            },
    {
        let key = String::from_str(id);
        let mut i: usize = 0;
        while i < self.plugins.len()
            invariant
                key@ == id@,
                i <= self.plugins@.len(),
                forall|j: int| 0 <= j < i ==> self.plugins@[j].id@ != id@,
            decreases self.plugins@.len() - i,
        {
            if self.plugins[i].id == key {
                return Some(i);
            }
            i = i + 1;
        }
        None
    }

    /// Records a publish of package `id` at `version`: a known entry gets
    /// the new display fields and, when `version` takes precedence over its
    /// latest version, that version; an unknown id gets a new entry with
    /// `version` as latest and no downloads. The index is stamped `now`.
    pub fn update_package_index(
        &mut self,
        id: &str,
        name: &str,
        description: &str,
        version: &str,
        author: &str,
        tags: Vec<String>,
        now: u64,
    )
        ensures
            has_package(old(self).packages@, id@) ==> exists|i: int|
                #![trigger final(self).packages@[i]]
                first_package_at(old(self).packages@, id@, i) && same_but_at(
                    old(self).packages@,
                    final(self).packages@,
                    i,
                ) && package_refreshed(
                    old(self).packages@[i],
                    final(self).packages@[i],
                    name@,
                    description@,
                    author@,
                    tags,
                    version@,
                ),
            !has_package(old(self).packages@, id@) ==> appended(
                old(self).packages@,
                final(self).packages@,
            ) && package_created(
                final(self).packages@.last(),
                id@,
                name@,
                description@,
                author@,
                tags,
                version@,
            ),
            final(self).plugins == old(self).plugins,
            final(self).version == old(self).version,
            final(self).updated_at == now,
    {
        let ghost start = self.packages@;
        let pos = self.package_position(id);
        match pos {
            Some(i) => {
                refresh_package(&mut self.packages[i], name, description, version, author, tags);
            },
            None => {
                self.packages.push(
                    PackageEntry {
                        id: String::from_str(id),
                        name: String::from_str(name),
                        description: String::from_str(description),
                        plugin_count: 0,
                        plugin_ids: Vec::new(),
                        latest_version: String::from_str(version),
                        downloads: 0,
                        author: String::from_str(author),
                        tags,
                    },
                );
            },
        }
        self.updated_at = now;
        proof {
            if let Some(i) = pos {
                let k = i as int;
                assert(first_package_at(start, id@, k));
                assert(same_but_at(start, self.packages@, k));
                assert(package_refreshed(start[k], self.packages@[k], name@, description@, author@, tags, version@));
            }
        }
    }

    /// Records a publish of plugin `id` at `version`: a known entry gets the
    /// new display fields and, when `version` takes precedence over its
    /// latest version, that version; an unknown id gets a new entry with
    /// `version` as latest and no downloads. The index is stamped `now`.
    pub fn update_plugin_index(
        &mut self,
        id: &str,
        name: &str,
        description: &str,
        plugin_type: &str,
        version: &str,
        author: &str,
        tags: Vec<String>,
        now: u64,
    )
        ensures
            has_plugin(old(self).plugins@, id@) ==> exists|i: int|
                #![trigger final(self).plugins@[i]]
                first_plugin_at(old(self).plugins@, id@, i) && same_but_at(
                    old(self).plugins@,
                    final(self).plugins@,
                    i,
                ) && plugin_refreshed(
                    old(self).plugins@[i],
                    final(self).plugins@[i],
                    name@,
                    description@,
                    plugin_type@,
                    author@,
                    tags,
                    version@,
                ),
            !has_plugin(old(self).plugins@, id@) ==> appended(
                old(self).plugins@,
                final(self).plugins@,
            ) && plugin_created(
                final(self).plugins@.last(),
                id@,
                name@,
                description@,
                plugin_type@,
                author@,
                tags,
                version@,
            ),
            final(self).packages == old(self).packages,
            final(self).version == old(self).version,
            final(self).updated_at == now,
    {
        match self.plugin_position(id) {
            Some(i) => {
                refresh_plugin(
                    &mut self.plugins[i],
                    name,
                    description,
                    plugin_type,
                    version,
                    author,
                    tags,
                );
            },
            None => {
                self.plugins.push(
                    PluginEntry {
                        id: String::from_str(id),
                        name: String::from_str(name),
                        description: String::from_str(description),
                        plugin_type: String::from_str(plugin_type),
                        package_id: None,
                        latest_version: String::from_str(version),
                        downloads: 0,
                        author: String::from_str(author),
                        tags,
                    },
                );
            },
        }
        self.updated_at = now;
    }

    /// Counts one download of entity `id` of the given kind. An unknown id
    /// changes nothing; a counter at its maximum stays there.
    pub fn increment_downloads(&mut self, kind: EntityKind, id: &str)
        ensures
            final(self).version == old(self).version,
            final(self).updated_at == old(self).updated_at,
            kind == EntityKind::Package ==> {
                &&& final(self).plugins == old(self).plugins
                &&& match old(self).package_position_spec(id@) {
                    Some(i) => {
                        &&& same_but_at(old(self).packages@, final(self).packages@, i)
                        &&& final(self).packages@[i] == (PackageEntry {
                            downloads: counted(old(self).packages@[i].downloads),
                            ..old(self).packages@[i]
                        })
                    },
                    None => final(self).packages == old(self).packages,
                }
            },
            kind == EntityKind::Plugin ==> {
                &&& final(self).packages == old(self).packages
                &&& match old(self).plugin_position_spec(id@) {
                    Some(i) => {
                        &&& same_but_at(old(self).plugins@, final(self).plugins@, i)
                        &&& final(self).plugins@[i] == (PluginEntry {
                            downloads: counted(old(self).plugins@[i].downloads),
                            ..old(self).plugins@[i]
                        })
                    },
                    None => final(self).plugins == old(self).plugins,
                }
            },
    {
        match kind {
            EntityKind::Package => {
                if let Some(i) = self.package_position(id) {
                    let d = self.packages[i].downloads;
                    self.packages[i].downloads = if d < u64::MAX { d + 1 } else { d };
                }
            },
            EntityKind::Plugin => {
                if let Some(i) = self.plugin_position(id) {
                    let d = self.plugins[i].downloads;
                    self.plugins[i].downloads = if d < u64::MAX { d + 1 } else { d };
                }
            },
        }
    }

    /// The latest version of package `id`, when the index knows it.
    pub fn package_latest_version(&self, id: &str) -> (r: Option<String>)
        ensures
            match self.package_position_spec(id@) {
                Some(i) => r matches Some(v) && v@ == self.packages@[i].latest_version@,
                None => r is None,
            },
    {
        match self.package_position(id) {
            Some(i) => Some(self.packages[i].latest_version.clone()),
            None => None,
        }
    }

    /// The latest version of plugin `id`, when the index knows it.
    pub fn plugin_latest_version(&self, id: &str) -> (r: Option<String>)
        ensures
            match self.plugin_position_spec(id@) {
                Some(i) => r matches Some(v) && v@ == self.plugins@[i].latest_version@,
                None => r is None,
            },
    {
        match self.plugin_position(id) {
            Some(i) => Some(self.plugins[i].latest_version.clone()),
            None => None,
        }
    }

    /// Position of the first entry of package `id`, if any.
    pub open spec fn package_position_spec(&self, id: Seq<char>) -> Option<int> {
        if has_package(self.packages@, id) {
            Some(choose|i: int| first_package_at(self.packages@, id, i))
        } else {
            None
        }
    }

    /// Position of the first entry of plugin `id`, if any.
    pub open spec fn plugin_position_spec(&self, id: Seq<char>) -> Option<int> {
        if has_plugin(self.plugins@, id) {
            Some(choose|i: int| first_plugin_at(self.plugins@, id, i))
        } else {
            None
        }
    }
}

/// A download counter after one more download: one more, except at the
/// largest value, where it stays.
pub open spec fn counted(d: u64) -> u64 {
    if d < u64::MAX {
        (d + 1) as u64
    } else {
        d
    }
}

/// What initialisation writes: an empty index when none is stored yet, and
/// nothing when one is, so that a populated index is never reset.
pub fn init_index(stored: bool) -> (r: Option<RegistryIndex>)
    ensures
        stored ==> r is None,
        !stored ==> (r matches Some(x) && x.version == INDEX_SCHEMA_VERSION && x.packages@.len() == 0
            && x.plugins@.len() == 0),
{
    if stored {
        None
    } else {
        Some(RegistryIndex::empty())
    }
}

/// The latest version of an entity after versions `vs` were published in
/// this order, the first one creating its entry.
pub open spec fn latest_after(vs: Seq<Seq<char>>) -> Seq<char>
    decreases vs.len(),
{
    if vs.len() == 0 {
        Seq::empty()
    } else if vs.len() == 1 {
        vs[0]
    } else {
        next_latest(latest_after(vs.drop_last()), vs.last())
    }
}

/// One more publish moves the latest version as `next_latest` says.
pub proof fn lemma_latest_after_push(vs: Seq<Seq<char>>, v: Seq<char>)
    requires
        vs.len() > 0,
    ensures
        latest_after(vs.push(v)) == next_latest(latest_after(vs), v),
{
    assert(vs.push(v).drop_last() =~= vs);
}

/// The versions are all releases, or none of them is a semantic version.
pub open spec fn uniform_versions(vs: Seq<Seq<char>>) -> bool {
    (forall|i: int| 0 <= i < vs.len() ==> is_release(#[trigger] vs[i])) || (forall|i: int|
        0 <= i < vs.len() ==> (#[trigger] semver_parse(vs[i])) is None)
}

/// After versions are published one after another, the latest version is
/// one of them and none of them takes precedence over it, where the
/// versions are all releases or all fall back to byte order.
pub proof fn lemma_latest_is_greatest(vs: Seq<Seq<char>>)
    requires
        vs.len() > 0,
        uniform_versions(vs),
    ensures
        vs.contains(latest_after(vs)),
        forall|i: int|
            0 <= i < vs.len() ==> version_order(latest_after(vs), #[trigger] vs[i])
                != Ordering::Less,
    decreases vs.len(),
{
    assert forall|a: int, b: int, c: int|
        0 <= a < vs.len() && 0 <= b < vs.len() && 0 <= c < vs.len() implies #[trigger] comparable(
        vs[a],
        vs[b],
        vs[c],
    ) by {
        if forall|i: int| 0 <= i < vs.len() ==> is_release(#[trigger] vs[i]) {
            assert(is_release(vs[a]) && is_release(vs[b]) && is_release(vs[c]));
        } else {
            assert(semver_parse(vs[a]) is None && semver_parse(vs[b]) is None && semver_parse(vs[c]) is None);
        }
    }
    if vs.len() == 1 {
        assert(comparable(vs[0], vs[0], vs[0]));
        lemma_comparable_order(vs[0], vs[0], vs[0]);
        assert(vs[0] == vs[0]);
    } else {
        let pre = vs.drop_last();
        let n = vs.len() - 1;
        let v = vs.last();
        assert(uniform_versions(pre)) by {
            if forall|i: int| 0 <= i < vs.len() ==> is_release(#[trigger] vs[i]) {
                assert forall|i: int| 0 <= i < pre.len() implies is_release(#[trigger] pre[i]) by {
                    assert(pre[i] == vs[i]);
                }
            } else {
                assert forall|i: int| 0 <= i < pre.len() implies (#[trigger] semver_parse(pre[i])) is None by {
                    assert(pre[i] == vs[i]);
                }
            }
        }
        lemma_latest_is_greatest(pre);
        let l = latest_after(pre);
        assert(pre.contains(l));
        let k = choose|k: int| 0 <= k < pre.len() && pre[k] == l;
        assert(vs[k] == l);
        assert(vs[n] == v);
        assert(comparable(v, l, v));
        lemma_comparable_order(v, l, v);
        assert(comparable(v, v, v));
        lemma_comparable_order(v, v, v);
        if version_order(v, l) == Ordering::Greater {
            assert forall|i: int| 0 <= i < vs.len() implies version_order(
                latest_after(vs),
                #[trigger] vs[i],
            ) != Ordering::Less by {
                if i < n {
                    assert(pre[i] == vs[i]);
                    assert(comparable(vs[n], vs[k], vs[i]));
                    lemma_comparable_order(v, l, vs[i]);
                }
            }
        } else {
            assert forall|i: int| 0 <= i < vs.len() implies version_order(
                latest_after(vs),
                #[trigger] vs[i],
            ) != Ordering::Less by {
                if i < n {
                    assert(pre[i] == vs[i]);
                }
            }
        }
    }
}

} // verus!
