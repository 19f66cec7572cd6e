//! Where the registry keeps its files, and the URLs it hands out:
//!
//! ```text
//! root/index.json
//! root/packages/{id}/{version}/info.json, {platform}.tar.gz
//! root/plugins/{id}/{version}/info.json, {platform}.tar.gz, web.js, web_meta.json
//! ```

use crate::model::EntityKind;
use vstd::prelude::*;

verus! {

/// Name of the directory, and URL segment, of a kind of entity.
pub open spec fn kind_dir(kind: EntityKind) -> Seq<char> {
    match kind {
        EntityKind::Package => "packages"@,
        EntityKind::Plugin => "plugins"@,
    }
}

impl EntityKind {
    /// Name of the directory, and URL segment, of this kind.
    pub fn dir_name(&self) -> (r: &'static str)
        ensures
            r@ == kind_dir(*self),
    {
        match self {
            EntityKind::Package => "packages",
            EntityKind::Plugin => "plugins",
        }
    }
}

pub open spec fn entity_dir_of(root: Seq<char>, kind: EntityKind, id: Seq<char>) -> Seq<char> {
    root + "/"@ + kind_dir(kind) + "/"@ + id
}

pub open spec fn version_dir_of(
    root: Seq<char>,
    kind: EntityKind,
    id: Seq<char>,
    version: Seq<char>,
) -> Seq<char> {
    entity_dir_of(root, kind, id) + "/"@ + version
}

/// Path of the blob of one platform of one version.
pub open spec fn artifact_path_of(
    root: Seq<char>,
    kind: EntityKind,
    id: Seq<char>,
    version: Seq<char>,
    platform: Seq<char>,
) -> Seq<char> {
    version_dir_of(root, kind, id, version) + "/"@ + platform + ".tar.gz"@
}

/// Path of a file of a version directory.
pub open spec fn version_file_of(
    root: Seq<char>,
    kind: EntityKind,
    id: Seq<char>,
    version: Seq<char>,
    file: Seq<char>,
) -> Seq<char> {
    version_dir_of(root, kind, id, version) + "/"@ + file
}

/// URL at which a platform build is downloaded.
pub open spec fn download_url_of(
    kind: EntityKind,
    id: Seq<char>,
    version: Seq<char>,
    platform: Seq<char>,
) -> Seq<char> {
    "/v1/"@ + kind_dir(kind) + "/"@ + id + "/"@ + version + "/"@ + platform + ".tar.gz"@
}

/// URL at which a plugin version's web asset is served.
pub open spec fn web_ui_url_of(id: Seq<char>, version: Seq<char>) -> Seq<char> {
    "/v1/plugins/"@ + id + "/"@ + version + "/web.js"@
}

/// File-based registry storage, rooted at a directory.
pub struct RegistryStorage {
    root: String,
}

impl View for RegistryStorage {
    type V = Seq<char>;

    /// The root directory.
    closed spec fn view(&self) -> Seq<char> {
        self.root@
    }
}

/// Appends `b` to `a`.
fn extend(a: &mut String, b: &str)
    ensures
        final(a)@ == old(a)@ + b@,
{
    a.append(b);
}

impl RegistryStorage {
    pub fn new(root: String) -> (r: Self)
        ensures
            r@ == root@,
    {
        RegistryStorage { root }
    }

    pub fn root(&self) -> (r: &str)
        ensures
            r@ == self@,
    {
        self.root.as_str()
    }

    fn entity_dir(&self, kind: EntityKind, id: &str) -> (r: String)
        ensures
            r@ == entity_dir_of(self@, kind, id@),
    {
        let mut p = self.root.clone();
        extend(&mut p, "/");
        extend(&mut p, kind.dir_name());
        extend(&mut p, "/");
        extend(&mut p, id);
        p
    }

    /// Directory of one version of an entity.
    pub fn version_dir(&self, kind: EntityKind, id: &str, version: &str) -> (r: String)
        ensures
            r@ == version_dir_of(self@, kind, id@, version@),
    {
        match kind {
            EntityKind::Package => self.package_version_dir(id, version),
            EntityKind::Plugin => self.plugin_version_dir(id, version),
        }
    }

    /// Path of a named file inside the directory of one version.
    pub fn version_file(&self, kind: EntityKind, id: &str, version: &str, file: &str) -> (r: String)
        ensures
            r@ == version_file_of(self@, kind, id@, version@, file@),
    {
        let mut p = self.version_dir(kind, id, version);
        extend(&mut p, "/");
        extend(&mut p, file);
        p
    }

    /// Path of the blob of one platform of one version.
    pub fn artifact_path(&self, kind: EntityKind, id: &str, version: &str, platform: &str) -> (r:
        String)
        ensures
            r@ == artifact_path_of(self@, kind, id@, version@, platform@),
    {
        let mut p = self.version_dir(kind, id, version);
        extend(&mut p, "/");
        extend(&mut p, platform);
        extend(&mut p, ".tar.gz");
        p
    }

    /// Path of the index document.
    pub fn index_path(&self) -> (r: String)
        ensures
            r@ == self@ + "/index.json"@,
    {
        let mut p = self.root.clone();
        extend(&mut p, "/index.json");
        p
    }

    fn package_dir(&self, id: &str) -> (r: String)
        ensures
            r@ == entity_dir_of(self@, EntityKind::Package, id@),
    {
        self.entity_dir(EntityKind::Package, id)
    }

    fn package_version_dir(&self, id: &str, version: &str) -> (r: String)
        ensures
            r@ == version_dir_of(self@, EntityKind::Package, id@, version@),
    {
        let mut p = self.package_dir(id);
        extend(&mut p, "/");
        extend(&mut p, version);
        p
    }

    /// Path of the blob of one platform of one package version.
    pub fn package_artifact_path(&self, id: &str, version: &str, platform: &str) -> (r: String)
        ensures
            r@ == artifact_path_of(self@, EntityKind::Package, id@, version@, platform@),
    {
        self.artifact_path(EntityKind::Package, id, version, platform)
    }

    fn plugin_dir(&self, id: &str) -> (r: String)
        ensures
            r@ == entity_dir_of(self@, EntityKind::Plugin, id@),
    {
        self.entity_dir(EntityKind::Plugin, id)
    }

    fn plugin_version_dir(&self, id: &str, version: &str) -> (r: String)
        ensures
            r@ == version_dir_of(self@, EntityKind::Plugin, id@, version@),
    {
        let mut p = self.plugin_dir(id);
        extend(&mut p, "/");
        extend(&mut p, version);
        p
    }

    /// Path of the blob of one platform of one plugin version.
    pub fn plugin_artifact_path(&self, id: &str, version: &str, platform: &str) -> (r: String)
        ensures
            r@ == artifact_path_of(self@, EntityKind::Plugin, id@, version@, platform@),
    {
        self.artifact_path(EntityKind::Plugin, id, version, platform)
    }

    /// Path of the web asset of one plugin version.
    pub fn get_plugin_web_ui_path(&self, id: &str, version: &str) -> (r: String)
        ensures
            r@ == version_file_of(self@, EntityKind::Plugin, id@, version@, "web.js"@),
    {
        self.version_file(EntityKind::Plugin, id, version, "web.js")
    }
}

/// URL at which a platform build is downloaded.
pub fn download_url(kind: EntityKind, id: &str, version: &str, platform: &str) -> (r: String)
    ensures
        r@ == download_url_of(kind, id@, version@, platform@),
{
    let mut u = String::from_str("/v1/");
    extend(&mut u, kind.dir_name());
    extend(&mut u, "/");
    extend(&mut u, id);
    extend(&mut u, "/");
    extend(&mut u, version);
    extend(&mut u, "/");
    extend(&mut u, platform);
    extend(&mut u, ".tar.gz");
    u
}

/// URL at which a plugin version's web asset is served.
pub fn web_ui_url(id: &str, version: &str) -> (r: String)
    ensures
        r@ == web_ui_url_of(id@, version@),
{
    let mut u = String::from_str("/v1/plugins/");
    extend(&mut u, id);
    extend(&mut u, "/");
    extend(&mut u, version);
    extend(&mut u, "/web.js");
    u
}

} // verus!
