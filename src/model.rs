//! The registry's records: index entries, per-version metadata, platform
//! builds, and the shapes exchanged with the HTTP layer.

use vstd::prelude::*;

verus! {

/// The two kinds of entity the registry stores.
#[derive(Clone, Copy, Debug, PartialEq, Eq, Structural)]
pub enum EntityKind {
    Package,
    Plugin,
}

/// Index entry of a package.
#[derive(Clone, Debug)]
pub struct PackageEntry {
    pub id: String,
    pub name: String,
    pub description: String,
    pub plugin_count: u32,
    pub plugin_ids: Vec<String>,
    pub latest_version: String,
    pub downloads: u64,
    pub author: String,
    pub tags: Vec<String>,
}

/// Index entry of a plugin.
#[derive(Clone, Debug)]
pub struct PluginEntry {
    pub id: String,
    pub name: String,
    pub description: String,
    pub plugin_type: String,
    pub package_id: Option<String>,
    pub latest_version: String,
    pub downloads: u64,
    pub author: String,
    pub tags: Vec<String>,
}

/// One platform's artifact of one version.
#[derive(Clone, Debug)]
pub struct PlatformBuild {
    pub platform: String,
    pub download_url: String,
    pub size_bytes: u64,
    pub checksum: String,
    pub signature: Option<String>,
}

/// Metadata of one package version.
#[derive(Clone, Debug)]
pub struct PackageInfo {
    pub id: String,
    pub version: String,
    pub platforms: Vec<PlatformBuild>,
    pub published_at: u64,
    pub changelog: Option<String>,
}

/// Descriptor of a plugin version's web asset, computed when read.
#[derive(Clone, Debug)]
pub struct WebUiMeta {
    pub entry_url: String,
    pub size_bytes: u64,
}

/// Metadata of one plugin version.
#[derive(Clone, Debug)]
pub struct PluginInfo {
    pub id: String,
    pub version: String,
    pub platforms: Vec<PlatformBuild>,
    pub published_at: u64,
    pub web_ui: Option<WebUiMeta>,
}

/// The single document that lists every entity, its latest version and its
/// download count.
#[derive(Clone, Debug)]
pub struct RegistryIndex {
    pub version: u32,
    pub updated_at: u64,
    pub packages: Vec<PackageEntry>,
    pub plugins: Vec<PluginEntry>,
}

/// Entries that matched a search.
#[derive(Clone, Debug)]
pub struct SearchResults {
    pub packages: Vec<PackageEntry>,
    pub plugins: Vec<PluginEntry>,
}

/// A search request: the text to look for and, optionally, the kind of
/// entity (`package`, `plugin` or `all`).
#[derive(Clone, Debug)]
pub struct SearchQuery {
    pub q: String,
    pub kind: Option<String>,
}

/// Search request as the HTTP layer receives it.
#[derive(Clone, Debug)]
pub struct SearchServiceSearchQuery {
    pub q: String,
    pub kind: Option<String>,
}

/// Reply to a successful publish.
#[derive(Clone, Debug)]
pub struct PublishResponse {
    pub status: String,
    pub id: String,
    pub version: String,
    pub platform: String,
}

/// Display fields sent along with a published artifact.
#[derive(Clone, Debug)]
pub struct PublishParams {
    pub name: String,
    pub description: Option<String>,
    pub plugin_type: Option<String>,
    pub author: Option<String>,
}

/// Display fields sent along with a published package artifact.
#[derive(Clone, Debug)]
pub struct PackagePublishServicePublishQuery {
    pub name: String,
    pub description: Option<String>,
    pub plugin_type: Option<String>,
    pub author: Option<String>,
}

/// Display fields sent along with a published plugin artifact.
#[derive(Clone, Debug)]
pub struct PluginPublishServicePublishQuery {
    pub name: String,
    pub description: Option<String>,
    pub plugin_type: Option<String>,
    pub author: Option<String>,
}

/// An error as the HTTP layer reports it: status code, short code, message.
#[derive(Clone, Debug)]
pub struct ApiError {
    pub status: u16,
    pub code: String,
    pub message: String,
}

} // verus!
