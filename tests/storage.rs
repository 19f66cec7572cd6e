use plugin_registry::api::{bad_request, internal_error, not_found, published, require_payload};
use plugin_registry::digest::checksum;
use plugin_registry::index::init_index;
use plugin_registry::layout::{download_url, web_ui_url, RegistryStorage};
use plugin_registry::model::{EntityKind, PackageInfo, PlatformBuild, RegistryIndex};
use plugin_registry::store::{
    make_build, now_unix, publish_package_build, publish_plugin_build, put_build, web_ui_meta,
};

const SHA256_123: &str = "039058c6f2c0cb492c533b0a4d14ef77cc0f78abccced5287d84a1a2011cfb81";
const SHA256_EMPTY: &str = "e3b0c44298fc1c149afbf4c8996fb92427ae41e4649b934ca495991b7852b855";

fn publish(index: &mut RegistryIndex, id: &str, version: &str) {
    index.update_package_index(id, "Foo", "A package", version, "someone", vec![], 100);
}

#[test]
fn checksum_is_lowercase_sha256_hex() {
    assert_eq!(checksum(&[1, 2, 3]), SHA256_123);
    assert_eq!(checksum(&[]), SHA256_EMPTY);
}

#[test]
fn build_records_checksum_size_and_url() {
    let b = make_build(EntityKind::Package, "foo", "1.0.0", "linux-x64", &[1, 2, 3]);
    assert_eq!(b.platform, "linux-x64");
    assert_eq!(b.size_bytes, 3);
    assert_eq!(b.checksum, SHA256_123);
    assert_eq!(b.download_url, "/v1/packages/foo/1.0.0/linux-x64.tar.gz");
    assert!(b.signature.is_none());
    let p = make_build(EntityKind::Plugin, "p", "2.0.0", "darwin-aarch64", b"fake binary");
    assert_eq!(p.download_url, "/v1/plugins/p/2.0.0/darwin-aarch64.tar.gz");
    assert_eq!(p.size_bytes, 11);
}

#[test]
fn publish_scenario_latest_and_checksum() {
    let mut index = RegistryIndex::empty();
    let info = publish_package_build(None, "foo", "1.0.0", "linux-x64", &[1, 2, 3], 42);
    publish(&mut index, "foo", "1.0.0");
    assert_eq!(index.package_latest_version("foo").unwrap(), "1.0.0");
    assert_eq!(info.platforms.len(), 1);
    assert_eq!(info.platforms[0].checksum, SHA256_123);
    assert_eq!(info.published_at, 42);

    publish(&mut index, "foo", "0.9.0");
    assert_eq!(index.package_latest_version("foo").unwrap(), "1.0.0");
    publish(&mut index, "foo", "2.0.0");
    assert_eq!(index.package_latest_version("foo").unwrap(), "2.0.0");
    assert_eq!(index.packages.len(), 1);
}

#[test]
fn latest_is_greatest_of_published() {
    let mut index = RegistryIndex::empty();
    for v in ["1.2.3", "1.10.0", "1.9.9", "0.1.0", "1.10.0-rc.1"] {
        publish(&mut index, "bar", v);
    }
    assert_eq!(index.package_latest_version("bar").unwrap(), "1.10.0");
    assert_eq!(index.package_latest_version("missing"), None);
}

#[test]
fn update_overwrites_display_fields_and_keeps_downloads() {
    let mut index = RegistryIndex::empty();
    index.update_package_index("foo", "Old", "old", "1.0.0", "a", vec!["x".to_string()], 1);
    assert_eq!(index.packages[0].downloads, 0);
    index.increment_downloads(EntityKind::Package, "foo");
    index.update_package_index("foo", "New", "new", "0.5.0", "b", vec![], 7);
    let e = &index.packages[0];
    assert_eq!(e.name, "New");
    assert_eq!(e.description, "new");
    assert_eq!(e.author, "b");
    assert!(e.tags.is_empty());
    assert_eq!(e.latest_version, "1.0.0");
    assert_eq!(e.downloads, 1);
    assert_eq!(index.updated_at, 7);
}

#[test]
fn plugin_index_update() {
    let mut index = RegistryIndex::empty();
    index.update_plugin_index("adi.tasks", "Tasks", "Task management", "core", "1.0.0", "ADI Team", vec![], 5);
    index.update_plugin_index("adi.tasks", "Tasks", "Tasks", "extension", "1.1.0", "ADI Team", vec![], 6);
    assert_eq!(index.plugins.len(), 1);
    assert_eq!(index.plugins[0].plugin_type, "extension");
    assert_eq!(index.plugin_latest_version("adi.tasks").unwrap(), "1.1.0");
    assert!(index.plugins[0].package_id.is_none());
    assert!(index.packages.is_empty());
}

#[test]
fn republish_replaces_build_in_place() {
    let first = publish_package_build(None, "foo", "1.0.0", "linux-x64", &[1, 2, 3], 1);
    let second = publish_package_build(Some(first), "foo", "1.0.0", "darwin-x64", &[9], 2);
    assert_eq!(second.platforms.len(), 2);
    let third = publish_package_build(Some(second), "foo", "1.0.0", "linux-x64", &[], 3);
    assert_eq!(third.platforms.len(), 2);
    assert_eq!(third.platforms[0].platform, "linux-x64");
    assert_eq!(third.platforms[0].checksum, SHA256_EMPTY);
    assert_eq!(third.platforms[0].size_bytes, 0);
    assert_eq!(third.platforms[1].platform, "darwin-x64");
    assert_eq!(third.published_at, 1);
}

#[test]
fn put_build_appends_new_platform() {
    let mut builds: Vec<PlatformBuild> = Vec::new();
    put_build(&mut builds, make_build(EntityKind::Plugin, "p", "1", "a", &[1]));
    put_build(&mut builds, make_build(EntityKind::Plugin, "p", "1", "b", &[2]));
    put_build(&mut builds, make_build(EntityKind::Plugin, "p", "1", "a", &[3, 4]));
    assert_eq!(builds.len(), 2);
    assert_eq!(builds[0].size_bytes, 2);
    assert_eq!(builds[1].platform, "b");
}

#[test]
fn existing_package_info_is_kept() {
    let stored = PackageInfo {
        id: "foo".to_string(),
        version: "1.0.0".to_string(),
        platforms: vec![],
        published_at: 11,
        changelog: Some("first".to_string()),
    };
    let info = publish_package_build(Some(stored), "foo", "1.0.0", "linux-x64", &[1], 99);
    assert_eq!(info.published_at, 11);
    assert_eq!(info.changelog.as_deref(), Some("first"));
    assert_eq!(info.platforms.len(), 1);
}

#[test]
fn increment_downloads_unknown_id_is_noop() {
    let mut index = RegistryIndex::empty();
    publish(&mut index, "foo", "1.0.0");
    index.increment_downloads(EntityKind::Package, "nope");
    index.increment_downloads(EntityKind::Plugin, "foo");
    assert_eq!(index.packages.len(), 1);
    assert!(index.plugins.is_empty());
    assert_eq!(index.packages[0].downloads, 0);
    index.increment_downloads(EntityKind::Package, "foo");
    index.increment_downloads(EntityKind::Package, "foo");
    assert_eq!(index.packages[0].downloads, 2);
}

#[test]
fn increment_downloads_saturates() {
    let mut index = RegistryIndex::empty();
    publish(&mut index, "foo", "1.0.0");
    index.packages[0].downloads = u64::MAX;
    index.increment_downloads(EntityKind::Package, "foo");
    assert_eq!(index.packages[0].downloads, u64::MAX);
}

#[test]
fn init_does_not_reset_stored_index() {
    assert!(init_index(true).is_none());
    let fresh = init_index(false).unwrap();
    assert!(fresh.packages.is_empty());
    assert!(fresh.plugins.is_empty());
    assert_eq!(fresh.version, 1);
}

#[test]
fn test_plugin_info_includes_web_ui() {
    let js = b"export default class MyPlugin {}";
    let web_ui = web_ui_meta("adi.tasks", "1.0.0", Some(js.len() as u64)).unwrap();
    assert_eq!(web_ui.entry_url, "/v1/plugins/adi.tasks/1.0.0/web.js");
    assert_eq!(web_ui.size_bytes, js.len() as u64);
}

#[test]
fn test_plugin_info_without_web_ui() {
    assert!(web_ui_meta("adi.tasks", "1.0.0", None).is_none());
    let info = publish_plugin_build(None, "adi.tasks", "1.0.0", "darwin-aarch64", b"fake binary", 3);
    assert!(info.web_ui.is_none());
}

#[test]
fn layout_paths() {
    let s = RegistryStorage::new("/data".to_string());
    assert_eq!(s.root(), "/data");
    assert_eq!(
        s.package_artifact_path("foo", "1.0.0", "linux-x64"),
        "/data/packages/foo/1.0.0/linux-x64.tar.gz"
    );
    assert_eq!(
        s.plugin_artifact_path("adi.tasks", "1.0.0", "darwin-aarch64"),
        "/data/plugins/adi.tasks/1.0.0/darwin-aarch64.tar.gz"
    );
    assert_eq!(
        s.get_plugin_web_ui_path("adi.tasks", "1.0.0"),
        "/data/plugins/adi.tasks/1.0.0/web.js"
    );
    assert_eq!(s.index_path(), "/data/index.json");
    assert_eq!(
        s.version_file(EntityKind::Package, "foo", "1.0.0", "info.json"),
        "/data/packages/foo/1.0.0/info.json"
    );
}

#[test]
fn urls() {
    assert_eq!(
        download_url(EntityKind::Plugin, "p", "1.0.0", "linux-x64"),
        "/v1/plugins/p/1.0.0/linux-x64.tar.gz"
    );
    assert_eq!(web_ui_url("p", "1.0.0"), "/v1/plugins/p/1.0.0/web.js");
}

#[test]
fn api_values() {
    let e = not_found("Package not found");
    assert_eq!((e.status, e.code.as_str(), e.message.as_str()), (404, "not_found", "Package not found"));
    assert_eq!(internal_error("boom").status, 500);
    assert_eq!(bad_request("x").code, "bad_request");
    assert!(require_payload(&[1], "No file uploaded").is_ok());
    let err = require_payload(&[], "No file uploaded").unwrap_err();
    assert_eq!(err.status, 400);
    assert_eq!(err.message, "No file uploaded");
    let r = published("adi.tasks", "1.0.0", "web");
    assert_eq!(r.status, "published");
    assert_eq!(r.platform, "web");
}

#[test]
fn clock_reads_after_epoch() {
    assert!(now_unix() > 1_600_000_000);
}

#[test]
fn latest_of_non_semver_versions_is_bytewise_greatest() {
    let mut index = RegistryIndex::empty();
    for v in ["abc", "abd", "ab", "a1b2c3"] {
        publish(&mut index, "hashes", v);
    }
    assert_eq!(index.package_latest_version("hashes").unwrap(), "abd");
}

#[test]
fn plugin_build_records_checksum() {
    let info = publish_plugin_build(None, "p", "1.0.0", "linux-x64", &[1, 2, 3], 8);
    assert_eq!(info.platforms[0].checksum, SHA256_123);
    assert_eq!(info.platforms[0].download_url, "/v1/plugins/p/1.0.0/linux-x64.tar.gz");
    assert_eq!(info.published_at, 8);
}
