use plugin_registry::model::{EntityKind, RegistryIndex, SearchQuery};

fn sample() -> RegistryIndex {
    let mut index = RegistryIndex::empty();
    index.update_package_index("foo", "Foo Tools", "Handy tools", "1.0.0", "a", vec!["CLI".to_string()], 1);
    index.update_package_index("bar", "Bar", "Another", "1.0.0", "a", vec![], 1);
    index.update_plugin_index("adi.tasks", "Tasks", "Task management", "core", "1.0.0", "ADI", vec![], 1);
    index.update_plugin_index("adi.notes", "Notes", "Notebook", "core", "1.0.0", "ADI", vec!["tools".to_string()], 1);
    index.increment_downloads(EntityKind::Package, "foo");
    index
}

fn query(q: &str, kind: Option<&str>) -> SearchQuery {
    SearchQuery { q: q.to_string(), kind: kind.map(|k| k.to_string()) }
}

#[test]
fn search_matches_fields_case_insensitively() {
    let r = sample().search(&query("TOOLS", None));
    assert_eq!(r.packages.len(), 1);
    assert_eq!(r.packages[0].id, "foo");
    assert_eq!(r.packages[0].downloads, 1);
    assert_eq!(r.plugins.len(), 1);
    assert_eq!(r.plugins[0].id, "adi.notes");
}

#[test]
fn search_matches_tags_and_ids() {
    let r = sample().search(&query("cli", Some("all")));
    assert_eq!(r.packages.len(), 1);
    assert!(r.plugins.is_empty());
    let r = sample().search(&query("adi.", Some("plugin")));
    assert!(r.packages.is_empty());
    assert_eq!(r.plugins.len(), 2);
    assert_eq!(r.plugins[0].id, "adi.tasks");
}

#[test]
fn search_kind_filters() {
    let r = sample().search(&query("", Some("package")));
    assert_eq!(r.packages.len(), 2);
    assert!(r.plugins.is_empty());
    let r = sample().search(&query("", Some("other")));
    assert!(r.packages.is_empty());
    assert!(r.plugins.is_empty());
    let r = sample().search(&query("zzz", None));
    assert!(r.packages.is_empty() && r.plugins.is_empty());
}
