use scaffold::config::{join_path, manifest_path};
use scaffold::descriptor::ScaffoldConfig;
use scaffold::error::ScaffoldError;
use scaffold::index::{build_index, ManifestRead, ScanEntry};
use scaffold::resolve::{find_config_by_name, position_by_name, select_config_interactive};

fn config(name: &str, path: &str) -> ScaffoldConfig {
    ScaffoldConfig {
        name: name.to_string(),
        description: None,
        version: None,
        author: None,
        language: None,
        tags: None,
        path: path.to_string(),
    }
}

fn parsed(dir: &str, name: &str) -> ScanEntry {
    ScanEntry { path: dir.to_string(), manifest: ManifestRead::Parsed(config(name, "")) }
}

fn entry(dir: &str, manifest: ManifestRead) -> ScanEntry {
    ScanEntry { path: dir.to_string(), manifest }
}

#[test]
fn join_path_puts_one_slash_between() {
    assert_eq!(join_path("/home/u", "scaffold"), "/home/u/scaffold");
    assert_eq!(join_path("", "x"), "/x");
}

#[test]
fn manifest_path_names_the_manifest_file() {
    assert_eq!(manifest_path("/c/react"), "/c/react/scaffold.json");
}

#[test]
fn duplicate_keeps_every_field() {
    let mut c = config("vue", "/c/vue");
    c.description = Some("Vue app".to_string());
    c.version = Some("1.0.0".to_string());
    c.author = Some("me".to_string());
    c.language = Some("ts".to_string());
    c.tags = Some(vec!["web".to_string(), "spa".to_string()]);
    let d = c.duplicate();
    assert_eq!(d.name, "vue");
    assert_eq!(d.description.as_deref(), Some("Vue app"));
    assert_eq!(d.version.as_deref(), Some("1.0.0"));
    assert_eq!(d.author.as_deref(), Some("me"));
    assert_eq!(d.language.as_deref(), Some("ts"));
    assert_eq!(d.tags, Some(vec!["web".to_string(), "spa".to_string()]));
    assert_eq!(d.path, "/c/vue");
}

#[test]
fn with_path_replaces_only_the_path() {
    let mut c = config("vue", "from-manifest");
    c.description = Some("d".to_string());
    let d = c.with_path("/c/vue".to_string());
    assert_eq!(d.path, "/c/vue");
    assert_eq!(d.name, "vue");
    assert_eq!(d.description.as_deref(), Some("d"));
}

#[test]
fn index_of_empty_cache_is_empty() {
    let r = build_index(&Vec::new());
    assert!(matches!(r, Ok(ref v) if v.is_empty()));
}

#[test]
fn index_has_one_entry_per_manifest() {
    let entries = vec![
        parsed("/c/react", "react"),
        entry("/c/docs", ManifestRead::Missing),
        entry("/c/README.md", ManifestRead::NotADirectory),
        parsed("/c/vue", "vue"),
        entry("/c/empty", ManifestRead::Missing),
    ];
    let catalog = build_index(&entries).unwrap();
    assert_eq!(catalog.len(), 2);
    assert_eq!(catalog[0].name, "react");
    assert_eq!(catalog[0].path, "/c/react");
    assert_eq!(catalog[1].name, "vue");
    assert_eq!(catalog[1].path, "/c/vue");
}

#[test]
fn index_ignores_the_path_a_manifest_gives() {
    let entries = vec![entry("/c/nest", ManifestRead::Parsed(config("nest", "/elsewhere")))];
    let catalog = build_index(&entries).unwrap();
    assert_eq!(catalog[0].path, "/c/nest");
}

#[test]
fn index_keeps_duplicate_names() {
    let entries = vec![parsed("/c/a", "same"), parsed("/c/b", "same")];
    let catalog = build_index(&entries).unwrap();
    assert_eq!(catalog.len(), 2);
    assert_eq!(catalog[1].path, "/c/b");
}

#[test]
fn malformed_manifest_fails_the_whole_index() {
    let entries = vec![
        parsed("/c/react", "react"),
        entry(
            "/c/bad",
            ManifestRead::Malformed {
                file: "/c/bad/scaffold.json".to_string(),
                cause: "missing field `name`".to_string(),
            },
        ),
        parsed("/c/vue", "vue"),
    ];
    let r = build_index(&entries);
    assert_eq!(
        r.unwrap_err(),
        ScaffoldError::ManifestParse {
            path: "/c/bad/scaffold.json".to_string(),
            cause: "missing field `name`".to_string(),
        }
    );
}

#[test]
fn first_failing_entry_decides_the_error() {
    let entries = vec![
        entry(
            "/c/a",
            ManifestRead::Unreadable { file: "/c/a/scaffold.json".to_string(), cause: "denied".to_string() },
        ),
        entry("/c/b", ManifestRead::Malformed { file: "/c/b/scaffold.json".to_string(), cause: "eof".to_string() }),
    ];
    assert_eq!(
        build_index(&entries).unwrap_err(),
        ScaffoldError::Io { path: "/c/a/scaffold.json".to_string(), cause: "denied".to_string() }
    );
}

#[test]
fn find_by_name_takes_the_first_match() {
    let catalog = vec![config("a", "/1"), config("b", "/2"), config("b", "/3")];
    let r = find_config_by_name(&catalog, "b").unwrap();
    assert_eq!(r.name, "b");
    assert_eq!(r.path, "/2");
    assert_eq!(position_by_name(&catalog, "b"), Some(1));
    assert_eq!(position_by_name(&catalog, "a"), Some(0));
}

#[test]
fn find_by_name_reports_an_absent_name() {
    let catalog = vec![config("a", "/1")];
    assert_eq!(
        find_config_by_name(&catalog, "zzz").unwrap_err(),
        ScaffoldError::NotFound { name: "zzz".to_string() }
    );
    assert_eq!(position_by_name(&catalog, "zzz"), None);
}

#[test]
fn find_by_name_in_empty_catalog() {
    assert_eq!(find_config_by_name(&[], "a").unwrap_err(), ScaffoldError::EmptyCatalog);
}

#[test]
fn interactive_selection_returns_that_index() {
    let catalog = vec![config("a", "/1"), config("b", "/2"), config("c", "/3")];
    for i in 0..3 {
        let r = select_config_interactive(&catalog, i).unwrap();
        assert_eq!(r.path, catalog[i].path);
        assert_eq!(r.name, catalog[i].name);
    }
}

#[test]
fn interactive_selection_in_empty_catalog() {
    assert_eq!(select_config_interactive(&[], 0).unwrap_err(), ScaffoldError::EmptyCatalog);
}
