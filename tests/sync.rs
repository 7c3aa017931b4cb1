use scaffold::descriptor::ScaffoldConfig;
use scaffold::error::ScaffoldError;
use scaffold::index::{ManifestRead, ScanEntry};
use scaffold::resolve::find_config_by_name;
use scaffold::update::{SyncAction, SyncPhase, SyncSession, UpdateHandler};

fn manifest(name: &str) -> ManifestRead {
    ManifestRead::Parsed(ScaffoldConfig {
        name: name.to_string(),
        description: Some(format!("{} template", name)),
        version: None,
        author: None,
        language: None,
        tags: None,
        path: String::new(),
    })
}

/// Runs a sync against a scripted world: `fail` names the kind of operation
/// that fails (if any), and `listing` is what the scan reports.
fn run(
    fail: Option<&str>,
    listing: Result<Vec<ScanEntry>, String>,
) -> (Vec<SyncAction>, Result<usize, ScaffoldError>, SyncSession) {
    let (mut session, mut action) = UpdateHandler::new("/h".to_string()).start_sync();
    let mut seen = Vec::new();
    let mut listing = Some(listing);
    loop {
        let kind = match &action {
            SyncAction::EnsureDir { .. } => "ensure",
            SyncAction::RemoveDir { .. } => "remove",
            SyncAction::Fetch { .. } => "fetch",
            SyncAction::Rename { .. } => "rename",
            SyncAction::Scan { .. } => "scan",
            SyncAction::Persist { .. } => "persist",
            SyncAction::Finish { outcome } => {
                let outcome = outcome.clone();
                seen.push(action);
                return (seen, outcome, session);
            }
        };
        seen.push(action);
        action = if kind == "scan" {
            session.scanned(listing.take().unwrap())
        } else if fail == Some(kind) {
            session.advance(Err(format!("{} failed", kind)))
        } else {
            session.advance(Ok(()))
        };
    }
}

#[test]
fn handler_paths_live_under_home() {
    let h = UpdateHandler::new("/home/u".to_string());
    assert_eq!(h.scaffold_dir, "/home/u/scaffold");
    assert_eq!(h.codes_dir, "/home/u/scaffold/codes");
    assert_eq!(h.temp_dir, "/home/u/scaffold/codes-temp");
    assert_eq!(h.config_dir, "/home/u/.scaffold");
    assert_eq!(h.config_file, "/home/u/.scaffold/config.json");
    assert_eq!(h.repo.url, "https://github.com/casemcx/code-template");
}

#[test]
fn sync_fetches_swaps_scans_and_persists() {
    let listing = vec![
        ScanEntry { path: "/h/scaffold/codes/a".to_string(), manifest: manifest("A") },
        ScanEntry { path: "/h/scaffold/codes/b".to_string(), manifest: manifest("B") },
    ];
    let (actions, outcome, session) = run(None, Ok(listing));
    assert_eq!(
        actions,
        vec![
            SyncAction::EnsureDir { path: "/h/scaffold".to_string() },
            SyncAction::RemoveDir { path: "/h/scaffold/codes-temp".to_string() },
            SyncAction::Fetch {
                url: "https://github.com/casemcx/code-template".to_string(),
                dest: "/h/scaffold/codes-temp".to_string(),
            },
            SyncAction::RemoveDir { path: "/h/scaffold/codes".to_string() },
            SyncAction::Rename {
                from: "/h/scaffold/codes-temp".to_string(),
                to: "/h/scaffold/codes".to_string(),
            },
            SyncAction::Scan { path: "/h/scaffold/codes".to_string() },
            SyncAction::Persist {
                dir: "/h/.scaffold".to_string(),
                file: "/h/.scaffold/config.json".to_string(),
            },
            SyncAction::Finish { outcome: Ok(2) },
        ]
    );
    assert_eq!(outcome, Ok(2));
    assert_eq!(session.phase, SyncPhase::Finished);
    assert_eq!(session.catalog.len(), 2);
    let b = find_config_by_name(&session.catalog, "B").unwrap();
    assert_eq!(b.name, "B");
    assert_eq!(b.path, "/h/scaffold/codes/b");
}

#[test]
fn empty_scan_writes_no_catalog() {
    let listing = vec![
        ScanEntry { path: "/h/scaffold/codes/docs".to_string(), manifest: ManifestRead::Missing },
        ScanEntry { path: "/h/scaffold/codes/LICENSE".to_string(), manifest: ManifestRead::NotADirectory },
    ];
    let (actions, outcome, session) = run(None, Ok(listing));
    assert!(!actions.iter().any(|a| matches!(a, SyncAction::Persist { .. })));
    assert_eq!(outcome, Ok(0));
    assert_eq!(session.phase, SyncPhase::Finished);
    assert!(session.catalog.is_empty());
}

#[test]
fn failed_fetch_keeps_the_old_cache() {
    let (actions, outcome, _) = run(Some("fetch"), Ok(Vec::new()));
    assert!(!actions.contains(&SyncAction::RemoveDir { path: "/h/scaffold/codes".to_string() }));
    assert!(!actions.iter().any(|a| matches!(a, SyncAction::Rename { .. } | SyncAction::Persist { .. })));
    assert_eq!(
        outcome,
        Err(ScaffoldError::Fetch {
            url: "https://github.com/casemcx/code-template".to_string(),
            dest: "/h/scaffold/codes-temp".to_string(),
            cause: "fetch failed".to_string(),
        })
    );
}

#[test]
fn failed_root_creation_stops_the_sync() {
    let (actions, outcome, _) = run(Some("ensure"), Ok(Vec::new()));
    assert_eq!(actions.len(), 2);
    assert_eq!(
        outcome,
        Err(ScaffoldError::Io { path: "/h/scaffold".to_string(), cause: "ensure failed".to_string() })
    );
}

#[test]
fn failed_rename_is_reported() {
    let (_, outcome, _) = run(Some("rename"), Ok(Vec::new()));
    assert_eq!(
        outcome,
        Err(ScaffoldError::Io { path: "/h/scaffold/codes-temp".to_string(), cause: "rename failed".to_string() })
    );
}

#[test]
fn unreadable_cache_root_fails_the_sync() {
    let (actions, outcome, _) = run(None, Err("no such directory".to_string()));
    assert!(!actions.iter().any(|a| matches!(a, SyncAction::Persist { .. })));
    assert_eq!(
        outcome,
        Err(ScaffoldError::Io { path: "/h/scaffold/codes".to_string(), cause: "no such directory".to_string() })
    );
}

#[test]
fn malformed_manifest_fails_the_sync_without_writing() {
    let listing = vec![
        ScanEntry { path: "/h/scaffold/codes/a".to_string(), manifest: manifest("A") },
        ScanEntry {
            path: "/h/scaffold/codes/b".to_string(),
            manifest: ManifestRead::Malformed {
                file: "/h/scaffold/codes/b/scaffold.json".to_string(),
                cause: "expected value".to_string(),
            },
        },
    ];
    let (actions, outcome, _) = run(None, Ok(listing));
    assert!(!actions.iter().any(|a| matches!(a, SyncAction::Persist { .. })));
    assert_eq!(
        outcome,
        Err(ScaffoldError::ManifestParse {
            path: "/h/scaffold/codes/b/scaffold.json".to_string(),
            cause: "expected value".to_string(),
        })
    );
}

#[test]
fn failed_persist_is_reported() {
    let listing = vec![ScanEntry { path: "/h/scaffold/codes/a".to_string(), manifest: manifest("A") }];
    let (_, outcome, _) = run(Some("persist"), Ok(listing));
    assert_eq!(
        outcome,
        Err(ScaffoldError::Io {
            path: "/h/.scaffold/config.json".to_string(),
            cause: "persist failed".to_string(),
        })
    );
}
