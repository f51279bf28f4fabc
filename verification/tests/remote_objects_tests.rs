//! Tests of tree entries and path grouping, of the remote callbacks' texts,
//! of the link, fetch, pull and reset decisions, and of the file checks of
//! `jin repair`.

use jin::commands::fetch::{fetch_error, fetching_line};
use jin::commands::init::{gitignore_append, gitignore_remove};
use jin::commands::link::{
    available_lines, capture_after, connectivity_error, is_file_url, linked_lines, normalize_url,
    remote_exists_error, remote_names, ConnectFailure,
};
use jin::commands::list::NameSet;
use jin::commands::pull::{check_clean, needs_update, pull_step, PullStep};
use jin::commands::repair::{check_jinmap, check_staging_index, check_workspace_metadata};
use jin::commands::reset::{cancelled_line, confirmed};
use jin::commands::resolve::validate_no_conflict_markers;
use jin::git::merge::MergeType;
use jin::git::objects::{group_paths, EntryMode, TreeEntry};
use jin::git::remote::{
    auth_attempt, credential_username, no_credentials_message, push_update_report, transfer_progress_line,
    AuthCounter,
};
use jin::git::transaction::LayerUpdate;
use jin::model::error::JinError;
use jin::model::layer::Layer;
use jin::staging::index::{StagedEntry, StagingIndex};

const OID: &str = "0000000000000000000000000000000000000001";

#[test]
fn test_entry_mode() {
    assert_eq!(EntryMode::Blob.as_i32(), 0o100644);
    assert_eq!(EntryMode::BlobExecutable.as_i32(), 0o100755);
    assert_eq!(EntryMode::Link.as_i32(), 0o120000);
    assert_eq!(EntryMode::Tree.as_i32(), 0o040000);

    assert_eq!(EntryMode::from_i32(0o100644), Some(EntryMode::Blob));
    assert_eq!(EntryMode::from_i32(0o100755), Some(EntryMode::BlobExecutable));
    assert_eq!(EntryMode::from_i32(0o120000), Some(EntryMode::Link));
    assert_eq!(EntryMode::from_i32(0o040000), Some(EntryMode::Tree));
    assert_eq!(EntryMode::from_i32(12345), None);
}

#[test]
fn test_tree_entry_constructors() {
    let blob_entry = TreeEntry::blob("file.txt", OID);
    assert_eq!(blob_entry.mode, EntryMode::Blob);
    assert_eq!(blob_entry.name, "file.txt");
    assert_eq!(blob_entry.oid, OID);

    let exec_entry = TreeEntry::blob_executable("script.sh", OID);
    assert_eq!(exec_entry.mode, EntryMode::BlobExecutable);

    let tree_entry = TreeEntry::tree("subdir", OID);
    assert_eq!(tree_entry.mode, EntryMode::Tree);
}

#[test]
fn test_entry_mode_roundtrip_every_mode() {
    for m in [EntryMode::Blob, EntryMode::BlobExecutable, EntryMode::Link, EntryMode::Tree] {
        assert_eq!(EntryMode::from_i32(m.as_i32()), Some(m));
    }
}

#[test]
fn test_layer_update_creation() {
    let oid = "0000000000000000000000000000000000000000".to_string();
    let update = LayerUpdate::new(Layer::ModeBase, Some("helix".to_string()), None, None, None, oid);

    assert_eq!(update.layer, Layer::ModeBase);
    assert_eq!(update.mode, Some("helix".to_string()));
    assert_eq!(update.ref_path, "refs/jin/layers/mode/helix/_");
    assert!(update.old_oid.is_none());
}

#[test]
fn test_group_paths_root_and_nested() {
    let files = vec![
        ("a.txt".to_string(), "1".to_string()),
        ("dir/b.txt".to_string(), "2".to_string()),
        ("dir/sub/c.txt".to_string(), "3".to_string()),
        ("other/d.txt".to_string(), "4".to_string()),
    ];
    let (root, groups) = group_paths(&files);
    assert_eq!(root, vec![("a.txt".to_string(), "1".to_string())]);
    assert_eq!(groups.len(), 2);
    assert_eq!(groups[0].0, "dir");
    assert_eq!(
        groups[0].1,
        vec![("b.txt".to_string(), "2".to_string()), ("sub/c.txt".to_string(), "3".to_string())]
    );
    assert_eq!(groups[1].0, "other");
    assert_eq!(groups[1].1, vec![("d.txt".to_string(), "4".to_string())]);
}

#[test]
fn test_group_paths_empty() {
    let (root, groups) = group_paths(&Vec::new());
    assert!(root.is_empty());
    assert!(groups.is_empty());
}

#[test]
fn test_credential_username() {
    assert_eq!(credential_username(Some("deploy")), "deploy");
    assert_eq!(credential_username(None), "git");
}

#[test]
fn test_auth_attempt_allows_three() {
    let mut counter = AuthCounter::new();
    assert!(auth_attempt(&mut counter).is_ok());
    assert!(auth_attempt(&mut counter).is_ok());
    assert!(auth_attempt(&mut counter).is_ok());
    assert_eq!(auth_attempt(&mut counter), Err("Authentication failed after 3 attempts".to_string()));
    assert_eq!(counter.get(), 4);
}

#[test]
fn test_no_credentials_message() {
    assert!(no_credentials_message().starts_with("No valid SSH credentials found."));
}

#[test]
fn test_transfer_progress_line() {
    assert_eq!(transfer_progress_line(5, 0), None);
    assert_eq!(transfer_progress_line(1, 3), Some("Received 1/3 objects (33%)\r".to_string()));
    assert_eq!(transfer_progress_line(10, 10), Some("Received 10/10 objects (100%)\r".to_string()));
}

#[test]
fn test_push_update_report() {
    assert_eq!(push_update_report("refs/jin/layers/global", None), Ok("  \u{2192} refs/jin/layers/global".to_string()));
    assert_eq!(
        push_update_report("refs/x", Some("rejected")),
        Err(("Failed to push refs/x: rejected".to_string(), "rejected".to_string()))
    );
}

#[test]
fn test_link_url_helpers() {
    assert!(is_file_url("file:///srv/repo"));
    assert!(is_file_url("/srv/repo"));
    assert!(!is_file_url("https://github.com/org/repo.git"));
    assert_eq!(normalize_url("/srv/repo"), "file:///srv/repo");
    assert_eq!(normalize_url("file:///srv/repo"), "file:///srv/repo");
    assert_eq!(normalize_url("git@github.com:org/repo.git"), "git@github.com:org/repo.git");
}

#[test]
fn test_remote_exists_error() {
    match remote_exists_error(Some("https://a/b.git"), "https://c/d.git") {
        JinError::AlreadyExists(m) => assert_eq!(
            m,
            "Remote 'origin' already configured\nCurrent remote: https://a/b.git\n\nTo change remote, use:\n  jin link https://c/d.git --force"
        ),
        other => panic!("unexpected {:?}", other),
    }
    match remote_exists_error(None, "u") {
        JinError::AlreadyExists(m) => assert!(m.contains("Current remote: (unknown)")),
        other => panic!("unexpected {:?}", other),
    }
}

#[test]
fn test_connectivity_errors() {
    for (kind, start) in [
        (ConnectFailure::Auth, "Cannot access remote repository\nPossible causes:\n  - Missing SSH key"),
        (ConnectFailure::NotFound, "Repository not found or not accessible"),
        (ConnectFailure::Other, "Cannot access remote repository\nPossible causes:\n  - Network"),
    ] {
        match connectivity_error(kind) {
            JinError::Config(m) => assert!(m.starts_with(start), "{}", m),
            other => panic!("unexpected {:?}", other),
        }
    }
}

#[test]
fn test_linked_lines() {
    assert_eq!(
        linked_lines("/home/u/.jin/config.toml"),
        vec![
            "Configured remote 'origin' for Jin repository".to_string(),
            "Stored in: /home/u/.jin/config.toml".to_string(),
            String::new(),
        ]
    );
}

#[test]
fn test_capture_after() {
    assert_eq!(capture_after("refs/jin/layers/mode/helix/_", "refs/jin/layers/mode/"), Some("helix".to_string()));
    assert_eq!(capture_after("refs/jin/layers/mode/", "refs/jin/layers/mode/"), None);
    assert_eq!(capture_after("refs/jin/layers/global", "refs/jin/layers/mode/"), None);
    assert_eq!(capture_after("x/refs/jin/layers/scope/lang:rust", "refs/jin/layers/scope/"), Some("lang:rust".to_string()));
}

#[test]
fn test_remote_names_and_available_lines() {
    let refs = vec![
        "refs/jin/layers/mode/zed/_".to_string(),
        "refs/jin/layers/mode/helix/scope/web".to_string(),
        "refs/jin/layers/scope/web".to_string(),
        "refs/jin/layers/project/site".to_string(),
        "refs/heads/main".to_string(),
    ];
    let (modes, scopes, projects) = remote_names(&refs);
    assert!(modes.contains("zed") && modes.contains("helix"));
    assert!(scopes.contains("web"));
    assert!(projects.contains("site"));
    assert_eq!(
        available_lines(&modes, &scopes, &projects),
        vec![
            "Available configurations:".to_string(),
            "  Modes: helix, zed".to_string(),
            "  Scopes: web".to_string(),
            "  Projects: site".to_string(),
            String::new(),
        ]
    );
    let empty = NameSet::new();
    assert!(available_lines(&empty, &empty, &empty).is_empty());
}

#[test]
fn test_fetch_messages() {
    assert_eq!(fetching_line("https://a/b.git"), "Fetching from origin (https://a/b.git)...");
    assert!(matches!(fetch_error(true, "x"), JinError::Config(ref m) if m.starts_with("Authentication failed.")));
    assert!(matches!(fetch_error(false, "network down"), JinError::Git(ref m) if m == "network down"));
}

#[test]
fn test_pull_steps() {
    assert!(check_clean(&StagingIndex::new()).is_ok());
    let mut staging = StagingIndex::new();
    staging.add(StagedEntry::new("a.json".to_string(), Layer::GlobalBase, "1".to_string()));
    assert!(matches!(check_clean(&staging), Err(JinError::Config(ref m)) if m.starts_with("Cannot pull with uncommitted changes.")));

    assert!(!needs_update("refs/jin/layers/local", MergeType::FastForward));
    assert!(!needs_update("refs/jin/layers/global", MergeType::UpToDate));
    assert!(needs_update("refs/jin/layers/global", MergeType::Divergent));

    assert_eq!(pull_step("refs/jin/layers/global", MergeType::UpToDate), (PullStep::Skip, None));
    assert_eq!(
        pull_step("refs/jin/layers/global", MergeType::FastForward),
        (PullStep::FastForward, Some("  \u{2713} global: Updated (fast-forward)".to_string()))
    );
    assert_eq!(
        pull_step("refs/jin/layers/global", MergeType::LocalAhead),
        (PullStep::KeepLocal, Some("  \u{2212} global: Local is ahead of remote".to_string()))
    );
    assert_eq!(pull_step("refs/jin/layers/global", MergeType::Divergent), (PullStep::Merge, None));
}

#[test]
fn test_gitignore_remove() {
    assert_eq!(gitignore_remove("target\n.jin/\nnode_modules\n", ".jin/"), Some("target\nnode_modules\n".to_string()));
    assert_eq!(gitignore_remove("target\n", ".jin/"), None);
    assert_eq!(gitignore_remove("", ".jin/"), None);
}

#[test]
fn test_reset_confirmation() {
    assert!(confirmed("yes\n"));
    assert!(confirmed("  YES "));
    assert!(!confirmed("y"));
    assert!(!confirmed("no"));
    assert_eq!(cancelled_line(), "Reset cancelled");
}

#[test]
fn test_check_staging_index_missing() {
    let plan = check_staging_index(false, false, true);
    assert_eq!(plan.issues.len(), 0);
}

#[test]
fn test_check_staging_index_corrupted() {
    let plan = check_staging_index(true, false, true);
    assert_eq!(plan.issues.len(), 1);
    assert!(plan.issues[0].contains("corrupted"));
    assert!(!plan.repair);
}

#[test]
fn test_check_jinmap_valid_yaml() {
    let content = Some("---\nversion: 1\nmappings: {}\nmeta:\n  generated-by: jin\n".to_string());
    let plan = check_jinmap(true, true, &content, true);
    assert_eq!(plan.issues.len(), 0);
}

#[test]
fn test_check_jinmap_invalid_yaml() {
    let content = Some("key: \"unclosed".to_string());
    let plan = check_jinmap(true, true, &content, true);
    assert_eq!(plan.issues.len(), 1);
    assert!(plan.issues[0].contains("not valid YAML"));
}

#[test]
fn test_check_jinmap_missing_and_unreadable() {
    let missing = check_jinmap(false, true, &None, false);
    assert_eq!(missing.issues, vec![".jinmap missing".to_string()]);
    assert!(missing.repair);
    let outside = check_jinmap(false, false, &None, false);
    assert!(outside.issues.is_empty());
    let unreadable = check_jinmap(true, true, &None, false);
    assert_eq!(unreadable.issues, vec![".jinmap is not readable".to_string()]);
    assert!(!unreadable.repair);
}

#[test]
fn test_check_workspace_metadata_missing() {
    let plan = check_workspace_metadata(false, false, true);
    assert_eq!(plan.issues.len(), 0);
}

#[test]
fn test_validate_no_conflict_markers_with_markers() {
    let content = "# Jin merge conflict\n<<<<<<< layer1/\ncontent\n=======\ncontent2\n>>>>>>> layer2/\n";
    assert!(validate_no_conflict_markers(content).is_err());
}

#[test]
fn test_validate_no_conflict_markers_resolved() {
    assert!(validate_no_conflict_markers("# Jin merge conflict\nresolved content\n").is_ok());
}

#[test]
fn test_validate_no_conflict_markers_empty() {
    assert!(validate_no_conflict_markers("# Jin merge conflict\n").is_err());
}

#[test]
fn test_gitignore_append_idempotent() {
    let first = gitignore_append(&Some("target".to_string()), ".jin/");
    assert_eq!(first, Some("\n.jin/\n".to_string()));
    let after = format!("target{}", first.unwrap());
    assert_eq!(gitignore_append(&Some(after), ".jin/"), None);
    let fresh = gitignore_append(&None, ".jin/").unwrap();
    assert_eq!(gitignore_append(&Some(fresh), ".jin/"), None);
}

#[test]
fn fetch_report_lists_active_context_updates() {
    let mut context = jin::model::config::ProjectContext::default();
    context.mode = Some("helix".to_string());
    assert!(jin::commands::fetch::is_ref_relevant_to_context("refs/jin/layers/global", &context));
    assert!(jin::commands::fetch::is_ref_relevant_to_context("refs/jin/layers/mode/helix/_", &context));
    assert!(!jin::commands::fetch::is_ref_relevant_to_context("refs/jin/layers/mode/zed/_", &context));
    let refs = vec![
        "refs/jin/layers/global".to_string(),
        "refs/jin/layers/mode/helix/_".to_string(),
        "refs/jin/layers/mode/zed/_".to_string(),
        "refs/jin/layers/local".to_string(),
    ];
    let lines = jin::commands::fetch::report_updates(&refs, &vec![true, true, true, true], &context);
    assert_eq!(
        lines,
        vec![
            String::new(),
            "Updates for your active context (mode: helix):".to_string(),
            "  - global (1 file(s))".to_string(),
            "  - mode/helix/_ (1 file(s))".to_string(),
            String::new(),
            "Other updates:".to_string(),
            "  - mode/zed/_ (1 file(s))".to_string(),
            "\nRun 'jin pull' to merge updates".to_string(),
        ]
    );
}
