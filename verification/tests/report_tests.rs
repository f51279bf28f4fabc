//! Tests of the reports and checks of repair, status, layers, context,
//! push, resolve, init, export, log and diff.

use jin::cli::args::ResolveArgs;
use jin::commands::apply::{PausedApplyState, PausedLayerConfig};
use jin::commands::context::context_lines as context_report;
use jin::commands::diff::{
    file_lines, layers_diff_heading, no_commits_error, patch_line, staged_diff_lines,
    workspace_diff_frame, FileComparison,
};
use jin::commands::export::{not_in_layer_tree, tracking_check, Tracking};
use jin::commands::init::{already_initialized_lines, gitignore_append, initialized_lines};
use jin::commands::layers::layers_lines;
use jin::commands::log::{commit_lines, no_commits_line, section_heading, CommitFacts};
use jin::commands::push::{
    announce, detect_modified_layers, missing_origin_error, push_error, refspecs, remote_path,
    remote_url, shareable_refs, success_lines, RefComparison, RefState, RemoteState,
};
use jin::commands::repair::{
    attachment_summary, check_global_config, check_jinmap, check_layer_refs,
    check_project_context, check_repository_structure, check_staging_index,
    check_workspace_attachment, check_workspace_metadata, fatal_outcome, recovery_report,
    recreate_report, reflog_recovery, repair_report, repair_summary, RecoveryOutcome, RefHealth,
};
use jin::commands::resolve::{
    check_age, completion_lines, dry_run_lines, failure_line, missing_merge_file, report,
    require_paused, select_files, validate_no_conflict_markers,
};
use jin::commands::status::{
    context_lines, layer_summary, staged_lines, summary_targets, workspace_lines,
    workspace_state, FileObservation, WorkspaceState,
};
use jin::model::config::{JinConfig, ProjectContext, RemoteConfig};
use jin::model::error::JinError;
use jin::model::jinmap::JinMap;
use jin::model::layer::Layer;
use jin::staging::index::{StagedEntry, StagingIndex};
use jin::text::{pad_left, pad_right, trim};

fn strings(v: &[&str]) -> Vec<String> {
    v.iter().map(|s| s.to_string()).collect()
}

#[test]
fn repair_staging_index_checks() {
    let p = check_staging_index(false, false, false);
    assert_eq!(p.lines, vec!["Checking staging index... \u{2713} (not present)"]);
    assert!(p.issues.is_empty() && !p.repair);
    let p = check_staging_index(true, true, false);
    assert_eq!(p.lines, vec!["Checking staging index... \u{2713}"]);
    let p = check_staging_index(true, false, true);
    assert_eq!(
        p.lines,
        vec![
            "Checking staging index... \u{2717}",
            "  Issue: Staging index corrupted",
            "    Would rebuild index (staged changes would be lost)",
        ]
    );
    assert_eq!(p.issues, vec!["Staging index corrupted"]);
    assert!(!p.repair);
    let p = check_staging_index(true, false, false);
    assert_eq!(p.lines, vec!["Checking staging index... \u{2717}"]);
    assert!(p.repair);
}

#[test]
fn repair_metadata_config_and_context_checks() {
    let p = check_workspace_metadata(true, false, true);
    assert_eq!(p.issues, vec!["Workspace metadata corrupted"]);
    assert_eq!(p.lines[2], "    Would rebuild metadata");
    let p = check_global_config(&Err(JinError::Config("bad".to_string())), false);
    assert_eq!(p.issues, vec!["Global config is invalid"]);
    assert!(p.repair);
    let p = check_global_config(&Err(JinError::NotFound("config".to_string())), false);
    assert_eq!(p.lines, vec!["Checking global configuration... \u{2713} (using defaults)"]);
    let p = check_project_context(false, false, false, false);
    assert_eq!(p.lines, vec!["Checking project context... \u{2713} (not initialized)"]);
    let p = check_project_context(true, false, false, true);
    assert_eq!(p.issues, vec!["Project context missing"]);
    assert_eq!(p.lines[2], "    Would create default context");
    let p = check_project_context(true, true, false, false);
    assert_eq!(p.issues, vec!["Project context corrupted"]);
}

#[test]
fn repair_jinmap_checks() {
    let p = check_jinmap(false, true, &None, true);
    assert_eq!(p.issues, vec![".jinmap missing"]);
    let p = check_jinmap(false, false, &None, true);
    assert_eq!(p.lines, vec!["Checking .jinmap... \u{2713} (not initialized)"]);
    let p = check_jinmap(true, true, &None, false);
    assert_eq!(p.lines, vec!["Checking .jinmap... \u{2717}", "  Issue: .jinmap is not readable"]);
    assert!(!p.repair);
    let p = check_jinmap(true, true, &Some("version: 1\nmappings: {}\n".to_string()), false);
    assert_eq!(p.lines, vec!["Checking .jinmap... \u{2713}"]);
    let p = check_jinmap(true, true, &Some("key: [unclosed".to_string()), false);
    assert_eq!(p.issues, vec![".jinmap is not valid YAML"]);
    assert!(p.repair);
}

#[test]
fn repair_reports_and_repository() {
    let (fix, line) = repair_report(Ok(()), "Staging index rebuilt (staged changes lost)", "Failed to rebuild index");
    assert_eq!(fix.unwrap(), "Staging index rebuilt (staged changes lost)");
    assert_eq!(line, "  Fixed: Staging index rebuilt (staged changes lost)");
    let (fix, line) = repair_report(Err(JinError::Io("denied".to_string())), "x", "Failed to rebuild index");
    assert!(fix.is_none());
    assert_eq!(line, "  Failed to rebuild index: IO error: denied");
    let r = check_repository_structure(true, true, false);
    assert_eq!(r.lines, vec!["Checking repository structure... \u{2713}"]);
    assert!(r.failure.is_none());
    let r = check_repository_structure(true, false, false);
    assert_eq!(r.errors.len(), 2);
    assert!(matches!(r.failure, Some(JinError::Other(ref m)) if m == "Repository is not bare"));
    let r = check_repository_structure(false, false, true);
    assert_eq!(r.lines[2], "  Would recreate repository");
    assert!(matches!(r.failure, Some(JinError::Other(ref m)) if m == "Repository missing"));
    let r = check_repository_structure(false, false, false);
    assert!(r.recreate && r.failure.is_none());
    let (fix, lines, errors, failure) = recreate_report(Ok(()));
    assert_eq!(fix.unwrap(), "Repository recreated");
    assert_eq!(lines, vec!["  Fixed: Repository recreated"]);
    assert!(errors.is_empty() && failure.is_none());
    let (_, _, errors, failure) = recreate_report(Err(JinError::Git("no home".to_string())));
    assert_eq!(errors, vec!["  Failed to recreate repository: Git error: no home"]);
    assert!(failure.is_some());
}

#[test]
fn repair_layer_refs() {
    let listing = Ok(vec![
        ("refs/jin/layers/global".to_string(), RefHealth::Commit),
        ("refs/jin/layers/project/a".to_string(), RefHealth::NotCommit),
        ("refs/jin/layers/project/b".to_string(), RefHealth::Unresolvable),
    ]);
    let r = check_layer_refs(&listing, false);
    assert_eq!(r.lines, vec!["Checking layer references... \u{2717}"]);
    assert_eq!(
        r.issues,
        vec![
            "Invalid ref refs/jin/layers/project/a: not a commit",
            "Invalid ref refs/jin/layers/project/b: cannot resolve",
        ]
    );
    assert_eq!(r.recover, vec!["refs/jin/layers/project/a", "refs/jin/layers/project/b"]);
    let r = check_layer_refs(&listing, true);
    assert_eq!(r.lines.len(), 5);
    assert_eq!(r.lines[2], "    Would attempt recovery from reflog");
    assert!(r.recover.is_empty());
    let r = check_layer_refs(&Ok(vec![("refs/jin/layers/global".to_string(), RefHealth::Commit)]), false);
    assert_eq!(r.lines, vec!["Checking layer references... \u{2713}"]);
    let r = check_layer_refs(&Err(JinError::Git("locked".to_string())), false);
    assert_eq!(r.issues, vec!["Cannot list layer refs: Git error: locked"]);
    assert_eq!(r.lines[1], "  Issue: Cannot list layer refs: Git error: locked");
}

#[test]
fn repair_recovery_and_reflog() {
    let (fix, line) = recovery_report("refs/jin/layers/global", RecoveryOutcome::Recovered);
    assert_eq!(fix.unwrap(), "Recovered refs/jin/layers/global from reflog");
    assert_eq!(line, "  Fixed: Recovered refs/jin/layers/global from reflog");
    let (fix, line) = recovery_report("r", RecoveryOutcome::Deleted);
    assert_eq!(fix.unwrap(), "Deleted invalid ref r");
    assert_eq!(line, "  Fixed: Deleted invalid ref r");
    let (fix, line) = recovery_report("r", RecoveryOutcome::DeleteFailed);
    assert!(fix.is_none());
    assert_eq!(line, "  Failed to delete ref r");
    let (_, line) = recovery_report("r", RecoveryOutcome::Failed(JinError::Git("gone".to_string())));
    assert_eq!(line, "  Failed to recover r: Git error: gone");
    assert_eq!(reflog_recovery(&vec![false, false, true, true]), Some((2, "Recovered from reflog entry 2".to_string())));
    assert_eq!(reflog_recovery(&vec![false]), None);
}

#[test]
fn repair_attachment_and_summaries() {
    let detached = JinError::DetachedWorkspace {
        workspace_commit: None,
        expected_layer_ref: "r".to_string(),
        details: "files changed".to_string(),
        recovery_hint: "run apply".to_string(),
    };
    let p = check_workspace_attachment(&Ok(()), true, Err(detached), false);
    assert_eq!(p.issues, vec!["Workspace is detached. files changed. Recovery: run apply"]);
    assert_eq!(p.lines[1], "  Issue: Workspace is detached. files changed. Recovery: run apply");
    let p = check_workspace_attachment(&Err(JinError::NotInitialized), true, Ok(()), false);
    assert_eq!(p.lines, vec!["Checking workspace attachment... \u{2713} (not initialized)"]);
    let p = check_workspace_attachment(&Ok(()), false, Ok(()), false);
    assert_eq!(p.lines, vec!["Checking workspace attachment... \u{2713} (no repository)"]);
    assert_eq!(attachment_summary(&vec![]), vec!["", "Workspace is properly attached."]);
    assert_eq!(attachment_summary(&strings(&["a"])), vec!["", "Workspace state:", "  - a"]);
    assert_eq!(repair_summary(true, &vec![], &vec![]), vec!["", "No issues found."]);
    assert_eq!(
        repair_summary(true, &strings(&["x"]), &vec![]),
        vec!["", "1 issue found (dry run - no changes made)", "", "Issues detected:", "  - x"]
    );
    assert_eq!(
        repair_summary(false, &strings(&["x", "y", "z"]), &strings(&["f"])),
        vec![
            "",
            "Repair complete. 1 issue fixed.",
            "",
            "Warning: 2 issues could not be automatically fixed:",
            "  - y",
            "  - z",
        ]
    );
    assert_eq!(repair_summary(false, &strings(&["x", "y"]), &strings(&["f", "g"])), vec!["", "Repair complete. 2 issues fixed."]);
    let fatal = fatal_outcome(&Some(JinError::Other("Repository is not bare".to_string())), 1, 0, false);
    let (lines, err) = fatal.unwrap();
    assert_eq!(lines[1], "FATAL: Repository is severely corrupted.");
    assert!(matches!(err, JinError::Other(ref m) if m == "Repository corruption requires manual recovery"));
    assert!(fatal_outcome(&Some(JinError::Other("x".to_string())), 1, 0, true).is_none());
    assert!(fatal_outcome(&Some(JinError::Git("x".to_string())), 1, 0, false).is_none());
}

fn ctx(mode: Option<&str>, scope: Option<&str>, project: Option<&str>) -> ProjectContext {
    ProjectContext {
        mode: mode.map(|s| s.to_string()),
        scope: scope.map(|s| s.to_string()),
        project: project.map(|s| s.to_string()),
        ..Default::default()
    }
}

#[test]
fn status_context_and_workspace() {
    assert_eq!(
        context_lines(&ctx(Some("dev"), None, Some("app"))),
        vec!["Jin status:", "", "  Mode:  dev (active)", "  Scope: (none)", "  Project: app", ""]
    );
    assert!(matches!(workspace_state(Err(JinError::NotFound("m".to_string()))), Ok(WorkspaceState::Clean)));
    assert!(matches!(workspace_state(Err(JinError::Io("m".to_string()))), Err(JinError::Io(_))));
    let obs = vec![
        FileObservation { path: "a".to_string(), expected_hash: "1".to_string(), current_hash: Some("1".to_string()) },
        FileObservation { path: "b".to_string(), expected_hash: "1".to_string(), current_hash: Some("2".to_string()) },
        FileObservation { path: "c".to_string(), expected_hash: "1".to_string(), current_hash: None },
    ];
    let state = workspace_state(Ok(obs)).unwrap();
    match &state {
        WorkspaceState::Dirty { modified, deleted } => {
            assert_eq!(modified, &vec!["b".to_string()]);
            assert_eq!(deleted, &vec!["c".to_string()]);
        }
        WorkspaceState::Clean => panic!("expected a dirty workspace"),
    }
    assert_eq!(
        workspace_lines(&state),
        vec![
            "Workspace state: Dirty (2 files modified)",
            "  b (modified)",
            "  c (deleted)",
            "",
            "Use 'jin diff' to see changes or 'jin add <file>' to stage them.",
            "",
        ]
    );
    assert_eq!(workspace_lines(&WorkspaceState::Clean), vec!["Workspace state: Clean", ""]);
}

#[test]
fn status_staged_and_layers() {
    let empty = StagingIndex::new();
    assert_eq!(
        staged_lines(&ProjectContext::default(), &empty),
        vec!["No staged changes.", "", "Use 'jin add <file> --mode' to stage files to a mode layer."]
    );
    assert_eq!(staged_lines(&ctx(Some("dev"), None, None), &empty)[2], "Use 'jin add <file>' to stage files for commit.");
    let mut staging = StagingIndex::new();
    staging.add(StagedEntry::new("a.json".to_string(), Layer::GlobalBase, "1".to_string()));
    assert_eq!(
        staged_lines(&ProjectContext::default(), &staging),
        vec![
            "Staged changes (1 file):",
            "  a.json -> global-base",
            "",
            "Use 'jin commit -m <message>' to commit staged changes.",
        ]
    );
    let context = ProjectContext::default();
    let targets = summary_targets(&context);
    assert_eq!(targets.len(), 4);
    assert_eq!(targets[0].1, "refs/jin/layers/global");
    let lines = layer_summary(&context, &vec![2, 0, 0, 0], &staging);
    assert_eq!(lines, vec!["", "Layer summary:", "  jin/global/: 3 files (1 staged)"]);
    let lines = layer_summary(&context, &vec![0, 0, 0, 0], &StagingIndex::new());
    assert_eq!(lines, vec!["", "Layer summary:", "  (no layers with files)"]);
}

#[test]
fn layers_and_context_reports() {
    let context = ProjectContext::default();
    let lines = layers_lines(&context, &vec![Some(2), None, None, None]);
    assert_eq!(lines[0], "Layer composition for current context:");
    assert_eq!(lines[1], "  (no active mode/scope/project)");
    assert_eq!(lines[4], "  \u{2713}  1. global-base          [jin/global/] (2 files)");
    assert_eq!(lines[lines.len() - 2], "Active layers: 1 of 9 layers have files");
    assert_eq!(lines[lines.len() - 1], "Total files in workspace: 2");
    let mut c = ctx(Some("dev"), None, None);
    c.last_updated = Some("2025-01-01T00:00:00Z".to_string());
    assert_eq!(
        context_report(&c),
        vec![
            "Current Jin context:",
            "",
            "  Active mode:   dev",
            "  Active scope:  (none)",
            "  Project:       (auto-inferred)",
            "  Last updated:  2025-01-01T00:00:00Z",
        ]
    );
}

#[test]
fn push_decisions() {
    assert!(matches!(remote_url(Ok(JinConfig::default())), Err(JinError::Config(_))));
    let config = JinConfig {
        remote: Some(RemoteConfig { url: "git@host:org/cfg.git".to_string(), fetch_on_init: false }),
        ..Default::default()
    };
    assert_eq!(remote_url(Ok(config)).unwrap(), "git@host:org/cfg.git");
    assert_eq!(
        shareable_refs(&strings(&["refs/jin/layers/global", "refs/jin/layers/local", "refs/jin/layers/project/p"])),
        vec!["refs/jin/layers/global", "refs/jin/layers/project/p"]
    );
    assert_eq!(remote_path("file:///srv/jin.git"), Some("/srv/jin.git".to_string()));
    assert_eq!(remote_path("/srv/jin.git"), Some("/srv/jin.git".to_string()));
    assert_eq!(remote_path("https://host/jin.git"), None);
    let refs = vec![
        RefState { name: "new".to_string(), local_oid: "1".to_string(), remote: RemoteState::Absent },
        RefState {
            name: "ahead".to_string(),
            local_oid: "2".to_string(),
            remote: RemoteState::Present { remote_oid: "1".to_string(), comparison: Some(Ok(RefComparison::Ahead)) },
        },
        RefState {
            name: "same".to_string(),
            local_oid: "1".to_string(),
            remote: RemoteState::Present { remote_oid: "1".to_string(), comparison: Some(Ok(RefComparison::Equal)) },
        },
        RefState { name: "gone".to_string(), local_oid: "1".to_string(), remote: RemoteState::Gone },
    ];
    assert_eq!(detect_modified_layers(refs, false).unwrap(), vec!["new", "ahead"]);
    let behind = vec![RefState {
        name: "b".to_string(),
        local_oid: "1".to_string(),
        remote: RemoteState::Present { remote_oid: "2".to_string(), comparison: Some(Ok(RefComparison::Behind)) },
    }];
    assert!(matches!(detect_modified_layers(behind, false), Err(JinError::BehindRemote { ref layer }) if layer == "b"));
    let forced = vec![RefState {
        name: "b".to_string(),
        local_oid: "1".to_string(),
        remote: RemoteState::Present { remote_oid: "2".to_string(), comparison: None },
    }];
    assert_eq!(detect_modified_layers(forced, true).unwrap(), vec!["b"]);
    assert_eq!(refspecs(&strings(&["r"]), true), vec!["+r:r"]);
    assert_eq!(refspecs(&strings(&["r"]), false), vec!["r:r"]);
    assert_eq!(announce(false, "u"), vec!["Pushing to origin (u)..."]);
    assert_eq!(announce(true, "u").len(), 3);
    assert_eq!(success_lines(2), vec!["", "Successfully pushed 2 layer(s)"]);
    assert!(matches!(push_error(true, "x"), JinError::Config(ref m) if m.starts_with("Authentication failed.")));
    assert!(matches!(push_error(false, "rejected non-fast-forward"), JinError::Config(ref m) if m.starts_with("Push rejected")));
    assert!(matches!(push_error(false, "other"), JinError::Git(ref m) if m == "other"));
    assert!(matches!(missing_origin_error(true, "x"), JinError::Config(_)));
}

fn resolve_args(files: &[&str], all: bool) -> ResolveArgs {
    ResolveArgs { files: strings(files), all, force: false, dry_run: false }
}

#[test]
fn resolve_decisions() {
    assert!(require_paused(true).is_ok());
    assert!(matches!(require_paused(false), Err(JinError::Other(ref m)) if m == "No paused apply operation found. Run 'jin apply' first."));
    let (warn, r) = check_age(90000, false);
    assert_eq!(warn, vec!["Warning: Paused operation is over 24 hours old."]);
    assert!(r.is_err());
    let (warn, r) = check_age(90000, true);
    assert_eq!(warn.len(), 1);
    assert!(r.is_ok());
    let (warn, r) = check_age(10, false);
    assert!(warn.is_empty() && r.is_ok());
    let conflicts = strings(&["a.json", "b.json"]);
    assert_eq!(select_files(&resolve_args(&[], false), &conflicts).unwrap(), conflicts);
    assert_eq!(select_files(&resolve_args(&["b.json"], false), &conflicts).unwrap(), vec!["b.json"]);
    match select_files(&resolve_args(&["c.json"], false), &conflicts) {
        Err(JinError::Other(m)) => assert_eq!(m, "File 'c.json' is not in conflict state. Use 'jin status' for details."),
        other => panic!("unexpected: {:?}", other),
    }
    assert_eq!(dry_run_lines(&conflicts), vec!["Would resolve 2 files:", "  - a.json", "  - b.json"]);
    assert!(validate_no_conflict_markers("a\n<<<<<<< ours\n").is_err());
    assert!(matches!(validate_no_conflict_markers("  \n\t"), Err(JinError::Other(ref m)) if m.starts_with("Empty resolution")));
    assert!(validate_no_conflict_markers("# Jin merge conflict in x\n").is_err());
    assert!(validate_no_conflict_markers("# Jin merge conflict in x\nkey = 1\n").is_ok());
    assert!(validate_no_conflict_markers("{\"a\": 1}").is_ok());
    assert!(matches!(missing_merge_file("a.json"), JinError::Other(ref m) if m == "No .jinmerge file found for a.json. Did you delete it?"));
    assert_eq!(failure_line("a.json", &JinError::Io("x".to_string())), "a.json: IO error: x");
    let r = report(1, &strings(&["b.json: bad"]), 2);
    assert_eq!(r.lines, vec!["Resolved 1 file(s)"]);
    assert_eq!(r.errors, vec!["Errors resolving 1 file(s):", "  - b.json: bad"]);
    assert!(!r.complete && r.failure.is_none());
    assert_eq!(r.closing, vec!["Remaining conflicts: 1", "Use 'jin resolve --all' to resolve remaining conflicts."]);
    let r = report(0, &strings(&["x"]), 1);
    assert!(matches!(r.failure, Some(JinError::Other(ref m)) if m == "Failed to resolve any files"));
    let r = report(2, &vec![], 2);
    assert!(r.complete);
    assert_eq!(r.closing, vec!["All conflicts resolved. Apply operation completed."]);
    assert_eq!(completion_lines(3, 2), vec!["Apply operation completed successfully.", "Applied 5 total files."]);
}

#[test]
fn paused_state_forgets_resolved_files() {
    let mut state = PausedApplyState {
        timestamp: "2025-01-01T00:00:00Z".to_string(),
        layer_config: PausedLayerConfig { layers: vec![], mode: None, scope: None, project: None },
        conflict_files: strings(&["a", "b", "a"]),
        applied_files: strings(&["c"]),
        conflict_count: 3,
    };
    state.remove_conflict("a");
    assert_eq!(state.conflict_files, vec!["b"]);
    assert_eq!(state.conflict_count, 1);
    state.remove_conflict("b");
    assert!(state.conflict_files.is_empty());
    assert_eq!(state.conflict_count, 0);
}

#[test]
fn init_reports_and_gitignore() {
    assert_eq!(already_initialized_lines(), vec!["Jin is already initialized in this directory"]);
    assert_eq!(initialized_lines(".jin")[0], "Initialized Jin in .jin");
    assert_eq!(initialized_lines(".jin").len(), 6);
    assert_eq!(gitignore_append(&None, ".jin/"), Some(".jin/\n".to_string()));
    assert_eq!(gitignore_append(&Some("target\n".to_string()), ".jin/"), Some(".jin/\n".to_string()));
    assert_eq!(gitignore_append(&Some("target".to_string()), ".jin/"), Some("\n.jin/\n".to_string()));
    assert_eq!(gitignore_append(&Some("target\n  .jin  \n".to_string()), ".jin/"), None);
    assert_eq!(gitignore_append(&Some(".jin/\r\n".to_string()), ".jin/"), None);
    assert_eq!(gitignore_append(&Some(String::new()), ".jin/"), Some(".jin/\n".to_string()));
}

#[test]
fn export_tracking() {
    assert!(matches!(tracking_check("a", false, false, None, Ok(JinMap::default()), true), Err(JinError::NotFound(ref m)) if m == "a"));
    assert!(matches!(tracking_check("a", true, true, None, Ok(JinMap::default()), true), Ok(Tracking::Staged)));
    assert!(matches!(tracking_check("a", true, false, None, Ok(JinMap::default()), true), Err(JinError::Other(ref m)) if m == "Invalid file path"));
    match tracking_check("dir/a", true, false, Some("a".to_string()), Ok(JinMap::default()), true) {
        Err(JinError::Other(m)) => assert_eq!(m, "dir/a is not Jin-tracked. Use `jin status` to see Jin-tracked files."),
        other => panic!("unexpected: {:?}", other),
    }
    let mut map = JinMap::default();
    map.add_layer_mapping("refs/jin/layers/global", vec!["a".to_string()]);
    map.add_layer_mapping("refs/jin/layers/project/p", vec!["b".to_string(), "a".to_string()]);
    assert!(matches!(
        tracking_check("a", true, false, Some("a".to_string()), Ok(map), false),
        Err(JinError::Other(ref m)) if m == "Jin not initialized. Run 'jin init' first."
    ));
    let mut map = JinMap::default();
    map.add_layer_mapping("refs/jin/layers/global", vec!["a".to_string()]);
    map.add_layer_mapping("refs/jin/layers/project/p", vec!["b".to_string(), "a".to_string()]);
    match tracking_check("a", true, false, Some("a".to_string()), Ok(map), true) {
        Ok(Tracking::Committed { name, layers }) => {
            assert_eq!(name, "a");
            assert_eq!(layers, vec!["refs/jin/layers/global", "refs/jin/layers/project/p"]);
        }
        other => panic!("unexpected: {:?}", other),
    }
    assert!(matches!(not_in_layer_tree("a"), JinError::Other(ref m) if m.ends_with("Run 'jin repair' to fix.")));
}

#[test]
fn log_commit_entries() {
    let c = CommitFacts {
        hash: "abcdef0123456789abcdef0123456789abcdef01".to_string(),
        author_name: Some("Ann".to_string()),
        author_email: None,
        message: Some("  Add config\n".to_string()),
        time: 1431648000,
        files_changed: 2,
    };
    assert_eq!(
        commit_lines(&c, Layer::ModeBase),
        vec![
            "commit abcdef0 (mode-base)",
            "Author: Ann <unknown>",
            "Date:   2015-05-15 00:00:00",
            "",
            "    Add config",
            "",
            "    2 file(s) changed",
            "",
        ]
    );
    assert_eq!(section_heading(Layer::GlobalBase, true), vec!["=== global-base ===", ""]);
    assert_eq!(section_heading(Layer::GlobalBase, false), vec!["", "=== global-base ===", ""]);
    assert_eq!(no_commits_line(Layer::ScopeBase), "No commits yet for layer: scope-base");
}

#[test]
fn diff_reports() {
    let mut staging = StagingIndex::new();
    assert_eq!(staged_diff_lines(&staging, &vec![]), vec!["No staged changes"]);
    staging.add(StagedEntry::new("a".to_string(), Layer::ProjectBase, "1".to_string()));
    assert_eq!(
        staged_diff_lines(&staging, &vec![true]),
        vec!["Staged changes:", "", "  a -> project-base", "    (modified since staging)"]
    );
    assert!(matches!(no_commits_error(Layer::ModeBase), JinError::Other(ref m) if m == "Layer mode-base has no commits"));
    assert_eq!(layers_diff_heading(Layer::GlobalBase, Layer::ModeBase, 0), vec!["No differences between global-base and mode-base"]);
    assert_eq!(layers_diff_heading(Layer::GlobalBase, Layer::ModeBase, 2), vec!["diff --jin a/global-base b/mode-base", ""]);
    assert_eq!(patch_line('+', Some("x\n")), "\u{1b}[32m+x\n\u{1b}[0m");
    assert_eq!(patch_line('H', Some("-1 +1")), "@@ -1 +1");
    assert_eq!(patch_line('=', None), "<binary>");
    let missing = file_lines(Layer::ProjectBase, "a", &FileComparison::Missing).unwrap();
    assert_eq!(missing, vec!["Only in project-base: a", ""]);
    let differs = FileComparison::Differs { layer_lines: strings(&["x"]), workspace_lines: strings(&["x", "y"]) };
    assert_eq!(
        file_lines(Layer::ProjectBase, "a", &differs).unwrap(),
        vec!["--- a/a (layer)", "+++ b/a (workspace)", " x", "\u{1b}[32m+y\u{1b}[0m", ""]
    );
    assert!(file_lines(Layer::ProjectBase, "a", &FileComparison::Same).unwrap().is_empty());
    let (head, tail) = workspace_diff_frame(Layer::GlobalBase, false);
    assert_eq!(head, vec!["Comparing workspace vs global-base", ""]);
    assert_eq!(tail, vec!["No differences between workspace and global-base"]);
}

#[test]
fn text_helpers() {
    assert_eq!(trim(" \t a b \n"), "a b");
    assert_eq!(trim("\u{3000}x\u{85}"), "x");
    assert_eq!(trim("   "), "");
    assert_eq!(pad_right("ab", 4), "ab  ");
    assert_eq!(pad_right("abcde", 4), "abcde");
    assert_eq!(pad_left("7", 2), " 7");
}
