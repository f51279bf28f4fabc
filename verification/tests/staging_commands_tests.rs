//! Tests of the commands that change the staging index: add, rm, mv,
//! import, export and reset.

use jin::cli::args::{AddArgs, ExportArgs, ImportArgs, MvArgs, ResetArgs, RmArgs};
use jin::commands::common::FileFacts;
use jin::commands::{add, export, import_cmd, mv, reset, rm};
use jin::model::config::ProjectContext;
use jin::model::error::JinError;
use jin::model::layer::Layer;
use jin::staging::index::{StagedEntry, StagedOperation, StagingIndex};

fn no_context() -> Result<ProjectContext, JinError> {
    Err(JinError::NotInitialized)
}

fn default_context() -> Result<ProjectContext, JinError> {
    Ok(ProjectContext::default())
}

fn mode_context() -> ProjectContext {
    ProjectContext { mode: Some("helix".to_string()), ..Default::default() }
}

fn plain_file() -> FileFacts {
    FileFacts {
        exists: true,
        is_dir: false,
        is_symlink: Ok(false),
        git_tracked: Ok(false),
        git_modified: Ok(false),
    }
}

#[test]
fn test_format_layer_name_with_context() {
    let empty_context = ProjectContext::default();
    let mode_context = ProjectContext {
        mode: Some("helix".to_string()),
        ..Default::default()
    };

    assert_eq!(
        add::format_layer_name_with_context(Layer::GlobalBase, &empty_context),
        "global"
    );
    assert_eq!(
        add::format_layer_name_with_context(Layer::ModeBase, &mode_context),
        "'helix' (mode)"
    );
    assert_eq!(
        add::format_layer_name_with_context(Layer::ProjectBase, &empty_context),
        "project"
    );
}

#[test]
fn add_test_execute_no_files() {
    let args = AddArgs {
        files: vec![],
        mode: false,
        scope: None,
        project: false,
        global: false,
        local: false,
    };
    let result = add::execute(&args, default_context());
    assert!(result.is_err());
}

#[test]
fn add_test_execute_project_without_mode() {
    let args = AddArgs {
        files: vec!["file.txt".to_string()],
        mode: false,
        scope: None,
        project: true,
        global: false,
        local: false,
    };
    let result = add::execute(&args, default_context());
    assert!(result.is_err());
}

#[test]
fn add_test_execute_global_with_mode() {
    let args = AddArgs {
        files: vec!["file.txt".to_string()],
        mode: true,
        scope: None,
        project: false,
        global: true,
        local: false,
    };
    let result = add::execute(&args, default_context());
    assert!(result.is_err());
}

#[test]
fn add_routes_scope_and_mode_flags() {
    let args = AddArgs {
        files: vec!["a".to_string()],
        mode: true,
        scope: Some("lang:rust".to_string()),
        project: false,
        global: false,
        local: false,
    };
    let plan = add::execute(&args, Ok(mode_context())).unwrap();
    assert_eq!(plan.layer, Layer::ModeScope);
    let no_mode = add::execute(&args, default_context());
    assert!(matches!(no_mode, Err(JinError::NoActiveContext { .. })));
    assert!(matches!(add::execute(&args, no_context()), Err(JinError::NotInitialized)));
}

#[test]
fn test_validate_file_not_found() {
    let mut facts = plain_file();
    facts.exists = false;
    let result = add::validate_file("/nonexistent/file.txt", facts);
    assert!(matches!(result, Err(JinError::NotFound(_))));
}

#[test]
fn test_validate_file_is_directory() {
    let mut facts = plain_file();
    facts.is_dir = true;
    let result = add::validate_file("/tmp", facts);
    assert!(result.is_err());
}

#[test]
fn add_validation_rejects_symlinks_and_tracked_files() {
    let mut link = plain_file();
    link.is_symlink = Ok(true);
    assert!(matches!(add::validate_file("l", link), Err(JinError::Symlink { .. })));
    let mut in_git = plain_file();
    in_git.git_tracked = Ok(true);
    assert!(matches!(add::validate_file("t", in_git), Err(JinError::GitTracked { .. })));
    assert!(add::validate_file("f", plain_file()).is_ok());
}

#[test]
fn add_summary_and_failure() {
    let plan = add::execute(
        &AddArgs { files: vec!["a".to_string()], mode: false, scope: None, project: false, global: false, local: false },
        default_context(),
    )
    .unwrap();
    let (lines, outcome) = add::finish(&plan, 2, 1);
    assert_eq!(lines, vec!["Staged 2 file(s) to project layer"]);
    assert!(outcome.is_ok());
    let (lines, outcome) = add::finish(&plan, 0, 3);
    assert!(lines.is_empty());
    match outcome {
        Err(JinError::StagingFailed { path, reason }) => {
            assert_eq!(path, "multiple files");
            assert_eq!(reason, "3 files failed to stage");
        }
        _ => panic!("expected a staging failure"),
    }
}

fn rm_args(files: Vec<&str>) -> RmArgs {
    RmArgs {
        files: files.into_iter().map(|s| s.to_string()).collect(),
        mode: false,
        scope: None,
        project: false,
        global: false,
        local: false,
        force: false,
        dry_run: false,
    }
}

#[test]
fn rm_test_execute_no_files() {
    let args = rm_args(vec![]);
    let result = rm::execute(&args, default_context());
    assert!(result.is_err());
}

#[test]
fn rm_test_execute_not_initialized() {
    let args = rm_args(vec!["file.txt"]);
    let result = rm::execute(&args, no_context());
    assert!(matches!(result, Err(JinError::NotInitialized)));
}

#[test]
fn rm_test_format_layer_name() {
    assert_eq!(rm::format_layer_name(Layer::GlobalBase), "global-base");
    assert_eq!(rm::format_layer_name(Layer::ModeBase), "mode-base");
    assert_eq!(rm::format_layer_name(Layer::ProjectBase), "project-base");
}

#[test]
fn test_unstage_file_not_in_staging() {
    let mut staging = StagingIndex::new();
    let result = rm::unstage_file(&mut staging, "/project/test.json", Layer::ProjectBase);
    assert!(matches!(result, Err(JinError::NotFound(_))));
}

#[test]
fn test_unstage_file_success() {
    let mut staging = StagingIndex::new();
    let entry = StagedEntry {
        path: "/project/test.json".to_string(),
        target_layer: Layer::ProjectBase,
        content_hash: "abc123".to_string(),
        mode: 0o644,
        operation: StagedOperation::AddOrModify,
    };
    staging.add(entry);

    let result = rm::unstage_file(&mut staging, "/project/test.json", Layer::ProjectBase);
    assert!(result.is_ok());

    let delete_entry = staging.get("/project/test.json");
    assert!(delete_entry.is_some());
    assert!(delete_entry.unwrap().is_delete());
}

#[test]
fn test_execute_dry_run() {
    let mut staging = StagingIndex::new();
    staging.add(StagedEntry::new("/p/test.json".to_string(), Layer::ProjectBase, "abc123".to_string()));
    let files = vec!["/p/test.json".to_string(), "/p/other.json".to_string()];
    let (out, err) = rm::dry_run(&files, &staging, true, &vec![true, false]);
    assert_eq!(out, vec!["Would remove: /p/test.json (and from workspace)"]);
    assert_eq!(err, vec!["Warning: /p/other.json not in staging"]);
    let (out, _) = rm::dry_run(&files, &staging, false, &vec![true, false]);
    assert_eq!(out, vec!["Would remove: /p/test.json (from staging only)"]);
    assert!(staging.get("/p/test.json").is_some());
}

#[test]
fn rm_test_execute_project_without_mode() {
    let mut args = rm_args(vec!["file.txt"]);
    args.project = true;
    let result = rm::execute(&args, default_context());
    assert!(result.is_err());
}

#[test]
fn rm_test_execute_global_with_mode() {
    let mut args = rm_args(vec!["file.txt"]);
    args.mode = true;
    args.global = true;
    let result = rm::execute(&args, default_context());
    assert!(result.is_err());
}

#[test]
fn rm_never_asks_without_force() {
    let mut staging = StagingIndex::new();
    staging.add(StagedEntry::new("a".to_string(), Layer::ProjectBase, "1".to_string()));
    let files = vec!["a".to_string()];
    assert!(!rm::needs_confirmation(&files, &staging, false, &vec![true]));
    assert!(!rm::needs_confirmation(&files, &staging, true, &vec![true]));
    let (lines, outcome) = rm::finish(Layer::ProjectBase, 1, 0);
    assert_eq!(lines, vec!["Removed 1 file(s) from project-base layer"]);
    assert!(outcome.is_ok());
}

fn mv_args(files: Vec<&str>) -> MvArgs {
    MvArgs {
        files: files.into_iter().map(|s| s.to_string()).collect(),
        mode: false,
        scope: None,
        project: false,
        global: false,
        local: false,
        force: false,
        dry_run: false,
    }
}

#[test]
fn mv_test_execute_no_files() {
    let result = mv::execute(&mv_args(vec![]), default_context());
    assert!(result.is_err());
}

#[test]
fn test_execute_odd_number_of_files() {
    let result = mv::execute(&mv_args(vec!["src.txt", "dst.txt", "extra.txt"]), default_context());
    assert!(result.is_err());
}

#[test]
fn mv_test_execute_not_initialized() {
    let result = mv::execute(&mv_args(vec!["src.txt", "dst.txt"]), no_context());
    assert!(matches!(result, Err(JinError::NotInitialized)));
}

#[test]
fn mv_test_format_layer_name() {
    assert_eq!(mv::format_layer_name(Layer::GlobalBase), "global-base");
    assert_eq!(mv::format_layer_name(Layer::ModeBase), "mode-base");
    assert_eq!(mv::format_layer_name(Layer::ProjectBase), "project-base");
}

#[test]
fn mv_test_execute_project_without_mode() {
    let mut args = mv_args(vec!["src.txt", "dst.txt"]);
    args.project = true;
    assert!(mv::execute(&args, default_context()).is_err());
}

#[test]
fn mv_test_execute_global_with_mode() {
    let mut args = mv_args(vec!["src.txt", "dst.txt"]);
    args.mode = true;
    args.global = true;
    assert!(mv::execute(&args, default_context()).is_err());
}

#[test]
fn test_move_file_not_staged() {
    let mut staging = StagingIndex::new();
    let result = mv::move_file(&mut staging, "src.txt", "dst.txt", Layer::ProjectBase, false, true);
    assert!(matches!(result, Err(JinError::NotFound(_))));
}

#[test]
fn test_move_file_destination_exists() {
    let mut staging = StagingIndex::new();
    staging.add(StagedEntry::new("src.txt".to_string(), Layer::ProjectBase, "a".to_string()));
    staging.add(StagedEntry::new("dst.txt".to_string(), Layer::ProjectBase, "b".to_string()));
    let result = mv::move_file(&mut staging, "src.txt", "dst.txt", Layer::ProjectBase, false, true);
    assert!(matches!(result, Err(JinError::Other(_))));
    assert_eq!(staging.len(), 2);
}

#[test]
fn test_move_file_success() {
    let mut staging = StagingIndex::new();
    let mut e = StagedEntry::new("src.txt".to_string(), Layer::ProjectBase, "abc".to_string());
    e.mode = 0o100755;
    staging.add(e);
    let result = mv::move_file(&mut staging, "src.txt", "dst.txt", Layer::ProjectBase, false, true);
    assert!(matches!(result, Ok(false)));
    assert!(staging.get("src.txt").is_none());
    let moved = staging.get("dst.txt").unwrap();
    assert_eq!(moved.content_hash, "abc");
    assert_eq!(moved.mode, 0o100755);
    assert_eq!(moved.operation, StagedOperation::Rename);
}

#[test]
fn mv_dry_run_and_confirmation() {
    let mut staging = StagingIndex::new();
    staging.add(StagedEntry::new("a".to_string(), Layer::ProjectBase, "1".to_string()));
    let files = vec!["a".to_string(), "b".to_string(), "c".to_string(), "d".to_string()];
    let (out, err) = mv::dry_run(&files, &staging, false, &vec![true, false]);
    assert_eq!(out, vec!["Would move: a -> b (from staging only)"]);
    assert_eq!(err, vec!["Warning: c not in staging"]);
    assert!(mv::needs_confirmation(&files, &staging, false, &vec![true, false]));
    assert!(!mv::needs_confirmation(&files, &staging, true, &vec![true, false]));
}

#[test]
fn import_cmd_test_format_layer_name() {
    assert_eq!(import_cmd::format_layer_name(Layer::GlobalBase), "global-base");
    assert_eq!(import_cmd::format_layer_name(Layer::ModeBase), "mode-base");
    assert_eq!(import_cmd::format_layer_name(Layer::ProjectBase), "project-base");
}

#[test]
fn import_cmd_test_execute_no_files() {
    let args = ImportArgs {
        files: vec![],
        force: false,
        mode: false,
        scope: None,
        project: false,
        global: false,
        local: false,
    };
    let result = import_cmd::execute(&args, default_context());
    assert!(result.is_err());
}

#[test]
fn import_goes_to_the_project_layer() {
    let args = ImportArgs {
        files: vec!["a".to_string()],
        force: false,
        mode: true,
        scope: None,
        project: false,
        global: false,
        local: false,
    };
    assert_eq!(import_cmd::execute(&args, default_context()).unwrap(), Layer::ProjectBase);
}

#[test]
fn test_validate_import_file_not_found() {
    let mut facts = plain_file();
    facts.exists = false;
    let result = import_cmd::validate_import_file("/nonexistent/file.txt", facts, false);
    assert!(matches!(result, Err(JinError::NotFound(_))));
}

#[test]
fn test_validate_import_file_is_directory() {
    let mut facts = plain_file();
    facts.is_dir = true;
    assert!(import_cmd::validate_import_file("/tmp", facts, false).is_err());
}

#[test]
fn test_validate_import_file_symlink() {
    let mut facts = plain_file();
    facts.is_symlink = Ok(true);
    let result = import_cmd::validate_import_file("link.txt", facts, false);
    assert!(matches!(result, Err(JinError::Symlink { .. })));
}

#[test]
fn import_requires_tracked_unmodified_files() {
    let untracked = plain_file();
    match import_cmd::validate_import_file("a.txt", untracked, false) {
        Err(JinError::Other(m)) => assert_eq!(m, "a.txt is not tracked by Git. Use `jin add` instead."),
        _ => panic!("expected an error"),
    }
    let mut modified = plain_file();
    modified.git_tracked = Ok(true);
    modified.git_modified = Ok(true);
    assert!(import_cmd::validate_import_file("a.txt", modified, false).is_err());
    let mut modified = plain_file();
    modified.git_tracked = Ok(true);
    modified.git_modified = Ok(true);
    assert!(import_cmd::validate_import_file("a.txt", modified, true).is_ok());
}

#[test]
fn export_test_execute_no_files() {
    let args = ExportArgs { files: vec![] };
    let result = export::execute(&args);
    assert!(result.is_err());
    match result {
        Err(JinError::Other(m)) => assert!(m.contains("No files")),
        _ => panic!("expected an error"),
    }
}

#[test]
fn export_failure_names_errors_and_rollback() {
    let e = export::export_failure(&vec!["a: x".to_string(), "b: y".to_string()], 3);
    match e {
        JinError::Other(m) => assert_eq!(m, "Export failed: a: x, b: y. 3 file(s) were rolled back."),
        _ => panic!("expected Other"),
    }
    assert_eq!(export::summary(0).len(), 0);
    assert_eq!(
        export::summary(2)[0],
        "Exported 2 file(s) to Git. Files are now tracked by Git and removed from Jin."
    );
}

fn reset_args(mode: bool, scope: Option<&str>, project: bool) -> ResetArgs {
    ResetArgs {
        soft: false,
        mixed: false,
        hard: false,
        mode,
        scope: scope.map(|s| s.to_string()),
        project,
        global: false,
        force: false,
    }
}

#[test]
fn reset_test_execute_not_initialized() {
    let staging = StagingIndex::new();
    let result = reset::execute(&reset_args(false, None, false), no_context(), &staging);
    assert!(matches!(result, Err(JinError::NotInitialized)));
}

#[test]
fn test_determine_target_layer_default() {
    let context = ProjectContext::default();
    let result = reset::determine_target_layer(&reset_args(false, None, false), &context).unwrap();
    assert_eq!(result, Layer::ProjectBase);
}

#[test]
fn test_determine_target_layer_mode() {
    let mut context = ProjectContext::default();
    context.mode = Some("helix".to_string());
    let result = reset::determine_target_layer(&reset_args(true, None, false), &context).unwrap();
    assert_eq!(result, Layer::ModeBase);
}

#[test]
fn test_determine_target_layer_mode_scope() {
    let mut context = ProjectContext::default();
    context.mode = Some("helix".to_string());
    let result =
        reset::determine_target_layer(&reset_args(true, Some("lang:rust"), false), &context).unwrap();
    assert_eq!(result, Layer::ModeScope);
}

#[test]
fn test_determine_target_layer_mode_project() {
    let mut context = ProjectContext::default();
    context.mode = Some("helix".to_string());
    let result = reset::determine_target_layer(&reset_args(true, None, true), &context).unwrap();
    assert_eq!(result, Layer::ModeProject);
}

#[test]
fn test_determine_target_layer_project_without_mode() {
    let context = ProjectContext::default();
    let result = reset::determine_target_layer(&reset_args(false, None, true), &context);
    assert!(result.is_err());
}

#[test]
fn test_reset_staging_empty() {
    let mut staging = StagingIndex::new();
    let result = reset::reset_staging(&mut staging, Layer::ProjectBase);
    assert!(result.is_ok());
    assert!(staging.is_empty());
}

#[test]
fn test_layer_name() {
    assert_eq!(reset::layer_name(Layer::GlobalBase), "global-base");
    assert_eq!(reset::layer_name(Layer::ModeBase), "mode-base");
    assert_eq!(reset::layer_name(Layer::ProjectBase), "project-base");
}

#[test]
fn reset_unstages_only_the_layer() {
    let mut staging = StagingIndex::new();
    staging.add(StagedEntry::new("p1".to_string(), Layer::ProjectBase, "1".to_string()));
    staging.add(StagedEntry::new("g".to_string(), Layer::GlobalBase, "2".to_string()));
    staging.add(StagedEntry::new("p2".to_string(), Layer::ProjectBase, "3".to_string()));
    let plan = reset::execute(&reset_args(false, None, false), default_context(), &staging).unwrap();
    match plan {
        reset::ResetPlan::Reset { mode, layer, count, confirm } => {
            assert_eq!(mode, reset::ResetMode::Mixed);
            assert_eq!(layer, Layer::ProjectBase);
            assert_eq!(count, 2);
            assert!(confirm.is_none());
            let (removed, line) = reset::apply(mode, layer, count, &mut staging);
            assert!(removed.is_empty());
            assert_eq!(line, "Unstaged 2 file(s) (kept in workspace)");
            assert_eq!(staging.len(), 1);
            assert!(staging.get("g").is_some());
        }
        reset::ResetPlan::Nothing(_) => panic!("expected a reset"),
    }
}

#[test]
fn hard_reset_asks_and_returns_the_entries() {
    let mut staging = StagingIndex::new();
    staging.add(StagedEntry::new("p1".to_string(), Layer::ProjectBase, "1".to_string()));
    let mut args = reset_args(false, None, false);
    args.hard = true;
    match reset::execute(&args, default_context(), &staging).unwrap() {
        reset::ResetPlan::Reset { mode, layer, count, confirm } => {
            assert_eq!(
                confirm.unwrap(),
                "This will discard 1 file(s) from staging AND workspace. Type 'yes' to confirm:"
            );
            let (removed, _) = reset::apply(mode, layer, count, &mut staging);
            assert_eq!(removed.len(), 1);
            assert!(staging.is_empty());
        }
        reset::ResetPlan::Nothing(_) => panic!("expected a reset"),
    }
    match reset::execute(&reset_args(false, Some("x"), false), default_context(), &staging).unwrap() {
        reset::ResetPlan::Nothing(m) => assert_eq!(m, "Nothing to reset for layer: scope-base"),
        _ => panic!("expected nothing"),
    }
}

#[test]
fn move_file_moves_workspace_file_only_with_force_and_existing_source() {
    for (force, exists, expected) in [(true, true, true), (true, false, false), (false, true, false)] {
        let mut staging = StagingIndex::new();
        staging.add(StagedEntry::new("src.txt".to_string(), Layer::ProjectBase, "abc".to_string()));
        let result = mv::move_file(&mut staging, "src.txt", "dst.txt", Layer::ProjectBase, force, exists);
        assert!(matches!(result, Ok(b) if b == expected));
        assert!(staging.get("dst.txt").is_some());
    }
}
