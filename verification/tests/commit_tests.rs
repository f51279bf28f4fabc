//! Tests of the commit pipeline, the pre-commit validation and the audit
//! record.

use jin::commit::audit::{get_audit_dir, AuditContext, AuditEntry, LayerNumber};
use jin::commit::pipeline::{CommitConfig, CommitPipeline, CommitResult, PipelineStep};
use jin::commit::validate::{
    validate_staging_index, FileChecks, GitTracking, ValidationError, ValidationErrorType,
    ValidationResult, ValidationWarning,
};
use jin::model::error::JinError;
use jin::model::layer::Layer;
use jin::staging::index::{StagedEntry, StagingIndex};

fn dry_result(step: PipelineStep) -> CommitResult {
    match step {
        PipelineStep::DryRun(r) => r,
        PipelineStep::Commit(_) => panic!("expected a dry run"),
    }
}

#[test]
fn test_commit_config_new() {
    let config = CommitConfig::new("Test commit".to_string());
    assert_eq!(config.message, "Test commit");
    assert!(!config.dry_run);
}

#[test]
fn test_commit_config_dry_run() {
    let config = CommitConfig::new("Test".to_string()).dry_run(true);
    assert!(config.dry_run);
}

#[test]
fn test_commit_pipeline_empty() {
    let staging = StagingIndex::new();
    let mut pipeline = CommitPipeline::new(staging);
    let config = CommitConfig::new("Empty commit".to_string());

    let result = pipeline.execute(&config);
    assert!(result.is_err());
    if let Err(JinError::Other(msg)) = result {
        assert_eq!(msg, "Nothing to commit");
    }
}

#[test]
fn test_commit_pipeline_with_entries_dry_run() {
    let mut staging = StagingIndex::new();
    staging.add(StagedEntry::new(
        "test.json".to_string(),
        Layer::ProjectBase,
        "hash123".to_string(),
    ));

    let mut pipeline = CommitPipeline::new(staging);
    let config = CommitConfig::new("Test commit".to_string()).dry_run(true);

    let result = dry_result(pipeline.execute(&config).unwrap());
    assert_eq!(result.file_count, 1);
    assert!(result.committed_layers.contains(&Layer::ProjectBase));
    assert!(result.commit_hashes.is_empty());
}

#[test]
fn test_dry_run_mode() {
    let mut staging = StagingIndex::new();
    staging.add(StagedEntry::new(
        "file1.json".to_string(),
        Layer::GlobalBase,
        "hash1".to_string(),
    ));
    staging.add(StagedEntry::new(
        "file2.json".to_string(),
        Layer::ModeBase,
        "hash2".to_string(),
    ));

    let mut pipeline = CommitPipeline::new(staging);
    let config = CommitConfig::new("Dry run test".to_string()).dry_run(true);

    let result = dry_result(pipeline.execute(&config).unwrap());

    assert_eq!(result.file_count, 2);
    assert_eq!(result.committed_layers.len(), 2);
    assert!(result.commit_hashes.is_empty());
}

#[test]
fn test_abort() {
    let staging = StagingIndex::new();
    let mut pipeline = CommitPipeline::new(staging);
    let result = pipeline.abort();
    assert!(result.is_ok());
}

#[test]
fn test_invalid_content_hash() {
    let entry = StagedEntry::new(
        "file.json".to_string(),
        Layer::GlobalBase,
        "invalid_hash".to_string(),
    );
    let entries = vec![entry];
    let result = CommitPipeline::build_layer_tree(&entries);
    assert!(result.is_err());
    if let Err(JinError::Transaction(msg)) = result {
        assert!(msg.contains("Invalid content hash"));
    } else {
        panic!("expected a transaction error");
    }
}

#[test]
fn build_layer_tree_leaves_out_deletions() {
    let keep = StagedEntry::new(
        "keep.json".to_string(),
        Layer::ProjectBase,
        "3b18e512dba79e4c8300dd08aeb37f8e728b8dad".to_string(),
    );
    let gone = StagedEntry::delete("delete.json".to_string(), Layer::ProjectBase);
    let files = CommitPipeline::build_layer_tree(&vec![keep, gone]).unwrap();
    assert_eq!(
        files,
        vec![(
            "keep.json".to_string(),
            "3b18e512dba79e4c8300dd08aeb37f8e728b8dad".to_string()
        )]
    );
}

#[test]
fn build_layer_tree_of_only_deletions_is_empty() {
    let a = StagedEntry::delete("file1.json".to_string(), Layer::ProjectBase);
    let b = StagedEntry::delete("file2.json".to_string(), Layer::ProjectBase);
    assert!(CommitPipeline::build_layer_tree(&vec![a, b]).unwrap().is_empty());
}

#[test]
fn commit_plan_groups_entries_by_layer_in_precedence_order() {
    let mut staging = StagingIndex::new();
    staging.add(StagedEntry::new("p.json".to_string(), Layer::ProjectBase, "abc".to_string()));
    staging.add(StagedEntry::new("g.json".to_string(), Layer::GlobalBase, "def".to_string()));
    staging.add(StagedEntry::new("q.json".to_string(), Layer::ProjectBase, "0123".to_string()));
    let mut pipeline = CommitPipeline::new(staging);
    let config = CommitConfig::new("m".to_string());
    match pipeline.execute(&config).unwrap() {
        PipelineStep::Commit(plans) => {
            assert_eq!(plans.len(), 2);
            assert_eq!(plans[0].layer, Layer::GlobalBase);
            assert_eq!(plans[0].files, vec![("g.json".to_string(), "def".to_string())]);
            assert_eq!(plans[1].layer, Layer::ProjectBase);
            assert_eq!(
                plans[1].files,
                vec![
                    ("p.json".to_string(), "abc".to_string()),
                    ("q.json".to_string(), "0123".to_string())
                ]
            );
        }
        PipelineStep::DryRun(_) => panic!("expected a commit plan"),
    }
    assert_eq!(pipeline.staging().len(), 3);
}

#[test]
fn complete_clears_staging() {
    let mut staging = StagingIndex::new();
    staging.add(StagedEntry::new("p.json".to_string(), Layer::ProjectBase, "abc".to_string()));
    let mut pipeline = CommitPipeline::new(staging);
    let result = pipeline.complete(
        vec![Layer::ProjectBase],
        1,
        vec![(Layer::ProjectBase, "0123abcd".to_string())],
    );
    assert!(pipeline.staging().is_empty());
    assert_eq!(result.file_count, 1);
    assert_eq!(result.commit_hashes.len(), 1);
}

#[test]
fn dry_run_report_lists_layers_and_files() {
    let mut staging = StagingIndex::new();
    staging.add(StagedEntry::new("a.json".to_string(), Layer::ModeBase, "1".to_string()));
    let mut pipeline = CommitPipeline::new(staging);
    let result = dry_result(pipeline.execute(&CommitConfig::new("m".to_string()).dry_run(true)).unwrap());
    let lines = pipeline.dry_run_report(&result);
    assert_eq!(
        lines,
        vec![
            "Would commit 1 files to 1 layers:".to_string(),
            "  mode-base (2): 1 files".to_string(),
            "    a.json".to_string()
        ]
    );
}

#[test]
fn test_validation_result_new() {
    let result = ValidationResult::new();
    assert!(result.is_valid());
    assert!(result.errors.is_empty());
    assert!(result.warnings.is_empty());
}

#[test]
fn test_validation_result_default() {
    let result = ValidationResult::default();
    assert!(result.is_valid());
}

#[test]
fn test_validation_result_is_valid_true() {
    let result = ValidationResult::new();
    assert!(result.is_valid());
}

#[test]
fn test_validation_result_is_valid_false() {
    let mut result = ValidationResult::new();
    result.errors.push(ValidationError::new(
        "test.txt".to_string(),
        ValidationErrorType::SymlinkNotSupported,
    ));
    assert!(!result.is_valid());
}

#[test]
fn test_validation_error_new() {
    let error = ValidationError::new(
        "config.json".to_string(),
        ValidationErrorType::BinaryFileNotSupported,
    );
    assert_eq!(error.path, "config.json");
    assert_eq!(error.error_type, ValidationErrorType::BinaryFileNotSupported);
}

#[test]
fn test_validation_warning_new() {
    let warning = ValidationWarning::new("config.json".to_string(), "File is very large".to_string());
    assert_eq!(warning.path, "config.json");
    assert_eq!(warning.message, "File is very large");
}

fn clean_file() -> FileChecks {
    FileChecks {
        is_symlink: Some(false),
        content: Some(b"This is plain text".to_vec()),
        tracking: GitTracking::Status { worktree_new: true, empty: false },
        size: Some(18),
    }
}

#[test]
fn validation_reports_each_rule_in_order() {
    let mut staging = StagingIndex::new();
    for name in ["ok.txt", "link.txt", "binary.bin", "tracked.txt", "large.txt", "norepo.txt"] {
        staging.add(StagedEntry::new(name.to_string(), Layer::ProjectBase, "abc".to_string()));
    }
    let mut link = clean_file();
    link.is_symlink = Some(true);
    let mut binary = clean_file();
    binary.content = Some(b"Text\x00with\x00null\x00bytes".to_vec());
    let mut in_git = clean_file();
    in_git.tracking = GitTracking::Status { worktree_new: false, empty: false };
    let mut large = clean_file();
    large.size = Some(10_000_001);
    let mut norepo = clean_file();
    norepo.tracking = GitTracking::NoRepository;
    let checks = vec![clean_file(), link, binary, in_git, large, norepo];
    let result = validate_staging_index(&staging, &checks).unwrap();
    let got: Vec<(String, ValidationErrorType)> =
        result.errors.iter().map(|e| (e.path.clone(), e.error_type)).collect();
    assert_eq!(
        got,
        vec![
            ("link.txt".to_string(), ValidationErrorType::SymlinkNotSupported),
            ("binary.bin".to_string(), ValidationErrorType::BinaryFileNotSupported),
            ("tracked.txt".to_string(), ValidationErrorType::GitTrackedFile),
            ("large.txt".to_string(), ValidationErrorType::FileSizeLimit),
            ("norepo.txt".to_string(), ValidationErrorType::GitTrackedFile),
        ]
    );
    assert!(!result.is_valid());
}

#[test]
fn validation_accepts_files_at_the_limit_and_unknown_status() {
    let mut staging = StagingIndex::new();
    staging.add(StagedEntry::new("a.txt".to_string(), Layer::ProjectBase, "abc".to_string()));
    let mut c = clean_file();
    c.size = Some(10_000_000);
    c.tracking = GitTracking::Unknown;
    let result = validate_staging_index(&staging, &vec![c]).unwrap();
    assert!(result.is_valid());
}

#[test]
fn test_layer_number_all_variants() {
    assert_eq!(Layer::GlobalBase.layer_number(), 1);
    assert_eq!(Layer::ModeBase.layer_number(), 2);
    assert_eq!(Layer::ModeScope.layer_number(), 3);
    assert_eq!(Layer::ModeScopeProject.layer_number(), 4);
    assert_eq!(Layer::ModeProject.layer_number(), 5);
    assert_eq!(Layer::ScopeBase.layer_number(), 6);
    assert_eq!(Layer::ProjectBase.layer_number(), 7);
    assert_eq!(Layer::UserLocal.layer_number(), 8);
    assert_eq!(Layer::WorkspaceActive.layer_number(), 9);
}

#[test]
fn test_audit_context_new() {
    let context = AuditContext {
        active_mode: Some("helix".to_string()),
        active_scope: Some("python".to_string()),
    };

    assert_eq!(context.active_mode, Some("helix".to_string()));
    assert_eq!(context.active_scope, Some("python".to_string()));
}

#[test]
fn test_audit_context_none() {
    let context = AuditContext {
        active_mode: None,
        active_scope: None,
    };

    assert!(context.active_mode.is_none());
    assert!(context.active_scope.is_none());
}

#[test]
fn test_audit_entry_new() {
    let entry = AuditEntry::new(
        "user".to_string(),
        "myproject".to_string(),
        Some("helix".to_string()),
        Some("python".to_string()),
        Layer::GlobalBase,
        vec!["config.json".to_string()],
        "0000000000000000000000000000000000000000".to_string(),
        "abc1230000000000000000000000000000000000".to_string(),
        Some("helix".to_string()),
        Some("python".to_string()),
    );
    assert_eq!(entry.user, "user");
    assert_eq!(entry.project, "myproject");
    assert_eq!(entry.layer, 1);
    assert_eq!(entry.files, vec!["config.json".to_string()]);
    assert_eq!(entry.context.active_mode, Some("helix".to_string()));
    assert!(!entry.timestamp.is_empty());
}

#[test]
fn audit_dir_is_under_the_repository() {
    assert_eq!(get_audit_dir("/home/u/.jin/repo"), "/home/u/.jin/repo/.audit");
    assert_eq!(get_audit_dir("/home/u/.jin/repo/"), "/home/u/.jin/repo/.audit");
}

#[test]
fn content_hash_too_long_is_refused_with_libgit2_message() {
    let entries = vec![StagedEntry::new("f.json".to_string(), Layer::GlobalBase, "a".repeat(41))];
    match CommitPipeline::build_layer_tree(&entries) {
        Err(JinError::Transaction(msg)) => {
            assert_eq!(msg, "Invalid content hash for f.json: unable to parse OID - too long")
        }
        other => panic!("unexpected {:?}", other),
    }
}
