//! Tests of the Git-side decisions (merge types, transactions, recovery,
//! credentials), of the layer map, of error messages and of audit records.

use jin::audit::entry::AuditEntry as RecordEntry;
use jin::audit::logger::AuditLogger;
use jin::commit::audit::{get_audit_dir, AuditEntry};
use jin::git::merge::{detect_merge_type, detect_merge_type_with_base, MergeType};
use jin::git::remote::AuthCounter;
use jin::git::transaction::{
    CommitStep, LayerTransaction, LayerUpdate, RecoveryManager, RefRestore, TransactionLog,
    TransactionState,
};
use jin::model::error::JinError;
use jin::model::jinmap::JinMap;
use jin::model::layer::Layer;

const OLD: &str = "1111111111111111111111111111111111111111";
const NEW: &str = "2222222222222222222222222222222222222222";

#[test]
fn test_merge_type_derive_traits() {
    let mt = MergeType::FastForward;
    assert_eq!(format!("{:?}", mt), "FastForward");
    let mt_clone = mt.clone();
    assert_eq!(mt, mt_clone);
    let mt_copy = mt;
    assert_eq!(mt, mt_copy);
    assert_eq!(MergeType::UpToDate, MergeType::UpToDate);
    assert_ne!(MergeType::FastForward, MergeType::Divergent);
}

#[test]
fn test_detect_merge_type_equal() {
    assert_eq!(detect_merge_type(OLD, OLD, (0, 0)), MergeType::UpToDate);
}

#[test]
fn test_detect_merge_type_fast_forward() {
    assert_eq!(detect_merge_type(OLD, NEW, (0, 1)), MergeType::FastForward);
}

#[test]
fn test_detect_merge_type_local_ahead() {
    assert_eq!(detect_merge_type(NEW, OLD, (1, 0)), MergeType::LocalAhead);
}

#[test]
fn test_detect_merge_type_divergent() {
    assert_eq!(detect_merge_type(OLD, NEW, (1, 1)), MergeType::Divergent);
}

#[test]
fn test_detect_merge_type_with_base_equal() {
    assert_eq!(detect_merge_type_with_base(OLD, OLD, true, true), MergeType::UpToDate);
}

#[test]
fn test_detect_merge_type_with_base_fast_forward() {
    assert_eq!(detect_merge_type_with_base(OLD, NEW, true, false), MergeType::FastForward);
}

#[test]
fn test_detect_merge_type_with_base_local_ahead() {
    assert_eq!(detect_merge_type_with_base(NEW, OLD, false, true), MergeType::LocalAhead);
}

#[test]
fn test_detect_merge_type_with_base_divergent() {
    assert_eq!(detect_merge_type_with_base(OLD, NEW, false, false), MergeType::Divergent);
}

#[test]
fn test_auth_counter() {
    let mut counter = AuthCounter::new();
    assert_eq!(counter.get(), 0);

    assert!(counter.increment_and_check(3));
    assert_eq!(counter.get(), 1);

    assert!(counter.increment_and_check(3));
    assert_eq!(counter.get(), 2);

    assert!(counter.increment_and_check(3));
    assert_eq!(counter.get(), 3);

    assert!(!counter.increment_and_check(3));
    assert_eq!(counter.get(), 4);
}

#[test]
fn jinmap_test_jinmap_default() {
    let jinmap = JinMap::default();
    assert_eq!(jinmap.version, 1);
    assert!(jinmap.mappings.is_empty());
    assert_eq!(jinmap.meta.generated_by, "jin");
    assert!(jinmap.meta.last_updated.is_none());
}

#[test]
fn test_jinmap_add_layer_mapping() {
    let mut jinmap = JinMap::default();
    jinmap.add_layer_mapping(
        "refs/jin/layers/mode/helix",
        vec!["file1.txt".to_string(), "file2.txt".to_string()],
    );
    assert_eq!(jinmap.mappings.len(), 1);
    let files = jinmap.get_layer_files("refs/jin/layers/mode/helix").unwrap();
    assert_eq!(files.len(), 2);
    assert!(jinmap.meta.last_updated.is_some());
}

#[test]
fn test_jinmap_add_empty_mapping_removes_entry() {
    let mut jinmap = JinMap::default();
    jinmap.add_layer_mapping("refs/jin/layers/mode/helix", vec!["file.txt".to_string()]);
    assert_eq!(jinmap.mappings.len(), 1);
    jinmap.add_layer_mapping("refs/jin/layers/mode/helix", vec![]);
    assert!(jinmap.mappings.is_empty());
}

#[test]
fn test_jinmap_get_layer_files() {
    let mut jinmap = JinMap::default();
    jinmap.add_layer_mapping("refs/jin/layers/project/test", vec!["config.json".to_string()]);
    let files = jinmap.get_layer_files("refs/jin/layers/project/test");
    assert!(files.is_some());
    assert_eq!(files.unwrap().len(), 1);
    let files = jinmap.get_layer_files("refs/jin/layers/nonexistent");
    assert!(files.is_none());
}

#[test]
fn test_jinmap_layer_refs() {
    let mut jinmap = JinMap::default();
    jinmap.add_layer_mapping("refs/jin/layers/mode/helix", vec!["file.txt".to_string()]);
    jinmap.add_layer_mapping("refs/jin/layers/project/test", vec!["config.json".to_string()]);
    let refs = jinmap.layer_refs();
    assert_eq!(refs.len(), 2);
    let ref_strings: Vec<&str> = refs.iter().map(|s| s.as_str()).collect();
    assert!(ref_strings.contains(&"refs/jin/layers/mode/helix"));
    assert!(ref_strings.contains(&"refs/jin/layers/project/test"));
}

#[test]
fn test_jinmap_contains_file() {
    let mut jinmap = JinMap::default();
    jinmap.add_layer_mapping(
        "refs/jin/layers/mode/helix",
        vec![".helix/config.json".to_string(), "prompt.md".to_string()],
    );
    assert!(jinmap.contains_file(".helix/config.json"));
    assert!(jinmap.contains_file("prompt.md"));
    assert!(!jinmap.contains_file("nonexistent.txt"));
}

#[test]
fn test_jinmap_total_file_count() {
    let mut jinmap = JinMap::default();
    assert_eq!(jinmap.total_file_count(), 0);
    jinmap.add_layer_mapping(
        "refs/jin/layers/mode/helix",
        vec!["file1.txt".to_string(), "file2.txt".to_string()],
    );
    assert_eq!(jinmap.total_file_count(), 2);
    jinmap.add_layer_mapping("refs/jin/layers/project/test", vec!["config.json".to_string()]);
    assert_eq!(jinmap.total_file_count(), 3);
}

#[test]
fn jinmap_replacing_a_layer_keeps_the_others() {
    let mut jinmap = JinMap::default();
    jinmap.add_layer_mapping("refs/jin/layers/global", vec!["a".to_string()]);
    jinmap.add_layer_mapping("refs/jin/layers/project/p", vec!["b".to_string()]);
    jinmap.add_layer_mapping("refs/jin/layers/global", vec!["c".to_string(), "d".to_string()]);
    assert_eq!(jinmap.get_layer_files("refs/jin/layers/global").unwrap(), &vec!["c".to_string(), "d".to_string()]);
    assert_eq!(jinmap.get_layer_files("refs/jin/layers/project/p").unwrap(), &vec!["b".to_string()]);
    assert_eq!(jinmap.total_file_count(), 3);
}

#[test]
fn test_error_display() {
    let err = JinError::NotInitialized;
    assert_eq!(err.to_string(), "Jin not initialized in this project");
}

#[test]
fn test_config_error() {
    let err = JinError::Config("invalid value".to_string());
    assert_eq!(err.to_string(), "Configuration error: invalid value");
}

#[test]
fn test_parse_error() {
    let err = JinError::Parse { format: "JSON".to_string(), message: "unexpected token".to_string() };
    assert_eq!(err.to_string(), "Parse error in JSON: unexpected token");
}

#[test]
fn test_merge_conflict_error() {
    let err = JinError::MergeConflict { path: ".helix/config.json".to_string() };
    assert_eq!(err.to_string(), "Merge conflict in .helix/config.json");
}

#[test]
fn test_no_active_context_error() {
    let err = JinError::NoActiveContext { context_type: "mode".to_string() };
    assert_eq!(err.to_string(), "No active mode");
}

#[test]
fn test_git_tracked_error() {
    let err = JinError::GitTracked { path: ".helix/config.json".to_string() };
    assert_eq!(
        err.to_string(),
        "File is tracked by Git: .helix/config.json. Use `jin import` instead."
    );
}

#[test]
fn test_symlink_error() {
    let err = JinError::Symlink { path: "link.txt".to_string() };
    assert_eq!(err.to_string(), "Symlinks are not supported: link.txt");
}

#[test]
fn test_staging_failed_error() {
    let err = JinError::StagingFailed { path: "file.json".to_string(), reason: "cannot read file".to_string() };
    assert_eq!(err.to_string(), "Staging failed for file.json: cannot read file");
}

#[test]
fn test_detached_workspace_error() {
    let err = JinError::DetachedWorkspace {
        workspace_commit: Some("abc123def".to_string()),
        expected_layer_ref: "refs/jin/layers/modes/helix/scopes/default".to_string(),
        details: "Workspace files have been modified outside of Jin operations".to_string(),
        recovery_hint: "Run 'jin reset --hard refs/jin/layers/modes/helix/scopes/default' to restore"
            .to_string(),
    };
    let msg = err.to_string();
    assert!(msg.contains("Workspace is in a detached state."));
    assert!(msg.contains("Workspace files have been modified outside of Jin operations"));
    assert!(msg.contains("Recovery:"));
    assert!(msg.contains("Run 'jin reset --hard refs/jin/layers/modes/helix/scopes/default' to restore"));
}

#[test]
fn test_detached_workspace_error_no_commit() {
    let err = JinError::DetachedWorkspace {
        workspace_commit: None,
        expected_layer_ref: "<unknown>".to_string(),
        details: "Workspace metadata references commits that no longer exist".to_string(),
        recovery_hint: "Run 'jin apply' to rebuild from current active context".to_string(),
    };
    let msg = err.to_string();
    assert!(msg.contains("Workspace is in a detached state."));
    assert!(msg.contains("Workspace metadata references commits that no longer exist"));
    assert!(msg.contains("Recovery:"));
    assert!(msg.contains("Run 'jin apply' to rebuild from current active context"));
}

#[test]
fn test_detached_workspace_error_deleted_mode() {
    let err = JinError::DetachedWorkspace {
        workspace_commit: Some("xyz789".to_string()),
        expected_layer_ref: "mode:production".to_string(),
        details: "Active context references deleted mode: production".to_string(),
        recovery_hint: "Run 'jin mode activate <valid-mode>' to set a new active mode".to_string(),
    };
    let msg = err.to_string();
    assert!(msg.contains("Workspace is in a detached state."));
    assert!(msg.contains("Active context references deleted mode: production"));
    assert!(msg.contains("Recovery:"));
    assert!(msg.contains("Run 'jin mode activate <valid-mode>' to set a new active mode"));
}

fn begin(message: &str) -> LayerTransaction {
    LayerTransaction::begin_with_path(false, message.to_string(), "/tmp/base".to_string()).unwrap()
}

#[test]
fn test_layer_transaction_empty() {
    let mut tx = begin("empty transaction");
    assert_eq!(tx.update_count(), 0);
    assert!(matches!(tx.commit(), CommitStep::Done));
    assert_eq!(tx.log.state, TransactionState::Committed);
}

#[test]
fn test_layer_transaction_single_layer() {
    let mut tx = begin("single layer test");
    tx.add_layer_update(Layer::GlobalBase, None, None, None, None, NEW.to_string());
    assert_eq!(tx.update_count(), 1);
    match tx.commit() {
        CommitStep::Apply(targets) => {
            assert_eq!(targets.len(), 1);
            assert_eq!(targets[0].ref_path, "refs/jin/layers/global");
            assert_eq!(targets[0].new_oid, NEW);
        }
        other => panic!("unexpected step: {:?}", other),
    }
    assert_eq!(tx.log.state, TransactionState::Prepared);
    assert!(tx.finish(true).is_empty());
    assert_eq!(tx.log.state, TransactionState::Committed);
}

#[test]
fn test_layer_transaction_multi_layer() {
    let mut tx = begin("multi layer test");
    tx.add_layer_update(Layer::GlobalBase, None, None, None, None, OLD.to_string());
    tx.add_layer_update(Layer::ModeBase, Some("helix"), None, None, None, NEW.to_string());
    assert_eq!(tx.update_count(), 2);
    match tx.commit() {
        CommitStep::Apply(targets) => {
            assert_eq!(targets[0].ref_path, "refs/jin/layers/global");
            assert_eq!(targets[1].ref_path, "refs/jin/layers/mode/helix/_");
            assert_eq!(targets[0].new_oid, OLD);
            assert_eq!(targets[1].new_oid, NEW);
        }
        other => panic!("unexpected step: {:?}", other),
    }
}

#[test]
fn test_layer_transaction_abort() {
    let mut tx = begin("abort test");
    tx.add_layer_update(Layer::GlobalBase, None, None, None, None, NEW.to_string());
    tx.abort();
    assert_eq!(tx.log.state, TransactionState::Aborted);
}

#[test]
fn test_layer_transaction_records_old_oid() {
    let mut tx = begin("update test");
    tx.add_layer_update(Layer::GlobalBase, None, None, None, Some(OLD.to_string()), NEW.to_string());
    assert_eq!(tx.log.updates.len(), 1);
    assert_eq!(tx.log.updates[0].old_oid, Some(OLD.to_string()));
    match tx.commit() {
        CommitStep::Apply(targets) => {
            assert_eq!(targets.len(), 1);
            assert_eq!(targets[0].ref_path, "refs/jin/layers/global");
            assert_eq!(targets[0].new_oid, NEW);
        }
        other => panic!("unexpected step: {:?}", other),
    }
}

#[test]
fn failed_apply_restores_old_refs() {
    let mut tx = begin("failing apply");
    tx.add_layer_update(Layer::GlobalBase, None, None, None, Some(OLD.to_string()), NEW.to_string());
    tx.add_layer_update(Layer::ProjectBase, None, None, Some("app"), None, NEW.to_string());
    assert!(matches!(tx.commit(), CommitStep::Apply(_)));
    let plan = tx.finish(false);
    assert_eq!(tx.log.state, TransactionState::Aborted);
    assert_eq!(plan.len(), 2);
    assert!(matches!(&plan[0], RefRestore::Point { ref_path, oid } if ref_path == "refs/jin/layers/global" && oid == OLD));
    assert!(matches!(&plan[1], RefRestore::Delete { ref_path } if ref_path == "refs/jin/layers/project/app"));
}

#[test]
fn invalid_oid_aborts_commit() {
    let mut tx = begin("bad oid");
    tx.add_layer_update(Layer::GlobalBase, None, None, None, None, "not-hex".to_string());
    match tx.commit() {
        CommitStep::Rollback(JinError::Transaction(msg), plan) => {
            assert_eq!(msg, "Invalid OID not-hex: unable to parse OID - contains invalid characters");
            assert_eq!(plan.len(), 1);
        }
        other => panic!("unexpected step: {:?}", other),
    }
    assert_eq!(tx.log.state, TransactionState::Aborted);
}

#[test]
fn test_concurrent_transaction_blocked() {
    let result = LayerTransaction::begin_with_path(true, "second transaction".to_string(), "/tmp/base".to_string());
    match result {
        Err(JinError::Transaction(msg)) => assert!(msg.contains("Incomplete transaction exists")),
        other => panic!("Expected Transaction error, got {:?}", other),
    }
}

#[test]
fn test_recovery_detect_incomplete() {
    assert!(RecoveryManager::detect_at("/tmp/base", None).is_none());
    let log = TransactionLog::with_base_path("incomplete test".to_string(), "/tmp/base".to_string());
    let incomplete = RecoveryManager::detect_at("/tmp/base", Some(log)).unwrap();
    assert_eq!(incomplete.message(), "incomplete test");
    assert_eq!(incomplete.state(), TransactionState::Pending);
}

#[test]
fn test_recovery_rollback() {
    let mut log = TransactionLog::with_base_path("interrupted transaction".to_string(), "/tmp/base".to_string());
    log.updates.push(LayerUpdate::new(
        Layer::GlobalBase,
        None,
        None,
        None,
        Some(OLD.to_string()),
        NEW.to_string(),
    ));
    log.state = TransactionState::Prepared;
    let incomplete = RecoveryManager::detect_at("/tmp/base", Some(log)).unwrap();
    let plan = incomplete.rollback();
    assert_eq!(plan.len(), 1);
    assert!(matches!(&plan[0], RefRestore::Point { ref_path, oid } if ref_path == "refs/jin/layers/global" && oid == OLD));
}

#[test]
fn test_recovery_resume() {
    let mut log = TransactionLog::with_base_path("resume test".to_string(), "/tmp/base".to_string());
    log.updates.push(LayerUpdate::new(Layer::GlobalBase, None, None, None, None, NEW.to_string()));
    log.state = TransactionState::Prepared;
    let incomplete = RecoveryManager::detect_at("/tmp/base", Some(log)).unwrap();
    let targets = incomplete.resume().unwrap();
    assert_eq!(targets.len(), 1);
    assert_eq!(targets[0].ref_path, "refs/jin/layers/global");
    assert_eq!(targets[0].new_oid, NEW);
}

#[test]
fn test_recovery_resume_requires_prepared_state() {
    let log = TransactionLog::with_base_path("pending test".to_string(), "/tmp/base".to_string());
    let incomplete = RecoveryManager::detect_at("/tmp/base", Some(log)).unwrap();
    let result = incomplete.resume();
    assert!(result.is_err());
    if let Err(JinError::Transaction(msg)) = result {
        assert!(msg.contains("Prepared state"));
    }
}

#[test]
fn test_auto_recover() {
    assert!(RecoveryManager::auto_recover_at("/tmp/base", &None).is_none());
    let log = TransactionLog::with_base_path("auto recover test".to_string(), "/tmp/base".to_string());
    let detected = RecoveryManager::detect_at("/tmp/base", Some(log));
    assert!(RecoveryManager::auto_recover_at("/tmp/base", &detected).is_some());
}

#[test]
fn test_incomplete_transaction_inspection() {
    let mut log = TransactionLog::with_base_path("inspection test".to_string(), "/tmp/base".to_string());
    let oid = "0000000000000000000000000000000000000000";
    log.updates.push(LayerUpdate::new(Layer::GlobalBase, None, None, None, None, oid.to_string()));
    log.updates.push(LayerUpdate::new(
        Layer::ModeBase,
        Some("helix".to_string()),
        None,
        None,
        None,
        oid.to_string(),
    ));
    let incomplete = RecoveryManager::detect_at("/tmp/base", Some(log)).unwrap();
    assert_eq!(incomplete.state(), TransactionState::Pending);
    assert_eq!(incomplete.message(), "inspection test");
    assert_eq!(incomplete.update_count(), 2);
    assert!(!incomplete.id().is_empty());
    assert!(!incomplete.started_at().is_empty());
    let updates = incomplete.updates();
    assert_eq!(updates.len(), 2);
    assert_eq!(updates[0].layer, Layer::GlobalBase);
    assert_eq!(updates[1].layer, Layer::ModeBase);
}

#[test]
fn test_audit_entry_from_commit() {
    let entry = RecordEntry::from_commit(
        "user@example.com".to_string(),
        Some("my-project".to_string()),
        Some("helix".to_string()),
        Some("language:rust".to_string()),
        Some(7),
        vec!["config.json".to_string()],
        Some("parent123".to_string()),
        "commit456".to_string(),
    );
    assert_eq!(entry.user, "user@example.com");
    assert_eq!(entry.project, Some("my-project".to_string()));
    assert_eq!(entry.mode, Some("helix".to_string()));
    assert_eq!(entry.scope, Some("language:rust".to_string()));
    assert_eq!(entry.layer, Some(7));
    assert_eq!(entry.files, vec!["config.json".to_string()]);
    assert_eq!(entry.base_commit, Some("parent123".to_string()));
    assert_eq!(entry.merge_commit, Some("commit456".to_string()));
    assert!(entry.context.is_some());
    assert_eq!(entry.context.as_ref().unwrap().active_mode, Some("helix".to_string()));
    assert_eq!(entry.context.as_ref().unwrap().active_scope, Some("language:rust".to_string()));
}

#[test]
fn test_audit_entry_from_commit_no_context() {
    let entry = RecordEntry::from_commit(
        "user@example.com".to_string(),
        None,
        None,
        None,
        None,
        vec!["file.txt".to_string()],
        None,
        "commit123".to_string(),
    );
    assert_eq!(entry.user, "user@example.com");
    assert!(entry.project.is_none());
    assert!(entry.mode.is_none());
    assert!(entry.scope.is_none());
    assert!(entry.layer.is_none());
    assert!(entry.base_commit.is_none());
    assert!(entry.context.is_none());
}

#[test]
fn test_audit_entry_from_commit_helper() {
    let entry = RecordEntry::from_commit(
        "test@example.com".to_string(),
        Some("my-project".to_string()),
        Some("helix".to_string()),
        Some("language:javascript".to_string()),
        Some(4),
        vec!["config.json".to_string()],
        Some("base123".to_string()),
        "merge456".to_string(),
    );
    assert_eq!(entry.user, "test@example.com");
    assert_eq!(entry.project, Some("my-project".to_string()));
    assert_eq!(entry.mode, Some("helix".to_string()));
    assert_eq!(entry.scope, Some("language:javascript".to_string()));
    assert_eq!(entry.layer, Some(4));
    assert_eq!(entry.base_commit, Some("base123".to_string()));
    assert_eq!(entry.merge_commit, Some("merge456".to_string()));
}

#[test]
fn test_audit_logger_today_path_format() {
    let logger = AuditLogger::new("/tmp/audit".to_string());
    let path = logger.today_path();
    assert!(path.contains("audit-20"));
    assert!(path.ends_with(".jsonl"));
    assert_eq!(logger.path_for_date("2025-01-02"), "/tmp/audit/audit-2025-01-02.jsonl");
}

#[test]
fn test_audit_logger_audit_dir_accessor() {
    let logger = AuditLogger::new("/tmp/custom-audit".to_string());
    assert_eq!(logger.audit_dir(), "/tmp/custom-audit");
    assert_eq!(AuditLogger::from_project().audit_dir(), ".jin/audit");
}

#[test]
fn test_audit_entry_new_no_mode_scope() {
    let entry = AuditEntry::new(
        "user".to_string(),
        "myproject".to_string(),
        None,
        None,
        Layer::ProjectBase,
        vec!["config.json".to_string()],
        "0000000000000000000000000000000000000000".to_string(),
        "abc1230000000000000000000000000000000000".to_string(),
        None,
        None,
    );
    assert!(entry.mode.is_none());
    assert!(entry.scope.is_none());
    assert!(entry.context.active_mode.is_none());
    assert!(entry.context.active_scope.is_none());
    assert_eq!(entry.layer, 7);
}

#[test]
fn test_get_audit_dir() {
    let audit_dir = get_audit_dir("/tmp/repo");
    assert!(audit_dir.ends_with(".audit"));
    assert!(audit_dir.starts_with("/tmp/repo"));
}

fn is_rfc3339_utc(t: &str) -> bool {
    let b = t.as_bytes();
    t.ends_with("+00:00") && b.len() >= 25 && b[4] == b'-' && b[7] == b'-' && b[10] == b'T' && b[13] == b':'
}

#[test]
fn new_transaction_log_has_clock_id_and_start() {
    let log = TransactionLog::with_base_path("shape".to_string(), "/tmp/base".to_string());
    assert!(log.id.len() >= 23 && log.id.bytes().all(|c| c.is_ascii_digit()));
    assert!(is_rfc3339_utc(&log.started_at), "{}", log.started_at);
    let incomplete = RecoveryManager::detect_at("/tmp/base", Some(log)).unwrap();
    assert!(!incomplete.id().is_empty());
    assert!(!incomplete.started_at().is_empty());
}

#[test]
fn audit_timestamps_and_dates_have_their_shape() {
    let entry = AuditEntry::new(
        "u".to_string(), "p".to_string(), None, None, Layer::GlobalBase, vec![], "b".to_string(), "m".to_string(), None, None,
    );
    assert!(is_rfc3339_utc(&entry.timestamp), "{}", entry.timestamp);
    let logger = AuditLogger::new("/tmp/audit".to_string());
    let path = logger.today_path();
    let date = path.trim_start_matches("/tmp/audit/audit-").trim_end_matches(".jsonl");
    assert_eq!(date.len(), 10);
    assert_eq!(&date[4..5], "-");
    assert_eq!(&date[7..8], "-");
}

#[test]
fn test_jinmap_update_from_commits() {
    // The files that the committed tree of the global layer holds.
    let files = vec!["config.json".to_string(), "src/main.rs".to_string()];
    let mut jinmap = JinMap::default();
    let context = jin::model::config::ProjectContext::default();
    jinmap.update_from_commits(&vec![(Layer::GlobalBase, files)], &context);
    assert_eq!(jinmap.mappings.len(), 1);
    let files = jinmap.get_layer_files("refs/jin/layers/global").unwrap();
    assert_eq!(files.len(), 2);
    assert!(files.contains(&"config.json".to_string()));
    assert!(files.contains(&"src/main.rs".to_string()));
    assert!(jinmap.meta.last_updated.is_some());
}

#[test]
fn jinmap_update_from_commits_forgets_emptied_layers() {
    let mut jinmap = JinMap::default();
    jinmap.record_layer_files("refs/jin/layers/global", vec!["a".to_string()]);
    let context = jin::model::config::ProjectContext::default();
    jinmap.update_from_commits(&vec![(Layer::GlobalBase, vec![])], &context);
    assert!(jinmap.get_layer_files("refs/jin/layers/global").is_none());
}

#[test]
fn empty_oid_is_refused_as_too_short() {
    let mut tx = begin("empty oid");
    tx.add_layer_update(Layer::GlobalBase, None, None, None, None, String::new());
    match tx.commit() {
        CommitStep::Rollback(JinError::Transaction(msg), _) => {
            assert_eq!(msg, "Invalid OID : unable to parse OID - too short")
        }
        other => panic!("unexpected step: {:?}", other),
    }
}
