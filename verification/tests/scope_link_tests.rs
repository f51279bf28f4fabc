//! Tests of the decisions of `jin scope` and of remote URL validation.

use jin::cli::args::ScopeAction;
use jin::commands::common::CommandEffects;
use jin::commands::link::validate_git_url;
use jin::commands::scope::{self, validate_scope_name, ScopeFacts};
use jin::model::config::ProjectContext;
use jin::model::error::JinError;

fn facts() -> ScopeFacts {
    ScopeFacts {
        mode_ref_exists: false,
        scope_ref_exists: false,
        mode_bound_refs: Ok(vec![]),
        untethered_refs: Ok(vec![]),
        all_mode_bound_refs: Ok(vec![]),
        context: Ok(ProjectContext::default()),
        metadata: Err(JinError::NotFound("workspace metadata".to_string())),
        metadata_file_exists: false,
    }
}

fn with_scope(scope: &str) -> ProjectContext {
    ProjectContext { scope: Some(scope.to_string()), ..Default::default() }
}

fn run(action: ScopeAction, facts: ScopeFacts) -> Result<CommandEffects, JinError> {
    scope::execute(&action, facts)
}

fn create(name: &str, mode: Option<&str>) -> ScopeAction {
    ScopeAction::Create { name: name.to_string(), mode: mode.map(|m| m.to_string()) }
}

#[test]
fn test_validate_scope_name_valid() {
    assert!(validate_scope_name("testing").is_ok());
    assert!(validate_scope_name("test_scope").is_ok());
    assert!(validate_scope_name("language:javascript").is_ok());
    assert!(validate_scope_name("env:dev:debug").is_ok());
}

#[test]
fn test_validate_scope_name_invalid_chars() {
    assert!(validate_scope_name("scope-name").is_err());
    assert!(validate_scope_name("scope/name").is_err());
    assert!(validate_scope_name("scope name").is_err());
}

#[test]
fn test_validate_scope_name_empty() {
    assert!(validate_scope_name("").is_err());
}

#[test]
fn test_validate_scope_name_reserved() {
    assert!(validate_scope_name("default").is_err());
    assert!(validate_scope_name("global").is_err());
    assert!(validate_scope_name("base").is_err());
}

#[test]
fn test_create_untethered_scope() {
    let effects = run(create("testscope", None), facts()).unwrap();
    let created = effects.create_ref.unwrap();
    assert_eq!(created.ref_path, "refs/jin/scopes/testscope");
    assert_eq!(effects.lines[0], "Created scope 'testscope' (untethered)");
}

#[test]
fn test_create_mode_bound_scope() {
    let mut f = facts();
    f.mode_ref_exists = true;
    let effects = run(create("testscope", Some("testmode")), f).unwrap();
    let created = effects.create_ref.unwrap();
    assert_eq!(created.ref_path, "refs/jin/modes/testmode/scopes/testscope");
    assert_eq!(created.commit_message, "Initialize scope: testscope (mode: testmode)");
    assert_eq!(effects.lines[0], "Created scope 'testscope' bound to mode 'testmode'");
}

#[test]
fn test_create_scope_with_colon() {
    let effects = run(create("language:javascript", None), facts()).unwrap();
    assert_eq!(effects.create_ref.unwrap().ref_path, "refs/jin/scopes/language/javascript");
}

#[test]
fn test_create_scope_nonexistent_mode() {
    let result = run(create("testscope", Some("nonexistent")), facts());
    assert!(matches!(result, Err(JinError::NotFound(_))));
}

#[test]
fn test_create_scope_duplicate() {
    let mut f = facts();
    f.scope_ref_exists = true;
    let result = run(create("testscope", None), f);
    assert!(matches!(result, Err(JinError::AlreadyExists(_))));
}

#[test]
fn test_use_scope() {
    let mut f = facts();
    f.scope_ref_exists = true;
    let effects = run(ScopeAction::Use { name: "testscope".to_string() }, f).unwrap();
    let context = effects.save_context.unwrap();
    assert_eq!(context.scope, Some("testscope".to_string()));
    assert!(!effects.clear_metadata);
}

#[test]
fn use_scope_clears_metadata_of_another_scope() {
    let mut f = facts();
    f.scope_ref_exists = true;
    f.metadata = Ok(vec!["scope/old/x".to_string()]);
    f.metadata_file_exists = true;
    let effects = run(ScopeAction::Use { name: "testscope".to_string() }, f).unwrap();
    assert!(effects.clear_metadata);
    assert_eq!(
        effects.lines[0],
        "Cleared workspace metadata (scope changed from 'old' to 'testscope')."
    );
}

#[test]
fn test_use_scope_nonexistent() {
    let result = run(ScopeAction::Use { name: "nonexistent".to_string() }, facts());
    assert!(matches!(result, Err(JinError::NotFound(_))));
}

#[test]
fn scope_test_list_empty() {
    let effects = run(ScopeAction::List, facts()).unwrap();
    assert_eq!(effects.lines, vec!["No scopes found.", "Create one with: jin scope create <name>"]);
}

#[test]
fn test_list_with_scopes() {
    let mut f = facts();
    f.untethered_refs = Ok(vec!["refs/jin/scopes/scope1".to_string(), "refs/jin/scopes/scope2".to_string()]);
    f.all_mode_bound_refs = Ok(vec!["refs/jin/modes/testmode/scopes/scope3".to_string()]);
    f.context = Ok(with_scope("scope1"));
    let effects = run(ScopeAction::List, f).unwrap();
    assert_eq!(
        effects.lines,
        vec![
            "Available scopes:",
            "  * scope1 (untethered) [active]",
            "    scope2 (untethered)",
            "    scope3 (mode: testmode)",
        ]
    );
}

#[test]
fn test_show_no_scope() {
    let effects = run(ScopeAction::Show, facts()).unwrap();
    assert_eq!(effects.lines, vec!["No active scope"]);
}

#[test]
fn test_show_with_scope() {
    let mut f = facts();
    f.context = Ok(with_scope("testscope"));
    let effects = run(ScopeAction::Show, f).unwrap();
    assert_eq!(effects.lines, vec!["Active scope: testscope"]);
}

#[test]
fn scope_test_unset() {
    let mut f = facts();
    f.context = Ok(with_scope("testscope"));
    let effects = run(ScopeAction::Unset, f).unwrap();
    assert_eq!(effects.save_context.unwrap().scope, None);
}

#[test]
fn test_unset_no_scope() {
    let effects = run(ScopeAction::Unset, facts()).unwrap();
    assert!(effects.save_context.is_none());
}

#[test]
fn test_delete_untethered_scope() {
    let mut f = facts();
    f.scope_ref_exists = true;
    let effects = run(ScopeAction::Delete { name: "testscope".to_string() }, f).unwrap();
    assert_eq!(effects.delete_refs, vec!["refs/jin/scopes/testscope"]);
}

#[test]
fn test_delete_mode_bound_scope() {
    let mut f = facts();
    f.mode_bound_refs = Ok(vec!["refs/jin/modes/testmode/scopes/testscope".to_string()]);
    let effects = run(ScopeAction::Delete { name: "testscope".to_string() }, f).unwrap();
    assert_eq!(effects.delete_refs, vec!["refs/jin/modes/testmode/scopes/testscope"]);
}

#[test]
fn test_delete_active_scope() {
    let mut f = facts();
    f.scope_ref_exists = true;
    f.context = Ok(with_scope("testscope"));
    let effects = run(ScopeAction::Delete { name: "testscope".to_string() }, f).unwrap();
    assert_eq!(effects.save_context.unwrap().scope, None);
}

#[test]
fn scope_test_delete_nonexistent() {
    let result = run(ScopeAction::Delete { name: "nonexistent".to_string() }, facts());
    assert!(matches!(result, Err(JinError::NotFound(_))));
}

#[test]
fn test_validate_https_url() {
    assert!(validate_git_url("https://github.com/org/repo.git").is_ok());
    assert!(validate_git_url("https://github.com/org/repo").is_ok());
}

#[test]
fn test_validate_ssh_colon_url() {
    assert!(validate_git_url("git@github.com:org/repo.git").is_ok());
    assert!(validate_git_url("git@github.com:org/repo").is_ok());
}

#[test]
fn test_validate_ssh_scheme_url() {
    assert!(validate_git_url("ssh://git@github.com/org/repo.git").is_ok());
    assert!(validate_git_url("ssh://git@github.com/org/repo").is_ok());
}

#[test]
fn test_validate_git_protocol_url() {
    assert!(validate_git_url("git://server.local/repo.git").is_ok());
    assert!(validate_git_url("git://server.local/repo").is_ok());
}

#[test]
fn test_validate_file_url() {
    assert!(validate_git_url("file:///absolute/path/to/repo").is_ok());
    assert!(validate_git_url("/absolute/path/to/repo").is_ok());
}

#[test]
fn test_validate_invalid_url() {
    assert!(validate_git_url("").is_err());
    assert!(validate_git_url("invalid-url").is_err());
    assert!(validate_git_url("ftp://unsupported.com/repo").is_err());
    assert!(validate_git_url("relative/path").is_err());
}

#[test]
fn test_validate_url_error_message() {
    let result = validate_git_url("invalid-url");
    assert!(result.is_err());
    let err_msg = result.unwrap_err().to_string();
    assert!(err_msg.contains("Invalid remote URL format"));
    assert!(err_msg.contains("Supported formats"));
}
