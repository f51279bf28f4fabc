//! Tests of the read-only commands and of the decisions of `jin mode`.

use jin::cli::args::{CommitArgs, DiffArgs, LogArgs, ModeAction, PushArgs};
use jin::commands::common::CommandEffects;
use jin::commands::diff::{self, DiffPlan};
use jin::commands::fetch::categorize_layer;
use jin::commands::import::{determine_layer, ImportCommand};
use jin::commands::list::{parse_ref_path as list_parse_ref_path, NameSet};
use jin::commands::log::{self, LogPlan};
use jin::commands::mode::{self, validate_mode_name, ModeFacts};
use jin::commands::parse_layer_name;
use jin::commands::pull::{format_ref_path, parse_ref_path as pull_parse_ref_path};
use jin::model::config::ProjectContext;
use jin::model::error::JinError;
use jin::model::layer::Layer;

fn context_with(mode: Option<&str>, scope: Option<&str>) -> ProjectContext {
    ProjectContext {
        mode: mode.map(|m| m.to_string()),
        scope: scope.map(|s| s.to_string()),
        ..Default::default()
    }
}

#[test]
fn test_execute_no_message() {
    let args = CommitArgs {
        message: "Test commit".to_string(),
        dry_run: false,
    };
    assert_eq!(args.message, "Test commit");
    assert!(!args.dry_run);
}

#[test]
fn test_execute_with_dry_run() {
    let args = CommitArgs {
        message: "Dry run test".to_string(),
        dry_run: true,
    };
    assert!(args.dry_run);
}

#[test]
fn test_execute_staged_empty() {
    let args = DiffArgs {
        layer1: None,
        layer2: None,
        staged: true,
    };
    let result = diff::execute(&args, Ok(ProjectContext::default()));
    assert!(result.is_ok());
    assert!(matches!(result, Ok((DiffPlan::Staged, _))));
}

#[test]
fn diff_not_initialized() {
    let args = DiffArgs { layer1: None, layer2: None, staged: true };
    assert!(matches!(diff::execute(&args, Err(JinError::NotInitialized)), Err(JinError::NotInitialized)));
}

#[test]
fn diff_plans_by_layer_names() {
    let ctx = context_with(Some("helix"), None);
    let args = DiffArgs {
        layer1: Some("global-base".to_string()),
        layer2: Some("mode-base".to_string()),
        staged: false,
    };
    match diff::execute(&args, Ok(ctx)) {
        Ok((DiffPlan::Layers { layer1, layer2, ref1, ref2 }, _)) => {
            assert_eq!(layer1, Layer::GlobalBase);
            assert_eq!(layer2, Layer::ModeBase);
            assert_eq!(ref1, "refs/jin/layers/global");
            assert_eq!(ref2, "refs/jin/layers/mode/helix/_");
        }
        other => panic!("unexpected plan: {:?}", other),
    }
    let one = DiffArgs { layer1: Some("project-base".to_string()), layer2: None, staged: false };
    assert!(matches!(
        diff::execute(&one, Ok(ProjectContext::default())),
        Ok((DiffPlan::WorkspaceVsLayer { layer: Layer::ProjectBase, .. }, _))
    ));
    let none = DiffArgs { layer1: None, layer2: None, staged: false };
    assert!(matches!(diff::execute(&none, Ok(ProjectContext::default())), Ok((DiffPlan::WorkspaceVsActive, _))));
    let bad = DiffArgs { layer1: Some("nope".to_string()), layer2: None, staged: false };
    match diff::execute(&bad, Ok(ProjectContext::default())) {
        Err(JinError::Other(m)) => assert!(m.starts_with("Unknown layer: nope. Valid layers: global-base")),
        other => panic!("unexpected result: {:?}", other),
    }
}

#[test]
fn text_diff_marks_changed_lines() {
    let old: Vec<String> = vec!["a".to_string(), "b".to_string(), "c".to_string()];
    let new: Vec<String> = vec!["a".to_string(), "x".to_string(), "c".to_string()];
    let red = |s: &str| format!("\u{1b}[31m-{}\u{1b}[0m", s);
    let green = |s: &str| format!("\u{1b}[32m+{}\u{1b}[0m", s);
    assert_eq!(
        diff::text_diff(&old, &new).unwrap(),
        vec![" a".to_string(), red("b"), green("x"), " c".to_string()]
    );
    assert_eq!(diff::text_diff(&old, &old).unwrap(), vec![" a", " b", " c"]);
    let empty: Vec<String> = vec![];
    assert_eq!(diff::text_diff(&empty, &old).unwrap(), vec![green("a"), green("b"), green("c")]);
    assert_eq!(diff::text_diff(&old, &empty).unwrap(), vec![red("a"), red("b"), red("c")]);
    let swapped_old: Vec<String> = vec!["a".to_string(), "b".to_string()];
    let swapped_new: Vec<String> = vec!["b".to_string(), "a".to_string()];
    assert!(diff::text_diff(&swapped_old, &swapped_new).is_none());
}

#[test]
fn diff_test_parse_layer_name() {
    assert!(matches!(parse_layer_name("global-base"), Ok(Layer::GlobalBase)));
    assert!(matches!(parse_layer_name("mode-base"), Ok(Layer::ModeBase)));
    assert!(parse_layer_name("invalid").is_err());
}

#[test]
fn log_test_parse_layer_name() {
    assert!(matches!(parse_layer_name("global-base"), Ok(Layer::GlobalBase)));
    assert!(matches!(parse_layer_name("mode-base"), Ok(Layer::ModeBase)));
    assert!(matches!(parse_layer_name("project-base"), Ok(Layer::ProjectBase)));
    assert!(parse_layer_name("invalid").is_err());
}

#[test]
fn log_plans_layer_and_all() {
    let args = LogArgs { layer: Some("mode-base".to_string()), count: 10 };
    match log::execute(&args, Ok(context_with(Some("helix"), None)), &vec![]) {
        Ok(LogPlan::Layer { layer, ref_path }) => {
            assert_eq!(layer, Layer::ModeBase);
            assert_eq!(ref_path, "refs/jin/layers/mode/helix/_");
        }
        other => panic!("unexpected plan: {:?}", other),
    }
    let all = LogArgs { layer: None, count: 10 };
    let refs = vec!["refs/jin/layers/global".to_string()];
    match log::execute(&all, Ok(ProjectContext::default()), &refs) {
        Ok(LogPlan::All(targets)) => {
            assert_eq!(targets.len(), 1);
            assert_eq!(targets[0].0, Layer::GlobalBase);
            assert_eq!(targets[0].1, "refs/jin/layers/global");
        }
        other => panic!("unexpected plan: {:?}", other),
    }
}

#[test]
fn test_categorize_layer() {
    assert_eq!(categorize_layer("global"), "global");
    assert_eq!(categorize_layer("mode/helix"), "mode/helix");
    assert_eq!(categorize_layer("mode/helix/project/dashboard"), "mode/helix");
    assert_eq!(categorize_layer("scope/language:rust"), "scope/language:rust");
    assert_eq!(categorize_layer("project/my-app"), "project/my-app");
}

fn import_cmd(mode: bool, scope: Option<&str>, global: bool) -> ImportCommand {
    ImportCommand {
        files: vec![],
        mode,
        scope: scope.map(|s| s.to_string()),
        project: false,
        global,
    }
}

#[test]
fn test_determine_layer_with_global_flag() {
    let cmd = import_cmd(false, None, true);
    let context = ProjectContext::default();
    let target = determine_layer(&cmd, &context, "testproject").unwrap();
    assert!(matches!(target.layer, Layer::GlobalBase));
}

#[test]
fn test_determine_layer_with_mode_flag() {
    let context = context_with(Some("helix"), None);
    let cmd = import_cmd(true, None, false);
    let target = determine_layer(&cmd, &context, "testproject").unwrap();
    assert_eq!(target.layer, Layer::ModeBase);
    assert_eq!(target.mode, Some("helix".to_string()));
}

#[test]
fn test_determine_layer_with_scope_flag() {
    let context = ProjectContext::default();
    let cmd = import_cmd(false, Some("rust"), false);
    let target = determine_layer(&cmd, &context, "testproject").unwrap();
    assert_eq!(target.layer, Layer::ScopeBase);
    assert_eq!(target.scope, Some("rust".to_string()));
}

#[test]
fn test_determine_layer_no_flags_with_context() {
    let context = context_with(Some("helix"), Some("rust"));
    let cmd = import_cmd(false, None, false);
    let target = determine_layer(&cmd, &context, "testproject").unwrap();
    assert!(matches!(target.layer, Layer::ModeScope));
}

#[test]
fn test_determine_layer_no_flags_no_context() {
    let context = ProjectContext::default();
    let cmd = import_cmd(false, None, false);
    let target = determine_layer(&cmd, &context, "testproject").unwrap();
    assert_eq!(target.layer, Layer::ProjectBase);
    assert_eq!(target.project, Some("testproject".to_string()));
}

fn collect(ref_path: &str) -> (NameSet, NameSet, NameSet) {
    let mut modes = NameSet::new();
    let mut scopes = NameSet::new();
    let mut projects = NameSet::new();
    list_parse_ref_path(ref_path, &mut modes, &mut scopes, &mut projects);
    (modes, scopes, projects)
}

#[test]
fn test_parse_ref_path() {
    let (modes, scopes, projects) = collect("refs/jin/layers/mode/helix");
    assert!(modes.contains("helix"));
    assert!(scopes.is_empty());
    assert!(projects.is_empty());
}

#[test]
fn test_parse_ref_path_with_scope() {
    let (modes, scopes, projects) = collect("refs/jin/layers/mode/helix/scope/language:javascript");
    assert!(modes.contains("helix"));
    assert!(scopes.contains("language:javascript"));
    assert!(projects.is_empty());
}

#[test]
fn test_parse_ref_path_with_project() {
    let (modes, scopes, projects) =
        collect("refs/jin/layers/mode/helix/scope/language:rust/project/ui-dashboard");
    assert!(modes.contains("helix"));
    assert!(scopes.contains("language:rust"));
    assert!(projects.contains("ui-dashboard"));
}

#[test]
fn test_parse_ref_path_standalone_project() {
    let (modes, scopes, projects) = collect("refs/jin/layers/project/api-server");
    assert!(modes.is_empty());
    assert!(scopes.is_empty());
    assert!(projects.contains("api-server"));
}

#[test]
fn test_parse_ref_path_ignore_global() {
    let (modes, scopes, projects) = collect("refs/jin/layers/global");
    assert!(modes.is_empty());
    assert!(scopes.is_empty());
    assert!(projects.is_empty());
}

#[test]
fn list_test_execute_not_initialized() {
    let result = jin::commands::list::execute(false, Ok(vec![]));
    assert!(matches!(result, Err(JinError::NotInitialized)));
}

#[test]
fn list_reports_sorted_sections() {
    let refs = vec![
        "refs/jin/layers/mode/zeta".to_string(),
        "refs/jin/layers/mode/alpha/scope/lang:go".to_string(),
        "refs/jin/layers/project/app".to_string(),
    ];
    let lines = jin::commands::list::execute(true, Ok(refs)).unwrap();
    assert!(lines.contains(&"Modes:".to_string()));
    let a = lines.iter().position(|l| l == "  - alpha").unwrap();
    let z = lines.iter().position(|l| l == "  - zeta").unwrap();
    assert!(a < z);
    assert!(lines.contains(&"  - lang:go".to_string()));
    assert!(lines.contains(&"  - app".to_string()));
}

#[test]
fn test_validate_mode_name_valid() {
    assert!(validate_mode_name("helix").is_ok());
    assert!(validate_mode_name("test_mode").is_ok());
    assert!(validate_mode_name("mode123").is_ok());
}

#[test]
fn test_validate_mode_name_invalid_chars() {
    assert!(validate_mode_name("mode-name").is_err());
    assert!(validate_mode_name("mode:name").is_err());
    assert!(validate_mode_name("mode/name").is_err());
    assert!(validate_mode_name("mode name").is_err());
}

#[test]
fn test_validate_mode_name_empty() {
    assert!(validate_mode_name("").is_err());
}

#[test]
fn test_validate_mode_name_reserved() {
    assert!(validate_mode_name("default").is_err());
    assert!(validate_mode_name("global").is_err());
    assert!(validate_mode_name("base").is_err());
}

fn mode_facts(ref_exists: bool, context: ProjectContext, refs: Vec<&str>) -> ModeFacts {
    ModeFacts {
        ref_exists,
        context: Ok(context),
        mode_refs: Ok(refs.into_iter().map(|r| r.to_string()).collect()),
    }
}

fn run_mode(action: ModeAction, facts: ModeFacts) -> Result<CommandEffects, JinError> {
    mode::execute(&action, facts)
}

#[test]
fn test_create_mode() {
    let result = run_mode(
        ModeAction::Create { name: "testmode".to_string() },
        mode_facts(false, ProjectContext::default(), vec![]),
    );
    let effects = result.unwrap();
    let created = effects.create_ref.unwrap();
    assert_eq!(created.ref_path, "refs/jin/modes/testmode");
    assert_eq!(created.commit_message, "Initialize mode: testmode");
    assert_eq!(effects.lines, vec!["Created mode 'testmode'", "Activate with: jin mode use testmode"]);
}

#[test]
fn test_create_mode_duplicate() {
    let result = run_mode(
        ModeAction::Create { name: "testmode".to_string() },
        mode_facts(true, ProjectContext::default(), vec![]),
    );
    assert!(matches!(result, Err(JinError::AlreadyExists(_))));
}

#[test]
fn test_use_mode() {
    let result = run_mode(
        ModeAction::Use { name: "testmode".to_string() },
        mode_facts(true, ProjectContext::default(), vec![]),
    );
    let effects = result.unwrap();
    let context = effects.save_context.unwrap();
    assert_eq!(context.mode, Some("testmode".to_string()));
}

#[test]
fn test_use_mode_nonexistent() {
    let result = run_mode(
        ModeAction::Use { name: "nonexistent".to_string() },
        mode_facts(false, ProjectContext::default(), vec![]),
    );
    assert!(matches!(result, Err(JinError::NotFound(_))));
}

#[test]
fn mode_test_list_empty() {
    let result = run_mode(ModeAction::List, mode_facts(false, ProjectContext::default(), vec![]));
    let effects = result.unwrap();
    assert_eq!(effects.lines, vec!["No modes found.", "Create one with: jin mode create <name>"]);
}

#[test]
fn test_list_with_modes() {
    let result = run_mode(
        ModeAction::List,
        mode_facts(
            false,
            context_with(Some("mode1"), None),
            vec!["refs/jin/modes/mode1", "refs/jin/modes/mode2"],
        ),
    );
    let effects = result.unwrap();
    assert_eq!(effects.lines, vec!["Available modes:", "  * mode1 [active]", "    mode2"]);
}

#[test]
fn test_show_no_mode() {
    let effects = run_mode(ModeAction::Show, mode_facts(false, ProjectContext::default(), vec![])).unwrap();
    assert_eq!(effects.lines, vec!["No active mode"]);
}

#[test]
fn test_show_with_mode() {
    let effects =
        run_mode(ModeAction::Show, mode_facts(true, context_with(Some("testmode"), None), vec![])).unwrap();
    assert_eq!(effects.lines, vec!["Active mode: testmode"]);
}

#[test]
fn mode_test_unset() {
    let effects =
        run_mode(ModeAction::Unset, mode_facts(true, context_with(Some("testmode"), None), vec![])).unwrap();
    let context = effects.save_context.unwrap();
    assert_eq!(context.mode, None);
}

#[test]
fn test_unset_no_mode() {
    let effects = run_mode(ModeAction::Unset, mode_facts(false, ProjectContext::default(), vec![])).unwrap();
    assert!(effects.save_context.is_none());
    assert_eq!(effects.lines, vec!["No active mode to unset"]);
}

#[test]
fn test_delete_mode() {
    let effects = run_mode(
        ModeAction::Delete { name: "testmode".to_string() },
        mode_facts(true, ProjectContext::default(), vec![]),
    )
    .unwrap();
    assert_eq!(effects.delete_refs, vec!["refs/jin/modes/testmode"]);
    assert!(effects.save_context.is_none());
}

#[test]
fn test_delete_active_mode() {
    let effects = run_mode(
        ModeAction::Delete { name: "testmode".to_string() },
        mode_facts(true, context_with(Some("testmode"), None), vec![]),
    )
    .unwrap();
    let context = effects.save_context.unwrap();
    assert_eq!(context.mode, None);
}

#[test]
fn mode_test_delete_nonexistent() {
    let result = run_mode(
        ModeAction::Delete { name: "nonexistent".to_string() },
        mode_facts(false, ProjectContext::default(), vec![]),
    );
    assert!(matches!(result, Err(JinError::NotFound(_))));
}

#[test]
fn test_parse_ref_path_global() {
    let (layer, mode, scope, project) = pull_parse_ref_path("refs/jin/layers/global").unwrap();
    assert_eq!(layer, Layer::GlobalBase);
    assert!(mode.is_none());
    assert!(scope.is_none());
    assert!(project.is_none());
}

#[test]
fn test_parse_ref_path_mode() {
    let (layer, mode, scope, project) = pull_parse_ref_path("refs/jin/layers/mode/helix").unwrap();
    assert_eq!(layer, Layer::ModeBase);
    assert_eq!(mode, Some("helix".to_string()));
    assert!(scope.is_none());
    assert!(project.is_none());
}

#[test]
fn test_parse_ref_path_mode_scope() {
    let (layer, mode, scope, project) =
        pull_parse_ref_path("refs/jin/layers/mode/helix/scope/language:rust").unwrap();
    assert_eq!(layer, Layer::ModeScope);
    assert_eq!(mode, Some("helix".to_string()));
    assert_eq!(scope, Some("language:rust".to_string()));
    assert!(project.is_none());
}

#[test]
fn test_parse_ref_path_mode_project() {
    let (layer, mode, scope, project) =
        pull_parse_ref_path("refs/jin/layers/mode/helix/project/dashboard").unwrap();
    assert_eq!(layer, Layer::ModeProject);
    assert_eq!(mode, Some("helix".to_string()));
    assert!(scope.is_none());
    assert_eq!(project, Some("dashboard".to_string()));
}

#[test]
fn test_parse_ref_path_invalid() {
    let result = pull_parse_ref_path("invalid/path");
    assert!(result.is_err());
}

#[test]
fn test_format_ref_path() {
    assert_eq!(format_ref_path("refs/jin/layers/mode/helix"), "mode/helix");
    assert_eq!(format_ref_path("refs/jin/layers/global"), "global");
}

#[test]
fn test_push_args_force() {
    let args = PushArgs { force: true };
    assert!(args.force);

    let args = PushArgs { force: false };
    assert!(!args.force);
}
