//! Tests of the layer hierarchy and its ref paths.

use jin::commands::common::parse_layer_name;
use jin::model::layer::Layer;

#[test]
fn test_precedence_ordering() {
    let layers = Layer::all_in_precedence_order();
    for i in 0..layers.len() - 1 {
        assert!(
            layers[i].precedence() < layers[i + 1].precedence(),
            "Layer {:?} should have lower precedence than {:?}",
            layers[i],
            layers[i + 1]
        );
    }
}

#[test]
fn test_precedence_values() {
    assert_eq!(Layer::GlobalBase.precedence(), 1);
    assert_eq!(Layer::ModeBase.precedence(), 2);
    assert_eq!(Layer::ModeScope.precedence(), 3);
    assert_eq!(Layer::ModeScopeProject.precedence(), 4);
    assert_eq!(Layer::ModeProject.precedence(), 5);
    assert_eq!(Layer::ScopeBase.precedence(), 6);
    assert_eq!(Layer::ProjectBase.precedence(), 7);
    assert_eq!(Layer::UserLocal.precedence(), 8);
    assert_eq!(Layer::WorkspaceActive.precedence(), 9);
}

#[test]
fn test_ref_paths() {
    assert_eq!(
        Layer::GlobalBase.ref_path(None, None, None),
        "refs/jin/layers/global"
    );
    // ModeBase uses /_ suffix to avoid conflict with child refs
    assert_eq!(
        Layer::ModeBase.ref_path(Some("helix"), None, None),
        "refs/jin/layers/mode/helix/_"
    );
    // ModeScope uses /_ suffix to avoid conflict with ModeScopeProject refs
    // Note: colons in scope names are sanitized to slashes for Git ref compatibility
    assert_eq!(
        Layer::ModeScope.ref_path(Some("helix"), Some("language:javascript"), None),
        "refs/jin/layers/mode/helix/scope/language/javascript/_"
    );
    assert_eq!(
        Layer::ProjectBase.ref_path(None, None, Some("ui-dashboard")),
        "refs/jin/layers/project/ui-dashboard"
    );
}

#[test]
fn test_storage_paths() {
    assert_eq!(
        Layer::GlobalBase.storage_path(None, None, None),
        "jin/global/"
    );
    assert_eq!(
        Layer::ModeBase.storage_path(Some("helix"), None, None),
        "jin/mode/helix/"
    );
    assert_eq!(
        Layer::ModeScope.storage_path(Some("helix"), Some("language:javascript"), None),
        "jin/mode/helix/scope/language:javascript/"
    );
    assert_eq!(
        Layer::UserLocal.storage_path(None, None, None),
        "~/.jin/local/"
    );
    assert_eq!(
        Layer::WorkspaceActive.storage_path(None, None, None),
        ".jin/workspace/"
    );
}

#[test]
fn test_all_layers_count() {
    assert_eq!(Layer::all_in_precedence_order().len(), 9);
}

#[test]
fn test_requires_mode() {
    assert!(!Layer::GlobalBase.requires_mode());
    assert!(Layer::ModeBase.requires_mode());
    assert!(Layer::ModeScope.requires_mode());
    assert!(Layer::ModeScopeProject.requires_mode());
    assert!(Layer::ModeProject.requires_mode());
    assert!(!Layer::ScopeBase.requires_mode());
    assert!(!Layer::ProjectBase.requires_mode());
}

#[test]
fn test_requires_scope() {
    assert!(!Layer::GlobalBase.requires_scope());
    assert!(!Layer::ModeBase.requires_scope());
    assert!(Layer::ModeScope.requires_scope());
    assert!(Layer::ModeScopeProject.requires_scope());
    assert!(!Layer::ModeProject.requires_scope());
    assert!(Layer::ScopeBase.requires_scope());
}

#[test]
fn test_display() {
    assert_eq!(Layer::GlobalBase.to_string(), "global-base");
    assert_eq!(Layer::WorkspaceActive.to_string(), "workspace-active");
}

// Tests for parse_layer_from_ref_path()

#[test]
fn test_parse_layer_from_ref_path_global_base() {
    let result = Layer::parse_layer_from_ref_path("refs/jin/layers/global");
    assert!(result.is_some());
    assert_eq!(result.unwrap(), Layer::GlobalBase);
}

#[test]
fn test_parse_layer_from_ref_path_mode_base() {
    let result = Layer::parse_layer_from_ref_path("refs/jin/layers/mode/development/_");
    assert_eq!(result, Some(Layer::ModeBase));

    // Test with different mode names
    assert_eq!(
        Layer::parse_layer_from_ref_path("refs/jin/layers/mode/production/_"),
        Some(Layer::ModeBase)
    );
    assert_eq!(
        Layer::parse_layer_from_ref_path("refs/jin/layers/mode/helix/_"),
        Some(Layer::ModeBase)
    );
}

#[test]
fn test_parse_layer_from_ref_path_mode_scope() {
    let result =
        Layer::parse_layer_from_ref_path("refs/jin/layers/mode/production/scope/api/_");
    assert_eq!(result, Some(Layer::ModeScope));

    // Test with scope name containing colon (replaces slash in ref path)
    assert_eq!(
        Layer::parse_layer_from_ref_path(
            "refs/jin/layers/mode/dev/scope/language:javascript/_"
        ),
        Some(Layer::ModeScope)
    );
}

#[test]
fn test_parse_layer_from_ref_path_mode_scope_project() {
    let result =
        Layer::parse_layer_from_ref_path("refs/jin/layers/mode/dev/scope/api/project/ui");
    assert_eq!(result, Some(Layer::ModeScopeProject));

    // More complex example
    assert_eq!(
        Layer::parse_layer_from_ref_path(
            "refs/jin/layers/mode/production/scope/config/project/backend"
        ),
        Some(Layer::ModeScopeProject)
    );
}

#[test]
fn test_parse_layer_from_ref_path_mode_project() {
    let result = Layer::parse_layer_from_ref_path("refs/jin/layers/mode/dev/project/backend");
    assert_eq!(result, Some(Layer::ModeProject));
}

#[test]
fn test_parse_layer_from_ref_path_scope_base() {
    let result = Layer::parse_layer_from_ref_path("refs/jin/layers/scope/config");
    assert_eq!(result, Some(Layer::ScopeBase));
}

#[test]
fn test_parse_layer_from_ref_path_project_base() {
    let result = Layer::parse_layer_from_ref_path("refs/jin/layers/project/api-server");
    assert_eq!(result, Some(Layer::ProjectBase));
}

#[test]
fn test_parse_layer_from_ref_path_user_local() {
    let result = Layer::parse_layer_from_ref_path("refs/jin/layers/local");
    assert_eq!(result, Some(Layer::UserLocal));
}

#[test]
fn test_parse_layer_from_ref_path_workspace_active() {
    let result = Layer::parse_layer_from_ref_path("refs/jin/layers/workspace");
    assert_eq!(result, Some(Layer::WorkspaceActive));
}

// Negative cases - invalid inputs

#[test]
fn test_parse_layer_from_ref_path_empty_string() {
    let result = Layer::parse_layer_from_ref_path("");
    assert!(result.is_none());
}

#[test]
fn test_parse_layer_from_ref_path_wrong_prefix() {
    assert_eq!(Layer::parse_layer_from_ref_path("refs/other/global"), None);
    assert_eq!(Layer::parse_layer_from_ref_path("jin/layers/global"), None);
    assert_eq!(
        Layer::parse_layer_from_ref_path("refs/git/layers/global"),
        None
    );
}

#[test]
fn test_parse_layer_from_ref_path_partial_match() {
    // Just the prefix, no layer name
    assert_eq!(Layer::parse_layer_from_ref_path("refs/jin/layers"), None);

    // Partial mode path without /_ suffix
    assert_eq!(
        Layer::parse_layer_from_ref_path("refs/jin/layers/mode"),
        None
    );

    assert_eq!(
        Layer::parse_layer_from_ref_path("refs/jin/layers/mode/development"),
        None
    );
}

#[test]
fn test_parse_layer_from_ref_path_invalid_suffix() {
    // ModeBase without /_ suffix should not match
    assert_eq!(
        Layer::parse_layer_from_ref_path("refs/jin/layers/mode/development"),
        None
    );

    // ModeScope without /_ suffix should not match
    assert_eq!(
        Layer::parse_layer_from_ref_path("refs/jin/layers/mode/dev/scope/api"),
        None
    );
}

// Edge cases

#[test]
fn test_parse_layer_from_ref_path_with_underscore_in_name() {
    // Mode names can have underscores
    assert_eq!(
        Layer::parse_layer_from_ref_path("refs/jin/layers/mode/dev_env/_"),
        Some(Layer::ModeBase)
    );

    // Scope names can have underscores
    assert_eq!(
        Layer::parse_layer_from_ref_path("refs/jin/layers/mode/dev/scope/api_test/_"),
        Some(Layer::ModeScope)
    );

    // Project names can have underscores
    assert_eq!(
        Layer::parse_layer_from_ref_path("refs/jin/layers/mode/dev/project/test_ui"),
        Some(Layer::ModeProject)
    );
}

#[test]
fn test_parse_layer_from_ref_path_extra_slashes() {
    // Double slashes should be filtered out
    assert_eq!(
        Layer::parse_layer_from_ref_path("refs/jin/layers//global"),
        Some(Layer::GlobalBase)
    );

    assert_eq!(
        Layer::parse_layer_from_ref_path("refs/jin//layers/global"),
        Some(Layer::GlobalBase)
    );

    // Triple slashes
    assert_eq!(
        Layer::parse_layer_from_ref_path("refs///jin///layers///global"),
        Some(Layer::GlobalBase)
    );
}

#[test]
fn test_parse_layer_from_ref_path_trailing_slash() {
    // Trailing slash creates empty segment that gets filtered
    assert_eq!(
        Layer::parse_layer_from_ref_path("refs/jin/layers/global/"),
        Some(Layer::GlobalBase)
    );
}

#[test]
fn test_parse_layer_from_ref_path_unknown_layer() {
    // Unknown layer type
    assert_eq!(
        Layer::parse_layer_from_ref_path("refs/jin/layers/unknown"),
        None
    );

    // Invalid mode structure
    assert_eq!(
        Layer::parse_layer_from_ref_path("refs/jin/layers/mode/dev/invalid"),
        None
    );
}

#[test]
fn test_parse_layer_from_ref_path_pattern_order() {
    // Verify that more specific patterns match before less specific ones
    // ModeScopeProject (6 segments) should match, not ModeScope
    assert_eq!(
        Layer::parse_layer_from_ref_path("refs/jin/layers/mode/dev/scope/api/project/ui"),
        Some(Layer::ModeScopeProject)
    );
}

#[test]
fn layer_name_parses_back_to_its_layer() {
    for layer in Layer::all_in_precedence_order() {
        let name = layer.to_string();
        assert_eq!(parse_layer_name(&name).unwrap(), layer);
    }
}

#[test]
fn ref_path_parses_back_to_its_layer() {
    for layer in Layer::all_in_precedence_order() {
        let path = layer.ref_path(Some("helix"), Some("rust"), Some("ui"));
        assert_eq!(Layer::parse_layer_from_ref_path(&path), Some(layer));
    }
}

#[test]
fn ref_path_defaults_missing_names() {
    assert_eq!(
        Layer::ModeScopeProject.ref_path(None, None, None),
        "refs/jin/layers/mode/default/scope/default/project/default"
    );
}
