//! Tests of the configuration types and of `jin config`.

use jin::cli::args::ConfigAction;
use jin::commands::config as config_cmd;
use jin::commands::config::{
    execute, get, get_config_value, get_jin_dir_display, list, set_config_value,
};
use jin::model::config::{JinConfig, ProjectContext, RemoteConfig, UserConfig};
use jin::model::error::JinError;

#[test]
fn test_default_config() {
    let config = JinConfig::default();
    assert_eq!(config.version, 0);
    assert!(config.remote.is_none());
    assert!(config.user.is_none());
}

#[test]
fn test_default_context() {
    let ctx = ProjectContext::default();
    assert_eq!(ctx.version, 0);
    assert!(ctx.mode.is_none());
    assert!(ctx.scope.is_none());
}

#[test]
fn test_require_mode_error() {
    let ctx = ProjectContext::default();
    let result = ctx.require_mode();
    assert!(result.is_err());
}

#[test]
fn test_require_mode_success() {
    let ctx = ProjectContext {
        mode: Some("helix".to_string()),
        ..Default::default()
    };
    assert_eq!(ctx.require_mode().unwrap(), "helix");
}

fn loaded() -> Result<JinConfig, JinError> {
    Ok(JinConfig { version: 1, remote: None, user: None })
}

fn full_config() -> JinConfig {
    JinConfig {
        version: 1,
        remote: Some(RemoteConfig {
            url: "https://github.com/test/jin-config".to_string(),
            fetch_on_init: true,
        }),
        user: Some(UserConfig {
            name: Some("Test User".to_string()),
            email: Some("test@example.com".to_string()),
        }),
    }
}

#[test]
fn test_list_empty_config() {
    let result = list(loaded(), Some("/tmp/jin"));
    assert!(result.is_ok());
    assert_eq!(
        result.unwrap(),
        vec![
            "Jin Configuration:",
            "  jin-dir: /tmp/jin (set via JIN_DIR environment variable)",
            "  remote.url: (not set)",
            "  remote.fetch-on-init: (not set)",
            "  user.name: (not set)",
            "  user.email: (not set)",
        ]
    );
}

#[test]
fn test_list_with_values() {
    let result = list(Ok(full_config()), None);
    assert!(result.is_ok());
    let lines = result.unwrap();
    assert_eq!(lines[1], "  jin-dir: ~/.jin (default)");
    assert_eq!(lines[2], "  remote.url: https://github.com/test/jin-config");
    assert_eq!(lines[3], "  remote.fetch-on-init: true");
    assert_eq!(lines[4], "  user.name: Test User");
    assert_eq!(lines[5], "  user.email: test@example.com");
}

#[test]
fn test_get_jin_dir() {
    let result = get("jin-dir", loaded(), Some("/tmp/jin"));
    assert!(result.is_ok());
}

#[test]
fn test_get_remote_url() {
    let mut config = JinConfig { version: 1, remote: None, user: None };
    config.remote = Some(RemoteConfig {
        url: "https://github.com/test/jin-config".to_string(),
        fetch_on_init: false,
    });
    let result = get("remote.url", Ok(config), None);
    assert!(result.is_ok());
    assert_eq!(result.unwrap(), vec!["https://github.com/test/jin-config"]);
}

#[test]
fn test_get_remote_url_not_set() {
    let result = get("remote.url", loaded(), None);
    assert!(result.is_ok());
    assert_eq!(result.unwrap(), vec!["(not set)"]);
}

#[test]
fn test_get_unknown_key() {
    let result = get("unknown.key", loaded(), None);
    assert!(matches!(result, Err(JinError::NotFound(_))));
}

#[test]
fn test_set_remote_url() {
    let result = config_cmd::set("remote.url", "https://github.com/test/jin-config", loaded());
    assert!(result.is_ok());
    let (config, line) = result.unwrap();
    assert!(config.remote.is_some());
    assert_eq!(config.remote.unwrap().url, "https://github.com/test/jin-config");
    assert_eq!(line, "Set remote.url = https://github.com/test/jin-config");
}

#[test]
fn test_set_remote_fetch_on_init_true() {
    let result = config_cmd::set("remote.fetch-on-init", "true", loaded());
    assert!(result.is_ok());
    let (config, _) = result.unwrap();
    assert!(config.remote.is_some());
    assert_eq!(config.remote.unwrap().fetch_on_init, true);
}

#[test]
fn test_set_remote_fetch_on_init_false() {
    let result = config_cmd::set("remote.fetch-on-init", "false", loaded());
    assert!(result.is_ok());
    let (config, _) = result.unwrap();
    assert!(config.remote.is_some());
    assert_eq!(config.remote.unwrap().fetch_on_init, false);
}

#[test]
fn test_set_remote_fetch_on_init_invalid() {
    let result = config_cmd::set("remote.fetch-on-init", "not-a-boolean", loaded());
    assert!(matches!(result, Err(JinError::Config(_))));
}

#[test]
fn test_set_user_name() {
    let result = config_cmd::set("user.name", "Test User", loaded());
    assert!(result.is_ok());
    let (config, _) = result.unwrap();
    assert!(config.user.is_some());
    assert_eq!(config.user.unwrap().name, Some("Test User".to_string()));
}

#[test]
fn test_set_user_email() {
    let result = config_cmd::set("user.email", "test@example.com", loaded());
    assert!(result.is_ok());
    let (config, _) = result.unwrap();
    assert!(config.user.is_some());
    assert_eq!(config.user.unwrap().email, Some("test@example.com".to_string()));
}

#[test]
fn test_set_unknown_key() {
    let result = config_cmd::set("unknown.key", "value", loaded());
    assert!(matches!(result, Err(JinError::NotFound(_))));
}

#[test]
fn test_set_jin_dir_fails() {
    let result = config_cmd::set("jin-dir", "/custom/path", loaded());
    assert!(matches!(result, Err(JinError::NotFound(_))));
}

#[test]
fn test_set_overwrites_existing_value() {
    let (config, _) = config_cmd::set("remote.url", "https://github.com/original/config", loaded()).unwrap();
    let (config, _) = config_cmd::set("remote.url", "https://github.com/new/config", Ok(config)).unwrap();
    assert_eq!(config.remote.unwrap().url, "https://github.com/new/config");
}

#[test]
fn test_get_config_value_helper() {
    let mut config = JinConfig { version: 1, remote: None, user: None };
    config.remote = Some(RemoteConfig {
        url: "https://example.com".to_string(),
        fetch_on_init: true,
    });
    config.user = Some(UserConfig {
        name: Some("Test".to_string()),
        email: Some("test@example.com".to_string()),
    });

    assert!(get_config_value(&config, "remote.url").is_ok());
    assert!(get_config_value(&config, "remote.fetch-on-init").is_ok());
    assert!(get_config_value(&config, "user.name").is_ok());
    assert!(get_config_value(&config, "user.email").is_ok());

    assert!(get_config_value(&config, "unknown.key").is_err());
}

#[test]
fn test_get_jin_dir_display_with_env_var() {
    let display = get_jin_dir_display(Some("/tmp/test-jin")).unwrap();
    assert!(display.contains("JIN_DIR environment variable"));
}

#[test]
fn test_execute_list() {
    let action = ConfigAction::List;
    let result = execute(&action, loaded(), Some("/tmp/jin"));
    assert!(result.is_ok());
}

#[test]
fn test_execute_get() {
    let action = ConfigAction::Get { key: "jin-dir".to_string() };
    let result = execute(&action, loaded(), Some("/tmp/jin"));
    assert!(result.is_ok());
}

#[test]
fn test_execute_set() {
    let action = ConfigAction::SetValue {
        key: "user.name".to_string(),
        value: "Test User".to_string(),
    };
    let result = execute(&action, loaded(), None);
    assert!(result.is_ok());
    let config = result.unwrap().save.unwrap();
    assert_eq!(config.user.unwrap().name, Some("Test User".to_string()));
}

#[test]
fn set_then_get_gives_the_value_back() {
    for (key, value) in [
        ("remote.url", "git@github.com:org/cfg.git"),
        ("remote.fetch-on-init", "true"),
        ("user.name", "Ada"),
        ("user.email", "ada@example.com"),
    ] {
        let config = set_config_value(full_config(), key, value).unwrap();
        assert_eq!(get_config_value(&config, key).unwrap(), value);
    }
}

#[test]
fn setting_the_url_creates_the_remote_with_fetch_off() {
    let config = set_config_value(JinConfig::default(), "remote.url", "/srv/cfg").unwrap();
    assert_eq!(get_config_value(&config, "remote.fetch-on-init").unwrap(), "false");
    assert!(config.user.is_none());
}

#[test]
fn config_load_error_is_the_commands_error() {
    let err = Err(JinError::Config("bad".to_string()));
    assert!(matches!(list(err, None), Err(JinError::Config(_))));
    let err = Err(JinError::Config("bad".to_string()));
    assert!(get("jin-dir", err, None).is_ok());
}
