//! `jin config`: list, get and set the global configuration.

use vstd::prelude::*;
use vstd::string::*;
use crate::cli::args::ConfigAction;
use crate::commands::common::{one_line, strs};
use crate::model::config::{ConfigView, JinConfig, RemoteConfig, UserConfig};
use crate::model::error::JinError;
use crate::text::{concat2, concat3, concat4, str_eq};

verus! {

/// How a flag is written: `true` or `false`.
pub open spec fn bool_text(b: bool) -> Seq<char> {
    if b {
        "true"@
    } else {
        "false"@
    }
}

/// The text shown for a value that is not set.
pub open spec fn not_set() -> Seq<char> {
    "(not set)"@
}

/// The keys that `get` and `set` read from the configuration file.
pub open spec fn is_config_key(key: Seq<char>) -> bool {
    key == "remote.url"@ || key == "remote.fetch-on-init"@ || key == "user.name"@ || key
        == "user.email"@
}

/// The value of a configuration key, as `jin config get` shows it.
pub open spec fn config_value(c: ConfigView, key: Seq<char>) -> Seq<char> {
    if key == "remote.url"@ {
        match c.remote {
            Some(r) => r.0,
            None => not_set(),
        }
    } else if key == "remote.fetch-on-init"@ {
        match c.remote {
            Some(r) => bool_text(r.1),
            None => not_set(),
        }
    } else if key == "user.name"@ {
        match c.user {
            Some(u) => match u.0 {
                Some(n) => n,
                None => not_set(),
            },
            None => not_set(),
        }
    } else {
        match c.user {
            Some(u) => match u.1 {
                Some(e) => e,
                None => not_set(),
            },
            None => not_set(),
        }
    }
}

/// The message for a key the configuration does not have.
pub open spec fn unknown_key_message(key: Seq<char>) -> Seq<char> {
    "Unknown config key: '"@ + key
        + "'. Valid keys are: jin-dir, remote.url, remote.fetch-on-init, user.name, user.email"@
}

/// The flag a text stands for, as `str::parse::<bool>` reads it.
pub open spec fn parse_bool_spec(v: Seq<char>) -> Option<bool> {
    if v == "true"@ {
        Some(true)
    } else if v == "false"@ {
        Some(false)
    } else {
        None
    }
}

/// Whether `set` accepts a key and value: a known key, and for the fetch
/// flag a flag.
pub open spec fn set_accepted(key: Seq<char>, value: Seq<char>) -> bool {
    is_config_key(key) && (key == "remote.fetch-on-init"@ ==> parse_bool_spec(value) is Some)
}

/// The configuration after `set` of an accepted key and value: a missing
/// remote or user section is created empty first.
pub open spec fn set_config_spec(c: ConfigView, key: Seq<char>, value: Seq<char>) -> ConfigView {
    let remote = match c.remote {
        Some(r) => r,
        None => (Seq::<char>::empty(), false),
    };
    let user = match c.user {
        Some(u) => u,
        None => (None, None),
    };
    if key == "remote.url"@ {
        ConfigView { version: c.version, remote: Some((value, remote.1)), user: c.user }
    } else if key == "remote.fetch-on-init"@ {
        ConfigView {
            version: c.version,
            remote: Some((remote.0, parse_bool_spec(value)->Some_0)),
            user: c.user,
        }
    } else if key == "user.name"@ {
        ConfigView { version: c.version, remote: c.remote, user: Some((Some(value), user.1)) }
    } else {
        ConfigView { version: c.version, remote: c.remote, user: Some((user.0, Some(value))) }
    }
}

/// The message for a fetch flag that is not a flag.
pub open spec fn invalid_bool_message(value: Seq<char>) -> Seq<char> {
    "Invalid boolean value: "@ + value + ". Use 'true' or 'false'"@
}

/// How the `jin-dir` setting is shown.
pub open spec fn jin_dir_display_spec(env: Option<Seq<char>>) -> Seq<char> {
    match env {
        Some(d) => d + " (set via JIN_DIR environment variable)"@,
        None => "~/.jin (default)"@,
    }
}

/// The configuration keys are five different strings.
proof fn lemma_config_keys_distinct()
    ensures
        "remote.url"@ != "remote.fetch-on-init"@,
        "remote.url"@ != "user.name"@,
        "remote.url"@ != "user.email"@,
        "remote.fetch-on-init"@ != "user.name"@,
        "remote.fetch-on-init"@ != "user.email"@,
        "user.name"@ != "user.email"@,
        "jin-dir"@ != "remote.url"@,
        "jin-dir"@ != "remote.fetch-on-init"@,
        "jin-dir"@ != "user.name"@,
        "jin-dir"@ != "user.email"@,
{
    reveal_strlit("remote.url");
    reveal_strlit("remote.fetch-on-init");
    reveal_strlit("user.name");
    reveal_strlit("user.email");
    reveal_strlit("jin-dir");
    assert("remote.url"@.len() == 10 && "remote.fetch-on-init"@.len() == 20);
    assert("user.name"@.len() == 9 && "user.email"@.len() == 10);
    assert("jin-dir"@.len() == 7);
    assert("remote.url"@[0] == 'r' && "user.email"@[0] == 'u');
}

/// A flag as text.
fn bool_to_string(b: bool) -> (r: String)
    ensures
        r@ == bool_text(b),
{
    if b {
        "true".to_owned()
    } else {
        "false".to_owned()
    }
}

/// A copy of a string, or the not-set text.
fn or_not_set(o: &Option<String>) -> (r: String)
    ensures
        r@ == match o {
            Some(s) => s@,
            None => not_set(),
        },
{
    match o {
        Some(s) => s.clone(),
        None => "(not set)".to_owned(),
    }
}

/// The value of a configuration key.
pub fn get_config_value(config: &JinConfig, key: &str) -> (r: Result<String, JinError>)
    ensures
        r is Ok <==> is_config_key(key@),
        r matches Ok(v) ==> v@ == config_value(config@, key@),
        r matches Err(e) ==> (e matches JinError::NotFound(m) && m@ == unknown_key_message(key@)),
{
    if str_eq(key, "remote.url") {
        match &config.remote {
            Some(r) => Ok(r.url.clone()),
            None => Ok("(not set)".to_owned()),
        }
    } else if str_eq(key, "remote.fetch-on-init") {
        match &config.remote {
            Some(r) => Ok(bool_to_string(r.fetch_on_init)),
            None => Ok("(not set)".to_owned()),
        }
    } else if str_eq(key, "user.name") {
        match &config.user {
            Some(u) => Ok(or_not_set(&u.name)),
            None => Ok("(not set)".to_owned()),
        }
    } else if str_eq(key, "user.email") {
        match &config.user {
            Some(u) => Ok(or_not_set(&u.email)),
            None => Ok("(not set)".to_owned()),
        }
    } else {
        Err(JinError::NotFound(unknown_key(key)))
    }
}

/// The message for an unknown key.
fn unknown_key(key: &str) -> (r: String)
    ensures
        r@ == unknown_key_message(key@),
{
    concat3(
        "Unknown config key: '",
        key,
        "'. Valid keys are: jin-dir, remote.url, remote.fetch-on-init, user.name, user.email",
    )
}

/// Reads a flag as `str::parse::<bool>` does.
pub fn parse_bool(value: &str) -> (r: Option<bool>)
    ensures
        r == parse_bool_spec(value@),
{
    if str_eq(value, "true") {
        Some(true)
    } else if str_eq(value, "false") {
        Some(false)
    } else {
        None
    }
}

/// Sets a configuration key in a configuration.
pub fn set_config_value(config: JinConfig, key: &str, value: &str) -> (r: Result<JinConfig, JinError>)
    ensures
        r is Ok <==> set_accepted(key@, value@),
        r matches Ok(c) ==> c@ == set_config_spec(config@, key@, value@),
        !is_config_key(key@) ==> (r matches Err(JinError::NotFound(m)) && m@
            == unknown_key_message(key@)),
        is_config_key(key@) && !set_accepted(key@, value@) ==> (r matches Err(
            JinError::Config(m),
        ) && m@ == invalid_bool_message(value@)),
{
    proof {
        lemma_config_keys_distinct();
    }
    let mut config = config;
    if str_eq(key, "remote.url") {
        let fetch = match &config.remote {
            Some(r) => r.fetch_on_init,
            None => false,
        };
        config.remote = Some(RemoteConfig { url: value.to_owned(), fetch_on_init: fetch });
        Ok(config)
    } else if str_eq(key, "remote.fetch-on-init") {
        let b = match parse_bool(value) {
            Some(b) => b,
            None => {
                return Err(JinError::Config(concat3(
                    "Invalid boolean value: ",
                    value,
                    ". Use 'true' or 'false'",
                )));
            },
        };
        let url = match &config.remote {
            Some(r) => r.url.clone(),
            None => String::new(),
        };
        config.remote = Some(RemoteConfig { url, fetch_on_init: b });
        Ok(config)
    } else if str_eq(key, "user.name") {
        let email = match &config.user {
            Some(u) => crate::model::config::clone_opt(&u.email),
            None => None,
        };
        config.user = Some(UserConfig { name: Some(value.to_owned()), email });
        Ok(config)
    } else if str_eq(key, "user.email") {
        let name = match &config.user {
            Some(u) => crate::model::config::clone_opt(&u.name),
            None => None,
        };
        config.user = Some(UserConfig { name, email: Some(value.to_owned()) });
        Ok(config)
    } else {
        Err(JinError::NotFound(unknown_key(key)))
    }
}

/// How the `jin-dir` setting is shown, given the `JIN_DIR` variable.
pub fn get_jin_dir_display(jin_dir: Option<&str>) -> (r: Result<String, JinError>)
    ensures
        r matches Ok(s) && s@ == jin_dir_display_spec(match jin_dir {
            Some(d) => Some(d@),
            None => None,
        }),
{
    match jin_dir {
        Some(d) => Ok(concat2(d, " (set via JIN_DIR environment variable)")),
        None => Ok("~/.jin (default)".to_owned()),
    }
}

/// A loaded configuration by its view.
pub open spec fn loaded_config(c: Result<JinConfig, JinError>) -> Result<ConfigView, JinError> {
    match c {
        Ok(x) => Ok(x@),
        Err(e) => Err(e),
    }
}

/// An optional slice by its characters.
pub open spec fn opt_str_view(o: Option<&str>) -> Option<Seq<char>> {
    match o {
        Some(d) => Some(d@),
        None => None,
    }
}

/// The lines of `jin config list`.
pub open spec fn list_lines(c: ConfigView, env: Option<Seq<char>>) -> Seq<Seq<char>> {
    seq![
        "Jin Configuration:"@,
        "  jin-dir: "@ + jin_dir_display_spec(env),
        "  remote.url: "@ + config_value(c, "remote.url"@),
        "  remote.fetch-on-init: "@ + config_value(c, "remote.fetch-on-init"@),
        "  user.name: "@ + config_value(c, "user.name"@),
        "  user.email: "@ + config_value(c, "user.email"@),
    ]
}

/// `jin config list`: the lines it prints.
pub fn list(config: Result<JinConfig, JinError>, jin_dir: Option<&str>) -> (r: Result<Vec<String>, JinError>)
    ensures
        match loaded_config(config) {
            Err(e) => r == Err::<Vec<String>, JinError>(e),
            Ok(c) => r matches Ok(v) && strs(v@) == list_lines(c, opt_str_view(jin_dir)),
        },
{
    let config = config?;
    let mut lines: Vec<String> = Vec::new();
    lines.push("Jin Configuration:".to_owned());
    let d = get_jin_dir_display(jin_dir)?;
    lines.push(concat2("  jin-dir: ", d.as_str()));
    let url = get_config_value(&config, "remote.url")?;
    lines.push(concat2("  remote.url: ", url.as_str()));
    let fetch = get_config_value(&config, "remote.fetch-on-init")?;
    lines.push(concat2("  remote.fetch-on-init: ", fetch.as_str()));
    let name = get_config_value(&config, "user.name")?;
    lines.push(concat2("  user.name: ", name.as_str()));
    let email = get_config_value(&config, "user.email")?;
    lines.push(concat2("  user.email: ", email.as_str()));
    assert(strs(lines@) =~= list_lines(config@, opt_str_view(jin_dir)));
    Ok(lines)
}

/// `jin config get <key>`: the line it prints.
pub fn get(key: &str, config: Result<JinConfig, JinError>, jin_dir: Option<&str>) -> (r: Result<
    Vec<String>,
    JinError,
>)
    ensures
        key@ == "jin-dir"@ ==> (r matches Ok(v) && strs(v@) == seq![
            jin_dir_display_spec(opt_str_view(jin_dir)),
        ]),
        key@ != "jin-dir"@ ==> match loaded_config(config) {
            Err(e) => r == Err::<Vec<String>, JinError>(e),
            Ok(c) => if is_config_key(key@) {
                r matches Ok(v) && strs(v@) == seq![config_value(c, key@)]
            } else {
                r matches Err(JinError::NotFound(m)) && m@ == unknown_key_message(key@)
            },
        },
{
    proof {
        lemma_config_keys_distinct();
    }
    if str_eq(key, "jin-dir") {
        let d = get_jin_dir_display(jin_dir)?;
        return Ok(one_line(d));
    }
    let config = config?;
    let v = get_config_value(&config, key)?;
    Ok(one_line(v))
}

/// `jin config set <key> <value>`: the configuration to save and the line
/// it prints.
pub fn set(key: &str, value: &str, config: Result<JinConfig, JinError>) -> (r: Result<
    (JinConfig, String),
    JinError,
>)
    ensures
        match loaded_config(config) {
            Err(e) => r == Err::<(JinConfig, String), JinError>(e),
            Ok(c) => if set_accepted(key@, value@) {
                r matches Ok((n, line)) && n@ == set_config_spec(c, key@, value@) && line@
                    == "Set "@ + key@ + " = "@ + value@
            } else if !is_config_key(key@) {
                r matches Err(JinError::NotFound(m)) && m@ == unknown_key_message(key@)
            } else {
                r matches Err(JinError::Config(m)) && m@ == invalid_bool_message(value@)
            },
        },
{
    let config = config?;
    let n = set_config_value(config, key, value)?;
    Ok((n, concat4("Set ", key, " = ", value)))
}

/// What `jin config` prints and saves.
#[derive(Debug)]
pub struct ConfigOutcome {
    /// Lines printed to standard output.
    pub lines: Vec<String>,
    /// The configuration to save, if it changed.
    pub save: Option<JinConfig>,
}

/// Runs a config subcommand on the loaded configuration and the
/// `JIN_DIR` variable.
pub fn execute(action: &ConfigAction, config: Result<JinConfig, JinError>, jin_dir: Option<&str>) -> (r: Result<
    ConfigOutcome,
    JinError,
>)
    ensures
        match action {
            ConfigAction::List => match loaded_config(config) {
                Err(e) => r == Err::<ConfigOutcome, JinError>(e),
                Ok(c) => r matches Ok(o) && o.save is None && strs(o.lines@) == list_lines(
                    c,
                    opt_str_view(jin_dir),
                ),
            },
            ConfigAction::Get { key } => if key@ == "jin-dir"@ {
                r matches Ok(o) && o.save is None && strs(o.lines@) == seq![
                    jin_dir_display_spec(opt_str_view(jin_dir)),
                ]
            } else {
                match loaded_config(config) {
                    Err(e) => r == Err::<ConfigOutcome, JinError>(e),
                    Ok(c) => if is_config_key(key@) {
                        r matches Ok(o) && o.save is None && strs(o.lines@) == seq![
                            config_value(c, key@),
                        ]
                    } else {
                        r matches Err(JinError::NotFound(m)) && m@ == unknown_key_message(key@)
                    },
                }
            },
            ConfigAction::SetValue { key, value } => match loaded_config(config) {
                Err(e) => r == Err::<ConfigOutcome, JinError>(e),
                Ok(c) => if set_accepted(key@, value@) {
                    r matches Ok(o) && (o.save matches Some(n) && n@ == set_config_spec(
                        c,
                        key@,
                        value@,
                    )) && strs(o.lines@) == seq!["Set "@ + key@ + " = "@ + value@]
                } else if !is_config_key(key@) {
                    r matches Err(JinError::NotFound(m)) && m@ == unknown_key_message(key@)
                } else {
                    r matches Err(JinError::Config(m)) && m@ == invalid_bool_message(value@)
                },
            },
        },
{
    match action {
        ConfigAction::List => {
            let lines = list(config, jin_dir)?;
            Ok(ConfigOutcome { lines, save: None })
        },
        ConfigAction::Get { key } => {
            let lines = get(key.as_str(), config, jin_dir)?;
            Ok(ConfigOutcome { lines, save: None })
        },
        ConfigAction::SetValue { key, value } => {
            let (n, line) = set(key.as_str(), value.as_str(), config)?;
            Ok(ConfigOutcome { lines: one_line(line), save: Some(n) })
        },
    }
}

/// Setting an accepted key and reading it back gives the value that was
/// set.
pub proof fn lemma_set_then_get(c: ConfigView, key: Seq<char>, value: Seq<char>)
    requires
        set_accepted(key, value),
    ensures
        config_value(set_config_spec(c, key, value), key) == value,
{
    lemma_config_keys_distinct();
    reveal_strlit("true");
    reveal_strlit("false");
    if key == "remote.fetch-on-init"@ {
        assert("true"@.len() == 4 && "false"@.len() == 5);
    }
}

/// Setting a key of the remote section leaves the user section as it
/// was, and the other way round.
pub proof fn lemma_set_frame(c: ConfigView, key: Seq<char>, value: Seq<char>)
    requires
        set_accepted(key, value),
    ensures
        (key == "remote.url"@ || key == "remote.fetch-on-init"@) ==> set_config_spec(
            c,
            key,
            value,
        ).user == c.user,
        (key == "user.name"@ || key == "user.email"@) ==> set_config_spec(c, key, value).remote
            == c.remote,
        set_config_spec(c, key, value).version == c.version,
{
    lemma_config_keys_distinct();
}

} // verus!
