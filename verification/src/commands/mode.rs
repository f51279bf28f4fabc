//! `jin mode`: create, activate, list, delete, show and unset modes.
//!
//! A mode is a ref `refs/jin/modes/<name>` pointing at a commit with an
//! empty tree; the active mode is recorded in the project context.

use vstd::prelude::*;
use vstd::string::*;
use crate::cli::args::ModeAction;
use crate::commands::common::{
    check_name_chars, check_reserved, creation_view, is_reserved_name, loaded_view,
    name_chars_ok, one_line, opt_is, resolve_context, resolved_context, save_view, strs,
    two_lines, CommandEffects, RefCreation,
};
use crate::model::config::{with_mode, ContextView, ProjectContext};
use crate::model::error::JinError;
use crate::model::layer::opt_sview;
use crate::text::{concat2, concat3, concat4, has_prefix, strip_prefix};

verus! {

/// Whether a mode name is accepted: non-empty, letters, digits and
/// underscores only, and not reserved.
pub open spec fn mode_name_valid(name: Seq<char>) -> bool {
    name.len() > 0 && name_chars_ok(name, false) && !is_reserved_name(name)
}

/// The message for a rejected mode name.
pub open spec fn mode_name_error(name: Seq<char>) -> Seq<char> {
    if name.len() == 0 {
        "Mode name cannot be empty"@
    } else if !name_chars_ok(name, false) {
        "Invalid mode name '"@ + name + "'. Use alphanumeric characters and underscores only."@
    } else {
        "Mode name '"@ + name + "' is reserved."@
    }
}

/// Checks a mode name.
pub fn validate_mode_name(name: &str) -> (r: Result<(), JinError>)
    ensures
        r is Ok <==> mode_name_valid(name@),
        r matches Err(e) ==> (e matches JinError::Other(m) && m@ == mode_name_error(name@)),
{
    if name.unicode_len() == 0 {
        return Err(JinError::Other("Mode name cannot be empty".to_owned()));
    }
    if !check_name_chars(name, false) {
        return Err(JinError::Other(concat3(
            "Invalid mode name '",
            name,
            "'. Use alphanumeric characters and underscores only.",
        )));
    }
    if check_reserved(name) {
        return Err(JinError::Other(concat3("Mode name '", name, "' is reserved.")));
    }
    Ok(())
}

/// The ref of a mode.
pub open spec fn mode_ref_spec(name: Seq<char>) -> Seq<char> {
    "refs/jin/modes/"@ + name
}

/// The ref of a mode.
pub fn mode_ref_path(name: &str) -> (r: String)
    ensures
        r@ == mode_ref_spec(name@),
{
    concat2("refs/jin/modes/", name)
}

/// What the executable read for a mode command.
#[derive(Debug)]
pub struct ModeFacts {
    /// Whether the ref of the named mode exists.
    pub ref_exists: bool,
    /// The result of loading the project context.
    pub context: Result<ProjectContext, JinError>,
    /// The result of listing `refs/jin/modes/*`.
    pub mode_refs: Result<Vec<String>, JinError>,
}

/// `s` without the prefix `p`, or `s` itself when it lacks it.
pub open spec fn strip_or_self(s: Seq<char>, p: Seq<char>) -> Seq<char> {
    if has_prefix(s, p) {
        s.subrange(p.len() as int, s.len() as int)
    } else {
        s
    }
}

/// The listing line of one mode ref.
pub open spec fn mode_list_line(r: Seq<char>, active: Option<Seq<char>>) -> Seq<char> {
    let n = strip_or_self(r, "refs/jin/modes/"@);
    if active == Some(n) {
        "  * "@ + n + " [active]"@
    } else {
        "    "@ + n
    }
}

/// The listing lines of mode refs.
pub open spec fn mode_list_lines(refs: Seq<Seq<char>>, active: Option<Seq<char>>) -> Seq<
    Seq<char>,
> {
    refs.map_values(|r: Seq<char>| mode_list_line(r, active))
}

/// Effects that only print, by their parts.
pub open spec fn prints_only(e: CommandEffects, lines: Seq<Seq<char>>) -> bool {
    &&& strs(e.lines@) == lines
    &&& e.save_context is None
    &&& e.create_ref is None
    &&& e.delete_refs@.len() == 0
    &&& e.sweep_refs@.len() == 0
    &&& !e.clear_metadata
    &&& e.failure is None
}

/// The effects of `jin mode create <name>` on a mode that does not exist.
pub open spec fn create_effects_ok(e: CommandEffects, name: Seq<char>) -> bool {
    &&& strs(e.lines@) == seq![
        "Created mode '"@ + name + "'"@,
        "Activate with: jin mode use "@ + name,
    ]
    &&& e.save_context is None
    &&& creation_view(e.create_ref) == Some(
        (mode_ref_spec(name), "Initialize mode: "@ + name, "create mode "@ + name),
    )
    &&& e.delete_refs@.len() == 0
    &&& e.sweep_refs@.len() == 0
    &&& !e.clear_metadata
    &&& e.failure is None
}

/// The effects of `jin mode delete <name>` in a context.
pub open spec fn delete_effects_ok(e: CommandEffects, name: Seq<char>, c: ContextView) -> bool {
    let active = c.mode == Some(name);
    &&& strs(e.lines@) == (if active {
        seq![
            "Mode '"@ + name + "' is currently active. Deactivating..."@,
            "Deleted mode '"@ + name + "'"@,
        ]
    } else {
        seq!["Deleted mode '"@ + name + "'"@]
    })
    &&& save_view(e.save_context) == (if active {
        Some(with_mode(c, None))
    } else {
        None
    })
    &&& e.create_ref is None
    &&& strs(e.delete_refs@) == seq![mode_ref_spec(name)]
    &&& strs(e.sweep_refs@) == seq![
        "refs/jin/layers/mode/"@ + name,
        "refs/jin/modes/"@ + name + "/scopes/*"@,
    ]
    &&& !e.clear_metadata
    &&& e.failure is None
}

/// The listing of `jin mode list`.
pub open spec fn list_lines(refs: Seq<Seq<char>>, active: Option<Seq<char>>) -> Seq<Seq<char>> {
    if refs.len() == 0 {
        seq!["No modes found."@, "Create one with: jin mode create <name>"@]
    } else {
        seq!["Available modes:"@] + mode_list_lines(refs, active)
    }
}

/// The listing of mode refs.
fn list_modes(refs: &Vec<String>, active: &Option<String>) -> (r: Vec<String>)
    ensures
        strs(r@) == list_lines(strs(refs@), opt_sview(*active)),
{
    if refs.len() == 0 {
        return two_lines(
            "No modes found.".to_owned(),
            "Create one with: jin mode create <name>".to_owned(),
        );
    }
    let mut lines: Vec<String> = Vec::new();
    lines.push("Available modes:".to_owned());
    let ghost head = seq!["Available modes:"@];
    assert(strs(lines@) =~= head);
    let mut i: usize = 0;
    while i < refs.len()
        invariant
            i <= refs@.len(),
            head == seq!["Available modes:"@],
            strs(lines@) == head + mode_list_lines(strs(refs@).subrange(0, i as int), opt_sview(*active)),
        decreases refs@.len() - i,
    {
        let r = &refs[i];
        let name = match strip_prefix(r.as_str(), "refs/jin/modes/") {
            Some(n) => n,
            None => r.clone(),
        };
        let line = if opt_is(active, name.as_str()) {
            concat3("  * ", name.as_str(), " [active]")
        } else {
            concat2("    ", name.as_str())
        };
        let ghost old_lines = lines@;
        lines.push(line);
        proof {
            assert(strs(lines@) =~= strs(old_lines).push(line@));
            let rs = strs(refs@);
            assert(rs[i as int] == r@);
            assert(line@ == mode_list_line(rs[i as int], opt_sview(*active)));
            assert(rs.subrange(0, i + 1) =~= rs.subrange(0, i as int).push(rs[i as int]));
            assert(mode_list_lines(rs.subrange(0, i + 1), opt_sview(*active)) =~= mode_list_lines(
                rs.subrange(0, i as int),
                opt_sview(*active),
            ).push(mode_list_line(rs[i as int], opt_sview(*active))));
            assert(strs(lines@) =~= head + mode_list_lines(rs.subrange(0, i + 1), opt_sview(*active)));
        }
        i = i + 1;
    }
    assert(strs(refs@).subrange(0, refs@.len() as int) =~= strs(refs@));
    lines
}

/// Runs a mode subcommand on what was read.
pub fn execute(action: &ModeAction, facts: ModeFacts) -> (r: Result<CommandEffects, JinError>)
    ensures
        match action {
            ModeAction::Create { name } => {
                &&& !mode_name_valid(name@) ==> (r matches Err(JinError::Other(m)) && m@
                    == mode_name_error(name@))
                &&& mode_name_valid(name@) && facts.ref_exists ==> (r matches Err(
                    JinError::AlreadyExists(m),
                ) && m@ == "Mode '"@ + name@ + "' already exists"@)
                &&& mode_name_valid(name@) && !facts.ref_exists ==> (r matches Ok(e)
                    && create_effects_ok(e, name@))
            },
            ModeAction::Use { name } => {
                &&& !mode_name_valid(name@) ==> (r matches Err(JinError::Other(m)) && m@
                    == mode_name_error(name@))
                &&& mode_name_valid(name@) && !facts.ref_exists ==> (r matches Err(
                    JinError::NotFound(m),
                ) && m@ == "Mode '"@ + name@ + "' not found. Create it with: jin mode create "@
                    + name@)
                &&& mode_name_valid(name@) && facts.ref_exists ==> match resolved_context(
                    loaded_view(facts.context),
                ) {
                    Err(_) => r matches Err(JinError::NotInitialized),
                    Ok(c) => r matches Ok(e) && save_view(e.save_context) == Some(
                        with_mode(c, Some(name@)),
                    ) && e.create_ref is None && e.delete_refs@.len() == 0
                        && e.sweep_refs@.len() == 0 && !e.clear_metadata && e.failure is None && strs(e.lines@)
                        == seq![
                        "Activated mode '"@ + name@ + "'"@,
                        "Stage files with: jin add --mode"@,
                    ],
                }
            },
            ModeAction::List => match resolved_context(loaded_view(facts.context)) {
                Err(_) => r matches Err(JinError::NotInitialized),
                Ok(c) => match facts.mode_refs {
                    Err(le) => r == Err::<CommandEffects, JinError>(le),
                    Ok(refs) => r matches Ok(e) && prints_only(
                        e,
                        list_lines(strs(refs@), c.mode),
                    ),
                },
            },
            ModeAction::Delete { name } => {
                &&& !mode_name_valid(name@) ==> (r matches Err(JinError::Other(m)) && m@
                    == mode_name_error(name@))
                &&& mode_name_valid(name@) && !facts.ref_exists ==> (r matches Err(
                    JinError::NotFound(m),
                ) && m@ == "Mode '"@ + name@ + "' not found"@)
                &&& mode_name_valid(name@) && facts.ref_exists ==> match resolved_context(
                    loaded_view(facts.context),
                ) {
                    Err(_) => r matches Err(JinError::NotInitialized),
                    Ok(c) => r matches Ok(e) && delete_effects_ok(e, name@, c),
                }
            },
            ModeAction::Show => match resolved_context(loaded_view(facts.context)) {
                Err(_) => r matches Err(JinError::NotInitialized),
                Ok(c) => r matches Ok(e) && prints_only(
                    e,
                    match c.mode {
                        Some(m) => seq!["Active mode: "@ + m],
                        None => seq!["No active mode"@],
                    },
                ),
            },
            ModeAction::Unset => match resolved_context(loaded_view(facts.context)) {
                Err(_) => r matches Err(JinError::NotInitialized),
                Ok(c) => r matches Ok(e) && match c.mode {
                    None => prints_only(e, seq!["No active mode to unset"@]),
                    Some(_) => save_view(e.save_context) == Some(with_mode(c, None))
                        && e.create_ref is None && e.delete_refs@.len() == 0
                        && e.sweep_refs@.len() == 0 && !e.clear_metadata && e.failure is None && strs(e.lines@)
                        == seq!["Deactivated mode"@, "Mode layer no longer available for staging"@],
                },
            },
        },
{
    match action {
        ModeAction::Create { name } => {
            validate_mode_name(name.as_str())?;
            if facts.ref_exists {
                return Err(JinError::AlreadyExists(concat3("Mode '", name.as_str(), "' already exists")));
            }
            let lines = two_lines(
                concat3("Created mode '", name.as_str(), "'"),
                concat2("Activate with: jin mode use ", name.as_str()),
            );
            let mut e = CommandEffects::print(lines);
            e.create_ref = Some(RefCreation {
                ref_path: mode_ref_path(name.as_str()),
                commit_message: concat2("Initialize mode: ", name.as_str()),
                reflog_message: concat2("create mode ", name.as_str()),
            });
            Ok(e)
        },
        ModeAction::Use { name } => {
            validate_mode_name(name.as_str())?;
            if !facts.ref_exists {
                return Err(JinError::NotFound(concat4(
                    "Mode '",
                    name.as_str(),
                    "' not found. Create it with: jin mode create ",
                    name.as_str(),
                )));
            }
            let mut ctx = resolve_context(facts.context)?;
            ctx.mode = Some(name.clone());
            let mut e = CommandEffects::print(
                two_lines(
                    concat3("Activated mode '", name.as_str(), "'"),
                    "Stage files with: jin add --mode".to_owned(),
                ),
            );
            e.save_context = Some(ctx);
            Ok(e)
        },
        ModeAction::List => {
            let ctx = resolve_context(facts.context)?;
            let refs = facts.mode_refs?;
            Ok(CommandEffects::print(list_modes(&refs, &ctx.mode)))
        },
        ModeAction::Delete { name } => {
            validate_mode_name(name.as_str())?;
            if !facts.ref_exists {
                return Err(JinError::NotFound(concat3("Mode '", name.as_str(), "' not found")));
            }
            let mut ctx = resolve_context(facts.context)?;
            let mut lines: Vec<String> = Vec::new();
            let active = opt_is(&ctx.mode, name.as_str());
            let mut save: Option<ProjectContext> = None;
            if active {
                lines.push(concat3("Mode '", name.as_str(), "' is currently active. Deactivating..."));
                ctx.mode = None;
                save = Some(ctx);
            }
            lines.push(concat3("Deleted mode '", name.as_str(), "'"));
            let mut sweep: Vec<String> = Vec::new();
            sweep.push(concat2("refs/jin/layers/mode/", name.as_str()));
            sweep.push(concat3("refs/jin/modes/", name.as_str(), "/scopes/*"));
            let mut dels: Vec<String> = Vec::new();
            dels.push(mode_ref_path(name.as_str()));
            proof {
                assert(strs(sweep@) =~= seq![
                    "refs/jin/layers/mode/"@ + name@,
                    "refs/jin/modes/"@ + name@ + "/scopes/*"@,
                ]);
                assert(strs(dels@) =~= seq![mode_ref_spec(name@)]);
                if active {
                    assert(strs(lines@) =~= seq![
                        "Mode '"@ + name@ + "' is currently active. Deactivating..."@,
                        "Deleted mode '"@ + name@ + "'"@,
                    ]);
                } else {
                    assert(strs(lines@) =~= seq!["Deleted mode '"@ + name@ + "'"@]);
                }
            }
            Ok(CommandEffects {
                lines,
                save_context: save,
                create_ref: None,
                delete_refs: dels,
                sweep_refs: sweep,
                clear_metadata: false,
                failure: None,
            })
        },
        ModeAction::Show => {
            let ctx = resolve_context(facts.context)?;
            let line = match &ctx.mode {
                Some(m) => concat2("Active mode: ", m.as_str()),
                None => "No active mode".to_owned(),
            };
            Ok(CommandEffects::print(one_line(line)))
        },
        ModeAction::Unset => {
            let mut ctx = resolve_context(facts.context)?;
            if ctx.mode.is_none() {
                return Ok(CommandEffects::print(one_line("No active mode to unset".to_owned())));
            }
            ctx.mode = None;
            let mut e = CommandEffects::print(
                two_lines(
                    "Deactivated mode".to_owned(),
                    "Mode layer no longer available for staging".to_owned(),
                ),
            );
            e.save_context = Some(ctx);
            Ok(e)
        },
    }
}

} // verus!
