//! `jin scope`: create, activate, list, delete, show and unset scopes.
//!
//! A scope is either untethered, a ref `refs/jin/scopes/<name>`, or bound
//! to a mode, a ref `refs/jin/modes/<mode>/scopes/<name>`; colons in a
//! scope name become slashes in its ref. The active scope is recorded in
//! the project context.

use vstd::prelude::*;
use vstd::string::*;
use crate::cli::args::ScopeAction;
use crate::commands::common::{
    check_name_chars, check_reserved, creation_view, is_reserved_name, loaded_view,
    name_chars_ok, one_line, opt_is, resolve_context, resolved_context, save_view, strs,
    two_lines, CommandEffects, RefCreation,
};
use crate::commands::mode::{prints_only, strip_or_self};
use crate::model::config::{with_scope, ContextView, ProjectContext};
use crate::model::error::JinError;
use crate::model::layer::opt_sview;
use crate::text::{
    concat2, concat3, concat4, concat5, find_str, has_prefix, lemma_split_nonempty,
    occurs_at, contains_spec, replace_char, replace_char_spec, split_chars, split_spec,
    strip_prefix, string_of, str_eq, substring, views,
};

verus! {

/// Whether a scope name is accepted: non-empty, letters, digits,
/// underscores and colons only, and not reserved.
pub open spec fn scope_name_valid(name: Seq<char>) -> bool {
    name.len() > 0 && name_chars_ok(name, true) && !is_reserved_name(name)
}

/// The message for a rejected scope name.
pub open spec fn scope_name_error(name: Seq<char>) -> Seq<char> {
    if name.len() == 0 {
        "Scope name cannot be empty"@
    } else if !name_chars_ok(name, true) {
        "Invalid scope name '"@ + name
            + "'. Use alphanumeric characters, underscores, and colons only."@
    } else {
        "Scope name '"@ + name + "' is reserved."@
    }
}

/// Checks a scope name.
pub fn validate_scope_name(name: &str) -> (r: Result<(), JinError>)
    ensures
        r is Ok <==> scope_name_valid(name@),
        r matches Err(e) ==> (e matches JinError::Other(m) && m@ == scope_name_error(name@)),
{
    if name.unicode_len() == 0 {
        return Err(JinError::Other("Scope name cannot be empty".to_owned()));
    }
    if !check_name_chars(name, true) {
        return Err(JinError::Other(concat3(
            "Invalid scope name '",
            name,
            "'. Use alphanumeric characters, underscores, and colons only.",
        )));
    }
    if check_reserved(name) {
        return Err(JinError::Other(concat3("Scope name '", name, "' is reserved.")));
    }
    Ok(())
}

/// Whether the mode a scope is bound to has an accepted name (reserved
/// names are not checked here).
pub open spec fn bound_mode_valid(name: Seq<char>) -> bool {
    name.len() > 0 && name_chars_ok(name, false)
}

/// The message for a rejected mode name of a bound scope.
pub open spec fn bound_mode_error(name: Seq<char>) -> Seq<char> {
    if name.len() == 0 {
        "Mode name cannot be empty"@
    } else {
        "Invalid mode name '"@ + name + "'. Use alphanumeric characters and underscores only."@
    }
}

/// Checks the name of the mode a scope is bound to.
fn validate_bound_mode(name: &str) -> (r: Result<(), JinError>)
    ensures
        r is Ok <==> bound_mode_valid(name@),
        r matches Err(e) ==> (e matches JinError::Other(m) && m@ == bound_mode_error(name@)),
{
    if name.unicode_len() == 0 {
        return Err(JinError::Other("Mode name cannot be empty".to_owned()));
    }
    if !check_name_chars(name, false) {
        return Err(JinError::Other(concat3(
            "Invalid mode name '",
            name,
            "'. Use alphanumeric characters and underscores only.",
        )));
    }
    Ok(())
}

/// A scope name in ref form: colons become slashes.
pub open spec fn ref_safe(name: Seq<char>) -> Seq<char> {
    replace_char_spec(name, ':', '/')
}

/// The ref of a scope, bound to a mode or untethered.
pub open spec fn scope_ref_spec(name: Seq<char>, mode: Option<Seq<char>>) -> Seq<char> {
    match mode {
        Some(m) => "refs/jin/modes/"@ + m + "/scopes/"@ + ref_safe(name),
        None => "refs/jin/scopes/"@ + ref_safe(name),
    }
}

/// The ref of a scope, bound to a mode or untethered.
pub fn scope_ref_path(name: &str, mode: Option<&str>) -> (r: String)
    ensures
        r@ == scope_ref_spec(name@, match mode {
            Some(m) => Some(m@),
            None => None,
        }),
{
    let safe = replace_char(name, ':', '/');
    match mode {
        Some(m) => concat4("refs/jin/modes/", m, "/scopes/", safe.as_str()),
        None => concat2("refs/jin/scopes/", safe.as_str()),
    }
}

/// The ref that marks a mode that scopes can be bound to.
pub open spec fn mode_marker_spec(mode: Seq<char>) -> Seq<char> {
    "refs/jin/modes/"@ + mode + "/_mode"@
}

/// The ref that marks a mode that scopes can be bound to.
pub fn mode_marker_ref(mode: &str) -> (r: String)
    ensures
        r@ == mode_marker_spec(mode@),
{
    concat3("refs/jin/modes/", mode, "/_mode")
}

/// The pattern of the refs of a scope bound to any mode.
pub open spec fn mode_bound_pattern_spec(name: Seq<char>) -> Seq<char> {
    "refs/jin/modes/*/scopes/"@ + ref_safe(name)
}

/// The pattern of the refs of a scope bound to any mode.
pub fn mode_bound_pattern(name: &str) -> (r: String)
    ensures
        r@ == mode_bound_pattern_spec(name@),
{
    let safe = replace_char(name, ':', '/');
    concat2("refs/jin/modes/*/scopes/", safe.as_str())
}

/// What the executable read for a scope command.
#[derive(Debug)]
pub struct ScopeFacts {
    /// Whether `refs/jin/modes/<mode>/_mode` exists, for a bound scope.
    pub mode_ref_exists: bool,
    /// Whether the scope's own ref exists: for `create` the ref it would
    /// get, otherwise the untethered ref.
    pub scope_ref_exists: bool,
    /// The result of listing the refs of this scope bound to any mode.
    pub mode_bound_refs: Result<Vec<String>, JinError>,
    /// The result of listing `refs/jin/scopes/*`.
    pub untethered_refs: Result<Vec<String>, JinError>,
    /// The result of listing `refs/jin/modes/*/scopes/*`.
    pub all_mode_bound_refs: Result<Vec<String>, JinError>,
    /// The result of loading the project context.
    pub context: Result<ProjectContext, JinError>,
    /// The result of loading the applied layers of the workspace metadata.
    pub metadata: Result<Vec<String>, JinError>,
    /// Whether the workspace metadata file exists.
    pub metadata_file_exists: bool,
}

/// The first line `jin scope create` prints.
pub open spec fn created_line(name: Seq<char>, mode: Option<Seq<char>>) -> Seq<char> {
    match mode {
        Some(m) => "Created scope '"@ + name + "' bound to mode '"@ + m + "'"@,
        None => "Created scope '"@ + name + "' (untethered)"@,
    }
}

/// The message of the commit a new scope ref points at.
pub open spec fn scope_commit_message(name: Seq<char>, mode: Option<Seq<char>>) -> Seq<char> {
    match mode {
        Some(m) => "Initialize scope: "@ + name + " (mode: "@ + m + ")"@,
        None => "Initialize scope: "@ + name,
    }
}

/// The reflog message of a new scope ref.
pub open spec fn scope_reflog_message(name: Seq<char>, mode: Option<Seq<char>>) -> Seq<char> {
    match mode {
        Some(m) => "create scope "@ + name + " for mode "@ + m,
        None => "create scope "@ + name,
    }
}

/// The effects of `jin scope create` once every check passed.
pub open spec fn create_ok(e: CommandEffects, name: Seq<char>, mode: Option<Seq<char>>) -> bool {
    &&& strs(e.lines@) == seq![created_line(name, mode), "Activate with: jin scope use "@ + name]
    &&& e.save_context is None
    &&& creation_view(e.create_ref) == Some(
        (scope_ref_spec(name, mode), scope_commit_message(name, mode), scope_reflog_message(name, mode)),
    )
    &&& e.delete_refs@.len() == 0
    &&& e.sweep_refs@.len() == 0
    &&& !e.clear_metadata
    &&& e.failure is None
}

/// The outcome of `jin scope create`.
pub open spec fn create_outcome(
    r: Result<CommandEffects, JinError>,
    name: Seq<char>,
    mode: Option<Seq<char>>,
    facts: ScopeFacts,
) -> bool {
    if !scope_name_valid(name) {
        r matches Err(JinError::Other(m)) && m@ == scope_name_error(name)
    } else if mode is Some && !bound_mode_valid(mode->Some_0) {
        r matches Err(JinError::Other(msg)) && msg@ == bound_mode_error(mode->Some_0)
    } else if mode is Some && !facts.mode_ref_exists {
        r matches Err(JinError::NotFound(msg)) && msg@ == "Mode '"@ + mode->Some_0
            + "' not found. Create it with: jin mode create "@ + mode->Some_0
    } else if facts.scope_ref_exists {
        r matches Err(JinError::AlreadyExists(msg)) && msg@ == "Scope '"@ + name
            + "' already exists"@
    } else {
        r matches Ok(e) && create_ok(e, name, mode)
    }
}

/// The scope that the applied layers of the workspace metadata hold: the
/// first segment after `scope/` of the first layer that starts with
/// `scope/` (and not with `mode/`).
pub open spec fn metadata_scope(layers: Seq<Seq<char>>) -> Option<Seq<char>>
    decreases layers.len(),
{
    if layers.len() == 0 {
        None
    } else if has_prefix(layers[0], "scope/"@) && !has_prefix(layers[0], "mode/"@) {
        Some(split_spec(layers[0].subrange(6, layers[0].len() as int), '/')[0])
    } else {
        metadata_scope(layers.drop_first())
    }
}

/// Whether activating `name` clears the workspace metadata, and the lines
/// that say so.
pub open spec fn clear_decision(layers: Option<Seq<Seq<char>>>, name: Seq<char>, exists: bool) -> (
    bool,
    Seq<Seq<char>>,
) {
    match layers {
        None => (false, seq![]),
        Some(ls) => match metadata_scope(ls) {
            Some(old) => if old != name && exists {
                (
                    true,
                    seq![
                        "Cleared workspace metadata (scope changed from '"@ + old + "' to '"@ + name
                            + "')."@,
                        "Run 'jin apply' to apply new scope configuration."@,
                    ],
                )
            } else {
                (false, seq![])
            },
            None => if exists {
                (
                    true,
                    seq![
                        "Cleared workspace metadata (activating scope '"@ + name + "')."@,
                        "Run 'jin apply' to apply new scope configuration."@,
                    ],
                )
            } else {
                (false, seq![])
            },
        },
    }
}

/// Whether a listing result holds at least one ref.
pub open spec fn nonempty_listing(l: Result<Vec<String>, JinError>) -> bool {
    l matches Ok(v) && v@.len() > 0
}

/// A listing result, with a failed listing read as no refs.
pub open spec fn listing_or_empty(l: Result<Vec<String>, JinError>) -> Seq<Seq<char>> {
    match l {
        Ok(v) => strs(v@),
        Err(_) => seq![],
    }
}

/// The outcome of `jin scope use`.
pub open spec fn use_outcome(r: Result<CommandEffects, JinError>, name: Seq<char>, facts: ScopeFacts) -> bool {
    if !scope_name_valid(name) {
        r matches Err(JinError::Other(m)) && m@ == scope_name_error(name)
    } else if !(facts.scope_ref_exists || nonempty_listing(facts.mode_bound_refs)) {
        r matches Err(JinError::NotFound(m)) && m@ == "Scope '"@ + name
            + "' not found. Create it with: jin scope create "@ + name
    } else {
        match resolved_context(loaded_view(facts.context)) {
            Err(_) => r matches Err(JinError::NotInitialized),
            Ok(c) => r matches Ok(e) && save_view(e.save_context) == Some(
                with_scope(c, Some(name)),
            ) && e.create_ref is None && e.delete_refs@.len() == 0 && e.sweep_refs@.len()
                == 0 && match facts.metadata {
                Err(JinError::NotFound(_)) => e.failure is None && !e.clear_metadata && strs(
                    e.lines@,
                ) == activated_lines(name),
                Err(me) => e.failure == Some(me) && !e.clear_metadata && e.lines@.len() == 0,
                Ok(ls) => {
                    let d = clear_decision(Some(strs(ls@)), name, facts.metadata_file_exists);
                    e.failure is None && e.clear_metadata == d.0 && strs(e.lines@) == d.1
                        + activated_lines(name)
                },
            },
        }
    }
}

/// The closing lines of `jin scope use`.
pub open spec fn activated_lines(name: Seq<char>) -> Seq<Seq<char>> {
    seq!["Activated scope '"@ + name + "'"@, "Stage files with: jin add --scope="@ + name]
}

/// The listing line of an untethered scope ref.
pub open spec fn untethered_line(r: Seq<char>, active: Option<Seq<char>>) -> Seq<char> {
    let d = replace_char_spec(strip_or_self(r, "refs/jin/scopes/"@), '/', ':');
    if active == Some(d) {
        "  * "@ + d + " (untethered) [active]"@
    } else {
        "    "@ + d + " (untethered)"@
    }
}

/// The first position at which `n` occurs in `s`, if any.
pub open spec fn first_occurrence(s: Seq<char>, n: Seq<char>) -> Option<int> {
    if contains_spec(s, n) {
        Some(
            choose|i: int| occurs_at(s, n, i) && forall|j: int| 0 <= j < i ==> !occurs_at(s, n, j),
        )
    } else {
        None
    }
}

/// The listing line of a mode-bound scope ref, if it has that shape.
pub open spec fn mode_bound_line(r: Seq<char>, active: Option<Seq<char>>) -> Option<Seq<char>> {
    if !has_prefix(r, "refs/jin/modes/"@) {
        None
    } else {
        let rest = r.subrange(15, r.len() as int);
        match first_occurrence(rest, "/scopes/"@) {
            None => None,
            Some(k) => {
                let m = rest.subrange(0, k);
                let d = replace_char_spec(rest.subrange(k + 8, rest.len() as int), '/', ':');
                if active == Some(d) {
                    Some("  * "@ + d + " (mode: "@ + m + ") [active]"@)
                } else {
                    Some("    "@ + d + " (mode: "@ + m + ")"@)
                }
            },
        }
    }
}

/// The listing lines of mode-bound scope refs, skipping those of another
/// shape.
pub open spec fn mode_bound_lines(refs: Seq<Seq<char>>, active: Option<Seq<char>>) -> Seq<Seq<char>>
    decreases refs.len(),
{
    if refs.len() == 0 {
        seq![]
    } else {
        let rest = mode_bound_lines(refs.drop_last(), active);
        match mode_bound_line(refs.last(), active) {
            Some(l) => rest.push(l),
            None => rest,
        }
    }
}

/// The listing of `jin scope list`.
pub open spec fn scope_list_lines(
    untethered: Seq<Seq<char>>,
    bound: Seq<Seq<char>>,
    active: Option<Seq<char>>,
) -> Seq<Seq<char>> {
    if untethered.len() == 0 && bound.len() == 0 {
        seq!["No scopes found."@, "Create one with: jin scope create <name>"@]
    } else {
        seq!["Available scopes:"@] + untethered.map_values(
            |r: Seq<char>| untethered_line(r, active),
        ) + mode_bound_lines(bound, active)
    }
}

/// The refs `jin scope delete` removes.
pub open spec fn delete_targets(name: Seq<char>, facts: ScopeFacts) -> Seq<Seq<char>> {
    (if facts.scope_ref_exists {
        seq![scope_ref_spec(name, None)]
    } else {
        seq![]
    }) + listing_or_empty(facts.mode_bound_refs)
}

/// The layer refs and patterns `jin scope delete` sweeps.
pub open spec fn delete_sweep(name: Seq<char>) -> Seq<Seq<char>> {
    seq![
        "refs/jin/layers/scope/"@ + name,
        "refs/jin/layers/mode/*/scope/"@ + name,
        "refs/jin/layers/scope/"@ + ref_safe(name),
        "refs/jin/layers/mode/*/scope/"@ + ref_safe(name),
    ]
}

/// The outcome of `jin scope delete`.
pub open spec fn delete_outcome(r: Result<CommandEffects, JinError>, name: Seq<char>, facts: ScopeFacts) -> bool {
    if !scope_name_valid(name) {
        r matches Err(JinError::Other(m)) && m@ == scope_name_error(name)
    } else if delete_targets(name, facts).len() == 0 {
        r matches Err(JinError::NotFound(m)) && m@ == "Scope '"@ + name + "' not found"@
    } else {
        match resolved_context(loaded_view(facts.context)) {
            Err(_) => r matches Err(JinError::NotInitialized),
            Ok(c) => {
                let active = c.scope == Some(name);
                r matches Ok(e) && strs(e.lines@) == (if active {
                    seq![
                        "Scope '"@ + name + "' is currently active. Deactivating..."@,
                        "Deleted scope '"@ + name + "'"@,
                    ]
                } else {
                    seq!["Deleted scope '"@ + name + "'"@]
                }) && save_view(e.save_context) == (if active {
                    Some(with_scope(c, None))
                } else {
                    None
                }) && e.create_ref is None && strs(e.delete_refs@) == delete_targets(name, facts)
                    && strs(e.sweep_refs@) == delete_sweep(name) && !e.clear_metadata
                    && e.failure is None
            },
        }
    }
}

/// The first segment of a path, before its first slash.
fn first_segment(s: &str) -> (r: String)
    ensures
        r@ == split_spec(s@, '/')[0],
{
    let parts = split_chars(s, '/');
    proof {
        lemma_split_nonempty(s@, '/');
        assert(views(parts@)[0] == parts@[0]@);
    }
    string_of(parts[0].as_slice())
}

/// The scope held by the applied layers of the workspace metadata.
fn find_metadata_scope(layers: &Vec<String>) -> (r: Option<String>)
    ensures
        opt_sview(r) == metadata_scope(strs(layers@)),
{
    let mut i: usize = 0;
    assert(strs(layers@).subrange(0, layers@.len() as int) =~= strs(layers@));
    while i < layers.len()
        invariant
            i <= layers@.len(),
            metadata_scope(strs(layers@)) == metadata_scope(strs(layers@).subrange(
                i as int,
                layers@.len() as int,
            )),
        decreases layers@.len() - i,
    {
        let ghost rest = strs(layers@).subrange(i as int, layers@.len() as int);
        assert(rest[0] == layers@[i as int]@);
        assert(rest.drop_first() =~= strs(layers@).subrange(i + 1, layers@.len() as int));
        let l = layers[i].as_str();
        if crate::text::starts_with(l, "scope/") && !crate::text::starts_with(l, "mode/") {
            proof {
                reveal_strlit("scope/");
            }
            let tail = substring(l, 6, l.unicode_len());
            return Some(first_segment(tail.as_str()));
        }
        i = i + 1;
    }
    assert(strs(layers@).subrange(i as int, layers@.len() as int) =~= Seq::<Seq<char>>::empty());
    None
}

/// The listing lines of untethered scope refs.
fn untethered_lines(refs: &Vec<String>, active: &Option<String>) -> (r: Vec<String>)
    ensures
        strs(r@) == strs(refs@).map_values(|x: Seq<char>| untethered_line(x, opt_sview(*active))),
{
    let mut out: Vec<String> = Vec::new();
    let mut i: usize = 0;
    while i < refs.len()
        invariant
            i <= refs@.len(),
            strs(out@) == strs(refs@).subrange(0, i as int).map_values(
                |x: Seq<char>| untethered_line(x, opt_sview(*active)),
            ),
        decreases refs@.len() - i,
    {
        let r = refs[i].as_str();
        let safe = match strip_prefix(r, "refs/jin/scopes/") {
            Some(t) => t,
            None => r.to_owned(),
        };
        let d = replace_char(safe.as_str(), '/', ':');
        let line = if opt_is(active, d.as_str()) {
            concat3("  * ", d.as_str(), " (untethered) [active]")
        } else {
            concat3("    ", d.as_str(), " (untethered)")
        };
        let ghost old_out = out@;
        out.push(line);
        proof {
            let rs = strs(refs@);
            assert(rs[i as int] == refs@[i as int]@);
            assert(strs(out@) =~= strs(old_out).push(line@));
            assert(rs.subrange(0, i + 1).map_values(|x: Seq<char>| untethered_line(x, opt_sview(*active)))
                =~= rs.subrange(0, i as int).map_values(|x: Seq<char>| untethered_line(x, opt_sview(*active))).push(
                untethered_line(rs[i as int], opt_sview(*active))));
        }
        i = i + 1;
    }
    assert(strs(refs@).subrange(0, refs@.len() as int) =~= strs(refs@));
    out
}

/// The minimal position of an occurrence is the one `first_occurrence`
/// names.
proof fn lemma_first_occurrence(s: Seq<char>, n: Seq<char>, i: int)
    requires
        occurs_at(s, n, i),
        forall|j: int| 0 <= j < i ==> !occurs_at(s, n, j),
    ensures
        first_occurrence(s, n) == Some(i),
{
    assert(contains_spec(s, n));
    let k = choose|k: int| occurs_at(s, n, k) && forall|j: int| 0 <= j < k ==> !occurs_at(s, n, j);
    if k < i {
        assert(!occurs_at(s, n, k));
    } else if i < k {
        assert(!occurs_at(s, n, i));
    }
}

/// The listing line of one mode-bound scope ref, if it has that shape.
fn mode_bound_line_exec(r: &str, active: &Option<String>) -> (out: Option<String>)
    ensures
        opt_sview(out) == mode_bound_line(r@, opt_sview(*active)),
{
    proof {
        reveal_strlit("refs/jin/modes/");
        reveal_strlit("/scopes/");
    }
    let rest = match strip_prefix(r, "refs/jin/modes/") {
        Some(t) => t,
        None => {
            return None;
        },
    };
    match find_str(rest.as_str(), "/scopes/") {
        None => None,
        Some(k) => {
            proof {
                lemma_first_occurrence(rest@, "/scopes/"@, k as int);
                assert("/scopes/"@.len() == 8);
            }
            let m = substring(rest.as_str(), 0, k);
            let n = rest.unicode_len();
            let sc = substring(rest.as_str(), k + 8, n);
            let d = replace_char(sc.as_str(), '/', ':');
            if opt_is(active, d.as_str()) {
                Some(concat5("  * ", d.as_str(), " (mode: ", m.as_str(), ") [active]"))
            } else {
                Some(concat5("    ", d.as_str(), " (mode: ", m.as_str(), ")"))
            }
        },
    }
}

/// The listing lines of mode-bound scope refs.
fn mode_bound_lines_exec(refs: &Vec<String>, active: &Option<String>) -> (r: Vec<String>)
    ensures
        strs(r@) == mode_bound_lines(strs(refs@), opt_sview(*active)),
{
    let mut out: Vec<String> = Vec::new();
    let mut i: usize = 0;
    while i < refs.len()
        invariant
            i <= refs@.len(),
            strs(out@) == mode_bound_lines(strs(refs@).subrange(0, i as int), opt_sview(*active)),
        decreases refs@.len() - i,
    {
        let ghost rs = strs(refs@);
        assert(rs.subrange(0, i + 1).drop_last() =~= rs.subrange(0, i as int));
        assert(rs.subrange(0, i + 1).last() == refs@[i as int]@);
        match mode_bound_line_exec(refs[i].as_str(), active) {
            Some(line) => {
                let ghost old_out = out@;
                out.push(line);
                assert(strs(out@) =~= strs(old_out).push(line@));
            },
            None => {},
        }
        i = i + 1;
    }
    assert(strs(refs@).subrange(0, refs@.len() as int) =~= strs(refs@));
    out
}

/// A listing result, with a failed listing read as no refs.
fn or_empty(l: Result<Vec<String>, JinError>) -> (r: Vec<String>)
    ensures
        strs(r@) == listing_or_empty(l),
{
    match l {
        Ok(v) => v,
        Err(_) => {
            let v: Vec<String> = Vec::new();
            assert(strs(v@) =~= Seq::<Seq<char>>::empty());
            v
        },
    }
}

/// The outcome of a scope subcommand on what was read.
pub open spec fn scope_outcome(action: ScopeAction, facts: ScopeFacts, r: Result<CommandEffects, JinError>) -> bool {
    match action {
        ScopeAction::Create { name, mode } => create_outcome(r, name@, opt_sview(mode), facts),
        ScopeAction::Use { name } => use_outcome(r, name@, facts),
        ScopeAction::List => match resolved_context(loaded_view(facts.context)) {
            Err(_) => r matches Err(JinError::NotInitialized),
            Ok(c) => r matches Ok(e) && prints_only(
                e,
                scope_list_lines(
                    listing_or_empty(facts.untethered_refs),
                    listing_or_empty(facts.all_mode_bound_refs),
                    c.scope,
                ),
            ),
        },
        ScopeAction::Delete { name } => delete_outcome(r, name@, facts),
        ScopeAction::Show => match resolved_context(loaded_view(facts.context)) {
            Err(_) => r matches Err(JinError::NotInitialized),
            Ok(c) => r matches Ok(e) && prints_only(
                e,
                match c.scope {
                    Some(s) => seq!["Active scope: "@ + s],
                    None => seq!["No active scope"@],
                },
            ),
        },
        ScopeAction::Unset => match resolved_context(loaded_view(facts.context)) {
            Err(_) => r matches Err(JinError::NotInitialized),
            Ok(c) => r matches Ok(e) && match c.scope {
                None => prints_only(e, seq!["No active scope to unset"@]),
                Some(_) => save_view(e.save_context) == Some(with_scope(c, None))
                    && e.create_ref is None && e.delete_refs@.len() == 0
                    && e.sweep_refs@.len() == 0 && !e.clear_metadata && e.failure is None
                    && strs(e.lines@) == seq![
                    "Deactivated scope"@,
                    "Scope layers no longer available for staging"@,
                ],
            },
        },
    }
}

/// Runs a scope subcommand on what was read.
pub fn execute(action: &ScopeAction, facts: ScopeFacts) -> (r: Result<CommandEffects, JinError>)
    ensures
        scope_outcome(*action, facts, r),
{
    match action {
        ScopeAction::Create { name, mode } => create(name.as_str(), mode, facts),
        ScopeAction::Use { name } => use_scope(name.as_str(), facts),
        ScopeAction::List => {
            let ctx = resolve_context(facts.context)?;
            let unt = or_empty(facts.untethered_refs);
            let mb = or_empty(facts.all_mode_bound_refs);
            if unt.len() == 0 && mb.len() == 0 {
                return Ok(CommandEffects::print(
                    two_lines(
                        "No scopes found.".to_owned(),
                        "Create one with: jin scope create <name>".to_owned(),
                    ),
                ));
            }
            let mut lines: Vec<String> = Vec::new();
            lines.push("Available scopes:".to_owned());
            assert(strs(lines@) =~= seq!["Available scopes:"@]);
            assert(strs(unt@).len() == unt@.len());
            assert(strs(mb@).len() == mb@.len());
            let mut a = untethered_lines(&unt, &ctx.scope);
            let mut b = mode_bound_lines_exec(&mb, &ctx.scope);
            let ghost l0 = lines@;
            let ghost a0 = a@;
            let ghost b0 = b@;
            lines.append(&mut a);
            lines.append(&mut b);
            assert(strs(lines@) =~= strs(l0) + strs(a0) + strs(b0));
            Ok(CommandEffects::print(lines))
        },
        ScopeAction::Delete { name } => delete(name.as_str(), facts),
        ScopeAction::Show => {
            let ctx = resolve_context(facts.context)?;
            let line = match &ctx.scope {
                Some(s) => concat2("Active scope: ", s.as_str()),
                None => "No active scope".to_owned(),
            };
            Ok(CommandEffects::print(one_line(line)))
        },
        ScopeAction::Unset => {
            let mut ctx = resolve_context(facts.context)?;
            if ctx.scope.is_none() {
                return Ok(CommandEffects::print(one_line("No active scope to unset".to_owned())));
            }
            ctx.scope = None;
            let mut e = CommandEffects::print(
                two_lines(
                    "Deactivated scope".to_owned(),
                    "Scope layers no longer available for staging".to_owned(),
                ),
            );
            e.save_context = Some(ctx);
            Ok(e)
        },
    }
}

/// `jin scope create`.
fn create(name: &str, mode: &Option<String>, facts: ScopeFacts) -> (r: Result<CommandEffects, JinError>)
    ensures
        create_outcome(r, name@, opt_sview(*mode), facts),
{
    validate_scope_name(name)?;
    let ref_path = match mode {
        Some(m) => {
            validate_bound_mode(m.as_str())?;
            if !facts.mode_ref_exists {
                return Err(JinError::NotFound(concat4(
                    "Mode '",
                    m.as_str(),
                    "' not found. Create it with: jin mode create ",
                    m.as_str(),
                )));
            }
            scope_ref_path(name, Some(m.as_str()))
        },
        None => scope_ref_path(name, None),
    };
    if facts.scope_ref_exists {
        return Err(JinError::AlreadyExists(concat3("Scope '", name, "' already exists")));
    }
    let (commit_message, reflog_message, first) = match mode {
        Some(m) => (
            concat5("Initialize scope: ", name, " (mode: ", m.as_str(), ")"),
            concat4("create scope ", name, " for mode ", m.as_str()),
            concat5("Created scope '", name, "' bound to mode '", m.as_str(), "'"),
        ),
        None => (
            concat2("Initialize scope: ", name),
            concat2("create scope ", name),
            concat3("Created scope '", name, "' (untethered)"),
        ),
    };
    let mut e = CommandEffects::print(two_lines(first, concat2("Activate with: jin scope use ", name)));
    e.create_ref = Some(RefCreation { ref_path, commit_message, reflog_message });
    assert(create_ok(e, name@, opt_sview(*mode)));
    Ok(e)
}

/// `jin scope use`.
fn use_scope(name: &str, facts: ScopeFacts) -> (r: Result<CommandEffects, JinError>)
    ensures
        use_outcome(r, name@, facts),
{
    validate_scope_name(name)?;
    let bound_found = match &facts.mode_bound_refs {
        Ok(v) => v.len() > 0,
        Err(_) => false,
    };
    if !(facts.scope_ref_exists || bound_found) {
        return Err(JinError::NotFound(concat4(
            "Scope '",
            name,
            "' not found. Create it with: jin scope create ",
            name,
        )));
    }
    let mut ctx = resolve_context(facts.context)?;
    ctx.scope = Some(name.to_owned());
    let mut lines: Vec<String> = Vec::new();
    let mut clear = false;
    assert(strs(lines@) =~= Seq::<Seq<char>>::empty());
    match facts.metadata {
        Err(JinError::NotFound(m)) => {},
        Err(me) => {
            let mut e = CommandEffects::print(Vec::new());
            e.save_context = Some(ctx);
            e.failure = Some(me);
            return Ok(e);
        },
        Ok(ls) => {
            match find_metadata_scope(&ls) {
                Some(old) => {
                    if !str_eq(old.as_str(), name) && facts.metadata_file_exists {
                        clear = true;
                        lines.push(concat5(
                            "Cleared workspace metadata (scope changed from '",
                            old.as_str(),
                            "' to '",
                            name,
                            "').",
                        ));
                        lines.push("Run 'jin apply' to apply new scope configuration.".to_owned());
                    }
                },
                None => {
                    if facts.metadata_file_exists {
                        clear = true;
                        lines.push(concat3("Cleared workspace metadata (activating scope '", name, "')."));
                        lines.push("Run 'jin apply' to apply new scope configuration.".to_owned());
                    }
                },
            }
            assert(strs(lines@) =~= clear_decision(Some(strs(ls@)), name@, facts.metadata_file_exists).1);
        },
    }
    let ghost before = lines@;
    lines.push(concat3("Activated scope '", name, "'"));
    lines.push(concat2("Stage files with: jin add --scope=", name));
    assert(strs(lines@) =~= strs(before) + activated_lines(name@));
    let mut e = CommandEffects::print(lines);
    e.save_context = Some(ctx);
    e.clear_metadata = clear;
    Ok(e)
}

/// `jin scope delete`.
fn delete(name: &str, facts: ScopeFacts) -> (r: Result<CommandEffects, JinError>)
    ensures
        delete_outcome(r, name@, facts),
{
    validate_scope_name(name)?;
    let mut targets: Vec<String> = Vec::new();
    if facts.scope_ref_exists {
        targets.push(scope_ref_path(name, None));
    }
    let ghost t0 = targets@;
    match facts.mode_bound_refs {
        Ok(v) => {
            let mut v = v;
            let ghost v0 = v@;
            targets.append(&mut v);
            assert(strs(targets@) =~= strs(t0) + strs(v0));
        },
        Err(_) => {
            assert(strs(targets@) =~= strs(t0) + Seq::<Seq<char>>::empty());
        },
    }
    assert(strs(t0) =~= (if facts.scope_ref_exists {
        seq![scope_ref_spec(name@, None)]
    } else {
        seq![]
    }));
    if targets.len() == 0 {
        return Err(JinError::NotFound(concat3("Scope '", name, "' not found")));
    }
    let mut ctx = resolve_context(facts.context)?;
    let mut lines: Vec<String> = Vec::new();
    let active = opt_is(&ctx.scope, name);
    let mut save: Option<ProjectContext> = None;
    if active {
        lines.push(concat3("Scope '", name, "' is currently active. Deactivating..."));
        ctx.scope = None;
        save = Some(ctx);
    }
    lines.push(concat3("Deleted scope '", name, "'"));
    let safe = replace_char(name, ':', '/');
    let mut sweep: Vec<String> = Vec::new();
    sweep.push(concat2("refs/jin/layers/scope/", name));
    sweep.push(concat2("refs/jin/layers/mode/*/scope/", name));
    sweep.push(concat2("refs/jin/layers/scope/", safe.as_str()));
    sweep.push(concat2("refs/jin/layers/mode/*/scope/", safe.as_str()));
    proof {
        assert(strs(sweep@) =~= delete_sweep(name@));
        if active {
            assert(strs(lines@) =~= seq![
                "Scope '"@ + name@ + "' is currently active. Deactivating..."@,
                "Deleted scope '"@ + name@ + "'"@,
            ]);
        } else {
            assert(strs(lines@) =~= seq!["Deleted scope '"@ + name@ + "'"@]);
        }
    }
    Ok(CommandEffects {
        lines,
        save_context: save,
        create_ref: None,
        delete_refs: targets,
        sweep_refs: sweep,
        clear_metadata: false,
        failure: None,
    })
}

} // verus!
