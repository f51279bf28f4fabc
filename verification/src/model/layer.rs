//! The nine-layer hierarchy: precedence, ref paths, storage paths and the
//! ref-path grammar that maps a ref back to its layer.

use vstd::prelude::*;
use vstd::string::*;
use crate::text::{chars_eq_str, join_spec, lemma_non_empty_id, lemma_split_join, piece_is, filter_non_empty, non_empty, replace_char, replace_char_spec, split_chars, split_spec, views};

verus! {

/// The nine configuration layers; precedence runs from 1 (lowest) to 9.
#[derive(Debug, Clone, Copy, PartialEq, Eq, Structural, Hash)]
pub enum Layer {
    /// Layer 1: shared defaults.
    GlobalBase,
    /// Layer 2: mode defaults.
    ModeBase,
    /// Layer 3: scoped mode configs.
    ModeScope,
    /// Layer 4: project overrides for a scoped mode.
    ModeScopeProject,
    /// Layer 5: project overrides for a mode.
    ModeProject,
    /// Layer 6: untethered scope configs.
    ScopeBase,
    /// Layer 7: project-only configs.
    ProjectBase,
    /// Layer 8: machine-only overlays.
    UserLocal,
    /// Layer 9: the derived merge result.
    WorkspaceActive,
}

/// The precedence of a layer.
pub open spec fn precedence_spec(l: Layer) -> u8 {
    match l {
        Layer::GlobalBase => 1,
        Layer::ModeBase => 2,
        Layer::ModeScope => 3,
        Layer::ModeScopeProject => 4,
        Layer::ModeProject => 5,
        Layer::ScopeBase => 6,
        Layer::ProjectBase => 7,
        Layer::UserLocal => 8,
        Layer::WorkspaceActive => 9,
    }
}

/// All layers, lowest precedence first.
pub open spec fn precedence_order() -> Seq<Layer> {
    seq![
        Layer::GlobalBase,
        Layer::ModeBase,
        Layer::ModeScope,
        Layer::ModeScopeProject,
        Layer::ModeProject,
        Layer::ScopeBase,
        Layer::ProjectBase,
        Layer::UserLocal,
        Layer::WorkspaceActive,
    ]
}

/// The view of an optional string slice.
pub open spec fn opt_view(o: Option<&str>) -> Option<Seq<char>> {
    match o {
        Some(s) => Some(s@),
        None => None,
    }
}

/// The view of an optional owned string.
pub open spec fn opt_sview(o: Option<String>) -> Option<Seq<char>> {
    match o {
        Some(s) => Some(s@),
        None => None,
    }
}

/// A name, or "default" when it is absent.
pub open spec fn or_default(o: Option<Seq<char>>) -> Seq<char> {
    match o {
        Some(s) => s,
        None => "default"@,
    }
}

/// The scope as it appears in a ref: colons become slashes.
pub open spec fn scope_ref_spec(scope: Option<Seq<char>>) -> Seq<char> {
    match scope {
        Some(s) => replace_char_spec(s, ':', '/'),
        None => "default"@,
    }
}

/// The Git ref path of a layer for the given mode, scope and project.
pub open spec fn ref_path_spec(
    l: Layer,
    mode: Option<Seq<char>>,
    scope: Option<Seq<char>>,
    project: Option<Seq<char>>,
) -> Seq<char> {
    let m = or_default(mode);
    let s = scope_ref_spec(scope);
    let p = or_default(project);
    match l {
        Layer::GlobalBase => "refs/jin/layers/global"@,
        Layer::ModeBase => "refs/jin/layers/mode/"@ + m + "/_"@,
        Layer::ModeScope => "refs/jin/layers/mode/"@ + m + "/scope/"@ + s + "/_"@,
        Layer::ModeScopeProject => "refs/jin/layers/mode/"@ + m + "/scope/"@ + s + "/project/"@
            + p,
        Layer::ModeProject => "refs/jin/layers/mode/"@ + m + "/project/"@ + p,
        Layer::ScopeBase => "refs/jin/layers/scope/"@ + s,
        Layer::ProjectBase => "refs/jin/layers/project/"@ + p,
        Layer::UserLocal => "refs/jin/layers/local"@,
        Layer::WorkspaceActive => "refs/jin/layers/workspace"@,
    }
}

/// The storage directory of a layer for the given mode, scope and project.
pub open spec fn storage_path_spec(
    l: Layer,
    mode: Option<Seq<char>>,
    scope: Option<Seq<char>>,
    project: Option<Seq<char>>,
) -> Seq<char> {
    let m = or_default(mode);
    let s = or_default(scope);
    let p = or_default(project);
    match l {
        Layer::GlobalBase => "jin/global/"@,
        Layer::ModeBase => "jin/mode/"@ + m + "/"@,
        Layer::ModeScope => "jin/mode/"@ + m + "/scope/"@ + s + "/"@,
        Layer::ModeScopeProject => "jin/mode/"@ + m + "/scope/"@ + s + "/project/"@ + p + "/"@,
        Layer::ModeProject => "jin/mode/"@ + m + "/project/"@ + p + "/"@,
        Layer::ScopeBase => "jin/scope/"@ + s + "/"@,
        Layer::ProjectBase => "jin/project/"@ + p + "/"@,
        Layer::UserLocal => "~/.jin/local/"@,
        Layer::WorkspaceActive => ".jin/workspace/"@,
    }
}

/// Whether the layer needs an active mode.
pub open spec fn requires_mode_spec(l: Layer) -> bool {
    l == Layer::ModeBase || l == Layer::ModeScope || l == Layer::ModeScopeProject || l
        == Layer::ModeProject
}

/// Whether the layer needs a scope.
pub open spec fn requires_scope_spec(l: Layer) -> bool {
    l == Layer::ModeScope || l == Layer::ModeScopeProject || l == Layer::ScopeBase
}

/// Whether the layer belongs to a project.
pub open spec fn is_project_specific_spec(l: Layer) -> bool {
    l == Layer::ModeScopeProject || l == Layer::ModeProject || l == Layer::ProjectBase
}

/// The layer named by the segments that follow `refs/jin/layers/`.
pub open spec fn layer_of_segments(ps: Seq<Seq<char>>) -> Option<Layer> {
    if ps.len() == 6 && ps[0] == "mode"@ && ps[2] == "scope"@ && ps[4] == "project"@ {
        Some(Layer::ModeScopeProject)
    } else if ps.len() == 5 && ps[0] == "mode"@ && ps[2] == "scope"@ && ps[4] == "_"@ {
        Some(Layer::ModeScope)
    } else if ps.len() == 4 && ps[0] == "mode"@ && ps[2] == "project"@ {
        Some(Layer::ModeProject)
    } else if ps.len() == 3 && ps[0] == "mode"@ && ps[2] == "_"@ {
        Some(Layer::ModeBase)
    } else if ps.len() == 2 && ps[0] == "scope"@ {
        Some(Layer::ScopeBase)
    } else if ps.len() == 2 && ps[0] == "project"@ {
        Some(Layer::ProjectBase)
    } else if ps.len() == 1 && ps[0] == "global"@ {
        Some(Layer::GlobalBase)
    } else if ps.len() == 1 && ps[0] == "local"@ {
        Some(Layer::UserLocal)
    } else if ps.len() == 1 && ps[0] == "workspace"@ {
        Some(Layer::WorkspaceActive)
    } else {
        None
    }
}

/// The layer that a ref path names: the path is cut at every `/`, empty
/// pieces are dropped, the first three must be `refs`, `jin`, `layers`.
pub open spec fn parse_layer_spec(ref_path: Seq<char>) -> Option<Layer> {
    let parts = non_empty(split_spec(ref_path, '/'));
    if parts.len() < 4 {
        None
    } else if parts[0] != "refs"@ || parts[1] != "jin"@ || parts[2] != "layers"@ {
        None
    } else {
        layer_of_segments(parts.subrange(3, parts.len() as int))
    }
}

/// The display name of a layer.
pub open spec fn layer_display_spec(l: Layer) -> Seq<char> {
    match l {
        Layer::GlobalBase => "global-base"@,
        Layer::ModeBase => "mode-base"@,
        Layer::ModeScope => "mode-scope"@,
        Layer::ModeScopeProject => "mode-scope-project"@,
        Layer::ModeProject => "mode-project"@,
        Layer::ScopeBase => "scope-base"@,
        Layer::ProjectBase => "project-base"@,
        Layer::UserLocal => "user-local"@,
        Layer::WorkspaceActive => "workspace-active"@,
    }
}

/// A name or "default".
fn name_or_default(o: Option<&str>) -> (r: &str)
    ensures
        r@ == or_default(opt_view(o)),
{
    match o {
        Some(s) => s,
        None => "default",
    }
}

impl Layer {
    /// Returns the precedence level (1-9, higher overrides lower).
    pub fn precedence(&self) -> (r: u8)
        ensures
            r == precedence_spec(*self),
    {
        match self {
            Layer::GlobalBase => 1,
            Layer::ModeBase => 2,
            Layer::ModeScope => 3,
            Layer::ModeScopeProject => 4,
            Layer::ModeProject => 5,
            Layer::ScopeBase => 6,
            Layer::ProjectBase => 7,
            Layer::UserLocal => 8,
            Layer::WorkspaceActive => 9,
        }
    }

    /// Returns the Git ref path for this layer.
    ///
    /// Layers that can have child refs end in `/_`, since a ref cannot be
    /// both a file and a directory; colons in a scope become slashes.
    pub fn ref_path(&self, mode: Option<&str>, scope: Option<&str>, project: Option<&str>) -> (r:
        String)
        ensures
            r@ == ref_path_spec(*self, opt_view(mode), opt_view(scope), opt_view(project)),
    {
        let m = name_or_default(mode);
        let p = name_or_default(project);
        let s: String = match scope {
            Some(sc) => replace_char(sc, ':', '/'),
            None => "default".to_owned(),
        };
        assert(s@ == scope_ref_spec(opt_view(scope)));
        match self {
            Layer::GlobalBase => "refs/jin/layers/global".to_owned(),
            Layer::ModeBase => {
                let mut r = "refs/jin/layers/mode/".to_owned();
                r.append(m);
                r.append("/_");
                r
            },
            Layer::ModeScope => {
                let mut r = "refs/jin/layers/mode/".to_owned();
                r.append(m);
                r.append("/scope/");
                r.append(s.as_str());
                r.append("/_");
                r
            },
            Layer::ModeScopeProject => {
                let mut r = "refs/jin/layers/mode/".to_owned();
                r.append(m);
                r.append("/scope/");
                r.append(s.as_str());
                r.append("/project/");
                r.append(p);
                r
            },
            Layer::ModeProject => {
                let mut r = "refs/jin/layers/mode/".to_owned();
                r.append(m);
                r.append("/project/");
                r.append(p);
                r
            },
            Layer::ScopeBase => {
                let mut r = "refs/jin/layers/scope/".to_owned();
                r.append(s.as_str());
                r
            },
            Layer::ProjectBase => {
                let mut r = "refs/jin/layers/project/".to_owned();
                r.append(p);
                r
            },
            Layer::UserLocal => "refs/jin/layers/local".to_owned(),
            Layer::WorkspaceActive => "refs/jin/layers/workspace".to_owned(),
        }
    }

    /// Returns the storage directory path for this layer.
    pub fn storage_path(&self, mode: Option<&str>, scope: Option<&str>, project: Option<&str>) -> (r:
        String)
        ensures
            r@ == storage_path_spec(*self, opt_view(mode), opt_view(scope), opt_view(project)),
    {
        let m = name_or_default(mode);
        let s = name_or_default(scope);
        let p = name_or_default(project);
        match self {
            Layer::GlobalBase => "jin/global/".to_owned(),
            Layer::ModeBase => {
                let mut r = "jin/mode/".to_owned();
                r.append(m);
                r.append("/");
                r
            },
            Layer::ModeScope => {
                let mut r = "jin/mode/".to_owned();
                r.append(m);
                r.append("/scope/");
                r.append(s);
                r.append("/");
                r
            },
            Layer::ModeScopeProject => {
                let mut r = "jin/mode/".to_owned();
                r.append(m);
                r.append("/scope/");
                r.append(s);
                r.append("/project/");
                r.append(p);
                r.append("/");
                r
            },
            Layer::ModeProject => {
                let mut r = "jin/mode/".to_owned();
                r.append(m);
                r.append("/project/");
                r.append(p);
                r.append("/");
                r
            },
            Layer::ScopeBase => {
                let mut r = "jin/scope/".to_owned();
                r.append(s);
                r.append("/");
                r
            },
            Layer::ProjectBase => {
                let mut r = "jin/project/".to_owned();
                r.append(p);
                r.append("/");
                r
            },
            Layer::UserLocal => "~/.jin/local/".to_owned(),
            Layer::WorkspaceActive => ".jin/workspace/".to_owned(),
        }
    }

    /// Returns all layers in precedence order (lowest to highest).
    pub fn all_in_precedence_order() -> (r: Vec<Layer>)
        ensures
            r@ == precedence_order(),
    {
        let r = vec![
            Layer::GlobalBase,
            Layer::ModeBase,
            Layer::ModeScope,
            Layer::ModeScopeProject,
            Layer::ModeProject,
            Layer::ScopeBase,
            Layer::ProjectBase,
            Layer::UserLocal,
            Layer::WorkspaceActive,
        ];
        assert(r@ =~= precedence_order());
        r
    }

    /// Returns true if this layer requires a mode to be active.
    pub fn requires_mode(&self) -> (r: bool)
        ensures
            r == requires_mode_spec(*self),
    {
        match self {
            Layer::ModeBase | Layer::ModeScope | Layer::ModeScopeProject | Layer::ModeProject => true,
            _ => false,
        }
    }

    /// Returns true if this layer requires a scope to be specified.
    pub fn requires_scope(&self) -> (r: bool)
        ensures
            r == requires_scope_spec(*self),
    {
        match self {
            Layer::ModeScope | Layer::ModeScopeProject | Layer::ScopeBase => true,
            _ => false,
        }
    }

    /// Returns true if this layer is project-specific.
    pub fn is_project_specific(&self) -> (r: bool)
        ensures
            r == is_project_specific_spec(*self),
    {
        match self {
            Layer::ModeScopeProject | Layer::ModeProject | Layer::ProjectBase => true,
            _ => false,
        }
    }

    /// Parses a layer from a Git ref path; `None` when the path matches no
    /// layer pattern.
    pub fn parse_layer_from_ref_path(ref_path: &str) -> (r: Option<Layer>)
        ensures
            r == parse_layer_spec(ref_path@),
    {
        let all = split_chars(ref_path, '/');
        let parts = filter_non_empty(all);
        let ghost ps = views(parts@);
        if parts.len() < 4 {
            return None;
        }
        if !chars_eq_str(parts[0].as_slice(), "refs") || !chars_eq_str(parts[1].as_slice(), "jin")
            || !chars_eq_str(parts[2].as_slice(), "layers") {
            return None;
        }
        let n = parts.len() - 3;
        let ghost rest = ps.subrange(3, ps.len() as int);
        assert(rest.len() == n);
        assert(forall|i: int| 0 <= i < n ==> rest[i] == parts@[i + 3]@);
        if n == 6 && piece_is(&parts, 3, "mode") && piece_is(&parts, 5, "scope") && piece_is(&parts, 7, "project") {
            Some(Layer::ModeScopeProject)
        } else if n == 5 && piece_is(&parts, 3, "mode") && piece_is(&parts, 5, "scope") && piece_is(&parts, 7, "_") {
            Some(Layer::ModeScope)
        } else if n == 4 && piece_is(&parts, 3, "mode") && piece_is(&parts, 5, "project") {
            Some(Layer::ModeProject)
        } else if n == 3 && piece_is(&parts, 3, "mode") && piece_is(&parts, 5, "_") {
            Some(Layer::ModeBase)
        } else if n == 2 && piece_is(&parts, 3, "scope") {
            Some(Layer::ScopeBase)
        } else if n == 2 && piece_is(&parts, 3, "project") {
            Some(Layer::ProjectBase)
        } else if n == 1 && piece_is(&parts, 3, "global") {
            Some(Layer::GlobalBase)
        } else if n == 1 && piece_is(&parts, 3, "local") {
            Some(Layer::UserLocal)
        } else if n == 1 && piece_is(&parts, 3, "workspace") {
            Some(Layer::WorkspaceActive)
        } else {
            None
        }
    }

    /// The display name of the layer, such as `global-base`.
    pub fn name(&self) -> (r: &'static str)
        ensures
            r@ == layer_display_spec(*self),
    {
        match self {
            Layer::GlobalBase => "global-base",
            Layer::ModeBase => "mode-base",
            Layer::ModeScope => "mode-scope",
            Layer::ModeScopeProject => "mode-scope-project",
            Layer::ModeProject => "mode-project",
            Layer::ScopeBase => "scope-base",
            Layer::ProjectBase => "project-base",
            Layer::UserLocal => "user-local",
            Layer::WorkspaceActive => "workspace-active",
        }
    }

    /// The display name of the layer as an owned string.
    pub fn to_string(&self) -> (r: String)
        ensures
            r@ == layer_display_spec(*self),
    {
        self.name().to_owned()
    }
}

/// A name that can stand as one segment of a ref path.
pub open spec fn is_ref_segment(n: Seq<char>) -> bool {
    n.len() > 0 && !n.contains('/')
}

/// A mode or project name that keeps the ref-path grammar unambiguous.
pub open spec fn valid_ref_name(o: Option<Seq<char>>) -> bool {
    match o {
        Some(n) => is_ref_segment(n),
        None => true,
    }
}

/// A scope name that keeps the ref-path grammar unambiguous: its colons
/// would become slashes, so it has none.
pub open spec fn valid_ref_scope(o: Option<Seq<char>>) -> bool {
    match o {
        Some(n) => is_ref_segment(n) && !n.contains(':'),
        None => true,
    }
}

/// The segments of the ref path of a layer.
pub open spec fn ref_segments(
    l: Layer,
    mode: Option<Seq<char>>,
    scope: Option<Seq<char>>,
    project: Option<Seq<char>>,
) -> Seq<Seq<char>> {
    let m = or_default(mode);
    let s = scope_ref_spec(scope);
    let p = or_default(project);
    let pre = seq!["refs"@, "jin"@, "layers"@];
    match l {
        Layer::GlobalBase => pre + seq!["global"@],
        Layer::ModeBase => pre + seq!["mode"@, m, "_"@],
        Layer::ModeScope => pre + seq!["mode"@, m, "scope"@, s, "_"@],
        Layer::ModeScopeProject => pre + seq!["mode"@, m, "scope"@, s, "project"@, p],
        Layer::ModeProject => pre + seq!["mode"@, m, "project"@, p],
        Layer::ScopeBase => pre + seq!["scope"@, s],
        Layer::ProjectBase => pre + seq!["project"@, p],
        Layer::UserLocal => pre + seq!["local"@],
        Layer::WorkspaceActive => pre + seq!["workspace"@],
    }
}

/// The common prefix of every layer ref, as segments.
pub open spec fn ref_prefix() -> Seq<Seq<char>> {
    seq!["refs"@, "jin"@, "layers"@]
}

proof fn lemma_join_push(ps: Seq<Seq<char>>, x: Seq<char>)
    requires
        ps.len() >= 1,
    ensures
        join_spec(ps.push(x), '/') == join_spec(ps, '/') + seq!['/'] + x,
{
    assert(ps.push(x).drop_last() =~= ps);
}

proof fn lemma_prefix_global()
    ensures
        "refs/jin/layers/global"@ == join_spec(ref_prefix(), '/') + seq!['/'] + "global"@,
{
    reveal_with_fuel(join_spec, 4);
    reveal_strlit("refs/jin/layers/global");
    reveal_strlit("global");
    reveal_strlit("refs");
    reveal_strlit("jin");
    reveal_strlit("layers");
    assert("refs/jin/layers/global"@ =~= join_spec(ref_prefix(), '/') + seq!['/'] + "global"@);
}

proof fn lemma_prefix_mode()
    ensures
        "refs/jin/layers/mode/"@ == join_spec(ref_prefix(), '/') + seq!['/'] + "mode/"@,
{
    reveal_with_fuel(join_spec, 4);
    reveal_strlit("refs/jin/layers/mode/");
    reveal_strlit("mode/");
    reveal_strlit("refs");
    reveal_strlit("jin");
    reveal_strlit("layers");
    assert("refs/jin/layers/mode/"@ =~= join_spec(ref_prefix(), '/') + seq!['/'] + "mode/"@);
}

proof fn lemma_prefix_scope()
    ensures
        "refs/jin/layers/scope/"@ == join_spec(ref_prefix(), '/') + seq!['/'] + "scope/"@,
{
    reveal_with_fuel(join_spec, 4);
    reveal_strlit("refs/jin/layers/scope/");
    reveal_strlit("scope/");
    reveal_strlit("refs");
    reveal_strlit("jin");
    reveal_strlit("layers");
    assert("refs/jin/layers/scope/"@ =~= join_spec(ref_prefix(), '/') + seq!['/'] + "scope/"@);
}

proof fn lemma_prefix_project()
    ensures
        "refs/jin/layers/project/"@ == join_spec(ref_prefix(), '/') + seq!['/'] + "project/"@,
{
    reveal_with_fuel(join_spec, 4);
    reveal_strlit("refs/jin/layers/project/");
    reveal_strlit("project/");
    reveal_strlit("refs");
    reveal_strlit("jin");
    reveal_strlit("layers");
    assert("refs/jin/layers/project/"@ =~= join_spec(ref_prefix(), '/') + seq!['/'] + "project/"@);
}

proof fn lemma_prefix_local()
    ensures
        "refs/jin/layers/local"@ == join_spec(ref_prefix(), '/') + seq!['/'] + "local"@,
{
    reveal_with_fuel(join_spec, 4);
    reveal_strlit("refs/jin/layers/local");
    reveal_strlit("local");
    reveal_strlit("refs");
    reveal_strlit("jin");
    reveal_strlit("layers");
    assert("refs/jin/layers/local"@ =~= join_spec(ref_prefix(), '/') + seq!['/'] + "local"@);
}

proof fn lemma_prefix_workspace()
    ensures
        "refs/jin/layers/workspace"@ == join_spec(ref_prefix(), '/') + seq!['/'] + "workspace"@,
{
    reveal_with_fuel(join_spec, 4);
    reveal_strlit("refs/jin/layers/workspace");
    reveal_strlit("workspace");
    reveal_strlit("refs");
    reveal_strlit("jin");
    reveal_strlit("layers");
    assert("refs/jin/layers/workspace"@ =~= join_spec(ref_prefix(), '/') + seq!['/'] + "workspace"@);
}

proof fn lemma_ref_path_is_join(
    l: Layer,
    mode: Option<Seq<char>>,
    scope: Option<Seq<char>>,
    project: Option<Seq<char>>,
)
    ensures
        ref_path_spec(l, mode, scope, project) == join_spec(ref_segments(l, mode, scope, project), '/'),
{
    let m = or_default(mode);
    let s = scope_ref_spec(scope);
    let p = or_default(project);
    let pre = ref_prefix();
    let jp = join_spec(pre, '/');
    let r = ref_path_spec(l, mode, scope, project);
    reveal_strlit("/_");
    reveal_strlit("_");
    reveal_strlit("/scope/");
    reveal_strlit("scope");
    reveal_strlit("/project/");
    reveal_strlit("project");
    reveal_strlit("mode/");
    reveal_strlit("mode");
    match l {
        Layer::GlobalBase => {
            reveal_strlit("refs/jin/layers/global");
            reveal_strlit("global");
            lemma_prefix_global();
            lemma_join_push(pre, "global"@);
            assert(pre.push("global"@) =~= ref_segments(l, mode, scope, project));
        },
        Layer::ModeBase => {
            reveal_strlit("refs/jin/layers/mode/");
            lemma_prefix_mode();
            lemma_join_push(pre, "mode"@);
            lemma_join_push(pre.push("mode"@), m);
            lemma_join_push(pre.push("mode"@).push(m), "_"@);
            assert(pre.push("mode"@).push(m).push("_"@) =~= ref_segments(l, mode, scope, project));
            assert(r =~= jp + seq!['/'] + "mode"@ + seq!['/'] + m + seq!['/'] + "_"@);
        },
        Layer::ModeScope => {
            reveal_strlit("refs/jin/layers/mode/");
            lemma_prefix_mode();
            let a = pre.push("mode"@);
            let b = a.push(m);
            let c = b.push("scope"@);
            let d = c.push(s);
            lemma_join_push(pre, "mode"@);
            lemma_join_push(a, m);
            lemma_join_push(b, "scope"@);
            lemma_join_push(c, s);
            lemma_join_push(d, "_"@);
            assert(d.push("_"@) =~= ref_segments(l, mode, scope, project));
            assert(r =~= jp + seq!['/'] + "mode"@ + seq!['/'] + m + seq!['/'] + "scope"@ + seq!['/']
                + s + seq!['/'] + "_"@);
        },
        Layer::ModeScopeProject => {
            reveal_strlit("refs/jin/layers/mode/");
            lemma_prefix_mode();
            let a = pre.push("mode"@);
            let b = a.push(m);
            let c = b.push("scope"@);
            let d = c.push(s);
            let e = d.push("project"@);
            lemma_join_push(pre, "mode"@);
            lemma_join_push(a, m);
            lemma_join_push(b, "scope"@);
            lemma_join_push(c, s);
            lemma_join_push(d, "project"@);
            lemma_join_push(e, p);
            assert(e.push(p) =~= ref_segments(l, mode, scope, project));
            assert(r =~= jp + seq!['/'] + "mode"@ + seq!['/'] + m + seq!['/'] + "scope"@ + seq!['/']
                + s + seq!['/'] + "project"@ + seq!['/'] + p);
        },
        Layer::ModeProject => {
            reveal_strlit("refs/jin/layers/mode/");
            lemma_prefix_mode();
            let a = pre.push("mode"@);
            let b = a.push(m);
            let c = b.push("project"@);
            lemma_join_push(pre, "mode"@);
            lemma_join_push(a, m);
            lemma_join_push(b, "project"@);
            lemma_join_push(c, p);
            assert(c.push(p) =~= ref_segments(l, mode, scope, project));
            assert(r =~= jp + seq!['/'] + "mode"@ + seq!['/'] + m + seq!['/'] + "project"@ + seq!['/']
                + p);
        },
        Layer::ScopeBase => {
            reveal_strlit("refs/jin/layers/scope/");
            reveal_strlit("scope/");
            lemma_prefix_scope();
            let a = pre.push("scope"@);
            lemma_join_push(pre, "scope"@);
            lemma_join_push(a, s);
            assert(a.push(s) =~= ref_segments(l, mode, scope, project));
            assert(r =~= jp + seq!['/'] + "scope"@ + seq!['/'] + s);
        },
        Layer::ProjectBase => {
            reveal_strlit("refs/jin/layers/project/");
            reveal_strlit("project/");
            lemma_prefix_project();
            let a = pre.push("project"@);
            lemma_join_push(pre, "project"@);
            lemma_join_push(a, p);
            assert(a.push(p) =~= ref_segments(l, mode, scope, project));
            assert(r =~= jp + seq!['/'] + "project"@ + seq!['/'] + p);
        },
        Layer::UserLocal => {
            reveal_strlit("refs/jin/layers/local");
            reveal_strlit("local");
            lemma_prefix_local();
            lemma_join_push(pre, "local"@);
            assert(pre.push("local"@) =~= ref_segments(l, mode, scope, project));
        },
        Layer::WorkspaceActive => {
            reveal_strlit("refs/jin/layers/workspace");
            reveal_strlit("workspace");
            lemma_prefix_workspace();
            lemma_join_push(pre, "workspace"@);
            assert(pre.push("workspace"@) =~= ref_segments(l, mode, scope, project));
        },
    }
}

proof fn lemma_replace_absent(s: Seq<char>)
    requires
        !s.contains(':'),
    ensures
        replace_char_spec(s, ':', '/') == s,
{
    assert forall|i: int| 0 <= i < s.len() implies s[i] != ':' by {
        if s[i] == ':' {
            assert(s.contains(':'));
        }
    }
    assert(replace_char_spec(s, ':', '/') =~= s);
}

proof fn lemma_literal_segments()
    ensures
        is_ref_segment("refs"@),
        is_ref_segment("jin"@),
        is_ref_segment("layers"@),
        is_ref_segment("global"@),
        is_ref_segment("mode"@),
        is_ref_segment("scope"@),
        is_ref_segment("project"@),
        is_ref_segment("local"@),
        is_ref_segment("workspace"@),
        is_ref_segment("_"@),
        is_ref_segment("default"@),
        !"default"@.contains(':'),
        "mode"@ != "scope"@,
        "mode"@ != "project"@,
        "scope"@ != "project"@,
        "global"@ != "local"@,
        "global"@ != "workspace"@,
        "local"@ != "workspace"@,
        "project"@ != "_"@,
        "scope"@ != "_"@,
{
    reveal_strlit("refs");
    reveal_strlit("jin");
    reveal_strlit("layers");
    reveal_strlit("global");
    reveal_strlit("mode");
    reveal_strlit("scope");
    reveal_strlit("project");
    reveal_strlit("local");
    reveal_strlit("workspace");
    reveal_strlit("_");
    reveal_strlit("default");
}

/// Law: the ref path of a layer parses back to that layer, for every mode,
/// scope and project name that is one non-empty ref segment (a scope also
/// without colons, which the ref path turns into slashes); an absent name
/// stands as "default".
pub proof fn lemma_parse_ref_path_roundtrip(
    l: Layer,
    mode: Option<Seq<char>>,
    scope: Option<Seq<char>>,
    project: Option<Seq<char>>,
)
    requires
        valid_ref_name(mode),
        valid_ref_scope(scope),
        valid_ref_name(project),
    ensures
        parse_layer_spec(ref_path_spec(l, mode, scope, project)) == Some(l),
{
    lemma_literal_segments();
    lemma_ref_path_is_join(l, mode, scope, project);
    let segs = ref_segments(l, mode, scope, project);
    let sr = scope_ref_spec(scope);
    match scope {
        Some(x) => {
            lemma_replace_absent(x);
        },
        None => {},
    }
    assert(is_ref_segment(sr));
    assert(is_ref_segment(or_default(mode)));
    assert(is_ref_segment(or_default(project)));
    assert(forall|i: int| 0 <= i < segs.len() ==> is_ref_segment(#[trigger] segs[i]));
    lemma_split_join(segs, '/');
    lemma_non_empty_id(segs);
    let tail = segs.subrange(3, segs.len() as int);
    match l {
        Layer::GlobalBase => { assert(tail =~= seq!["global"@]); },
        Layer::ModeBase => { assert(tail =~= seq!["mode"@, or_default(mode), "_"@]); },
        Layer::ModeScope => { assert(tail =~= seq!["mode"@, or_default(mode), "scope"@, sr, "_"@]); },
        Layer::ModeScopeProject => {
            assert(tail =~= seq!["mode"@, or_default(mode), "scope"@, sr, "project"@, or_default(project)]);
        },
        Layer::ModeProject => { assert(tail =~= seq!["mode"@, or_default(mode), "project"@, or_default(project)]); },
        Layer::ScopeBase => { assert(tail =~= seq!["scope"@, sr]); },
        Layer::ProjectBase => { assert(tail =~= seq!["project"@, or_default(project)]); },
        Layer::UserLocal => { assert(tail =~= seq!["local"@]); },
        Layer::WorkspaceActive => { assert(tail =~= seq!["workspace"@]); },
    }
}

/// Law: the precedence order lists each layer once, with strictly rising
/// precedence, and a layer's precedence is its place in that order plus one.
pub proof fn lemma_precedence_order()
    ensures
        precedence_order().len() == 9,
        forall|i: int, j: int| 0 <= i < j < 9 ==> precedence_spec(#[trigger] precedence_order()[i])
            < precedence_spec(#[trigger] precedence_order()[j]),
        forall|i: int| 0 <= i < 9 ==> precedence_spec(#[trigger] precedence_order()[i]) == i + 1,
        forall|l: Layer| precedence_order().contains(l),
{
    let o = precedence_order();
    assert forall|l: Layer| o.contains(l) by {
        match l {
            Layer::GlobalBase => assert(o[0] == l),
            Layer::ModeBase => assert(o[1] == l),
            Layer::ModeScope => assert(o[2] == l),
            Layer::ModeScopeProject => assert(o[3] == l),
            Layer::ModeProject => assert(o[4] == l),
            Layer::ScopeBase => assert(o[5] == l),
            Layer::ProjectBase => assert(o[6] == l),
            Layer::UserLocal => assert(o[7] == l),
            Layer::WorkspaceActive => assert(o[8] == l),
        }
    }
}

/// Two texts that differ in the middle differ as a whole.
proof fn lemma_differ_inside(pre: Seq<char>, a: Seq<char>, b: Seq<char>, post: Seq<char>)
    requires
        a != b,
    ensures
        pre + a + post != pre + b + post,
{
    if pre + a + post == pre + b + post {
        assert((pre + a + post).len() == (pre + b + post).len());
        assert forall|i: int| 0 <= i < a.len() implies a[i] == b[i] by {
            assert((pre + a + post)[pre.len() + i] == a[i]);
            assert((pre + b + post)[pre.len() + i] == b[i]);
        }
        assert(a =~= b);
    }
}

/// A scope without `:` appears in a ref as it is.
proof fn lemma_scope_ref_plain(s: Seq<char>)
    requires
        !s.contains(':'),
    ensures
        scope_ref_spec(Some(s)) == s,
{
    assert forall|i: int| 0 <= i < s.len() implies replace_char_spec(s, ':', '/')[i] == s[i] by {
        assert(s[i] != ':') by {
            if s[i] == ':' {
                assert(s.contains(':'));
            }
        }
    }
    assert(replace_char_spec(s, ':', '/') =~= s);
}

/// Law: a layer needs a mode exactly when its ref path and its storage
/// path change with the mode.
pub proof fn lemma_requires_mode_iff_mode_in_paths(
    l: Layer,
    m1: Seq<char>,
    m2: Seq<char>,
    scope: Option<Seq<char>>,
    project: Option<Seq<char>>,
)
    requires
        m1 != m2,
    ensures
        requires_mode_spec(l) <==> ref_path_spec(l, Some(m1), scope, project) != ref_path_spec(
            l,
            Some(m2),
            scope,
            project,
        ),
        requires_mode_spec(l) <==> storage_path_spec(l, Some(m1), scope, project)
            != storage_path_spec(l, Some(m2), scope, project),
{
    lemma_mode_in_ref(l, m1, m2, scope, project);
    lemma_mode_in_storage(l, m1, m2, scope, project);
}

/// The ref path changes with the mode exactly for the mode layers.
proof fn lemma_mode_in_ref(l: Layer, m1: Seq<char>, m2: Seq<char>, scope: Option<Seq<char>>, project: Option<Seq<char>>)
    requires
        m1 != m2,
    ensures
        requires_mode_spec(l) <==> ref_path_spec(l, Some(m1), scope, project) != ref_path_spec(
            l,
            Some(m2),
            scope,
            project,
        ),
{
    let sr = scope_ref_spec(scope);
    let p = or_default(project);
    let pre = "refs/jin/layers/mode/"@;
    if l == Layer::ModeBase {
        lemma_differ_inside(pre, m1, m2, "/_"@);
    } else if l == Layer::ModeScope {
        let q = "/scope/"@ + sr + "/_"@;
        assert(ref_path_spec(l, Some(m1), scope, project) =~= pre + m1 + q);
        assert(ref_path_spec(l, Some(m2), scope, project) =~= pre + m2 + q);
        lemma_differ_inside(pre, m1, m2, q);
    } else if l == Layer::ModeScopeProject {
        let q = "/scope/"@ + sr + "/project/"@ + p;
        assert(ref_path_spec(l, Some(m1), scope, project) =~= pre + m1 + q);
        assert(ref_path_spec(l, Some(m2), scope, project) =~= pre + m2 + q);
        lemma_differ_inside(pre, m1, m2, q);
    } else if l == Layer::ModeProject {
        let q = "/project/"@ + p;
        assert(ref_path_spec(l, Some(m1), scope, project) =~= pre + m1 + q);
        assert(ref_path_spec(l, Some(m2), scope, project) =~= pre + m2 + q);
        lemma_differ_inside(pre, m1, m2, q);
    }
}

/// The storage path changes with the mode exactly for the mode layers.
proof fn lemma_mode_in_storage(l: Layer, m1: Seq<char>, m2: Seq<char>, scope: Option<Seq<char>>, project: Option<Seq<char>>)
    requires
        m1 != m2,
    ensures
        requires_mode_spec(l) <==> storage_path_spec(l, Some(m1), scope, project)
            != storage_path_spec(l, Some(m2), scope, project),
{
    let sd = or_default(scope);
    let p = or_default(project);
    let pre = "jin/mode/"@;
    if l == Layer::ModeBase {
        lemma_differ_inside(pre, m1, m2, "/"@);
    } else if l == Layer::ModeScope {
        let d = "/scope/"@ + sd + "/"@;
        assert(storage_path_spec(l, Some(m1), scope, project) =~= pre + m1 + d);
        assert(storage_path_spec(l, Some(m2), scope, project) =~= pre + m2 + d);
        lemma_differ_inside(pre, m1, m2, d);
    } else if l == Layer::ModeScopeProject {
        let d = "/scope/"@ + sd + "/project/"@ + p + "/"@;
        assert(storage_path_spec(l, Some(m1), scope, project) =~= pre + m1 + d);
        assert(storage_path_spec(l, Some(m2), scope, project) =~= pre + m2 + d);
        lemma_differ_inside(pre, m1, m2, d);
    } else if l == Layer::ModeProject {
        let d = "/project/"@ + p + "/"@;
        assert(storage_path_spec(l, Some(m1), scope, project) =~= pre + m1 + d);
        assert(storage_path_spec(l, Some(m2), scope, project) =~= pre + m2 + d);
        lemma_differ_inside(pre, m1, m2, d);
    }
}

/// Law: a layer needs a scope exactly when its ref path and its storage
/// path change with the scope; for the ref path the two scopes hold no
/// `:`, which the ref writes as `/`.
pub proof fn lemma_requires_scope_iff_scope_in_paths(
    l: Layer,
    mode: Option<Seq<char>>,
    s1: Seq<char>,
    s2: Seq<char>,
    project: Option<Seq<char>>,
)
    requires
        s1 != s2,
        !s1.contains(':'),
        !s2.contains(':'),
    ensures
        requires_scope_spec(l) <==> ref_path_spec(l, mode, Some(s1), project) != ref_path_spec(
            l,
            mode,
            Some(s2),
            project,
        ),
        requires_scope_spec(l) <==> storage_path_spec(l, mode, Some(s1), project)
            != storage_path_spec(l, mode, Some(s2), project),
{
    lemma_scope_ref_plain(s1);
    lemma_scope_ref_plain(s2);
    let m = or_default(mode);
    let p = or_default(project);
    match l {
        Layer::ModeScope => {
            let pre = "refs/jin/layers/mode/"@ + m + "/scope/"@;
            lemma_differ_inside(pre, s1, s2, "/_"@);
            lemma_differ_inside("jin/mode/"@ + m + "/scope/"@, s1, s2, "/"@);
        },
        Layer::ModeScopeProject => {
            let pre = "refs/jin/layers/mode/"@ + m + "/scope/"@;
            let q = "/project/"@ + p;
            assert(ref_path_spec(l, mode, Some(s1), project) =~= pre + s1 + q);
            assert(ref_path_spec(l, mode, Some(s2), project) =~= pre + s2 + q);
            lemma_differ_inside(pre, s1, s2, q);
            let dpre = "jin/mode/"@ + m + "/scope/"@;
            let d = "/project/"@ + p + "/"@;
            assert(storage_path_spec(l, mode, Some(s1), project) =~= dpre + s1 + d);
            assert(storage_path_spec(l, mode, Some(s2), project) =~= dpre + s2 + d);
            lemma_differ_inside(dpre, s1, s2, d);
        },
        Layer::ScopeBase => {
            assert(ref_path_spec(l, mode, Some(s1), project) =~= "refs/jin/layers/scope/"@ + s1 + seq![]);
            assert(ref_path_spec(l, mode, Some(s2), project) =~= "refs/jin/layers/scope/"@ + s2 + seq![]);
            lemma_differ_inside("refs/jin/layers/scope/"@, s1, s2, seq![]);
            lemma_differ_inside("jin/scope/"@, s1, s2, "/"@);
        },
        _ => {},
    }
}

/// Law: a layer belongs to a project exactly when its ref path and its
/// storage path change with the project.
pub proof fn lemma_project_specific_iff_project_in_paths(
    l: Layer,
    mode: Option<Seq<char>>,
    scope: Option<Seq<char>>,
    p1: Seq<char>,
    p2: Seq<char>,
)
    requires
        p1 != p2,
    ensures
        is_project_specific_spec(l) <==> ref_path_spec(l, mode, scope, Some(p1)) != ref_path_spec(
            l,
            mode,
            scope,
            Some(p2),
        ),
        is_project_specific_spec(l) <==> storage_path_spec(l, mode, scope, Some(p1))
            != storage_path_spec(l, mode, scope, Some(p2)),
{
    let m = or_default(mode);
    let sr = scope_ref_spec(scope);
    let sd = or_default(scope);
    match l {
        Layer::ModeScopeProject => {
            let pre = "refs/jin/layers/mode/"@ + m + "/scope/"@ + sr + "/project/"@;
            assert(ref_path_spec(l, mode, scope, Some(p1)) =~= pre + p1 + seq![]);
            assert(ref_path_spec(l, mode, scope, Some(p2)) =~= pre + p2 + seq![]);
            lemma_differ_inside(pre, p1, p2, seq![]);
            lemma_differ_inside("jin/mode/"@ + m + "/scope/"@ + sd + "/project/"@, p1, p2, "/"@);
        },
        Layer::ModeProject => {
            let pre = "refs/jin/layers/mode/"@ + m + "/project/"@;
            assert(ref_path_spec(l, mode, scope, Some(p1)) =~= pre + p1 + seq![]);
            assert(ref_path_spec(l, mode, scope, Some(p2)) =~= pre + p2 + seq![]);
            lemma_differ_inside(pre, p1, p2, seq![]);
            lemma_differ_inside("jin/mode/"@ + m + "/project/"@, p1, p2, "/"@);
        },
        Layer::ProjectBase => {
            assert(ref_path_spec(l, mode, scope, Some(p1)) =~= "refs/jin/layers/project/"@ + p1 + seq![]);
            assert(ref_path_spec(l, mode, scope, Some(p2)) =~= "refs/jin/layers/project/"@ + p2 + seq![]);
            lemma_differ_inside("refs/jin/layers/project/"@, p1, p2, seq![]);
            lemma_differ_inside("jin/project/"@, p1, p2, "/"@);
        },
        _ => {},
    }
}

/// No character of `s` is `:`, which Git forbids in a ref name.
pub open spec fn colon_free(s: Seq<char>) -> bool {
    forall|i: int| 0 <= i < s.len() ==> s[i] != ':'
}

proof fn lemma_colon_free_concat(a: Seq<char>, b: Seq<char>)
    requires
        colon_free(a),
        colon_free(b),
    ensures
        colon_free(a + b),
{
    assert forall|i: int| 0 <= i < (a + b).len() implies (a + b)[i] != ':' by {
        if i < a.len() {
            assert((a + b)[i] == a[i]);
        } else {
            assert((a + b)[i] == b[i - a.len()]);
        }
    }
}

proof fn lemma_replaced_colon_free(s: Seq<char>)
    ensures
        colon_free(replace_char_spec(s, ':', '/')),
{
}

/// Law: every layer ref path is free of `:`, so Git accepts it as a ref
/// name, for any scope (its colons become `/`), given a mode and a project
/// without `:`.
pub proof fn lemma_ref_paths_colon_free(
    l: Layer,
    mode: Option<Seq<char>>,
    scope: Option<Seq<char>>,
    project: Option<Seq<char>>,
)
    requires
        mode matches Some(m) ==> colon_free(m),
        project matches Some(p) ==> colon_free(p),
    ensures
        colon_free(ref_path_spec(l, mode, scope, project)),
{
    reveal_strlit("refs/jin/layers/global");
    reveal_strlit("refs/jin/layers/mode/");
    reveal_strlit("/_");
    reveal_strlit("/scope/");
    reveal_strlit("/project/");
    reveal_strlit("refs/jin/layers/scope/");
    reveal_strlit("refs/jin/layers/project/");
    reveal_strlit("refs/jin/layers/local");
    reveal_strlit("refs/jin/layers/workspace");
    reveal_strlit("default");
    let m = or_default(mode);
    let sr = scope_ref_spec(scope);
    let p = or_default(project);
    assert(colon_free(m));
    assert(colon_free(p));
    match scope {
        Some(x) => lemma_replaced_colon_free(x),
        None => {},
    }
    assert(colon_free(sr));
    let lm = "refs/jin/layers/mode/"@;
    assert(colon_free(lm));
    assert(colon_free("/_"@));
    assert(colon_free("/scope/"@));
    assert(colon_free("/project/"@));
    match l {
        Layer::GlobalBase => {
            assert(colon_free("refs/jin/layers/global"@));
        },
        Layer::ModeBase => {
            lemma_colon_free_concat(lm, m);
            lemma_colon_free_concat(lm + m, "/_"@);
        },
        Layer::ModeScope => {
            lemma_colon_free_concat(lm, m);
            lemma_colon_free_concat(lm + m, "/scope/"@);
            lemma_colon_free_concat(lm + m + "/scope/"@, sr);
            lemma_colon_free_concat(lm + m + "/scope/"@ + sr, "/_"@);
        },
        Layer::ModeScopeProject => {
            lemma_colon_free_concat(lm, m);
            lemma_colon_free_concat(lm + m, "/scope/"@);
            lemma_colon_free_concat(lm + m + "/scope/"@, sr);
            lemma_colon_free_concat(lm + m + "/scope/"@ + sr, "/project/"@);
            lemma_colon_free_concat(lm + m + "/scope/"@ + sr + "/project/"@, p);
        },
        Layer::ModeProject => {
            lemma_colon_free_concat(lm, m);
            lemma_colon_free_concat(lm + m, "/project/"@);
            lemma_colon_free_concat(lm + m + "/project/"@, p);
        },
        Layer::ScopeBase => {
            assert(colon_free("refs/jin/layers/scope/"@));
            lemma_colon_free_concat("refs/jin/layers/scope/"@, sr);
        },
        Layer::ProjectBase => {
            assert(colon_free("refs/jin/layers/project/"@));
            lemma_colon_free_concat("refs/jin/layers/project/"@, p);
        },
        Layer::UserLocal => {
            assert(colon_free("refs/jin/layers/local"@));
        },
        Layer::WorkspaceActive => {
            assert(colon_free("refs/jin/layers/workspace"@));
        },
    }
}

/// Law: a scope enters the ref of its scope layer and the refs of the
/// mode layers it belongs to as one and the same segment.
pub proof fn lemma_scope_segment_shared(mode: Seq<char>, scope: Seq<char>, project: Option<Seq<char>>)
    ensures
        exists|seg: Seq<char>|
            #![trigger "refs/jin/layers/scope/"@ + seg]
            ref_path_spec(Layer::ScopeBase, Some(mode), Some(scope), project) == "refs/jin/layers/scope/"@ + seg
                && ref_path_spec(Layer::ModeScope, Some(mode), Some(scope), project) == "refs/jin/layers/mode/"@
                + mode + "/scope/"@ + seg + "/_"@ && seg.len() == scope.len(),
{
    let seg = scope_ref_spec(Some(scope));
    assert(ref_path_spec(Layer::ScopeBase, Some(mode), Some(scope), project) == "refs/jin/layers/scope/"@ + seg);
}

} // verus!
