//! `jin pull`: merge fetched layer refs into the local ones.

use vstd::prelude::*;
use vstd::string::*;
use crate::commands::common::strs;
use crate::commands::mode::strip_or_self;
use crate::git::merge::MergeType;
use crate::model::error::JinError;
use crate::model::layer::Layer;
use crate::staging::index::StagingIndex;
use crate::text::{
    concat2, concat3, contains_spec, contains_str, decimal_spec, has_prefix, piece_is,
    split_chars, split_spec, strip_prefix, string_of, usize_to_string, views,
};

verus! {

/// The message that refuses a pull over staged changes.
pub open spec fn dirty_message() -> Seq<char> {
    "Cannot pull with uncommitted changes. Commit or reset first.\nRun 'jin status' to see uncommitted changes."@
}

/// A pull needs an empty staging index.
pub fn check_clean(staging: &StagingIndex) -> (r: Result<(), JinError>)
    ensures
        r is Ok <==> staging@.len() == 0,
        r matches Err(e) ==> (e matches JinError::Config(m) && m@ == dirty_message()),
{
    if !staging.is_empty() {
        return Err(JinError::Config(
            "Cannot pull with uncommitted changes. Commit or reset first.\nRun 'jin status' to see uncommitted changes.".to_owned(),
        ));
    }
    Ok(())
}

/// The layer and names a ref path denotes, by the pieces of its path after
/// `refs/jin/layers/`.
pub open spec fn layer_of_parts(ps: Seq<Seq<char>>) -> Option<(Layer, Option<Seq<char>>, Option<Seq<char>>, Option<Seq<char>>)> {
    if ps.len() == 1 && ps[0] == "global"@ {
        Some((Layer::GlobalBase, None, None, None))
    } else if ps.len() == 2 && ps[0] == "mode"@ {
        Some((Layer::ModeBase, Some(ps[1]), None, None))
    } else if ps.len() == 4 && ps[0] == "mode"@ && ps[2] == "scope"@ {
        Some((Layer::ModeScope, Some(ps[1]), Some(ps[3]), None))
    } else if ps.len() == 6 && ps[0] == "mode"@ && ps[2] == "scope"@ && ps[4] == "project"@ {
        Some((Layer::ModeScopeProject, Some(ps[1]), Some(ps[3]), Some(ps[5])))
    } else if ps.len() == 4 && ps[0] == "mode"@ && ps[2] == "project"@ {
        Some((Layer::ModeProject, Some(ps[1]), None, Some(ps[3])))
    } else if ps.len() == 2 && ps[0] == "scope"@ {
        Some((Layer::ScopeBase, None, Some(ps[1]), None))
    } else if ps.len() == 2 && ps[0] == "project"@ {
        Some((Layer::ProjectBase, None, None, Some(ps[1])))
    } else if ps.len() == 1 && ps[0] == "local"@ {
        Some((Layer::UserLocal, None, None, None))
    } else if ps.len() == 1 && ps[0] == "workspace"@ {
        Some((Layer::WorkspaceActive, None, None, None))
    } else {
        None
    }
}

/// A parsed ref by its strings.
pub open spec fn parsed_view(r: (Layer, Option<String>, Option<String>, Option<String>)) -> (
    Layer,
    Option<Seq<char>>,
    Option<Seq<char>>,
    Option<Seq<char>>,
) {
    (r.0, crate::model::layer::opt_sview(r.1), crate::model::layer::opt_sview(r.2), crate::model::layer::opt_sview(r.3))
}

/// Reads the layer and its mode, scope and project names from a layer ref
/// path.
pub fn parse_ref_path(ref_path: &str) -> (r: Result<(Layer, Option<String>, Option<String>, Option<String>), JinError>)
    ensures
        !has_prefix(ref_path@, "refs/jin/layers/"@) ==> (r matches Err(JinError::InvalidLayer(m)) && m@
            == "Invalid ref path: "@ + ref_path@),
        has_prefix(ref_path@, "refs/jin/layers/"@) ==> ({
            let path = ref_path@.subrange(16, ref_path@.len() as int);
            match layer_of_parts(split_spec(path, '/')) {
                Some(t) => r matches Ok(x) && parsed_view(x) == t,
                None => r matches Err(JinError::InvalidLayer(m)) && m@ == "Unrecognized layer path: "@
                    + path,
            }
        }),
{
    proof {
        reveal_strlit("refs/jin/layers/");
    }
    let path = match strip_prefix(ref_path, "refs/jin/layers/") {
        Some(p) => p,
        None => {
            return Err(JinError::InvalidLayer(concat2("Invalid ref path: ", ref_path)));
        },
    };
    let ps = split_chars(path.as_str(), '/');
    let ghost pv = views(ps@);
    assert(pv.len() == ps@.len());
    let n = ps.len();
    if n == 1 && piece_is(&ps, 0, "global") {
        Ok((Layer::GlobalBase, None, None, None))
    } else if n == 2 && piece_is(&ps, 0, "mode") {
        Ok((Layer::ModeBase, Some(string_of(ps[1].as_slice())), None, None))
    } else if n == 4 && piece_is(&ps, 0, "mode") && piece_is(&ps, 2, "scope") {
        Ok((Layer::ModeScope, Some(string_of(ps[1].as_slice())), Some(string_of(ps[3].as_slice())), None))
    } else if n == 6 && piece_is(&ps, 0, "mode") && piece_is(&ps, 2, "scope") && piece_is(&ps, 4, "project") {
        Ok((
            Layer::ModeScopeProject,
            Some(string_of(ps[1].as_slice())),
            Some(string_of(ps[3].as_slice())),
            Some(string_of(ps[5].as_slice())),
        ))
    } else if n == 4 && piece_is(&ps, 0, "mode") && piece_is(&ps, 2, "project") {
        Ok((Layer::ModeProject, Some(string_of(ps[1].as_slice())), None, Some(string_of(ps[3].as_slice()))))
    } else if n == 2 && piece_is(&ps, 0, "scope") {
        Ok((Layer::ScopeBase, None, Some(string_of(ps[1].as_slice())), None))
    } else if n == 2 && piece_is(&ps, 0, "project") {
        Ok((Layer::ProjectBase, None, None, Some(string_of(ps[1].as_slice()))))
    } else if n == 1 && piece_is(&ps, 0, "local") {
        Ok((Layer::UserLocal, None, None, None))
    } else if n == 1 && piece_is(&ps, 0, "workspace") {
        Ok((Layer::WorkspaceActive, None, None, None))
    } else {
        Err(JinError::InvalidLayer(concat2("Unrecognized layer path: ", path.as_str())))
    }
}

/// A layer ref path as shown: without `refs/jin/layers/`.
pub fn format_ref_path(ref_path: &str) -> (r: String)
    ensures
        r@ == strip_or_self(ref_path@, "refs/jin/layers/"@),
{
    match strip_prefix(ref_path, "refs/jin/layers/") {
        Some(p) => p,
        None => ref_path.to_owned(),
    }
}

/// Whether a remote ref takes part in a pull: the user-local layer is
/// never synced, and an up-to-date ref needs nothing.
pub open spec fn needs_update_spec(ref_path: Seq<char>, merge_type: MergeType) -> bool {
    !contains_spec(ref_path, "/local"@) && merge_type != MergeType::UpToDate
}

/// Whether a remote ref takes part in a pull.
pub fn needs_update(ref_path: &str, merge_type: MergeType) -> (r: bool)
    ensures
        r == needs_update_spec(ref_path@, merge_type),
{
    !contains_str(ref_path, "/local") && merge_type != MergeType::UpToDate
}

/// What a pull does with one updated layer ref.
#[derive(Debug, Clone, Copy, PartialEq, Eq, Structural)]
pub enum PullStep {
    /// Nothing to do.
    Skip,
    /// Point the local ref at the remote commit.
    FastForward,
    /// Leave the local ref, which is ahead.
    KeepLocal,
    /// Merge the two histories.
    Merge,
}

/// The step a merge type calls for.
pub open spec fn pull_step_spec(m: MergeType) -> PullStep {
    match m {
        MergeType::UpToDate => PullStep::Skip,
        MergeType::FastForward => PullStep::FastForward,
        MergeType::LocalAhead => PullStep::KeepLocal,
        MergeType::Divergent => PullStep::Merge,
    }
}

/// The step a merge type calls for, and the line it prints right away.
pub fn pull_step(ref_path: &str, merge_type: MergeType) -> (r: (PullStep, Option<String>))
    ensures
        r.0 == pull_step_spec(merge_type),
        crate::model::layer::opt_sview(r.1) == match merge_type {
            MergeType::FastForward => Some("  \u{2713} "@ + strip_or_self(ref_path@, "refs/jin/layers/"@)
                + ": Updated (fast-forward)"@),
            MergeType::LocalAhead => Some("  \u{2212} "@ + strip_or_self(ref_path@, "refs/jin/layers/"@)
                + ": Local is ahead of remote"@),
            _ => None,
        },
{
    match merge_type {
        MergeType::UpToDate => (PullStep::Skip, None),
        MergeType::FastForward => {
            let p = format_ref_path(ref_path);
            (PullStep::FastForward, Some(concat3("  \u{2713} ", p.as_str(), ": Updated (fast-forward)")))
        },
        MergeType::LocalAhead => {
            let p = format_ref_path(ref_path);
            (PullStep::KeepLocal, Some(concat3("  \u{2212} ", p.as_str(), ": Local is ahead of remote")))
        },
        MergeType::Divergent => (PullStep::Merge, None),
    }
}

/// The closing lines of a pull that had updates.
pub open spec fn pull_summary(merged: nat) -> Seq<Seq<char>> {
    if merged > 0 {
        seq![
            "\nSuccessfully merged "@ + decimal_spec(merged) + " layer(s)"@,
            "Run 'jin apply' to update workspace files"@,
        ]
    } else {
        seq!["\nNo layers merged"@]
    }
}

/// The closing lines of a pull that had updates.
pub fn summary(merged: usize) -> (r: Vec<String>)
    ensures
        strs(r@) == pull_summary(merged as nat),
{
    let mut lines: Vec<String> = Vec::new();
    if merged > 0 {
        let n = usize_to_string(merged);
        lines.push(concat3("\nSuccessfully merged ", n.as_str(), " layer(s)"));
        lines.push("Run 'jin apply' to update workspace files".to_owned());
    } else {
        lines.push("\nNo layers merged".to_owned());
    }
    assert(strs(lines@) =~= pull_summary(merged as nat));
    lines
}

} // verus!
