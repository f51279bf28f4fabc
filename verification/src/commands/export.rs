//! `jin export`: hand Jin-managed files back to the project's Git.

use vstd::prelude::*;
use vstd::string::*;
use crate::cli::args::ExportArgs;
use crate::commands::common::strs;
use crate::model::error::JinError;
use crate::model::jinmap::{recording, records_file, JinMap};
use crate::text::{concat2, concat3, concat4, concat5, decimal_spec, usize_to_string};

verus! {

/// Checks what `jin export` is given: at least one file.
pub fn execute(args: &ExportArgs) -> (r: Result<(), JinError>)
    ensures
        r is Ok <==> args.files@.len() > 0,
        r matches Err(e) ==> (e matches JinError::Other(m) && m@ == "No files specified"@),
{
    if args.files.len() == 0 {
        return Err(JinError::Other("No files specified".to_owned()));
    }
    Ok(())
}

/// A list of texts joined with a separator.
pub open spec fn join_with(items: Seq<Seq<char>>, sep: Seq<char>) -> Seq<char>
    decreases items.len(),
{
    if items.len() == 0 {
        seq![]
    } else if items.len() == 1 {
        items[0]
    } else {
        join_with(items.drop_last(), sep) + sep + items.last()
    }
}

/// Joins texts with a separator.
pub fn join_strings(items: &Vec<String>, sep: &str) -> (r: String)
    ensures
        r@ == join_with(strs(items@), sep@),
{
    let mut out = String::new();
    let mut i: usize = 0;
    while i < items.len()
        invariant
            i <= items@.len(),
            out@ == join_with(strs(items@).subrange(0, i as int), sep@),
        decreases items@.len() - i,
    {
        let ghost pre = strs(items@).subrange(0, i + 1);
        assert(pre.drop_last() =~= strs(items@).subrange(0, i as int));
        if i == 0 {
            out.append(items[i].as_str());
            assert(out@ =~= join_with(pre, sep@));
        } else {
            out.append(sep);
            out.append(items[i].as_str());
        }
        i = i + 1;
    }
    assert(strs(items@).subrange(0, items@.len() as int) =~= strs(items@));
    out
}

/// The message of a failed export: the errors so far, and how many
/// exported files were rolled back.
pub open spec fn export_failure_message(errors: Seq<Seq<char>>, rolled_back: nat) -> Seq<char> {
    "Export failed: "@ + join_with(errors, ", "@) + ". "@ + decimal_spec(rolled_back)
        + " file(s) were rolled back."@
}

/// The error `jin export` ends with when a file fails.
pub fn export_failure(errors: &Vec<String>, rolled_back: usize) -> (r: JinError)
    ensures
        r matches JinError::Other(m) && m@ == export_failure_message(strs(errors@), rolled_back as nat),
{
    let joined = join_strings(errors, ", ");
    let n = usize_to_string(rolled_back);
    JinError::Other(concat5("Export failed: ", joined.as_str(), ". ", n.as_str(), " file(s) were rolled back."))
}

/// The summary `jin export` prints.
pub open spec fn export_summary(exported: nat) -> Seq<Seq<char>> {
    if exported > 0 {
        seq![
            "Exported "@ + decimal_spec(exported)
                + " file(s) to Git. Files are now tracked by Git and removed from Jin."@,
            "Don't forget to commit these changes to your Git repository."@,
        ]
    } else {
        seq![]
    }
}

/// The summary `jin export` prints.
pub fn summary(exported: usize) -> (r: Vec<String>)
    ensures
        strs(r@) == export_summary(exported as nat),
{
    let mut lines: Vec<String> = Vec::new();
    if exported > 0 {
        let n = usize_to_string(exported);
        lines.push(concat3(
            "Exported ",
            n.as_str(),
            " file(s) to Git. Files are now tracked by Git and removed from Jin.",
        ));
        lines.push("Don't forget to commit these changes to your Git repository.".to_owned());
    }
    assert(strs(lines@) =~= export_summary(exported as nat));
    lines
}

/// How `jin export` knows a file is Jin's.
#[derive(Debug)]
pub enum Tracking {
    /// The file is staged.
    Staged,
    /// The file is recorded in the layer map under `name`; `layers` are
    /// the layer refs that record it, in order. It is Jin's if the first
    /// of them that exists holds it in its tree.
    Committed { name: String, layers: Vec<String> },
}

/// Decides whether a file is Jin's, from what the executable found: that
/// the path exists, that it is staged, its file name (`None` where it has
/// none in UTF-8), the layer map, and whether the project context loads.
pub fn tracking_check(
    path: &str,
    exists: bool,
    staged: bool,
    file_name: Option<String>,
    jinmap: Result<JinMap, JinError>,
    context_loads: bool,
) -> (r: Result<Tracking, JinError>)
    ensures
        !exists ==> (r matches Err(JinError::NotFound(m)) && m@ == path@),
        exists && staged ==> r matches Ok(Tracking::Staged),
        exists && !staged ==> match file_name {
            None => r matches Err(JinError::Other(m)) && m@ == "Invalid file path"@,
            Some(n) => match jinmap {
                Err(e) => r == Err::<Tracking, JinError>(e),
                Ok(map) => if !records_file(map.mappings@, n@) {
                    r matches Err(JinError::Other(m)) && m@ == path@
                        + " is not Jin-tracked. Use `jin status` to see Jin-tracked files."@
                } else if !context_loads {
                    r matches Err(JinError::Other(m)) && m@ == "Jin not initialized. Run 'jin init' first."@
                } else {
                    r matches Ok(Tracking::Committed { name, layers }) && name@ == n@ && strs(layers@)
                        == recording(map.mappings@, n@)
                },
            },
        },
{
    if !exists {
        return Err(JinError::NotFound(path.to_owned()));
    }
    if staged {
        return Ok(Tracking::Staged);
    }
    let name = match file_name {
        Some(n) => n,
        None => return Err(JinError::Other("Invalid file path".to_owned())),
    };
    let map = jinmap?;
    if !map.contains_file(name.as_str()) {
        return Err(
            JinError::Other(
                concat2(path, " is not Jin-tracked. Use `jin status` to see Jin-tracked files."),
            ),
        );
    }
    if !context_loads {
        return Err(JinError::Other("Jin not initialized. Run 'jin init' first.".to_owned()));
    }
    let layers = map.layers_recording(name.as_str());
    Ok(Tracking::Committed { name, layers })
}

/// The error of a file the layer map records but no layer tree holds.
pub fn not_in_layer_tree(path: &str) -> (r: JinError)
    ensures
        r matches JinError::Other(m) && m@ == path@
            + " is in JinMap but not found in any layer tree. Run 'jin repair' to fix."@,
{
    JinError::Other(concat2(path, " is in JinMap but not found in any layer tree. Run 'jin repair' to fix."))
}

} // verus!
