//! `jin resolve`: which conflicted files are resolved, whether a resolved
//! `.jinmerge` file is acceptable, and what is reported.

use vstd::prelude::*;
use vstd::string::*;
use crate::cli::args::ResolveArgs;
use crate::commands::common::strs;
use crate::model::error::{error_message_spec, JinError};
use crate::text::{
    concat2, concat3, contains_spec, contains_str, decimal_spec, has_prefix, starts_with, str_eq, trim,
    trim_spec, usize_to_string,
};

verus! {

/// The check that a paused apply exists.
pub fn require_paused(exists: bool) -> (r: Result<(), JinError>)
    ensures
        r is Ok <==> exists,
        r matches Err(e) ==> (e matches JinError::Other(m) && m@
            == "No paused apply operation found. Run 'jin apply' first."@),
{
    if exists {
        Ok(())
    } else {
        Err(JinError::Other("No paused apply operation found. Run 'jin apply' first.".to_owned()))
    }
}

/// The number of seconds after which a paused apply is stale.
pub open spec fn stale_after() -> int {
    86400int
}

/// The check of the age of a paused apply, in seconds: an apply paused
/// more than a day ago gets a warning, and stops the command unless it is
/// forced.
pub fn check_age(age_seconds: i64, force: bool) -> (r: (Vec<String>, Result<(), JinError>))
    ensures
        age_seconds > stale_after() ==> strs(r.0@) == seq!["Warning: Paused operation is over 24 hours old."@],
        age_seconds <= stale_after() ==> r.0@.len() == 0,
        r.1 is Ok <==> (age_seconds <= stale_after() || force),
        r.1 matches Err(e) ==> (e matches JinError::Other(m) && m@ == "Stale paused state. Use --force to proceed."@),
{
    if age_seconds > 86400 {
        let warn = vec!["Warning: Paused operation is over 24 hours old.".to_owned()];
        assert(strs(warn@) =~= seq!["Warning: Paused operation is over 24 hours old."@]);
        if force {
            (warn, Ok(()))
        } else {
            (warn, Err(JinError::Other("Stale paused state. Use --force to proceed.".to_owned())))
        }
    } else {
        (Vec::new(), Ok(()))
    }
}

/// The first named file that is not in conflict, if any.
pub open spec fn first_not_conflicted(files: Seq<Seq<char>>, conflicts: Seq<Seq<char>>) -> Option<int> {
    if exists|i: int| 0 <= i < files.len() && !conflicts.contains(files[i]) {
        Some(
            choose|i: int|
                0 <= i < files.len() && !conflicts.contains(files[i]) && forall|j: int|
                    0 <= j < i ==> conflicts.contains(#[trigger] files[j]),
        )
    } else {
        None
    }
}

/// The files to resolve: every conflicted file when none is named or
/// `--all` is given; otherwise the named files, each of which must be in
/// conflict.
pub fn select_files(args: &ResolveArgs, conflicts: &Vec<String>) -> (r: Result<Vec<String>, JinError>)
    ensures
        args.files@.len() == 0 || args.all ==> (r matches Ok(v) && strs(v@) == strs(conflicts@)),
        !(args.files@.len() == 0 || args.all) ==> match first_not_conflicted(strs(args.files@), strs(conflicts@)) {
            None => r matches Ok(v) && strs(v@) == strs(args.files@),
            Some(i) => r matches Err(JinError::Other(m)) && m@ == "File '"@ + args.files@[i]@
                + "' is not in conflict state. Use 'jin status' for details."@,
        },
{
    if args.files.len() == 0 || args.all {
        return Ok(clone_all(conflicts));
    }
    let ghost fs = strs(args.files@);
    let ghost cs = strs(conflicts@);
    let mut i: usize = 0;
    while i < args.files.len()
        invariant
            i <= args.files@.len(),
            fs == strs(args.files@),
            cs == strs(conflicts@),
            !(args.files@.len() == 0 || args.all),
            forall|j: int| 0 <= j < i ==> cs.contains(#[trigger] fs[j]),
        decreases args.files@.len() - i,
    {
        if !in_list(conflicts, args.files[i].as_str()) {
            assert(!cs.contains(fs[i as int]));
            let ghost k = first_not_conflicted(fs, cs);
            assert(k == Some(i as int)) by {
                let w = choose|w: int|
                    0 <= w < fs.len() && !cs.contains(fs[w]) && forall|j: int|
                        0 <= j < w ==> cs.contains(#[trigger] fs[j]);
                assert(0 <= i < fs.len() && !cs.contains(fs[i as int]) && forall|j: int|
                    0 <= j < i ==> cs.contains(#[trigger] fs[j]));
                if w < i {
                    assert(cs.contains(fs[w]));
                } else if w > i {
                    assert(cs.contains(fs[i as int]));
                }
            }
            return Err(
                JinError::Other(
                    concat3(
                        "File '",
                        args.files[i].as_str(),
                        "' is not in conflict state. Use 'jin status' for details.",
                    ),
                ),
            );
        }
        i = i + 1;
    }
    assert(first_not_conflicted(fs, cs) is None);
    Ok(clone_all(&args.files))
}

/// Whether `name` is one of `list`.
fn in_list(list: &Vec<String>, name: &str) -> (r: bool)
    ensures
        r == strs(list@).contains(name@),
{
    let mut i: usize = 0;
    while i < list.len()
        invariant
            i <= list@.len(),
            forall|j: int| 0 <= j < i ==> list@[j]@ != name@,
        decreases list@.len() - i,
    {
        if str_eq(list[i].as_str(), name) {
            assert(strs(list@)[i as int] == name@);
            return true;
        }
        i = i + 1;
    }
    assert forall|j: int| 0 <= j < strs(list@).len() implies strs(list@)[j] != name@ by {
        assert(strs(list@)[j] == list@[j]@);
    }
    false
}

/// A copy of a list of strings.
fn clone_all(v: &Vec<String>) -> (r: Vec<String>)
    ensures
        strs(r@) == strs(v@),
{
    let mut out: Vec<String> = Vec::new();
    let mut i: usize = 0;
    while i < v.len()
        invariant
            i <= v@.len(),
            strs(out@) == strs(v@).subrange(0, i as int),
        decreases v@.len() - i,
    {
        let ghost o0 = out@;
        out.push(v[i].clone());
        assert(strs(out@) =~= strs(o0).push(v@[i as int]@));
        assert(strs(v@).subrange(0, i + 1) =~= strs(v@).subrange(0, i as int).push(v@[i as int]@));
        i = i + 1;
    }
    assert(strs(v@).subrange(0, v@.len() as int) =~= strs(v@));
    out
}

/// What a dry run prints: the files it would resolve.
pub fn dry_run_lines(files: &Vec<String>) -> (r: Vec<String>)
    ensures
        strs(r@) == seq!["Would resolve "@ + decimal_spec(files@.len()) + " files:"@] + strs(files@).map_values(
            |f: Seq<char>| "  - "@ + f,
        ),
{
    let n = usize_to_string(files.len());
    let mut lines: Vec<String> = Vec::new();
    lines.push(concat3("Would resolve ", n.as_str(), " files:"));
    let ghost head = strs(lines@);
    let mut i: usize = 0;
    while i < files.len()
        invariant
            i <= files@.len(),
            strs(lines@) == head + strs(files@).subrange(0, i as int).map_values(|f: Seq<char>| "  - "@ + f),
        decreases files@.len() - i,
    {
        let ghost l0 = lines@;
        lines.push(concat2("  - ", files[i].as_str()));
        assert(strs(files@).subrange(0, i + 1).map_values(|f: Seq<char>| "  - "@ + f) =~= strs(files@).subrange(
            0,
            i as int,
        ).map_values(|f: Seq<char>| "  - "@ + f).push("  - "@ + files@[i as int]@));
        assert(strs(lines@) =~= strs(l0).push("  - "@ + files@[i as int]@));
        i = i + 1;
    }
    assert(strs(files@).subrange(0, files@.len() as int) =~= strs(files@));
    lines
}

/// Whether resolved content still holds a conflict marker.
pub open spec fn has_markers(c: Seq<char>) -> bool {
    contains_spec(c, "<<<<<<<"@) || contains_spec(c, "======="@) || contains_spec(c, ">>>>>>>"@)
}

/// Whether resolved content is empty: nothing but white space, or only
/// the one-line header of a `.jinmerge` file.
pub open spec fn empty_resolution(c: Seq<char>) -> bool {
    let t = trim_spec(c);
    t.len() == 0 || (has_prefix(t, "# Jin merge conflict"@) && !t.contains('\n'))
}

/// Checks the content of a resolved `.jinmerge` file: no conflict marker
/// may remain, and something besides its header must be left.
pub fn validate_no_conflict_markers(content: &str) -> (r: Result<(), JinError>)
    ensures
        r is Ok <==> !has_markers(content@) && !empty_resolution(content@),
        has_markers(content@) ==> (r matches Err(JinError::Other(m)) && m@
            == "Conflict markers still present. Please resolve all conflicts before running 'jin resolve'."@),
        !has_markers(content@) && empty_resolution(content@) ==> (r matches Err(JinError::Other(m)) && m@
            == "Empty resolution. Please keep the desired content in the file."@),
{
    if contains_str(content, "<<<<<<<") || contains_str(content, "=======") || contains_str(content, ">>>>>>>") {
        return Err(
            JinError::Other(
                "Conflict markers still present. Please resolve all conflicts before running 'jin resolve'.".to_owned(),
            ),
        );
    }
    let t = trim(content);
    let single_line = !contains_str(t.as_str(), "\n");
    proof {
        reveal_strlit("\n");
        if single_line {
            assert(!t@.contains('\n')) by {
                if t@.contains('\n') {
                    let j = choose|j: int| 0 <= j < t@.len() && t@[j] == '\n';
                    assert(t@.subrange(j, j + 1) =~= "\n"@);
                    assert(crate::text::occurs_at(t@, "\n"@, j));
                }
            }
        } else {
            let j = choose|j: int| crate::text::occurs_at(t@, "\n"@, j);
            assert(t@.subrange(j, j + 1)[0] == t@[j]);
            assert(t@[j] == '\n');
        }
    }
    if t.unicode_len() == 0 || (starts_with(t.as_str(), "# Jin merge conflict") && single_line) {
        return Err(JinError::Other("Empty resolution. Please keep the desired content in the file.".to_owned()));
    }
    Ok(())
}

/// The error of a file whose `.jinmerge` file is gone.
pub fn missing_merge_file(path: &str) -> (r: JinError)
    ensures
        r matches JinError::Other(m) && m@ == "No .jinmerge file found for "@ + path@ + ". Did you delete it?"@,
{
    JinError::Other(concat3("No .jinmerge file found for ", path, ". Did you delete it?"))
}

/// The error line of a file that could not be resolved.
pub fn failure_line(path: &str, e: &JinError) -> (r: String)
    ensures
        r@ == path@ + ": "@ + error_message_spec(*e),
{
    let m = e.to_string();
    concat3(path, ": ", m.as_str())
}

/// What `jin resolve` reports after resolving files.
#[derive(Debug)]
pub struct ResolveReport {
    /// Lines printed to standard output before completing.
    pub lines: Vec<String>,
    /// Lines printed to standard error.
    pub errors: Vec<String>,
    /// Whether every conflict is resolved, so the apply is completed.
    pub complete: bool,
    /// The lines printed after the rest.
    pub closing: Vec<String>,
    /// The error the command ends with, if it resolved nothing.
    pub failure: Option<JinError>,
}

/// The report after resolving `resolved` files of `total` conflicts, with
/// the error lines of the others: none resolved and some failed is an
/// error; otherwise the apply completes when no conflict remains.
pub fn report(resolved: usize, failures: &Vec<String>, total: usize) -> (r: ResolveReport)
    requires
        resolved <= total,
    ensures
        strs(r.lines@) == (if resolved > 0 {
            seq!["Resolved "@ + decimal_spec(resolved as nat) + " file(s)"@]
        } else {
            seq![]
        }),
        strs(r.errors@) == (if failures@.len() > 0 {
            seq!["Errors resolving "@ + decimal_spec(failures@.len()) + " file(s):"@] + strs(failures@).map_values(
                |f: Seq<char>| "  - "@ + f,
            )
        } else {
            seq![]
        }),
        failures@.len() > 0 && resolved == 0 ==> (r.failure matches Some(JinError::Other(m)) && m@
            == "Failed to resolve any files"@) && !r.complete && r.closing@.len() == 0,
        !(failures@.len() > 0 && resolved == 0) ==> r.failure is None && r.complete == (total == resolved)
            && strs(r.closing@) == (if total == resolved {
            seq!["All conflicts resolved. Apply operation completed."@]
        } else {
            seq![
                "Remaining conflicts: "@ + decimal_spec((total - resolved) as nat),
                "Use 'jin resolve --all' to resolve remaining conflicts."@,
            ]
        }),
{
    let mut lines: Vec<String> = Vec::new();
    if resolved > 0 {
        let n = usize_to_string(resolved);
        lines.push(concat3("Resolved ", n.as_str(), " file(s)"));
    }
    assert(strs(lines@) =~= (if resolved > 0 {
        seq!["Resolved "@ + decimal_spec(resolved as nat) + " file(s)"@]
    } else {
        seq![]
    }));
    let mut errors: Vec<String> = Vec::new();
    if failures.len() > 0 {
        let k = usize_to_string(failures.len());
        errors.push(concat3("Errors resolving ", k.as_str(), " file(s):"));
        let ghost head = strs(errors@);
        let mut i: usize = 0;
        while i < failures.len()
            invariant
                i <= failures@.len(),
                strs(errors@) == head + strs(failures@).subrange(0, i as int).map_values(
                    |f: Seq<char>| "  - "@ + f,
                ),
            decreases failures@.len() - i,
        {
            let ghost e0 = errors@;
            errors.push(concat2("  - ", failures[i].as_str()));
            assert(strs(failures@).subrange(0, i + 1).map_values(|f: Seq<char>| "  - "@ + f) =~= strs(
                failures@,
            ).subrange(0, i as int).map_values(|f: Seq<char>| "  - "@ + f).push("  - "@ + failures@[i as int]@));
            assert(strs(errors@) =~= strs(e0).push("  - "@ + failures@[i as int]@));
            i = i + 1;
        }
        assert(strs(failures@).subrange(0, failures@.len() as int) =~= strs(failures@));
        if resolved == 0 {
            return ResolveReport {
                lines,
                errors,
                complete: false,
                closing: Vec::new(),
                failure: Some(JinError::Other("Failed to resolve any files".to_owned())),
            };
        }
    } else {
        assert(strs(errors@) =~= seq![]);
    }
    let remaining = total - resolved;
    let mut closing: Vec<String> = Vec::new();
    if remaining == 0 {
        closing.push("All conflicts resolved. Apply operation completed.".to_owned());
        assert(strs(closing@) =~= seq!["All conflicts resolved. Apply operation completed."@]);
    } else {
        let r = usize_to_string(remaining);
        closing.push(concat2("Remaining conflicts: ", r.as_str()));
        closing.push("Use 'jin resolve --all' to resolve remaining conflicts.".to_owned());
        assert(strs(closing@) =~= seq![
            "Remaining conflicts: "@ + decimal_spec((total - resolved) as nat),
            "Use 'jin resolve --all' to resolve remaining conflicts."@,
        ]);
    }
    ResolveReport { lines, errors, complete: remaining == 0, closing, failure: None }
}

/// What completing the apply prints: the files applied in all.
pub fn completion_lines(applied: usize, conflicts: usize) -> (r: Vec<String>)
    requires
        applied + conflicts <= usize::MAX,
    ensures
        strs(r@) == seq![
            "Apply operation completed successfully."@,
            "Applied "@ + decimal_spec((applied + conflicts) as nat) + " total files."@,
        ],
{
    let n = usize_to_string(applied + conflicts);
    let lines = vec![
        "Apply operation completed successfully.".to_owned(),
        concat3("Applied ", n.as_str(), " total files."),
    ];
    assert(strs(lines@) =~= seq![
        "Apply operation completed successfully."@,
        "Applied "@ + decimal_spec((applied + conflicts) as nat) + " total files."@,
    ]);
    lines
}

} // verus!
