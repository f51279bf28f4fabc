//! `jin repair`: which integrity problems each check finds, which repairs
//! are attempted, and what is reported.
//!
//! Each check takes what the executable observed and returns the lines to
//! print, the issues found and whether a repair is attempted; the outcome
//! of a repair is reported by a second function.

use vstd::prelude::*;
use vstd::string::*;
use crate::commands::common::strs;
use crate::model::error::{error_message_spec, JinError};
use crate::text::{concat2, concat3, concat4, concat5, decimal_spec, plural, plural_of, usize_to_string};

verus! {

/// What one check found, before any repair.
#[derive(Debug)]
pub struct CheckPlan {
    /// Lines printed now.
    pub lines: Vec<String>,
    /// Issues found.
    pub issues: Vec<String>,
    /// Whether the executable attempts the repair.
    pub repair: bool,
}

/// The line a check prints: its title and its mark.
pub open spec fn check_line(title: Seq<char>, mark: Seq<char>) -> Seq<char> {
    "Checking "@ + title + "... "@ + mark
}

/// The mark of a failed check.
pub open spec fn cross() -> Seq<char> {
    "\u{2717}"@
}

/// A check that found nothing wrong.
pub open spec fn passed(p: CheckPlan, title: Seq<char>, mark: Seq<char>) -> bool {
    &&& strs(p.lines@) == seq![check_line(title, mark)]
    &&& p.issues@.len() == 0
    &&& !p.repair
}

/// A check that found one issue: a dry run prints the issue and what would
/// be done; a real run attempts the repair where there is one.
pub open spec fn found_issue(
    p: CheckPlan,
    title: Seq<char>,
    issue: Seq<char>,
    would: Seq<char>,
    dry_run: bool,
    repairable: bool,
) -> bool {
    &&& strs(p.lines@) == seq![check_line(title, cross())] + (if dry_run {
        seq!["  Issue: "@ + issue, would]
    } else {
        seq![]
    })
    &&& strs(p.issues@) == seq![issue]
    &&& p.repair == (!dry_run && repairable)
}

/// The line of a check.
fn check_line_of(title: &str, mark: &str) -> (r: String)
    ensures
        r@ == check_line(title@, mark@),
{
    concat4("Checking ", title, "... ", mark)
}

/// A passing check.
fn passing(title: &str, mark: &str) -> (p: CheckPlan)
    ensures
        passed(p, title@, mark@),
{
    let mut lines: Vec<String> = Vec::new();
    lines.push(check_line_of(title, mark));
    assert(strs(lines@) =~= seq![check_line(title@, mark@)]);
    CheckPlan { lines, issues: Vec::new(), repair: false }
}

/// A check that found `issue`.
fn failing(title: &str, issue: &str, would: &str, dry_run: bool, repairable: bool) -> (p: CheckPlan)
    ensures
        found_issue(p, title@, issue@, would@, dry_run, repairable),
{
    let mut lines: Vec<String> = Vec::new();
    let mark = "\u{2717}";
    proof {
        reveal_strlit("\u{2717}");
    }
    lines.push(check_line_of(title, mark));
    if dry_run {
        lines.push(concat2("  Issue: ", issue));
        lines.push(would.to_owned());
    }
    let mut issues: Vec<String> = Vec::new();
    issues.push(issue.to_owned());
    assert(strs(issues@) =~= seq![issue@]);
    assert(strs(lines@) =~= seq![check_line(title@, cross())] + (if dry_run {
        seq!["  Issue: "@ + issue@, would@]
    } else {
        seq![]
    }));
    CheckPlan { lines, issues, repair: !dry_run && repairable }
}

/// Checks the staging index: a missing index means nothing is staged; one
/// that does not load is rebuilt.
pub fn check_staging_index(present: bool, loads: bool, dry_run: bool) -> (p: CheckPlan)
    ensures
        !present ==> passed(p, "staging index"@, "\u{2713} (not present)"@),
        present && loads ==> passed(p, "staging index"@, "\u{2713}"@),
        present && !loads ==> found_issue(
            p,
            "staging index"@,
            "Staging index corrupted"@,
            "    Would rebuild index (staged changes would be lost)"@,
            dry_run,
            true,
        ),
{
    if !present {
        passing("staging index", "\u{2713} (not present)")
    } else if loads {
        passing("staging index", "\u{2713}")
    } else {
        failing(
            "staging index",
            "Staging index corrupted",
            "    Would rebuild index (staged changes would be lost)",
            dry_run,
            true,
        )
    }
}

/// Checks the workspace metadata: missing metadata means nothing was
/// applied; metadata that does not load is rebuilt.
pub fn check_workspace_metadata(present: bool, loads: bool, dry_run: bool) -> (p: CheckPlan)
    ensures
        !present ==> passed(p, "workspace metadata"@, "\u{2713} (not present)"@),
        present && loads ==> passed(p, "workspace metadata"@, "\u{2713}"@),
        present && !loads ==> found_issue(
            p,
            "workspace metadata"@,
            "Workspace metadata corrupted"@,
            "    Would rebuild metadata"@,
            dry_run,
            true,
        ),
{
    if !present {
        passing("workspace metadata", "\u{2713} (not present)")
    } else if loads {
        passing("workspace metadata", "\u{2713}")
    } else {
        failing("workspace metadata", "Workspace metadata corrupted", "    Would rebuild metadata", dry_run, true)
    }
}

/// Checks the global configuration from the result of loading it: a
/// configuration error means the file is invalid and is recreated; any
/// other failure means there is no file and defaults apply.
pub fn check_global_config(load: &Result<(), JinError>, dry_run: bool) -> (p: CheckPlan)
    ensures
        load is Ok ==> passed(p, "global configuration"@, "\u{2713}"@),
        load matches Err(JinError::Config(_)) ==> found_issue(
            p,
            "global configuration"@,
            "Global config is invalid"@,
            "    Would backup and recreate config"@,
            dry_run,
            true,
        ),
        load matches Err(e) && !(e is Config) ==> passed(
            p,
            "global configuration"@,
            "\u{2713} (using defaults)"@,
        ),
{
    match load {
        Ok(()) => passing("global configuration", "\u{2713}"),
        Err(JinError::Config(_)) => failing(
            "global configuration",
            "Global config is invalid",
            "    Would backup and recreate config",
            dry_run,
            true,
        ),
        Err(_) => passing("global configuration", "\u{2713} (using defaults)"),
    }
}

/// Checks the project context: only where `.jin` exists; a missing
/// context is created, one that does not load is recreated.
pub fn check_project_context(jin_dir_exists: bool, present: bool, loads: bool, dry_run: bool) -> (p:
    CheckPlan)
    ensures
        !jin_dir_exists ==> passed(p, "project context"@, "\u{2713} (not initialized)"@),
        jin_dir_exists && !present ==> found_issue(
            p,
            "project context"@,
            "Project context missing"@,
            "    Would create default context"@,
            dry_run,
            true,
        ),
        jin_dir_exists && present && loads ==> passed(p, "project context"@, "\u{2713}"@),
        jin_dir_exists && present && !loads ==> found_issue(
            p,
            "project context"@,
            "Project context corrupted"@,
            "    Would backup and recreate context"@,
            dry_run,
            true,
        ),
{
    if !jin_dir_exists {
        passing("project context", "\u{2713} (not initialized)")
    } else if !present {
        failing("project context", "Project context missing", "    Would create default context", dry_run, true)
    } else if loads {
        passing("project context", "\u{2713}")
    } else {
        failing(
            "project context",
            "Project context corrupted",
            "    Would backup and recreate context",
            dry_run,
            true,
        )
    }
}

/// The report of a repair attempt: on success the fix is recorded and
/// printed; on failure the error is printed after `failure`.
pub fn repair_report(result: Result<(), JinError>, fixed: &str, failure: &str) -> (r: (Option<String>, String))
    ensures
        match result {
            Ok(()) => r.0 matches Some(f) && f@ == fixed@ && r.1@ == "  Fixed: "@ + fixed@,
            Err(e) => r.0 is None && r.1@ == "  "@ + failure@ + ": "@ + error_message_spec(e),
        },
{
    match result {
        Ok(()) => (Some(fixed.to_owned()), concat2("  Fixed: ", fixed)),
        Err(e) => {
            let m = e.to_string();
            (None, concat4("  ", failure, ": ", m.as_str()))
        },
    }
}

/// A check that found an issue it cannot repair, printed in any run.
pub open spec fn reported(p: CheckPlan, title: Seq<char>, issue: Seq<char>) -> bool {
    &&& strs(p.lines@) == seq![check_line(title, cross()), "  Issue: "@ + issue]
    &&& strs(p.issues@) == seq![issue]
    &&& !p.repair
}

/// Whether `text` parses as YAML, as `serde_yaml` reads it.
pub uninterp spec fn yaml_parses(text: Seq<char>) -> bool;

/// Parses `text` with `serde_yaml::from_str` into a `serde_yaml::Value`
/// and says whether that succeeded. The contract names the answer and
/// states nothing more of it.
#[verifier::external_body]
fn parses_as_yaml(text: &str) -> (r: bool)
    ensures
        r == yaml_parses(text@),
{
    match serde_yaml::from_str::<serde_yaml::Value>(text) {
        Ok(_) => true,
        Err(_) => false,
    }
}

/// Checks `.jinmap`: a missing map is created where `.jin` is a
/// directory; a map that is not YAML is backed up and recreated; one that
/// cannot be read (`content` is `None`) is reported with no repair.
pub fn check_jinmap(present: bool, jin_dir: bool, content: &Option<String>, dry_run: bool) -> (p: CheckPlan)
    ensures
        !present && jin_dir ==> found_issue(
            p,
            ".jinmap"@,
            ".jinmap missing"@,
            "    Would create default .jinmap"@,
            dry_run,
            true,
        ),
        !present && !jin_dir ==> passed(p, ".jinmap"@, "\u{2713} (not initialized)"@),
        present ==> match content {
            None => reported(p, ".jinmap"@, ".jinmap is not readable"@),
            Some(c) => if yaml_parses(c@) {
                passed(p, ".jinmap"@, "\u{2713}"@)
            } else {
                found_issue(
                    p,
                    ".jinmap"@,
                    ".jinmap is not valid YAML"@,
                    "    Would backup and recreate .jinmap"@,
                    dry_run,
                    true,
                )
            },
        },
{
    if !present {
        if jin_dir {
            failing(".jinmap", ".jinmap missing", "    Would create default .jinmap", dry_run, true)
        } else {
            passing(".jinmap", "\u{2713} (not initialized)")
        }
    } else {
        match content {
            None => {
                let p0 = failing(".jinmap", ".jinmap is not readable", "", false, false);
                assert(strs(p0.lines@) =~= seq![check_line(".jinmap"@, cross())]);
                let mut lines = p0.lines;
                let line = concat2("  Issue: ", ".jinmap is not readable");
                let ghost before = lines@;
                lines.push(line);
                assert(strs(lines@) =~= strs(before).push("  Issue: "@ + ".jinmap is not readable"@));
                assert(strs(lines@) =~= seq![check_line(".jinmap"@, cross()), "  Issue: "@ + ".jinmap is not readable"@]);
                CheckPlan { lines, issues: p0.issues, repair: false }
            },
            Some(c) => if parses_as_yaml(c.as_str()) {
                passing(".jinmap", "\u{2713}")
            } else {
                failing(
                    ".jinmap",
                    ".jinmap is not valid YAML",
                    "    Would backup and recreate .jinmap",
                    dry_run,
                    true,
                )
            },
        }
    }
}

/// What the repository check found.
#[derive(Debug)]
pub struct RepoCheck {
    /// Lines printed to standard output.
    pub lines: Vec<String>,
    /// Lines printed to standard error.
    pub errors: Vec<String>,
    /// Issues found.
    pub issues: Vec<String>,
    /// Whether the executable recreates the repository.
    pub recreate: bool,
    /// The error that leaves no usable repository, when known now.
    pub failure: Option<JinError>,
}

/// Checks the repository: it must open and be bare. A bare repository is
/// used; one that is not bare cannot be fixed; a missing one is
/// recreated, or in a dry run reported as missing.
pub fn check_repository_structure(opened: bool, bare: bool, dry_run: bool) -> (r: RepoCheck)
    ensures
        opened && bare ==> strs(r.lines@) == seq![check_line("repository structure"@, "\u{2713}"@)]
            && r.errors@.len() == 0 && r.issues@.len() == 0 && !r.recreate && r.failure is None,
        opened && !bare ==> strs(r.lines@) == seq![check_line("repository structure"@, cross())]
            + (if dry_run {
            seq!["  Issue: Repository exists but is not bare"@]
        } else {
            seq![]
        }) && strs(r.errors@) == (if dry_run {
            seq![]
        } else {
            seq![
                "Error: Repository at ~/.jin exists but is not a bare repository"@,
                "Manual intervention required."@,
            ]
        }) && strs(r.issues@) == seq!["Repository exists but is not bare"@] && !r.recreate
            && (r.failure matches Some(JinError::Other(m)) && m@ == "Repository is not bare"@),
        !opened ==> strs(r.lines@) == seq![check_line("repository structure"@, cross())] + (if dry_run {
            seq!["  Issue: Repository not found or corrupted"@, "  Would recreate repository"@]
        } else {
            seq![]
        }) && r.errors@.len() == 0 && strs(r.issues@) == seq!["Repository not found or corrupted"@]
            && r.recreate == !dry_run && (if dry_run {
            (r.failure matches Some(JinError::Other(m)) && m@ == "Repository missing"@)
        } else {
            r.failure is None
        }),
{
    if opened && bare {
        let p = passing("repository structure", "\u{2713}");
        return RepoCheck { lines: p.lines, errors: Vec::new(), issues: Vec::new(), recreate: false, failure: None };
    }
    if opened {
        let p = failing(
            "repository structure",
            "Repository exists but is not bare",
            "",
            false,
            false,
        );
        let mut lines = p.lines;
        let mut errors: Vec<String> = Vec::new();
        if dry_run {
            lines.push("  Issue: Repository exists but is not bare".to_owned());
        } else {
            errors.push("Error: Repository at ~/.jin exists but is not a bare repository".to_owned());
            errors.push("Manual intervention required.".to_owned());
        }
        assert(strs(errors@) =~= (if dry_run {
            seq![]
        } else {
            seq![
                "Error: Repository at ~/.jin exists but is not a bare repository"@,
                "Manual intervention required."@,
            ]
        }));
        assert(strs(lines@) =~= seq![check_line("repository structure"@, cross())] + (if dry_run {
            seq!["  Issue: Repository exists but is not bare"@]
        } else {
            seq![]
        }));
        return RepoCheck {
            lines,
            errors,
            issues: p.issues,
            recreate: false,
            failure: Some(JinError::Other("Repository is not bare".to_owned())),
        };
    }
    let p = failing(
        "repository structure",
        "Repository not found or corrupted",
        "  Would recreate repository",
        dry_run,
        true,
    );
    proof {
        reveal_strlit("  Issue: ");
        reveal_strlit("Repository not found or corrupted");
        reveal_strlit("  Issue: Repository not found or corrupted");
        assert("  Issue: "@ + "Repository not found or corrupted"@ =~= "  Issue: Repository not found or corrupted"@);
    }
    let failure = if dry_run {
        Some(JinError::Other("Repository missing".to_owned()))
    } else {
        None
    };
    RepoCheck { lines: p.lines, errors: Vec::new(), issues: p.issues, recreate: p.repair, failure }
}

/// What recreating the repository leads to: the fix and its line, or the
/// error printed to standard error and kept as the failure.
pub fn recreate_report(result: Result<(), JinError>) -> (r: (Option<String>, Vec<String>, Vec<String>, Option<JinError>))
    ensures
        match result {
            Ok(()) => r.0 matches Some(f) && f@ == "Repository recreated"@ && strs(r.1@) == seq![
                "  Fixed: Repository recreated"@,
            ] && r.2@.len() == 0 && r.3 is None,
            Err(e) => r.0 is None && r.1@.len() == 0 && strs(r.2@) == seq![
                "  Failed to recreate repository: "@ + error_message_spec(e),
            ] && r.3 == Some(e),
        },
{
    match result {
        Ok(()) => {
            let lines = vec!["  Fixed: Repository recreated".to_owned()];
            assert(strs(lines@) =~= seq!["  Fixed: Repository recreated"@]);
            (Some("Repository recreated".to_owned()), lines, Vec::new(), None)
        },
        Err(e) => {
            let m = e.to_string();
            let errors = vec![concat2("  Failed to recreate repository: ", m.as_str())];
            assert(strs(errors@) =~= seq!["  Failed to recreate repository: "@ + m@]);
            (None, Vec::new(), errors, Some(e))
        },
    }
}

/// What resolving a layer ref showed.
#[derive(Debug, Clone, Copy, PartialEq, Eq, Structural)]
pub enum RefHealth {
    /// The ref resolves to a commit.
    Commit,
    /// The ref resolves to an object that is not a commit.
    NotCommit,
    /// The ref resolves to an id with no object.
    Missing,
    /// The ref does not resolve.
    Unresolvable,
}

/// Why a ref is invalid, or `None` for a valid one.
pub open spec fn health_reason(h: RefHealth) -> Option<Seq<char>> {
    match h {
        RefHealth::Commit => None,
        RefHealth::NotCommit => Some("not a commit"@),
        RefHealth::Missing => Some("object not found"@),
        RefHealth::Unresolvable => Some("cannot resolve"@),
    }
}

/// The listed refs by their strings.
pub open spec fn health_view(v: Seq<(String, RefHealth)>) -> Seq<(Seq<char>, RefHealth)> {
    v.map_values(|p: (String, RefHealth)| (p.0@, p.1))
}

/// The invalid refs, in order, each with why it is invalid.
pub open spec fn invalid_refs(rs: Seq<(Seq<char>, RefHealth)>) -> Seq<(Seq<char>, Seq<char>)>
    decreases rs.len(),
{
    if rs.len() == 0 {
        seq![]
    } else {
        let rest = invalid_refs(rs.drop_last());
        match health_reason(rs.last().1) {
            Some(why) => rest.push((rs.last().0, why)),
            None => rest,
        }
    }
}

/// The issue of an invalid ref.
pub open spec fn ref_issue(r: (Seq<char>, Seq<char>)) -> Seq<char> {
    "Invalid ref "@ + r.0 + ": "@ + r.1
}

/// The lines a dry run prints for the invalid refs.
pub open spec fn ref_dry_lines(inv: Seq<(Seq<char>, Seq<char>)>) -> Seq<Seq<char>>
    decreases inv.len(),
{
    if inv.len() == 0 {
        seq![]
    } else {
        ref_dry_lines(inv.drop_last()) + seq![
            "  Issue: "@ + ref_issue(inv.last()),
            "    Would attempt recovery from reflog"@,
        ]
    }
}

/// What the check of the layer refs found.
#[derive(Debug)]
pub struct RefsCheck {
    /// Lines printed now.
    pub lines: Vec<String>,
    /// Issues found.
    pub issues: Vec<String>,
    /// Refs the executable tries to recover, in order.
    pub recover: Vec<String>,
}

/// Checks the layer refs from their listing and what resolving each
/// showed: every ref that does not lead to a commit is an issue, and
/// outside a dry run each is recovered from its reflog.
pub fn check_layer_refs(listing: &Result<Vec<(String, RefHealth)>, JinError>, dry_run: bool) -> (r: RefsCheck)
    ensures
        match listing {
            Err(e) => strs(r.lines@) == seq![
                check_line("layer references"@, cross()),
                "  Issue: Cannot list layer refs: "@ + error_message_spec(*e),
            ] && strs(r.issues@) == seq!["Cannot list layer refs: "@ + error_message_spec(*e)]
                && r.recover@.len() == 0,
            Ok(v) => {
                let inv = invalid_refs(health_view(v@));
                &&& inv.len() == 0 ==> strs(r.lines@) == seq![
                    check_line("layer references"@, "\u{2713}"@),
                ]
                &&& inv.len() > 0 ==> strs(r.lines@) == seq![check_line("layer references"@, cross())]
                    + (if dry_run {
                    ref_dry_lines(inv)
                } else {
                    seq![]
                })
                &&& strs(r.issues@) == inv.map_values(|x: (Seq<char>, Seq<char>)| ref_issue(x))
                &&& strs(r.recover@) == (if dry_run {
                    seq![]
                } else {
                    inv.map_values(|x: (Seq<char>, Seq<char>)| x.0)
                })
            },
        },
{
    match listing {
        Err(e) => {
            let m = e.to_string();
            let issue = concat2("Cannot list layer refs: ", m.as_str());
            let mark = "\u{2717}";
            proof {
                reveal_strlit("\u{2717}");
            }
            let lines = vec![check_line_of("layer references", mark), concat2("  Issue: ", issue.as_str())];
            let issues = vec![issue];
            assert(strs(lines@) =~= seq![
                check_line("layer references"@, cross()),
                "  Issue: Cannot list layer refs: "@ + error_message_spec(*e),
            ]) by {
                reveal_strlit("  Issue: ");
                reveal_strlit("Cannot list layer refs: ");
                reveal_strlit("  Issue: Cannot list layer refs: ");
                assert("  Issue: "@ + ("Cannot list layer refs: "@ + m@) =~= "  Issue: Cannot list layer refs: "@ + m@);
            }
            assert(strs(issues@) =~= seq!["Cannot list layer refs: "@ + error_message_spec(*e)]);
            RefsCheck { lines, issues, recover: Vec::new() }
        },
        Ok(v) => {
            let ghost hv = health_view(v@);
            let mut dry: Vec<String> = Vec::new();
            let mut issues: Vec<String> = Vec::new();
            let mut recover: Vec<String> = Vec::new();
            let mut i: usize = 0;
            while i < v.len()
                invariant
                    i <= v@.len(),
                    hv == health_view(v@),
                    strs(dry@) == ref_dry_lines(invalid_refs(hv.subrange(0, i as int))),
                    strs(issues@) == invalid_refs(hv.subrange(0, i as int)).map_values(
                        |x: (Seq<char>, Seq<char>)| ref_issue(x),
                    ),
                    strs(recover@) == invalid_refs(hv.subrange(0, i as int)).map_values(
                        |x: (Seq<char>, Seq<char>)| x.0,
                    ),
                decreases v@.len() - i,
            {
                let ghost prev = invalid_refs(hv.subrange(0, i as int));
                assert(hv.subrange(0, i + 1).drop_last() =~= hv.subrange(0, i as int));
                assert(hv.subrange(0, i + 1).last() == hv[i as int]);
                let name = &v[i].0;
                let why: Option<&str> = match v[i].1 {
                    RefHealth::Commit => None,
                    RefHealth::NotCommit => Some("not a commit"),
                    RefHealth::Missing => Some("object not found"),
                    RefHealth::Unresolvable => Some("cannot resolve"),
                };
                match why {
                    Some(w) => {
                        let issue = concat4("Invalid ref ", name.as_str(), ": ", w);
                        let ghost cur = prev.push((name@, w@));
                        assert(invalid_refs(hv.subrange(0, i + 1)) == cur);
                        let ghost d0 = dry@;
                        dry.push(concat2("  Issue: ", issue.as_str()));
                        dry.push("    Would attempt recovery from reflog".to_owned());
                        assert(cur.drop_last() =~= prev);
                        assert(strs(dry@) =~= ref_dry_lines(cur)) by {
                            assert(strs(dry@) =~= strs(d0) + seq![
                                "  Issue: "@ + issue@,
                                "    Would attempt recovery from reflog"@,
                            ]);
                        }
                        let ghost i0 = issues@;
                        issues.push(issue);
                        assert(strs(issues@) =~= strs(i0).push(ref_issue((name@, w@))));
                        assert(cur.map_values(|x: (Seq<char>, Seq<char>)| ref_issue(x)) =~= prev.map_values(
                            |x: (Seq<char>, Seq<char>)| ref_issue(x),
                        ).push(ref_issue((name@, w@))));
                        let ghost r0 = recover@;
                        recover.push(name.clone());
                        assert(strs(recover@) =~= strs(r0).push(name@));
                        assert(cur.map_values(|x: (Seq<char>, Seq<char>)| x.0) =~= prev.map_values(
                            |x: (Seq<char>, Seq<char>)| x.0,
                        ).push(name@));
                    },
                    None => {
                        assert(invalid_refs(hv.subrange(0, i + 1)) == prev);
                    },
                }
                i = i + 1;
            }
            assert(hv.subrange(0, v@.len() as int) =~= hv);
            if issues.len() == 0 {
                let p = passing("layer references", "\u{2713}");
                return RefsCheck { lines: p.lines, issues, recover };
            }
            let mark = "\u{2717}";
            proof {
                reveal_strlit("\u{2717}");
            }
            let mut lines: Vec<String> = Vec::new();
            lines.push(check_line_of("layer references", mark));
            if dry_run {
                let mut k: usize = 0;
                let ghost start = strs(lines@);
                while k < dry.len()
                    invariant
                        k <= dry@.len(),
                        strs(lines@) == start + strs(dry@).subrange(0, k as int),
                    decreases dry@.len() - k,
                {
                    let ghost l0 = lines@;
                    lines.push(dry[k].clone());
                    assert(strs(dry@).subrange(0, k + 1) =~= strs(dry@).subrange(0, k as int).push(dry@[k as int]@));
                    assert(strs(lines@) =~= strs(l0).push(dry@[k as int]@));
                    k = k + 1;
                }
                assert(strs(dry@).subrange(0, dry@.len() as int) =~= strs(dry@));
                RefsCheck { lines, issues, recover: Vec::new() }
            } else {
                assert(strs(lines@) =~= seq![check_line("layer references"@, cross())] + seq![]);
                RefsCheck { lines, issues, recover }
            }
        },
    }
}

/// How recovering an invalid ref ended.
#[derive(Debug)]
pub enum RecoveryOutcome {
    /// A commit from the reflog was restored.
    Recovered,
    /// The reflog held no commit and the ref was deleted.
    Deleted,
    /// The reflog held no commit and deleting the ref failed.
    DeleteFailed,
    /// Reading the reflog or restoring failed.
    Failed(JinError),
}

/// The report of recovering `ref_name`: the fix recorded, if any, and the
/// line printed.
pub fn recovery_report(ref_name: &str, outcome: RecoveryOutcome) -> (r: (Option<String>, String))
    ensures
        match outcome {
            RecoveryOutcome::Recovered => r.0 matches Some(f) && f@ == "Recovered "@ + ref_name@
                + " from reflog"@ && r.1@ == "  Fixed: "@ + f@,
            RecoveryOutcome::Deleted => r.0 matches Some(f) && f@ == "Deleted invalid ref "@ + ref_name@
                && r.1@ == "  Fixed: "@ + f@,
            RecoveryOutcome::DeleteFailed => r.0 is None && r.1@ == "  Failed to delete ref "@ + ref_name@,
            RecoveryOutcome::Failed(e) => r.0 is None && r.1@ == "  Failed to recover "@ + ref_name@ + ": "@
                + error_message_spec(e),
        },
{
    match outcome {
        RecoveryOutcome::Recovered => {
            let f = concat3("Recovered ", ref_name, " from reflog");
            let line = concat2("  Fixed: ", f.as_str());
            (Some(f), line)
        },
        RecoveryOutcome::Deleted => {
            let f = concat2("Deleted invalid ref ", ref_name);
            let line = concat2("  Fixed: ", f.as_str());
            (Some(f), line)
        },
        RecoveryOutcome::DeleteFailed => (None, concat2("  Failed to delete ref ", ref_name)),
        RecoveryOutcome::Failed(e) => {
            let m = e.to_string();
            (None, concat4("  Failed to recover ", ref_name, ": ", m.as_str()))
        },
    }
}

/// The reflog entry a ref is recovered from: the most recent one (the
/// first listed) whose new id is a commit, with the message of the
/// restore.
pub fn reflog_recovery(entry_is_commit: &Vec<bool>) -> (r: Option<(usize, String)>)
    ensures
        match r {
            Some((i, msg)) => i < entry_is_commit@.len() && entry_is_commit@[i as int] && (forall|j: int|
                0 <= j < i ==> !entry_is_commit@[j]) && msg@ == "Recovered from reflog entry "@
                + decimal_spec(i as nat),
            None => forall|j: int| 0 <= j < entry_is_commit@.len() ==> !entry_is_commit@[j],
        },
{
    let mut i: usize = 0;
    while i < entry_is_commit.len()
        invariant
            i <= entry_is_commit@.len(),
            forall|j: int| 0 <= j < i ==> !entry_is_commit@[j],
        decreases entry_is_commit@.len() - i,
    {
        if entry_is_commit[i] {
            let n = usize_to_string(i);
            return Some((i, concat2("Recovered from reflog entry ", n.as_str())));
        }
        i = i + 1;
    }
    None
}

/// The issue of a workspace that failed the attachment check.
pub open spec fn attachment_issue(e: JinError) -> Seq<char> {
    match e {
        JinError::DetachedWorkspace { details, recovery_hint, .. } => "Workspace is detached. "@
            + details@ + ". Recovery: "@ + recovery_hint@,
        _ => "Workspace check failed: "@ + error_message_spec(e),
    }
}

/// Checks that the workspace is attached to the active context, from the
/// result of loading the context, whether the repository opened, and the
/// result of validating the workspace. Outside a dry run the issue is
/// printed as well.
pub fn check_workspace_attachment(
    context: &Result<(), JinError>,
    repo_opened: bool,
    attached: Result<(), JinError>,
    dry_run: bool,
) -> (p: CheckPlan)
    ensures
        context matches Err(JinError::NotInitialized) ==> passed(
            p,
            "workspace attachment"@,
            "\u{2713} (not initialized)"@,
        ),
        context matches Err(e) && !(e is NotInitialized) ==> passed(
            p,
            "workspace attachment"@,
            "\u{2713} (no context)"@,
        ),
        context is Ok && !repo_opened ==> passed(p, "workspace attachment"@, "\u{2713} (no repository)"@),
        context is Ok && repo_opened ==> match attached {
            Ok(()) => passed(p, "workspace attachment"@, "\u{2713}"@),
            Err(e) => {
                &&& strs(p.lines@) == seq![check_line("workspace attachment"@, cross())] + (if dry_run {
                    seq![]
                } else {
                    seq!["  Issue: "@ + attachment_issue(e)]
                })
                &&& strs(p.issues@) == seq![attachment_issue(e)]
                &&& !p.repair
            },
        },
{
    match context {
        Err(JinError::NotInitialized) => return passing("workspace attachment", "\u{2713} (not initialized)"),
        Err(_) => return passing("workspace attachment", "\u{2713} (no context)"),
        Ok(()) => {},
    }
    if !repo_opened {
        return passing("workspace attachment", "\u{2713} (no repository)");
    }
    match attached {
        Ok(()) => passing("workspace attachment", "\u{2713}"),
        Err(e) => {
            let issue = match &e {
                JinError::DetachedWorkspace { details, recovery_hint, .. } => concat4(
                    "Workspace is detached. ",
                    details.as_str(),
                    ". Recovery: ",
                    recovery_hint.as_str(),
                ),
                _ => {
                    let m = e.to_string();
                    concat2("Workspace check failed: ", m.as_str())
                },
            };
            assert(issue@ == attachment_issue(e));
            let p0 = failing("workspace attachment", issue.as_str(), "", false, false);
            let mut lines = p0.lines;
            if !dry_run {
                let ghost l0 = lines@;
                lines.push(concat2("  Issue: ", issue.as_str()));
                assert(strs(lines@) =~= strs(l0).push("  Issue: "@ + issue@));
            }
            assert(strs(lines@) =~= seq![check_line("workspace attachment"@, cross())] + (if dry_run {
                seq![]
            } else {
                seq!["  Issue: "@ + attachment_issue(e)]
            }));
            CheckPlan { lines, issues: p0.issues, repair: false }
        },
    }
}

/// The lines that list issues.
pub open spec fn bullets(items: Seq<Seq<char>>) -> Seq<Seq<char>> {
    items.map_values(|i: Seq<char>| "  - "@ + i)
}

/// Appends the listing of `items[from..]` to `lines`.
fn push_bullets(lines: &mut Vec<String>, items: &Vec<String>, from: usize)
    requires
        from <= items@.len(),
    ensures
        strs(final(lines)@) == strs(old(lines)@) + bullets(strs(items@).subrange(from as int, items@.len() as int)),
{
    let ghost start = strs(lines@);
    let ghost all = strs(items@);
    let mut k: usize = from;
    while k < items.len()
        invariant
            from <= k <= items@.len(),
            all == strs(items@),
            strs(lines@) == start + bullets(all.subrange(from as int, k as int)),
        decreases items@.len() - k,
    {
        let ghost l0 = lines@;
        lines.push(concat2("  - ", items[k].as_str()));
        assert(all.subrange(from as int, k + 1) =~= all.subrange(from as int, k as int).push(all[k as int]));
        assert(bullets(all.subrange(from as int, k + 1)) =~= bullets(all.subrange(from as int, k as int)).push(
            "  - "@ + all[k as int],
        ));
        assert(strs(lines@) =~= strs(l0).push("  - "@ + items@[k as int]@));
        k = k + 1;
    }
}

/// What `jin repair --check` prints after its check.
pub fn attachment_summary(issues: &Vec<String>) -> (r: Vec<String>)
    ensures
        strs(r@) == (if issues@.len() == 0 {
            seq![seq![], "Workspace is properly attached."@]
        } else {
            seq![seq![], "Workspace state:"@] + bullets(strs(issues@))
        }),
{
    let mut lines: Vec<String> = Vec::new();
    lines.push(String::new());
    if issues.len() == 0 {
        lines.push("Workspace is properly attached.".to_owned());
        assert(strs(lines@) =~= seq![seq![], "Workspace is properly attached."@]);
        return lines;
    }
    lines.push("Workspace state:".to_owned());
    assert(strs(lines@) =~= seq![seq![], "Workspace state:"@]);
    push_bullets(&mut lines, issues, 0);
    assert(strs(issues@).subrange(0, issues@.len() as int) =~= strs(issues@));
    lines
}

/// The closing report of `jin repair`.
pub open spec fn summary_lines(dry_run: bool, found: Seq<Seq<char>>, fixed: Seq<Seq<char>>) -> Seq<Seq<char>> {
    let n = found.len();
    let f = fixed.len();
    if n == 0 {
        seq![seq![], "No issues found."@]
    } else if dry_run {
        seq![
            seq![],
            decimal_spec(n) + " issue"@ + plural(n) + " found (dry run - no changes made)"@,
            seq![],
            "Issues detected:"@,
        ] + bullets(found)
    } else {
        seq![seq![], "Repair complete. "@ + decimal_spec(f) + " issue"@ + plural(f) + " fixed."@] + (if f
            < n {
            seq![
                seq![],
                "Warning: "@ + decimal_spec((n - f) as nat) + " issue"@ + plural((n - f) as nat)
                    + " could not be automatically fixed:"@,
            ] + bullets(found.subrange(f as int, n as int))
        } else {
            seq![]
        })
    }
}

/// The closing report of `jin repair`: in a dry run the issues found; in
/// a real run how many were fixed, and the issues from the count of fixes
/// on as those that could not be.
pub fn repair_summary(dry_run: bool, found: &Vec<String>, fixed: &Vec<String>) -> (r: Vec<String>)
    ensures
        strs(r@) == summary_lines(dry_run, strs(found@), strs(fixed@)),
{
    let mut lines: Vec<String> = Vec::new();
    lines.push(String::new());
    let n = found.len();
    let f = fixed.len();
    if n == 0 {
        lines.push("No issues found.".to_owned());
        assert(strs(lines@) =~= seq![seq![], "No issues found."@]);
        return lines;
    }
    if dry_run {
        let c = usize_to_string(n);
        lines.push(concat4(c.as_str(), " issue", plural_of(n), " found (dry run - no changes made)"));
        lines.push(String::new());
        lines.push("Issues detected:".to_owned());
        let ghost head = strs(lines@);
        push_bullets(&mut lines, found, 0);
        assert(strs(found@).subrange(0, n as int) =~= strs(found@));
        assert(head =~= seq![
            seq![],
            decimal_spec(n as nat) + " issue"@ + plural(n as nat) + " found (dry run - no changes made)"@,
            seq![],
            "Issues detected:"@,
        ]);
        return lines;
    }
    let c = usize_to_string(f);
    lines.push(concat5("Repair complete. ", c.as_str(), " issue", plural_of(f), " fixed."));
    assert(strs(lines@) =~= seq![seq![], "Repair complete. "@ + decimal_spec(f as nat) + " issue"@ + plural(f as nat) + " fixed."@]);
    if f < n {
        let ghost head = strs(lines@);
        lines.push(String::new());
        let d = usize_to_string(n - f);
        lines.push(concat5("Warning: ", d.as_str(), " issue", plural_of(n - f), " could not be automatically fixed:"));
        assert(strs(lines@) =~= head + seq![
            seq![],
            "Warning: "@ + decimal_spec((n - f) as nat) + " issue"@ + plural((n - f) as nat)
                + " could not be automatically fixed:"@,
        ]);
        push_bullets(&mut lines, found, f);
    }
    lines
}

/// The end of a run on a repository that cannot be used: when it failed
/// with an `Other` error, more issues were found than fixed, and this is
/// not a dry run, the lines of the manual recovery and the error.
pub fn fatal_outcome(failure: &Option<JinError>, found: usize, fixed: usize, dry_run: bool) -> (r: Option<
    (Vec<String>, JinError),
>)
    ensures
        r is Some <==> (failure matches Some(JinError::Other(_)) && found > fixed && !dry_run),
        r matches Some((lines, e)) ==> strs(lines@) == fatal_lines() && (e matches JinError::Other(m)
            && m@ == "Repository corruption requires manual recovery"@),
{
    match failure {
        Some(JinError::Other(_)) => {
            if found > fixed && !dry_run {
                let lines = vec![
                    String::new(),
                    "FATAL: Repository is severely corrupted.".to_owned(),
                    String::new(),
                    "Manual recovery steps:".to_owned(),
                    "  1. Backup current repository: cp -r ~/.jin ~/.jin.backup".to_owned(),
                    "  2. Reinitialize Jin: rm -rf ~/.jin && jin init".to_owned(),
                    "  3. Restore configurations from backup if possible".to_owned(),
                ];
                assert(strs(lines@) =~= fatal_lines());
                Some((lines, JinError::Other("Repository corruption requires manual recovery".to_owned())))
            } else {
                None
            }
        },
        _ => None,
    }
}

/// The manual recovery steps of a corrupted repository.
pub open spec fn fatal_lines() -> Seq<Seq<char>> {
    seq![
        seq![],
        "FATAL: Repository is severely corrupted."@,
        seq![],
        "Manual recovery steps:"@,
        "  1. Backup current repository: cp -r ~/.jin ~/.jin.backup"@,
        "  2. Reinitialize Jin: rm -rf ~/.jin && jin init"@,
        "  3. Restore configurations from backup if possible"@,
    ]
}

} // verus!
