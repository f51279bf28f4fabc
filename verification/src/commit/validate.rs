//! Checks run on staged files before they are committed: no symbolic
//! links, no binary content, nothing tracked by the project's Git, and at
//! most ten million bytes per file.

use vstd::prelude::*;
use vstd::string::*;
use crate::model::error::JinError;
use crate::staging::index::{StagedEntry, StagingIndex};

verus! {

/// Which rule a staged file broke.
#[derive(Debug, Clone, Copy, PartialEq, Eq, Structural)]
pub enum ValidationErrorType {
    /// The file is a symbolic link.
    SymlinkNotSupported,
    /// The file holds binary content.
    BinaryFileNotSupported,
    /// The file is tracked by the project's Git.
    GitTrackedFile,
    /// The file is larger than the limit.
    FileSizeLimit,
}

/// A file that fails validation.
#[derive(Debug)]
pub struct ValidationError {
    /// Path of the file.
    pub path: String,
    /// The rule it broke.
    pub error_type: ValidationErrorType,
}

impl ValidationError {
    /// A validation error.
    pub fn new(path: String, error_type: ValidationErrorType) -> (r: Self)
        ensures
            r.path == path,
            r.error_type == error_type,
    {
        ValidationError { path, error_type }
    }
}

/// A note on a file that does not stop the commit.
#[derive(Debug)]
pub struct ValidationWarning {
    /// Path of the file.
    pub path: String,
    /// The note.
    pub message: String,
}

impl ValidationWarning {
    /// A validation warning.
    pub fn new(path: String, message: String) -> (r: Self)
        ensures
            r.path == path,
            r.message == message,
    {
        ValidationWarning { path, message }
    }
}

/// The errors and warnings of a validation.
#[derive(Debug)]
pub struct ValidationResult {
    /// Errors, which stop the commit.
    pub errors: Vec<ValidationError>,
    /// Warnings, which do not.
    pub warnings: Vec<ValidationWarning>,
}

impl ValidationResult {
    /// A result with no errors and no warnings.
    pub fn new() -> (r: Self)
        ensures
            r.errors@.len() == 0,
            r.warnings@.len() == 0,
    {
        ValidationResult { errors: Vec::new(), warnings: Vec::new() }
    }

    /// Whether the validation passed: no errors.
    pub fn is_valid(&self) -> (r: bool)
        ensures
            r == (self.errors@.len() == 0),
    {
        self.errors.len() == 0
    }
}

impl Default for ValidationResult {
    fn default() -> (r: Self)
        ensures
            r.errors@.len() == 0,
            r.warnings@.len() == 0,
    {
        ValidationResult::new()
    }
}

/// How the project's Git sees a file.
#[derive(Debug, Clone, Copy, PartialEq, Eq, Structural)]
pub enum GitTracking {
    /// The workspace is not a Git repository.
    NoRepository,
    /// Git could not report a status for the file.
    Unknown,
    /// The status Git reported: whether it is a new untracked file, and
    /// whether no status bit is set at all.
    Status { worktree_new: bool, empty: bool },
}

/// What the executable read of a staged file for validation.
#[derive(Debug)]
pub struct FileChecks {
    /// Whether the file is a symbolic link; `None` when its metadata
    /// could not be read.
    pub is_symlink: Option<bool>,
    /// The file's content; `None` when it could not be read.
    pub content: Option<Vec<u8>>,
    /// How the project's Git sees the file.
    pub tracking: GitTracking,
    /// The file's size in bytes; `None` when its metadata could not be
    /// read.
    pub size: Option<u64>,
}

/// The most bytes a committed file may hold.
pub open spec fn max_file_size() -> u64 {
    10_000_000
}

/// Whether content holds a zero byte, the mark of a binary file.
pub open spec fn has_nul(content: Seq<u8>) -> bool {
    exists|i: int| 0 <= i < content.len() && content[i] == 0u8
}

/// Whether Git's view of a file makes it tracked for validation: no
/// repository counts as a failure, an unreadable status as untracked, a
/// new file as untracked, and any other set bit as tracked.
pub open spec fn git_check_fails(t: GitTracking) -> bool {
    match t {
        GitTracking::NoRepository => true,
        GitTracking::Unknown => false,
        GitTracking::Status { worktree_new, empty } => !worktree_new && !empty,
    }
}

/// The rule a file breaks, the first in the order symlink, binary, Git,
/// size; `None` when it breaks none.
pub open spec fn entry_error(c: FileChecks) -> Option<ValidationErrorType> {
    if c.is_symlink != Some(false) {
        Some(ValidationErrorType::SymlinkNotSupported)
    } else if c.content is None || has_nul(c.content->Some_0@) {
        Some(ValidationErrorType::BinaryFileNotSupported)
    } else if git_check_fails(c.tracking) {
        Some(ValidationErrorType::GitTrackedFile)
    } else if c.size is None || c.size->Some_0 > max_file_size() {
        Some(ValidationErrorType::FileSizeLimit)
    } else {
        None
    }
}

/// Whether content holds a zero byte.
pub fn contains_nul(content: &Vec<u8>) -> (r: bool)
    ensures
        r == has_nul(content@),
{
    let mut i: usize = 0;
    while i < content.len()
        invariant
            i <= content@.len(),
            forall|k: int| 0 <= k < i ==> content@[k] != 0u8,
        decreases content@.len() - i,
    {
        if content[i] == 0u8 {
            return true;
        }
        i = i + 1;
    }
    false
}

/// The rule a file breaks, if any.
pub fn check_entry(checks: &FileChecks) -> (r: Option<ValidationErrorType>)
    ensures
        r == entry_error(*checks),
{
    match checks.is_symlink {
        Some(false) => {},
        _ => {
            return Some(ValidationErrorType::SymlinkNotSupported);
        },
    }
    match &checks.content {
        None => {
            return Some(ValidationErrorType::BinaryFileNotSupported);
        },
        Some(c) => {
            if contains_nul(c) {
                return Some(ValidationErrorType::BinaryFileNotSupported);
            }
        },
    }
    let git_fails = match checks.tracking {
        GitTracking::NoRepository => true,
        GitTracking::Unknown => false,
        GitTracking::Status { worktree_new, empty } => !worktree_new && !empty,
    };
    if git_fails {
        return Some(ValidationErrorType::GitTrackedFile);
    }
    match checks.size {
        None => Some(ValidationErrorType::FileSizeLimit),
        Some(n) => if n > 10_000_000 {
            Some(ValidationErrorType::FileSizeLimit)
        } else {
            None
        },
    }
}

/// The errors of a list of staged entries, one per failing entry, in
/// order.
pub open spec fn entry_errors(entries: Seq<StagedEntry>, checks: Seq<FileChecks>) -> Seq<(Seq<char>, ValidationErrorType)>
    decreases entries.len(),
{
    if entries.len() == 0 {
        seq![]
    } else {
        let n = entries.len() - 1;
        let rest = entry_errors(entries.drop_last(), checks);
        match entry_error(checks[n]) {
            Some(t) => rest.push((entries[n].path@, t)),
            None => rest,
        }
    }
}

/// The errors of a result by their paths and rules.
pub open spec fn errors_view(v: Seq<ValidationError>) -> Seq<(Seq<char>, ValidationErrorType)> {
    v.map_values(|e: ValidationError| (e.path@, e.error_type))
}

/// Validates every staged entry, given what was read of each file, in
/// staging order; a failing entry adds one error and validation goes on.
pub fn validate_staging_index(staging: &StagingIndex, checks: &Vec<FileChecks>) -> (r: Result<ValidationResult, JinError>)
    requires
        checks@.len() == staging@.len(),
    ensures
        r matches Ok(v) && errors_view(v.errors@) == entry_errors(staging@, checks@) && v.warnings@.len() == 0,
{
    let entries = staging.all_entries();
    let mut result = ValidationResult::new();
    let mut i: usize = 0;
    while i < entries.len()
        invariant
            i <= entries@.len(),
            entries@ == staging@,
            checks@.len() == staging@.len(),
            errors_view(result.errors@) == entry_errors(staging@.subrange(0, i as int), checks@),
            result.warnings@.len() == 0,
        decreases entries@.len() - i,
    {
        let ghost pre = staging@.subrange(0, i + 1);
        assert(pre.drop_last() =~= staging@.subrange(0, i as int));
        assert(pre[i as int] == entries@[i as int]);
        match check_entry(&checks[i]) {
            Some(t) => {
                let ghost before = errors_view(result.errors@);
                result.errors.push(ValidationError::new(entries[i].path.clone(), t));
                assert(errors_view(result.errors@) =~= before.push((entries@[i as int].path@, t)));
            },
            None => {},
        }
        i = i + 1;
    }
    assert(staging@.subrange(0, staging@.len() as int) =~= staging@);
    Ok(result)
}

} // verus!
