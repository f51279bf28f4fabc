//! The commit pipeline: what a commit of the staging index writes to each
//! affected layer.
//!
//! The pipeline decides; the executable writes the blobs, trees and
//! commits, moves the refs in one transaction, and hands the new commit
//! ids back to `complete`.

use vstd::prelude::*;
use vstd::string::*;
use crate::commands::common::strs;
use crate::git::oid::{hex_oid_spec, oid_error_text, parse_oid};
use crate::model::error::JinError;
use crate::model::layer::{layer_display_spec, precedence_order, precedence_spec, Layer};
use crate::staging::index::{
    entries_of_layer, layers_present, StagedEntry, StagedOperation, StagingIndex,
};
use crate::text::{concat2, concat4, concat5, decimal_spec, usize_to_string};

verus! {

/// How a commit is made.
#[derive(Debug)]
pub struct CommitConfig {
    /// The commit message.
    pub message: String,
    /// The author's name, if set.
    pub author_name: Option<String>,
    /// The author's email, if set.
    pub author_email: Option<String>,
    /// Show what would be committed without committing.
    pub dry_run: bool,
}

impl CommitConfig {
    /// A configuration with a message and no author, not a dry run.
    pub fn new(message: String) -> (r: Self)
        ensures
            r.message == message,
            r.author_name is None,
            r.author_email is None,
            !r.dry_run,
    {
        CommitConfig { message, author_name: None, author_email: None, dry_run: false }
    }

    /// The configuration with the dry-run flag set as given.
    pub fn dry_run(self, dry_run: bool) -> (r: Self)
        ensures
            r.message == self.message,
            r.author_name == self.author_name,
            r.author_email == self.author_email,
            r.dry_run == dry_run,
    {
        let mut s = self;
        s.dry_run = dry_run;
        s
    }
}

/// What a commit did.
#[derive(Debug)]
pub struct CommitResult {
    /// The layers committed to, lowest precedence first.
    pub committed_layers: Vec<Layer>,
    /// The number of staged files.
    pub file_count: usize,
    /// The new commit of each layer; empty for a dry run.
    pub commit_hashes: Vec<(Layer, String)>,
}

/// The tree a layer's commit gets: each file path with its blob id.
#[derive(Debug)]
pub struct LayerCommit {
    /// The layer.
    pub layer: Layer,
    /// The files of the tree, in staging order.
    pub files: Vec<(String, String)>,
}

/// What the pipeline decided.
#[derive(Debug)]
pub enum PipelineStep {
    /// A dry run: what would be committed.
    DryRun(CommitResult),
    /// The commit of each affected layer to write, lowest precedence first.
    Commit(Vec<LayerCommit>),
}

/// The files of the tree built from a layer's entries: deletions are left
/// out, every other entry gives its path and content hash.
pub open spec fn tree_files(entries: Seq<StagedEntry>) -> Seq<(Seq<char>, Seq<char>)>
    decreases entries.len(),
{
    if entries.len() == 0 {
        seq![]
    } else {
        let rest = tree_files(entries.drop_last());
        let e = entries.last();
        if e.operation == StagedOperation::Delete {
            rest
        } else {
            rest.push((e.path@, e.content_hash@))
        }
    }
}

/// The first entry, in order, that is no deletion and whose content hash
/// is no object id.
pub open spec fn first_bad_hash(entries: Seq<StagedEntry>) -> Option<int>
    decreases entries.len(),
{
    if entries.len() == 0 {
        None
    } else {
        match first_bad_hash(entries.drop_last()) {
            Some(i) => Some(i),
            None => {
                let e = entries.last();
                if e.operation != StagedOperation::Delete && !hex_oid_spec(e.content_hash@) {
                    Some(entries.len() - 1)
                } else {
                    None
                }
            },
        }
    }
}

/// The files of a tree by their strings.
pub open spec fn files_view(v: Seq<(String, String)>) -> Seq<(Seq<char>, Seq<char>)> {
    v.map_values(|f: (String, String)| (f.0@, f.1@))
}

/// The error for the first entry whose content hash is no object id.
pub open spec fn bad_hash_message(entries: Seq<StagedEntry>) -> Seq<char> {
    let i = first_bad_hash(entries)->Some_0;
    "Invalid content hash for "@ + entries[i].path@ + ": "@ + oid_error_text(entries[i].content_hash@)
}

/// A staged layer's tree files, or the error for a content hash that is
/// no object id.
pub open spec fn layer_tree_outcome(entries: Seq<StagedEntry>, r: Result<Vec<(String, String)>, JinError>) -> bool {
    match first_bad_hash(entries) {
        None => r matches Ok(v) && files_view(v@) == tree_files(entries),
        Some(i) => r matches Err(JinError::Transaction(m)) && m@ == bad_hash_message(entries),
    }
}

/// The views of a layer list.
pub open spec fn layers_of(v: Seq<LayerCommit>) -> Seq<Layer> {
    v.map_values(|c: LayerCommit| c.layer)
}

/// The outcome of `execute` on a staging index and a configuration.
pub open spec fn execute_outcome(s: Seq<StagedEntry>, dry_run: bool, r: Result<PipelineStep, JinError>) -> bool {
    if s.len() == 0 {
        r matches Err(JinError::Other(m)) && m@ == "Nothing to commit"@
    } else if dry_run {
        r matches Ok(PipelineStep::DryRun(res)) && res.committed_layers@ == layers_present(precedence_order(), s)
            && res.file_count == s.len() && res.commit_hashes@.len() == 0
    } else {
        let ls = layers_present(precedence_order(), s);
        match first_bad_layer(ls, s) {
            Some(k) => r matches Err(JinError::Transaction(m)) && m@ == bad_hash_message(
                entries_of_layer(s, ls[k]),
            ),
            None => r matches Ok(PipelineStep::Commit(v)) && layers_of(v@) == ls && forall|k: int|
                0 <= k < v@.len() ==> files_view((#[trigger] v@[k]).files@) == tree_files(
                    entries_of_layer(s, ls[k]),
                ),
        }
    }
}

/// The first layer, in the given order, one of whose entries has a bad
/// content hash.
pub open spec fn first_bad_layer(ls: Seq<Layer>, s: Seq<StagedEntry>) -> Option<int>
    decreases ls.len(),
{
    if ls.len() == 0 {
        None
    } else {
        match first_bad_layer(ls.drop_last(), s) {
            Some(k) => Some(k),
            None => if first_bad_hash(entries_of_layer(s, ls.last())) is Some {
                Some(ls.len() - 1)
            } else {
                None
            },
        }
    }
}

/// The line of a dry run that heads a layer: its name, precedence and
/// number of staged entries.
pub open spec fn layer_heading(s: Seq<StagedEntry>, l: Layer) -> Seq<char> {
    "  "@ + layer_display_spec(l) + " ("@ + decimal_spec(precedence_spec(l) as nat) + "): "@ + decimal_spec(
        entries_of_layer(s, l).len(),
    ) + " files"@
}

/// The lines naming staged entries, in order.
pub open spec fn entry_lines(es: Seq<StagedEntry>) -> Seq<Seq<char>> {
    es.map_values(|e: StagedEntry| "    "@ + e.path@)
}

/// The lines of a dry run for some layers, in order.
pub open spec fn layer_blocks(s: Seq<StagedEntry>, ls: Seq<Layer>) -> Seq<Seq<char>>
    decreases ls.len(),
{
    if ls.len() == 0 {
        seq![]
    } else {
        layer_blocks(s, ls.drop_last()) + seq![layer_heading(s, ls.last())] + entry_lines(
            entries_of_layer(s, ls.last()),
        )
    }
}

/// What a dry run prints: the counts, then each layer's block.
pub open spec fn dry_run_lines(s: Seq<StagedEntry>, file_count: nat, ls: Seq<Layer>) -> Seq<Seq<char>> {
    seq!["Would commit "@ + decimal_spec(file_count) + " files to "@ + decimal_spec(ls.len()) + " layers:"@]
        + layer_blocks(s, ls)
}

/// The pipeline over a staging index.
#[derive(Debug)]
pub struct CommitPipeline {
    staging: StagingIndex,
}

impl View for CommitPipeline {
    type V = Seq<StagedEntry>;

    closed spec fn view(&self) -> Seq<StagedEntry> {
        self.staging@
    }
}

impl CommitPipeline {
    /// Well-formedness: the staging index is.
    pub closed spec fn wf(&self) -> bool {
        self.staging.wf()
    }

    /// A pipeline over a staging index.
    pub fn new(staging: StagingIndex) -> (r: Self)
        ensures
            r@ == staging@,
            staging.wf() ==> r.wf(),
    {
        CommitPipeline { staging }
    }

    /// The staging index the pipeline commits.
    pub fn staging(&self) -> (r: &StagingIndex)
        ensures
            r@ == self@,
            self.wf() ==> r.wf(),
    {
        &self.staging
    }

    /// The tree files of a layer's entries: deletions left out, each
    /// content hash checked to be an object id.
    pub fn build_layer_tree(entries: &Vec<StagedEntry>) -> (r: Result<Vec<(String, String)>, JinError>)
        ensures
            layer_tree_outcome(entries@, r),
    {
        let mut files: Vec<(String, String)> = Vec::new();
        let mut i: usize = 0;
        while i < entries.len()
            invariant
                i <= entries@.len(),
                first_bad_hash(entries@.subrange(0, i as int)) is None,
                files_view(files@) == tree_files(entries@.subrange(0, i as int)),
            decreases entries@.len() - i,
        {
            let ghost pre = entries@.subrange(0, i + 1);
            assert(pre.drop_last() =~= entries@.subrange(0, i as int));
            assert(pre.last() == entries@[i as int]);
            let e = &entries[i];
            if !e.is_delete() {
                match parse_oid(e.content_hash.as_str()) {
                    Ok(()) => {
                        let ghost before = files_view(files@);
                        files.push((e.path.clone(), e.content_hash.clone()));
                        assert(files_view(files@) =~= before.push((e.path@, e.content_hash@)));
                    },
                    Err(detail) => {
                        proof {
                            lemma_first_bad_prefix(entries@, i as int);
                        }
                        let m = concat4("Invalid content hash for ", e.path.as_str(), ": ", detail.as_str());
                        return Err(JinError::Transaction(m));
                    },
                }
            }
            i = i + 1;
        }
        assert(entries@.subrange(0, entries@.len() as int) =~= entries@);
        Ok(files)
    }

    /// Decides a commit: nothing staged is an error; a dry run reports the
    /// affected layers and the file count; otherwise each affected layer's
    /// tree, lowest precedence first, stopping at the first bad hash.
    pub fn execute(&mut self, config: &CommitConfig) -> (r: Result<PipelineStep, JinError>)
        ensures
            final(self)@ == old(self)@,
            final(self).wf() == old(self).wf(),
            execute_outcome(old(self)@, config.dry_run, r),
    {
        if self.staging.is_empty() {
            return Err(JinError::Other("Nothing to commit".to_owned()));
        }
        let layers = self.staging.affected_layers();
        let file_count = self.staging.len();
        if config.dry_run {
            return Ok(PipelineStep::DryRun(CommitResult { committed_layers: layers, file_count, commit_hashes: Vec::new() }));
        }
        let ghost s = self.staging@;
        let mut plans: Vec<LayerCommit> = Vec::new();
        let mut k: usize = 0;
        while k < layers.len()
            invariant
                k <= layers@.len(),
                layers@ == layers_present(precedence_order(), s),
                self.staging@ == s,
                old(self)@ == s,
                s.len() > 0,
                !config.dry_run,
                first_bad_layer(layers@.subrange(0, k as int), s) is None,
                layers_of(plans@) == layers@.subrange(0, k as int),
                forall|j: int| 0 <= j < plans@.len() ==> files_view((#[trigger] plans@[j]).files@) == tree_files(
                    entries_of_layer(s, layers@[j]),
                ),
            decreases layers@.len() - k,
        {
            let l = layers[k];
            let ghost pre = layers@.subrange(0, k + 1);
            assert(pre.drop_last() =~= layers@.subrange(0, k as int));
            assert(pre.last() == l);
            let entries = self.staging.entries_for_layer(l);
            match Self::build_layer_tree(&entries) {
                Ok(files) => {
                    plans.push(LayerCommit { layer: l, files });
                    assert(layers_of(plans@) =~= layers@.subrange(0, k + 1));
                },
                Err(e) => {
                    assert(entries@ == entries_of_layer(s, layers@[k as int]));
                    assert(first_bad_hash(entries@) is Some);
                    proof {
                        lemma_first_bad_layer_prefix(layers@, s, k as int);
                    }
                    return Err(e);
                },
            }
            k = k + 1;
        }
        assert(layers@.subrange(0, layers@.len() as int) =~= layers@);
        Ok(PipelineStep::Commit(plans))
    }

    /// The report of a dry run: the file and layer counts, then each layer
    /// with its precedence, file count and files.
    pub fn dry_run_report(&self, result: &CommitResult) -> (r: Vec<String>)
        ensures
            strs(r@) == dry_run_lines(self@, result.file_count as nat, result.committed_layers@),
    {
        let mut lines: Vec<String> = Vec::new();
        let n = usize_to_string(result.file_count);
        let m = usize_to_string(result.committed_layers.len());
        lines.push(concat5("Would commit ", n.as_str(), " files to ", m.as_str(), " layers:"));
        let ghost s = self@;
        let ghost ls = result.committed_layers@;
        let ghost head = seq![
            "Would commit "@ + decimal_spec(result.file_count as nat) + " files to "@ + decimal_spec(ls.len())
                + " layers:"@,
        ];
        assert(strs(lines@) =~= head);
        let mut i: usize = 0;
        while i < result.committed_layers.len()
            invariant
                i <= ls.len(),
                ls == result.committed_layers@,
                s == self@,
                strs(lines@) == head + layer_blocks(s, ls.subrange(0, i as int)),
            decreases ls.len() - i,
        {
            let l = result.committed_layers[i];
            let entries = self.staging.entries_for_layer(l);
            let p = usize_to_string(l.precedence() as usize);
            let c = usize_to_string(entries.len());
            let ghost before = strs(lines@);
            let tail = concat2(c.as_str(), " files");
            let rest = concat2("): ", tail.as_str());
            let heading = concat5("  ", l.name(), " (", p.as_str(), rest.as_str());
            assert(heading@ == layer_heading(s, l));
            lines.push(heading);
            assert(entry_lines(entries@.subrange(0, 0)) =~= seq![]);
            assert(strs(lines@) =~= before + seq![layer_heading(s, l)] + entry_lines(entries@.subrange(0, 0)));
            let mut j: usize = 0;
            while j < entries.len()
                invariant
                    j <= entries@.len(),
                    entries@ == entries_of_layer(s, l),
                    strs(lines@) == before + seq![layer_heading(s, l)] + entry_lines(entries@.subrange(0, j as int)),
                decreases entries@.len() - j,
            {
                let ghost l0 = strs(lines@);
                lines.push(concat2("    ", entries[j].path.as_str()));
                assert(entries@.subrange(0, j + 1) =~= entries@.subrange(0, j as int).push(entries@[j as int]));
                assert(entry_lines(entries@.subrange(0, j + 1)) =~= entry_lines(entries@.subrange(0, j as int)).push(
                    "    "@ + entries@[j as int].path@,
                ));
                assert(strs(lines@) =~= l0.push("    "@ + entries@[j as int].path@));
                j = j + 1;
            }
            assert(entries@.subrange(0, entries@.len() as int) =~= entries@);
            assert(ls.subrange(0, i + 1).drop_last() =~= ls.subrange(0, i as int));
            assert(strs(lines@) =~= head + layer_blocks(s, ls.subrange(0, i + 1)));
            i = i + 1;
        }
        assert(ls.subrange(0, ls.len() as int) =~= ls);
        lines
    }

    /// Ends a commit once the executable wrote each layer's commit and
    /// moved the refs: clears the staging index and reports.
    pub fn complete(&mut self, layers: Vec<Layer>, file_count: usize, commit_hashes: Vec<(Layer, String)>) -> (r: CommitResult)
        ensures
            final(self)@ == Seq::<StagedEntry>::empty(),
            final(self).wf(),
            r.committed_layers@ == layers@,
            r.file_count == file_count,
            r.commit_hashes@ == commit_hashes@,
    {
        self.staging.clear();
        CommitResult { committed_layers: layers, file_count, commit_hashes }
    }

    /// Aborts the pipeline; an unfinished transaction is left to recovery.
    pub fn abort(&mut self) -> (r: Result<(), JinError>)
        ensures
            r is Ok,
            final(self)@ == old(self)@,
            final(self).wf() == old(self).wf(),
    {
        Ok(())
    }
}

/// When the first `i` entries have good hashes and entry `i` does not,
/// entry `i` is the first bad one.
proof fn lemma_first_bad_prefix(entries: Seq<StagedEntry>, i: int)
    requires
        0 <= i < entries.len(),
        first_bad_hash(entries.subrange(0, i)) is None,
        entries[i].operation != StagedOperation::Delete,
        !hex_oid_spec(entries[i].content_hash@),
    ensures
        first_bad_hash(entries) == Some(i),
    decreases entries.len(),
{
    if entries.len() - 1 == i {
        assert(entries.drop_last() =~= entries.subrange(0, i));
    } else {
        assert(entries.drop_last().subrange(0, i) =~= entries.subrange(0, i));
        lemma_first_bad_prefix(entries.drop_last(), i);
    }
}

/// When the first `k` layers have good hashes and layer `k` does not, the
/// layers have a first bad layer.
proof fn lemma_first_bad_layer_prefix(ls: Seq<Layer>, s: Seq<StagedEntry>, k: int)
    requires
        0 <= k < ls.len(),
        first_bad_layer(ls.subrange(0, k), s) is None,
        first_bad_hash(entries_of_layer(s, ls[k])) is Some,
    ensures
        first_bad_layer(ls, s) == Some(k),
    decreases ls.len(),
{
    if ls.len() - 1 == k {
        assert(ls.drop_last() =~= ls.subrange(0, k));
    } else {
        assert(ls.drop_last().subrange(0, k) =~= ls.subrange(0, k));
        lemma_first_bad_layer_prefix(ls.drop_last(), s, k);
    }
}

} // verus!
