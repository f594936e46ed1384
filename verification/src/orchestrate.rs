//! Per-file decisions and the run's counters.
//!
//! The caller performs the actual reads and writes; the functions here
//! decide, from classification and content, what should happen to one file,
//! and fold the resulting outcomes into the run's totals.

use crate::transform::{
    contains_crlf, convert_crlf_to_lf, has_crlf, lemma_convert_shrinks, normalized,
};
use vstd::prelude::*;

verus! {

/// How one candidate file ended up.
#[derive(Clone, Copy, PartialEq, Eq, Structural, Debug)]
pub enum FileOutcome {
    /// Classified as binary; content untouched, counters untouched.
    SkippedBinary,
    /// A text file without any CRLF pair; nothing to do.
    SkippedNoCrlf,
    /// A text file whose transform returned as many bytes as it was given
    /// (a defensive case: the length law rules it out).
    SkippedNoChange,
    /// Converted and written back; the write shrank the file.
    Converted { bytes_saved: usize },
    /// A dry run: the file would be converted, nothing was written.
    DryRunWouldConvert { bytes_saved: usize },
    /// An I/O failure while classifying, reading or writing this file.
    Failed,
}

/// What to do next with one text file, decided from its content.
pub enum FileStep {
    /// Nothing to write; the outcome is final.
    Finished { outcome: FileOutcome },
    /// The caller should write `converted` back to the file and then turn
    /// the write's result into an outcome with [`outcome_after_write`].
    WriteBack { converted: Vec<u8>, bytes_saved: usize },
}

/// Decide what to do with one text file, given its full content. A write
/// back is requested exactly when the content holds a CRLF pair and this
/// is not a dry run; what is written is the transformed content, and
/// `bytes_saved` is how much shorter it is.
pub fn plan_text_file(content: &[u8], dry_run: bool) -> (step: FileStep)
    ensures
        dry_run ==> step is Finished,
        match step {
            FileStep::Finished { outcome } => match outcome {
                FileOutcome::SkippedNoCrlf => !has_crlf(content@),
                FileOutcome::SkippedNoChange => has_crlf(content@) && normalized(content@).len()
                    == content@.len(),
                FileOutcome::DryRunWouldConvert { bytes_saved } => dry_run && has_crlf(content@)
                    && bytes_saved + normalized(content@).len() == content@.len() && bytes_saved
                    > 0,
                _ => false,
            },
            FileStep::WriteBack { converted, bytes_saved } => !dry_run && has_crlf(content@)
                && converted@ == normalized(content@) && bytes_saved + converted@.len()
                == content@.len() && bytes_saved > 0,
        },
{
    if !contains_crlf(content) {
        return FileStep::Finished { outcome: FileOutcome::SkippedNoCrlf };
    }
    let converted = convert_crlf_to_lf(content);
    proof {
        lemma_convert_shrinks(content@);
    }
    if converted.len() == content.len() {
        return FileStep::Finished { outcome: FileOutcome::SkippedNoChange };
    }
    let bytes_saved = content.len() - converted.len();
    if dry_run {
        FileStep::Finished { outcome: FileOutcome::DryRunWouldConvert { bytes_saved } }
    } else {
        FileStep::WriteBack { converted, bytes_saved }
    }
}

/// Turn the result of the caller's write-back into the file's outcome.
pub fn outcome_after_write(bytes_saved: usize, write_ok: bool) -> (outcome: FileOutcome)
    ensures
        outcome == (if write_ok {
            FileOutcome::Converted { bytes_saved }
        } else {
            FileOutcome::Failed
        }),
{
    if write_ok {
        FileOutcome::Converted { bytes_saved }
    } else {
        FileOutcome::Failed
    }
}

/// The run's totals, folded from per-file outcomes and per-root failures.
pub struct RunSummary {
    /// Files classified as text.
    pub total_text_files: usize,
    /// Files converted and written back.
    pub converted_files: usize,
    /// Files whose processing failed, plus roots that could not be resolved.
    pub errors: usize,
}

impl RunSummary {
    /// A fresh summary: nothing processed yet.
    pub fn new() -> (summary: RunSummary)
        ensures
            summary.total_text_files == 0,
            summary.converted_files == 0,
            summary.errors == 0,
    {
        RunSummary { total_text_files: 0, converted_files: 0, errors: 0 }
    }

    /// Fold one file's outcome into the totals. `classified_text` says
    /// whether the classifier called the file text: binary files, and files
    /// that failed before they were classified, leave the text total
    /// unchanged.
    pub fn record_file(&mut self, classified_text: bool, outcome: &FileOutcome)
        requires
            old(self).total_text_files < usize::MAX,
            old(self).converted_files < usize::MAX,
            old(self).errors < usize::MAX,
        ensures
            final(self).total_text_files == old(self).total_text_files + (if classified_text {
                1usize
            } else {
                0usize
            }),
            final(self).converted_files == old(self).converted_files + (
            if *outcome is Converted {
                1usize
            } else {
                0usize
            }),
            final(self).errors == old(self).errors + (if *outcome is Failed {
                1usize
            } else {
                0usize
            }),
    {
        if classified_text {
            self.total_text_files = self.total_text_files + 1;
        }
        match outcome {
            FileOutcome::Converted { .. } => {
                self.converted_files = self.converted_files + 1;
            },
            FileOutcome::Failed => {
                self.errors = self.errors + 1;
            },
            _ => {},
        }
    }

    /// Record a root that could not be resolved at all.
    pub fn record_root_error(&mut self)
        requires
            old(self).errors < usize::MAX,
        ensures
            final(self).errors == old(self).errors + 1,
            final(self).total_text_files == old(self).total_text_files,
            final(self).converted_files == old(self).converted_files,
    {
        self.errors = self.errors + 1;
    }

    /// Whether the run should be reported as failed.
    pub fn has_errors(&self) -> (r: bool)
        ensures
            r == (self.errors > 0),
    {
        self.errors > 0
    }
}

} // verus!
