use crate::error::{outcome_of, VCSError, VCSErrorView, VCSResult};
use crate::options::CheckOptions;
use crate::status::{classify, reported, FileSets, FileSetsView, StatusEntry, StatusEntryView};
use vstd::prelude::*;

verus! {

/// What came of listing the file statuses of the Git repository at the path.
/// The listing includes untracked files and leaves out the files that the
/// repository ignores.
#[derive(Debug, Clone, PartialEq, Eq)]
pub enum StatusReport {
    /// No Git repository could be opened at the path, so there is nothing to
    /// list. This is the case where only Mercurial governs the path.
    NoRepository,
    /// The listing, in the order in which the repository gave it.
    Entries(Vec<StatusEntry>),
    /// The repository was opened, but listing failed. Holds the tool's own
    /// message.
    Failed(String),
}

/// A [`StatusReport`] with texts and lists as mathematical sequences.
pub enum StatusReportView {
    NoRepository,
    Entries(Seq<StatusEntryView>),
    Failed(Seq<char>),
}

impl View for StatusReport {
    type V = StatusReportView;

    open spec fn view(&self) -> StatusReportView {
        match self {
            StatusReport::NoRepository => StatusReportView::NoRepository,
            StatusReport::Entries(entries) => StatusReportView::Entries(entries.deep_view()),
            StatusReport::Failed(message) => StatusReportView::Failed(message@),
        }
    }
}

impl DeepView for StatusReport {
    type V = StatusReportView;

    open spec fn deep_view(&self) -> StatusReportView {
        self@
    }
}

/// What the driver of a check has seen last.
#[derive(Debug, PartialEq, Eq)]
pub enum Seen<'a> {
    /// Nothing yet: the check is about to start.
    Nothing,
    /// Detection is over: whether a supported repository governs the path.
    Detection(bool),
    /// The statuses have been read.
    Status(&'a StatusReport),
}

/// A [`Seen`] with texts and lists as mathematical sequences.
pub enum SeenView {
    Nothing,
    Detection(bool),
    Status(StatusReportView),
}

impl<'a> View for Seen<'a> {
    type V = SeenView;

    open spec fn view(&self) -> SeenView {
        match self {
            Seen::Nothing => SeenView::Nothing,
            Seen::Detection(found) => SeenView::Detection(*found),
            Seen::Status(report) => SeenView::Status(report.deep_view()),
        }
    }
}

/// Where a check stands: what its driver is to do next, or how it ended.
#[derive(Debug, PartialEq, Eq)]
pub enum Step {
    /// Run detection on the path and come back with its verdict.
    Detect,
    /// Read the file statuses and come back with the report.
    ReadStatus,
    /// The check is over.
    Done(VCSResult<()>),
}

/// A [`Step`] with the outcome by its view.
pub enum StepView {
    Detect,
    ReadStatus,
    Done(Result<(), VCSErrorView>),
}

impl View for Step {
    type V = StepView;

    open spec fn view(&self) -> StepView {
        match self {
            Step::Detect => StepView::Detect,
            Step::ReadStatus => StepView::ReadStatus,
            Step::Done(result) => StepView::Done(outcome_of(*result)),
        }
    }
}

/// The outcome that two lists of offending files amount to: success where
/// both are empty, else the failure that carries both.
pub open spec fn verdict_of(sets: FileSetsView) -> Result<(), VCSErrorView> {
    if sets.dirty_files.len() == 0 && sets.staged_files.len() == 0 {
        Ok(())
    } else {
        Err(
            VCSErrorView::NotAllowedFilesFound {
                dirty_files: sets.dirty_files,
                staged_files: sets.staged_files,
            },
        )
    }
}

/// Turns the lists of offending files into the outcome of the check.
pub fn verdict(sets: FileSets) -> (result: VCSResult<()>)
    ensures
        outcome_of(result) == verdict_of(sets@),
{
    if sets.dirty_files.len() == 0 && sets.staged_files.len() == 0 {
        Ok(())
    } else {
        Err(
            VCSError::NotAllowedFilesFound {
                dirty_files: sets.dirty_files,
                staged_files: sets.staged_files,
            },
        )
    }
}

/// The outcome that a status report amounts to under the options. Without a
/// Git repository no file can offend. A failed listing is an error of its
/// own and is never taken for an empty one.
pub open spec fn outcome_of_report(
    report: StatusReportView,
    opts: CheckOptions,
) -> Result<(), VCSErrorView> {
    match report {
        StatusReportView::NoRepository => Ok(()),
        StatusReportView::Entries(entries) => verdict_of(reported(entries, opts)),
        StatusReportView::Failed(message) => Err(VCSErrorView::GitError(message)),
    }
}

/// Judges a status report under the options.
pub fn judge_report(report: &StatusReport, opts: &CheckOptions) -> (result: VCSResult<()>)
    ensures
        outcome_of(result) == outcome_of_report(report@, *opts),
{
    match report {
        StatusReport::NoRepository => Ok(()),
        StatusReport::Entries(entries) => verdict(classify(entries, opts)),
        StatusReport::Failed(message) => Err(VCSError::GitError(message.clone())),
    }
}

/// How a check goes on after what its driver has seen.
///
/// The options come first at every step. Where going without version
/// control is allowed, the check succeeds before anything is looked at.
/// Else detection is asked for, and a path that no repository governs fails
/// whatever else the options allow. Where both dirty and staged files are
/// allowed, a repository is enough and its files are never listed. Else the
/// statuses are asked for and judged.
pub open spec fn step_after(opts: CheckOptions, seen: SeenView) -> StepView {
    if opts.allow_no_vcs {
        StepView::Done(Ok(()))
    } else {
        match seen {
            SeenView::Nothing => StepView::Detect,
            SeenView::Detection(false) => StepView::Done(Err(VCSErrorView::NoVCS)),
            SeenView::Detection(true) => if opts.allow_dirty && opts.allow_staged {
                StepView::Done(Ok(()))
            } else {
                StepView::ReadStatus
            },
            SeenView::Status(report) => if opts.allow_dirty && opts.allow_staged {
                StepView::Done(Ok(()))
            } else {
                StepView::Done(outcome_of_report(report, opts))
            },
        }
    }
}

/// Takes a check one step further: from what its driver has seen last to
/// what the driver is to do next, or to the outcome.
pub fn advance_check(opts: &CheckOptions, seen: &Seen) -> (step: Step)
    ensures
        step@ == step_after(*opts, seen@),
{
    if opts.allow_no_vcs {
        return Step::Done(Ok(()));
    }
    match seen {
        Seen::Nothing => Step::Detect,
        Seen::Detection(false) => Step::Done(Err(VCSError::NoVCS)),
        Seen::Detection(true) => {
            if opts.allow_dirty && opts.allow_staged {
                Step::Done(Ok(()))
            } else {
                Step::ReadStatus
            }
        },
        Seen::Status(report) => {
            if opts.allow_dirty && opts.allow_staged {
                Step::Done(Ok(()))
            } else {
                Step::Done(judge_report(report, opts))
            }
        },
    }
}

} // verus!
