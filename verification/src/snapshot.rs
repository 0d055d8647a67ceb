use crate::check::{
    advance_check, outcome_of_report, step_after, Seen, SeenView, StatusReport, StatusReportView,
    Step, StepView,
};
use crate::detect::{
    advance_detection, detection_after, Detection, Finding, FindingView, GitRepo, GitRepoView,
    HgRepo, Probe,
};
use crate::error::{outcome_of, VCSErrorView, VCSResult};
use crate::options::CheckOptions;
use vstd::prelude::*;

verus! {

/// Everything that the outside world would answer about one path at one
/// moment: the answer to each [`Probe`], and the status report.
#[derive(Debug, Clone, PartialEq, Eq)]
pub struct Snapshot {
    /// The Git repository that discovery finds from the path, if any.
    pub git: Option<GitRepo>,
    /// What that repository says when asked whether it ignores the path;
    /// `None` where it cannot tell.
    pub ignored: Option<bool>,
    /// The Mercurial repository at the path, if any.
    pub hg: Option<HgRepo>,
    /// What listing the file statuses gives.
    pub status: StatusReport,
}

/// A [`Snapshot`] with texts and lists as mathematical sequences.
pub struct SnapshotView {
    pub git: Option<GitRepoView>,
    pub ignored: Option<bool>,
    pub hg: Option<HgRepo>,
    pub status: StatusReportView,
}

impl View for Snapshot {
    type V = SnapshotView;

    open spec fn view(&self) -> SnapshotView {
        SnapshotView {
            git: self.git.deep_view(),
            ignored: self.ignored,
            hg: self.hg,
            status: self.status@,
        }
    }
}

impl SnapshotView {
    /// The answer that the snapshot holds to a question.
    pub open spec fn answer(self, probe: Probe) -> FindingView {
        match probe {
            Probe::Git => FindingView::Git(self.git),
            Probe::Ignored => FindingView::Ignored(self.ignored),
            Probe::Hg => FindingView::Hg(self.hg),
        }
    }
}

impl Snapshot {
    /// Answers a question from the snapshot.
    pub fn answer(&self, probe: Probe) -> (finding: Finding<'_>)
        ensures
            finding@ == self@.answer(probe),
    {
        match probe {
            Probe::Git => Finding::Git(self.git.as_ref()),
            Probe::Ignored => Finding::Ignored(self.ignored),
            Probe::Hg => Finding::Hg(self.hg),
        }
    }
}

/// Whether a supported repository governs the path, said in one piece: Git
/// does if it has a repository there whose working directory is the path
/// itself or which does not say that it ignores the path; failing that,
/// Mercurial does if it has a repository there.
pub open spec fn detected(path: Seq<char>, snapshot: SnapshotView) -> bool {
    ||| snapshot.git matches Some(repo) && (repo.workdir == Some(path) || snapshot.ignored
        != Some(true))
    ||| snapshot.hg is Some
}

/// The outcome of a check of the path, said in one piece.
pub open spec fn checked(
    path: Seq<char>,
    opts: CheckOptions,
    snapshot: SnapshotView,
) -> Result<(), VCSErrorView> {
    if opts.allow_no_vcs {
        Ok(())
    } else if !detected(path, snapshot) {
        Err(VCSErrorView::NoVCS)
    } else if opts.allow_dirty && opts.allow_staged {
        Ok(())
    } else {
        outcome_of_report(snapshot.status, opts)
    }
}

/// How many questions detection may still put, at most.
pub open spec fn questions_left(step: Detection) -> nat {
    match step {
        Detection::Ask(Probe::Git) => 3,
        Detection::Ask(Probe::Ignored) => 2,
        Detection::Ask(Probe::Hg) => 1,
        Detection::Done(_) => 0,
    }
}

/// The verdict that detection reaches from a step when every question it
/// puts is answered from the snapshot.
pub open spec fn detection_from(path: Seq<char>, step: Detection, snapshot: SnapshotView) -> bool
    decreases questions_left(step),
{
    match step {
        Detection::Done(found) => found,
        Detection::Ask(probe) => detection_from(
            path,
            detection_after(path, snapshot.answer(probe)),
            snapshot,
        ),
    }
}

/// How many requests a check may still make, at most.
pub open spec fn requests_left(step: StepView) -> nat {
    match step {
        StepView::Detect => 2,
        StepView::ReadStatus => 1,
        StepView::Done(_) => 0,
    }
}

/// The outcome that a check reaches from a step when every request it makes
/// is answered from the snapshot.
pub open spec fn check_from(
    path: Seq<char>,
    opts: CheckOptions,
    step: StepView,
    snapshot: SnapshotView,
) -> Result<(), VCSErrorView>
    decreases requests_left(step),
{
    match step {
        StepView::Done(outcome) => outcome,
        StepView::Detect => check_from(
            path,
            opts,
            step_after(opts, SeenView::Detection(detected(path, snapshot))),
            snapshot,
        ),
        StepView::ReadStatus => check_from(
            path,
            opts,
            step_after(opts, SeenView::Status(snapshot.status)),
            snapshot,
        ),
    }
}

/// Detection, driven step by step and answered from the snapshot, reaches
/// the verdict that [`detected`] states.
pub proof fn lemma_detection_run(path: Seq<char>, snapshot: SnapshotView)
    ensures
        detection_from(path, detection_after(path, FindingView::Nothing), snapshot) == detected(
            path,
            snapshot,
        ),
{
    reveal_with_fuel(detection_from, 4);
}

/// A check, driven step by step and answered from the snapshot, reaches the
/// outcome that [`checked`] states.
pub proof fn lemma_check_run(path: Seq<char>, opts: CheckOptions, snapshot: SnapshotView)
    ensures
        check_from(path, opts, step_after(opts, SeenView::Nothing), snapshot) == checked(
            path,
            opts,
            snapshot,
        ),
{
    reveal_with_fuel(check_from, 3);
}

/// Tells whether a supported repository governs the path, by driving
/// detection against the snapshot.
pub fn existing_vcs_repo(path: &str, snapshot: &Snapshot) -> (found: bool)
    ensures
        found == detected(path@, snapshot@),
{
    let mut step = advance_detection(path, &Finding::Nothing);
    proof {
        lemma_detection_run(path@, snapshot@);
    }
    loop
        invariant
            detection_from(path@, step, snapshot@) == detected(path@, snapshot@),
        decreases questions_left(step),
    {
        match step {
            Detection::Done(found) => {
                return found;
            },
            Detection::Ask(probe) => {
                let finding = snapshot.answer(probe);
                step = advance_detection(path, &finding);
            },
        }
    }
}

/// Checks the version control at the path under the options, by driving the
/// check against the snapshot.
pub fn check_version_control(
    path: &str,
    opts: &CheckOptions,
    snapshot: &Snapshot,
) -> (result: VCSResult<()>)
    ensures
        outcome_of(result) == checked(path@, *opts, snapshot@),
{
    let mut step = advance_check(opts, &Seen::Nothing);
    proof {
        lemma_check_run(path@, *opts, snapshot@);
    }
    loop
        invariant
            check_from(path@, *opts, step@, snapshot@) == checked(path@, *opts, snapshot@),
        decreases requests_left(step@),
    {
        match step {
            Step::Done(result) => {
                return result;
            },
            Step::Detect => {
                let found = existing_vcs_repo(path, snapshot);
                step = advance_check(opts, &Seen::Detection(found));
            },
            Step::ReadStatus => {
                step = advance_check(opts, &Seen::Status(&snapshot.status));
            },
        }
    }
}

} // verus!
