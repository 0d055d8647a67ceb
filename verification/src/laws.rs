use crate::check::{step_after, verdict_of, SeenView, StatusReportView, StepView};
use crate::detect::{detection_after, Detection, FindingView, Probe};
use crate::error::{outcome_of, VCSErrorView, VCSResult};
use crate::options::CheckOptions;
use crate::snapshot::{checked, detected, questions_left, requests_left, Snapshot, SnapshotView};
use crate::status::{
    is_clean, listed, lists_nothing, path_in, reported, FileSetsView, Kind, StatusEntryView,
};
use vstd::prelude::*;

verus! {

/// Where going without version control is allowed, a check succeeds whatever
/// the path and whatever the repository holds, and it does so at once: at no
/// step does it ask its driver to look at anything.
pub proof fn law_allow_no_vcs_succeeds(
    path: Seq<char>,
    opts: CheckOptions,
    snapshot: SnapshotView,
    seen: SeenView,
)
    requires
        opts.allow_no_vcs,
    ensures
        checked(path, opts, snapshot) == Ok::<(), VCSErrorView>(()),
        step_after(opts, seen) == StepView::Done(Ok(())),
{
}

/// Where neither Git nor Mercurial has a repository at the path, none is
/// detected.
pub proof fn law_no_repository_none_detected(path: Seq<char>, snapshot: SnapshotView)
    requires
        snapshot.git is None,
        snapshot.hg is None,
    ensures
        !detected(path, snapshot),
{
}

/// Detection precedes policy: where a repository is required and none is
/// detected, the check fails for want of version control, whatever is
/// allowed of dirty and staged files and whatever the status report holds.
pub proof fn law_detection_precedes_policy(
    path: Seq<char>,
    opts: CheckOptions,
    snapshot: SnapshotView,
)
    requires
        !opts.allow_no_vcs,
        !detected(path, snapshot),
    ensures
        checked(path, opts, snapshot) == Err::<(), VCSErrorView>(VCSErrorView::NoVCS),
        step_after(opts, SeenView::Detection(false)) == StepView::Done(Err(VCSErrorView::NoVCS)),
{
}

/// A clean listing lists no file, whatever the options.
pub proof fn law_clean_listing_lists_nothing(entries: Seq<StatusEntryView>, opts: CheckOptions)
    requires
        is_clean(entries),
    ensures
        reported(entries, opts).dirty_files.len() == 0,
        reported(entries, opts).staged_files.len() == 0,
    decreases entries.len(),
{
    if entries.len() > 0 {
        let front = entries.drop_last();
        assert forall|i: int| 0 <= i < front.len() implies lists_nothing(#[trigger] front[i]) by {
            assert(front[i] == entries[i]);
        }
        law_clean_listing_lists_nothing(front, opts);
        assert(lists_nothing(entries[entries.len() - 1]));
    }
}

/// A check of a clean repository succeeds: where a repository is detected
/// and its listing holds no staged and no dirty file, the outcome is success
/// under any options.
pub proof fn law_clean_repository_succeeds(
    path: Seq<char>,
    opts: CheckOptions,
    snapshot: SnapshotView,
)
    requires
        detected(path, snapshot),
        snapshot.status matches StatusReportView::Entries(entries) && is_clean(entries),
    ensures
        checked(path, opts, snapshot) == Ok::<(), VCSErrorView>(()),
{
    law_clean_listing_lists_nothing(snapshot.status->Entries_0, opts);
}

/// Where both dirty and staged files are allowed, the files are never
/// listed: no step of the check asks for the statuses, and once a repository
/// is detected the check succeeds whatever reading the statuses would have
/// given, a failure included.
pub proof fn law_allow_both_never_lists(
    path: Seq<char>,
    opts: CheckOptions,
    snapshot: SnapshotView,
    seen: SeenView,
)
    requires
        opts.allow_dirty,
        opts.allow_staged,
    ensures
        step_after(opts, seen) != StepView::ReadStatus,
        step_after(opts, SeenView::Detection(true)) == StepView::Done(Ok(())),
        detected(path, snapshot) ==> checked(path, opts, snapshot) == Ok::<(), VCSErrorView>(()),
{
}

/// A check repeated on an unchanged world gives the same outcome: two
/// results that a check may return for one path, the same options and
/// snapshots that say the same carry the same lists in the same order.
pub proof fn law_repeated_check_agrees(
    path: &str,
    opts: CheckOptions,
    first_snapshot: Snapshot,
    second_snapshot: Snapshot,
    first: VCSResult<()>,
    second: VCSResult<()>,
)
    requires
        first_snapshot@ == second_snapshot@,
        outcome_of(first) == checked(path@, opts, first_snapshot@),
        outcome_of(second) == checked(path@, opts, second_snapshot@),
    ensures
        outcome_of(first) == outcome_of(second),
{
}

/// A failure over files names at least one file: lists that are both empty
/// amount to success, and any others to the failure that carries the two
/// lists as they are.
pub proof fn law_failure_names_a_file(sets: FileSetsView)
    ensures
        verdict_of(sets) is Ok <==> sets.dirty_files.len() == 0 && sets.staged_files.len() == 0,
        verdict_of(sets) is Err ==> verdict_of(sets)->Err_0 == (VCSErrorView::NotAllowedFilesFound {
            dirty_files: sets.dirty_files,
            staged_files: sets.staged_files,
        }) && sets.dirty_files.len() + sets.staged_files.len() > 0,
{
}

/// No check fails over files without naming one: where the outcome reports
/// files that were not allowed, at least one of its two lists is not empty,
/// and a list of a kind that was allowed is.
pub proof fn law_check_failure_names_a_file(
    path: Seq<char>,
    opts: CheckOptions,
    snapshot: SnapshotView,
)
    ensures
        checked(path, opts, snapshot) matches Err(failure) ==> (failure is NotAllowedFilesFound
            ==> failure->dirty_files.len() + failure->staged_files.len() > 0),
        checked(path, opts, snapshot) matches Err(failure) ==> (failure is NotAllowedFilesFound
            && opts.allow_dirty ==> failure->dirty_files.len() == 0),
        checked(path, opts, snapshot) matches Err(failure) ==> (failure is NotAllowedFilesFound
            && opts.allow_staged ==> failure->staged_files.len() == 0),
{
}

/// An entry goes into one bucket only: the same entry never contributes to
/// both lists, so the two lists together are no longer than the listing.
pub proof fn law_buckets_exclusive(entries: Seq<StatusEntryView>)
    ensures
        forall|entry: StatusEntryView|
            !(#[trigger] path_in(entry, Kind::Dirty) is Some && path_in(entry, Kind::Staged)
                is Some),
        listed(entries, Kind::Dirty).len() + listed(entries, Kind::Staged).len() <= entries.len(),
    decreases entries.len(),
{
    if entries.len() > 0 {
        law_buckets_exclusive(entries.drop_last());
    }
}

/// What a list holds: a path is listed for a bucket exactly if some entry
/// of the listing has that path and a status word of that bucket.
pub proof fn law_listed_membership(entries: Seq<StatusEntryView>, kind: Kind, path: Seq<char>)
    ensures
        listed(entries, kind).contains(path) <==> exists|i: int|
            0 <= i < entries.len() && #[trigger] path_in(entries[i], kind) == Some(path),
    decreases entries.len(),
{
    if entries.len() > 0 {
        let front = entries.drop_last();
        let so_far = listed(front, kind);
        law_listed_membership(front, kind, path);
        if listed(entries, kind).contains(path) && path_in(entries.last(), kind) != Some(path) {
            let n = choose|n: int|
                0 <= n < listed(entries, kind).len() && listed(entries, kind)[n] == path;
            assert(so_far[n] == path);
            let i = choose|i: int|
                0 <= i < front.len() && #[trigger] path_in(front[i], kind) == Some(path);
            assert(path_in(entries[i], kind) == Some(path));
        }
        if exists|i: int|
            0 <= i < entries.len() && #[trigger] path_in(entries[i], kind) == Some(path) {
            let i = choose|i: int|
                0 <= i < entries.len() && #[trigger] path_in(entries[i], kind) == Some(path);
            if i < front.len() {
                assert(path_in(front[i], kind) == Some(path));
                let n = choose|n: int| 0 <= n < so_far.len() && so_far[n] == path;
                assert(listed(entries, kind)[n] == path);
            } else {
                assert(listed(entries, kind)[so_far.len() as int] == path);
            }
        }
    }
}

/// Questions and requests come in order. Detection asks about ignore rules
/// only of a repository that Git has just discovered, and turns to Mercurial
/// only where Git found nothing or the repository ignores the path. A check
/// asks for the statuses only once a repository has been detected.
pub proof fn law_questions_in_order(
    path: Seq<char>,
    finding: FindingView,
    opts: CheckOptions,
    seen: SeenView,
)
    ensures
        detection_after(path, finding) == Detection::Ask(Probe::Git) <==> finding is Nothing,
        detection_after(path, finding) == Detection::Ask(Probe::Ignored) ==> (finding
            matches FindingView::Git(Some(repo)) && repo.workdir != Some(path)),
        detection_after(path, finding) == Detection::Ask(Probe::Hg) <==> finding
            == FindingView::Git(None) || finding == FindingView::Ignored(Some(true)),
        step_after(opts, seen) == StepView::Detect ==> seen is Nothing,
        step_after(opts, seen) == StepView::ReadStatus ==> seen == SeenView::Detection(true),
{
}

/// Detection ends: whatever the answer to a question, what follows has
/// fewer questions left, so no more than three are ever put.
pub proof fn law_detection_ends(path: Seq<char>, probe: Probe, snapshot: SnapshotView)
    ensures
        questions_left(detection_after(path, snapshot.answer(probe))) < questions_left(
            Detection::Ask(probe),
        ) <= 3,
{
}

/// A check ends: whatever comes back from detection or from reading the
/// statuses, what follows has fewer requests left, so no more than two are
/// ever made.
pub proof fn law_check_ends(opts: CheckOptions, found: bool, report: StatusReportView)
    ensures
        requests_left(step_after(opts, SeenView::Nothing)) <= 2,
        requests_left(step_after(opts, SeenView::Detection(found))) < 2,
        requests_left(step_after(opts, SeenView::Status(report))) < 1,
{
}

} // verus!
