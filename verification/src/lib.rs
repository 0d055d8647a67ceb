//! Decides whether a working directory is safe to run destructive operations
//! against: is it under version control, and if so, does it hold staged or
//! dirty files that the caller did not permit?
//!
//! The library performs no input or output. It is driven: each decision
//! function takes what has been observed so far and answers with the next
//! observation it needs or with the final outcome.

mod check;
mod detect;
mod error;
mod laws;
mod options;
mod snapshot;
mod status;

pub use check::{
    advance_check, judge_report, outcome_of_report, step_after, verdict, verdict_of, Seen, SeenView,
    StatusReport, StatusReportView, Step, StepView,
};
pub use detect::{
    advance_detection, detection_after, Detection, Finding, FindingView, GitRepo, GitRepoView,
    HgRepo, Probe,
};
pub use error::{outcome_of, VCSError, VCSErrorView, VCSResult};
pub use laws::{
    law_allow_both_never_lists, law_allow_no_vcs_succeeds, law_buckets_exclusive,
    law_check_ends, law_check_failure_names_a_file,
    law_clean_listing_lists_nothing, law_clean_repository_succeeds, law_detection_ends,
    law_detection_precedes_policy, law_failure_names_a_file, law_listed_membership,
    law_no_repository_none_detected, law_questions_in_order, law_repeated_check_agrees,
};
pub use options::CheckOptions;
pub use snapshot::{
    check_from, check_version_control, checked, detected, detection_from, existing_vcs_repo,
    lemma_check_run, lemma_detection_run, questions_left, requests_left, Snapshot, SnapshotView,
};
pub use status::{
    classify, is_clean, kind, kind_of, listed, lists_nothing, path_in, reported, FileSets,
    FileSetsView, Kind, StatusEntry, StatusEntryView, CURRENT, INDEX_DELETED, INDEX_MODIFIED,
    INDEX_NEW, INDEX_RENAMED, INDEX_TYPECHANGE,
};
