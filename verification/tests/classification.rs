use version_control_clean_check::{
    classify, judge_report, kind, verdict, CheckOptions, FileSets, Kind, StatusEntry,
    StatusReport, VCSError, CURRENT, INDEX_DELETED, INDEX_MODIFIED, INDEX_NEW, INDEX_RENAMED,
    INDEX_TYPECHANGE,
};

fn entry(path: &str, status: u32) -> StatusEntry {
    StatusEntry { path: Some(path.to_string()), status }
}

fn files(names: &[&str]) -> Vec<String> {
    names.iter().map(|name| name.to_string()).collect()
}

fn strict() -> CheckOptions {
    CheckOptions::new()
}

#[test]
fn status_words_are_those_of_git2() {
    assert_eq!(CURRENT, git2::Status::CURRENT.bits());
    assert_eq!(INDEX_NEW, git2::Status::INDEX_NEW.bits());
    assert_eq!(INDEX_MODIFIED, git2::Status::INDEX_MODIFIED.bits());
    assert_eq!(INDEX_DELETED, git2::Status::INDEX_DELETED.bits());
    assert_eq!(INDEX_RENAMED, git2::Status::INDEX_RENAMED.bits());
    assert_eq!(INDEX_TYPECHANGE, git2::Status::INDEX_TYPECHANGE.bits());
}

#[test]
fn status_words_have_their_values() {
    assert_eq!(CURRENT, 0);
    assert_eq!(INDEX_NEW, 1);
    assert_eq!(INDEX_MODIFIED, 2);
    assert_eq!(INDEX_DELETED, 4);
    assert_eq!(INDEX_RENAMED, 8);
    assert_eq!(INDEX_TYPECHANGE, 16);
}

#[test]
fn current_is_unchanged() {
    assert_eq!(kind(git2::Status::CURRENT.bits()), Kind::Unchanged);
    assert_eq!(kind(0), Kind::Unchanged);
}

#[test]
fn each_index_word_is_staged() {
    assert_eq!(kind(git2::Status::INDEX_NEW.bits()), Kind::Staged);
    assert_eq!(kind(git2::Status::INDEX_MODIFIED.bits()), Kind::Staged);
    assert_eq!(kind(git2::Status::INDEX_DELETED.bits()), Kind::Staged);
    assert_eq!(kind(git2::Status::INDEX_RENAMED.bits()), Kind::Staged);
    assert_eq!(kind(git2::Status::INDEX_TYPECHANGE.bits()), Kind::Staged);
    for word in [1, 2, 4, 8, 16] {
        assert_eq!(kind(word), Kind::Staged);
    }
}

#[test]
fn each_working_tree_word_is_dirty() {
    assert_eq!(kind(git2::Status::WT_NEW.bits()), Kind::Dirty);
    assert_eq!(kind(git2::Status::WT_MODIFIED.bits()), Kind::Dirty);
    assert_eq!(kind(git2::Status::WT_DELETED.bits()), Kind::Dirty);
    assert_eq!(kind(git2::Status::WT_TYPECHANGE.bits()), Kind::Dirty);
    assert_eq!(kind(git2::Status::WT_RENAMED.bits()), Kind::Dirty);
    assert_eq!(kind(git2::Status::WT_UNREADABLE.bits()), Kind::Dirty);
    assert_eq!(kind(git2::Status::CONFLICTED.bits()), Kind::Dirty);
    assert_eq!(kind(git2::Status::IGNORED.bits()), Kind::Dirty);
}

#[test]
fn combined_words_are_dirty() {
    let staged_then_edited = git2::Status::INDEX_NEW | git2::Status::WT_MODIFIED;
    assert_eq!(kind(staged_then_edited.bits()), Kind::Dirty);
    let two_index_flags = git2::Status::INDEX_MODIFIED | git2::Status::INDEX_RENAMED;
    assert_eq!(kind(two_index_flags.bits()), Kind::Dirty);
    assert_eq!(kind(3), Kind::Dirty);
    assert_eq!(kind(32), Kind::Dirty);
    assert_eq!(kind(u32::MAX), Kind::Dirty);
}

#[test]
fn every_small_word_is_in_one_bucket() {
    for word in 0..=0x1_0000u32 {
        let expected = match word {
            0 => Kind::Unchanged,
            1 | 2 | 4 | 8 | 16 => Kind::Staged,
            _ => Kind::Dirty,
        };
        assert_eq!(kind(word), expected);
    }
}

#[test]
fn classify_empty_listing() {
    let sets = classify(&vec![], &strict());
    assert_eq!(sets, FileSets { dirty_files: vec![], staged_files: vec![] });
}

#[test]
fn classify_sorts_into_both_lists() {
    let entries = vec![
        entry("staged.rs", INDEX_MODIFIED),
        entry("same.rs", CURRENT),
        entry("new.rs", git2::Status::WT_NEW.bits()),
        entry("gone.rs", INDEX_DELETED),
        entry("both.rs", INDEX_NEW | git2::Status::WT_MODIFIED.bits()),
    ];
    let sets = classify(&entries, &strict());
    assert_eq!(sets.dirty_files, files(&["new.rs", "both.rs"]));
    assert_eq!(sets.staged_files, files(&["staged.rs", "gone.rs"]));
}

#[test]
fn classify_leaves_out_what_is_allowed() {
    let entries = vec![entry("b", INDEX_NEW), entry("c", git2::Status::WT_NEW.bits())];

    let opts = CheckOptions { allow_dirty: true, allow_no_vcs: false, allow_staged: false };
    let sets = classify(&entries, &opts);
    assert_eq!(sets, FileSets { dirty_files: vec![], staged_files: files(&["b"]) });

    let opts = CheckOptions { allow_dirty: false, allow_no_vcs: false, allow_staged: true };
    let sets = classify(&entries, &opts);
    assert_eq!(sets, FileSets { dirty_files: files(&["c"]), staged_files: vec![] });

    let opts = CheckOptions { allow_dirty: true, allow_no_vcs: false, allow_staged: true };
    let sets = classify(&entries, &opts);
    assert_eq!(sets, FileSets { dirty_files: vec![], staged_files: vec![] });
}

#[test]
fn classify_pays_no_heed_to_allow_no_vcs() {
    let entries = vec![entry("b", INDEX_NEW), entry("c", git2::Status::WT_NEW.bits())];
    let opts = CheckOptions { allow_dirty: false, allow_no_vcs: true, allow_staged: false };
    let sets = classify(&entries, &opts);
    assert_eq!(sets, FileSets { dirty_files: files(&["c"]), staged_files: files(&["b"]) });
}

#[test]
fn classify_keeps_a_path_that_comes_twice() {
    let entries = vec![
        entry("a", INDEX_NEW),
        entry("a", git2::Status::WT_MODIFIED.bits()),
        entry("a", INDEX_NEW),
    ];
    let sets = classify(&entries, &strict());
    assert_eq!(sets.dirty_files, files(&["a"]));
    assert_eq!(sets.staged_files, files(&["a", "a"]));
}

#[test]
fn classify_passes_over_entries_without_a_path() {
    let entries = vec![
        StatusEntry { path: None, status: INDEX_NEW },
        entry("kept", INDEX_NEW),
        StatusEntry { path: None, status: git2::Status::WT_NEW.bits() },
    ];
    let sets = classify(&entries, &strict());
    assert_eq!(sets, FileSets { dirty_files: vec![], staged_files: files(&["kept"]) });
}

#[test]
fn classify_lists_no_more_than_the_listing_holds() {
    let entries: Vec<StatusEntry> =
        (0..200u32).map(|word| entry(&format!("file{word}"), word)).collect();
    let sets = classify(&entries, &strict());
    assert_eq!(sets.staged_files, files(&["file1", "file2", "file4", "file8", "file16"]));
    assert_eq!(sets.dirty_files.len(), 194);
    assert!(!sets.dirty_files.contains(&"file0".to_string()));
    for path in &sets.staged_files {
        assert!(!sets.dirty_files.contains(path));
    }
}

#[test]
fn verdict_of_empty_lists_is_success() {
    assert_eq!(verdict(FileSets { dirty_files: vec![], staged_files: vec![] }), Ok(()));
}

#[test]
fn verdict_carries_both_lists() {
    assert_eq!(
        verdict(FileSets { dirty_files: files(&["d"]), staged_files: vec![] }),
        Err(VCSError::NotAllowedFilesFound { dirty_files: files(&["d"]), staged_files: vec![] })
    );
    assert_eq!(
        verdict(FileSets { dirty_files: vec![], staged_files: files(&["s"]) }),
        Err(VCSError::NotAllowedFilesFound { dirty_files: vec![], staged_files: files(&["s"]) })
    );
    assert_eq!(
        verdict(FileSets { dirty_files: files(&["d", "e"]), staged_files: files(&["s"]) }),
        Err(VCSError::NotAllowedFilesFound {
            dirty_files: files(&["d", "e"]),
            staged_files: files(&["s"]),
        })
    );
}

#[test]
fn judge_report_without_repository_is_success() {
    assert_eq!(judge_report(&StatusReport::NoRepository, &strict()), Ok(()));
}

#[test]
fn judge_report_of_a_failed_listing_is_the_tools_error() {
    let report = StatusReport::Failed("could not read the index".to_string());
    assert_eq!(
        judge_report(&report, &strict()),
        Err(VCSError::GitError("could not read the index".to_string()))
    );
}

#[test]
fn judge_report_of_a_listing() {
    let report = StatusReport::Entries(vec![
        entry("b", INDEX_NEW),
        entry("c", git2::Status::WT_NEW.bits()),
    ]);
    assert_eq!(
        judge_report(&report, &strict()),
        Err(VCSError::NotAllowedFilesFound {
            dirty_files: files(&["c"]),
            staged_files: files(&["b"]),
        })
    );
    let lenient = CheckOptions { allow_dirty: true, allow_no_vcs: false, allow_staged: true };
    assert_eq!(judge_report(&report, &lenient), Ok(()));
}

#[test]
fn new_options_allow_nothing() {
    let opts = CheckOptions::new();
    assert!(!opts.allow_dirty);
    assert!(!opts.allow_no_vcs);
    assert!(!opts.allow_staged);
    assert_eq!(opts, CheckOptions::default());
}
