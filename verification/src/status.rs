use crate::options::CheckOptions;
use vstd::prelude::*;

verus! {

/// Status word of a file without changes.
pub const CURRENT: u32 = 0;

/// Status word of a file that is new in the index.
pub const INDEX_NEW: u32 = 1;

/// Status word of a file that is modified in the index.
pub const INDEX_MODIFIED: u32 = 2;

/// Status word of a file that is deleted in the index.
pub const INDEX_DELETED: u32 = 4;

/// Status word of a file that is renamed in the index.
pub const INDEX_RENAMED: u32 = 8;

/// Status word of a file whose type has changed in the index.
pub const INDEX_TYPECHANGE: u32 = 16;

/// The bucket that a status word puts its file in. Every word falls in
/// exactly one.
#[derive(Copy, Clone, PartialEq, Eq, Debug, Structural)]
pub enum Kind {
    /// Nothing has changed: the file is reported nowhere.
    Unchanged,
    /// The change sits in the index.
    Staged,
    /// Anything else: a change in the working tree, an untracked file, a
    /// conflict, or several changes at once.
    Dirty,
}

/// The bucket of a status word. A word counts as staged only if it is
/// exactly one of the five index words; a word that combines flags is dirty.
pub open spec fn kind_of(status: u32) -> Kind {
    if status == CURRENT {
        Kind::Unchanged
    } else if status == INDEX_NEW || status == INDEX_MODIFIED || status == INDEX_DELETED
        || status == INDEX_RENAMED || status == INDEX_TYPECHANGE {
        Kind::Staged
    } else {
        Kind::Dirty
    }
}

/// `git2::Status::CURRENT` as the word that `git2::Status::bits` gives.
/// Taken on trust: that word is [`CURRENT`], the value libgit2 assigns to
/// `GIT_STATUS_CURRENT`.
#[verifier::external_body]
fn current_word() -> (word: u32)
    ensures
        word == CURRENT,
{
    git2::Status::CURRENT.bits()
}

/// `git2::Status::INDEX_NEW` as the word that `git2::Status::bits` gives.
/// Taken on trust: that word is [`INDEX_NEW`], the value libgit2 assigns to
/// `GIT_STATUS_INDEX_NEW`.
#[verifier::external_body]
fn index_new_word() -> (word: u32)
    ensures
        word == INDEX_NEW,
{
    git2::Status::INDEX_NEW.bits()
}

/// `git2::Status::INDEX_MODIFIED` as the word that `git2::Status::bits`
/// gives. Taken on trust: that word is [`INDEX_MODIFIED`], the value libgit2
/// assigns to `GIT_STATUS_INDEX_MODIFIED`.
#[verifier::external_body]
fn index_modified_word() -> (word: u32)
    ensures
        word == INDEX_MODIFIED,
{
    git2::Status::INDEX_MODIFIED.bits()
}

/// `git2::Status::INDEX_DELETED` as the word that `git2::Status::bits`
/// gives. Taken on trust: that word is [`INDEX_DELETED`], the value libgit2
/// assigns to `GIT_STATUS_INDEX_DELETED`.
#[verifier::external_body]
fn index_deleted_word() -> (word: u32)
    ensures
        word == INDEX_DELETED,
{
    git2::Status::INDEX_DELETED.bits()
}

/// `git2::Status::INDEX_RENAMED` as the word that `git2::Status::bits`
/// gives. Taken on trust: that word is [`INDEX_RENAMED`], the value libgit2
/// assigns to `GIT_STATUS_INDEX_RENAMED`.
#[verifier::external_body]
fn index_renamed_word() -> (word: u32)
    ensures
        word == INDEX_RENAMED,
{
    git2::Status::INDEX_RENAMED.bits()
}

/// `git2::Status::INDEX_TYPECHANGE` as the word that `git2::Status::bits`
/// gives. Taken on trust: that word is [`INDEX_TYPECHANGE`], the value
/// libgit2 assigns to `GIT_STATUS_INDEX_TYPECHANGE`.
#[verifier::external_body]
fn index_typechange_word() -> (word: u32)
    ensures
        word == INDEX_TYPECHANGE,
{
    git2::Status::INDEX_TYPECHANGE.bits()
}

/// Puts a status word in its bucket.
pub fn kind(status: u32) -> (kind: Kind)
    ensures
        kind == kind_of(status),
{
    if status == current_word() {
        Kind::Unchanged
    } else if status == index_new_word() || status == index_modified_word() || status
        == index_deleted_word() || status == index_renamed_word() || status
        == index_typechange_word() {
        Kind::Staged
    } else {
        Kind::Dirty
    }
}

/// One line of a repository's status listing.
#[derive(Debug, Clone, PartialEq, Eq)]
pub struct StatusEntry {
    /// The file's path as the repository reports it, or `None` where the
    /// path is not valid text.
    pub path: Option<String>,
    /// The file's status word: the flags by which libgit2 tells the status
    /// of one file, as `git2::Status::bits` gives them.
    pub status: u32,
}

/// A [`StatusEntry`] with its path as a sequence of characters.
pub struct StatusEntryView {
    pub path: Option<Seq<char>>,
    pub status: u32,
}

impl View for StatusEntry {
    type V = StatusEntryView;

    open spec fn view(&self) -> StatusEntryView {
        StatusEntryView { path: self.path.deep_view(), status: self.status }
    }
}

impl DeepView for StatusEntry {
    type V = StatusEntryView;

    open spec fn deep_view(&self) -> StatusEntryView {
        self@
    }
}

/// The files found in a listing that were not allowed.
#[derive(Debug, Clone, PartialEq, Eq)]
pub struct FileSets {
    pub dirty_files: Vec<String>,
    pub staged_files: Vec<String>,
}

/// A [`FileSets`] with its paths as sequences of characters.
pub struct FileSetsView {
    pub dirty_files: Seq<Seq<char>>,
    pub staged_files: Seq<Seq<char>>,
}

impl View for FileSets {
    type V = FileSetsView;

    open spec fn view(&self) -> FileSetsView {
        FileSetsView {
            dirty_files: self.dirty_files.deep_view(),
            staged_files: self.staged_files.deep_view(),
        }
    }
}

/// The path that an entry contributes to the list of a bucket: its own,
/// if it has one and its status word falls in that bucket.
pub open spec fn path_in(entry: StatusEntryView, kind: Kind) -> Option<Seq<char>> {
    if kind_of(entry.status) == kind {
        entry.path
    } else {
        None
    }
}

/// Whether an entry is listed nowhere: it has no path, or its file has not
/// changed.
pub open spec fn lists_nothing(entry: StatusEntryView) -> bool {
    entry.path is None || kind_of(entry.status) == Kind::Unchanged
}

/// Whether a listing is clean: it holds no staged and no dirty file.
pub open spec fn is_clean(entries: Seq<StatusEntryView>) -> bool {
    forall|i: int| 0 <= i < entries.len() ==> lists_nothing(#[trigger] entries[i])
}

/// The paths of the entries that fall in a bucket, in the order of the
/// listing.
pub open spec fn listed(entries: Seq<StatusEntryView>, kind: Kind) -> Seq<Seq<char>> {
    entries.filter_map(|entry: StatusEntryView| path_in(entry, kind))
}

/// The lists that a listing gives under the options: a kind of file that is
/// allowed is not listed at all.
pub open spec fn reported(entries: Seq<StatusEntryView>, opts: CheckOptions) -> FileSetsView {
    FileSetsView {
        dirty_files: if opts.allow_dirty {
            Seq::empty()
        } else {
            listed(entries, Kind::Dirty)
        },
        staged_files: if opts.allow_staged {
            Seq::empty()
        } else {
            listed(entries, Kind::Staged)
        },
    }
}

/// Listing one entry more appends that entry's path, if it contributes
/// one, and changes nothing else.
proof fn lemma_listed_next(entries: Seq<StatusEntryView>, kind: Kind, i: int)
    requires
        0 <= i < entries.len(),
    ensures
        listed(entries.take(i + 1), kind) == match path_in(entries[i], kind) {
            Some(path) => listed(entries.take(i), kind).push(path),
            None => listed(entries.take(i), kind),
        },
{
    entries.lemma_filter_map_take_succ(|entry: StatusEntryView| path_in(entry, kind), i);
}

/// Sorts the entries of a status listing into dirty and staged files,
/// keeping the listing's order and leaving out what the options allow.
pub fn classify(entries: &Vec<StatusEntry>, opts: &CheckOptions) -> (sets: FileSets)
    ensures
        sets@ == reported(entries.deep_view(), *opts),
{
    let mut dirty_files: Vec<String> = Vec::new();
    let mut staged_files: Vec<String> = Vec::new();
    let ghost all = entries.deep_view();
    let mut i: usize = 0;
    while i < entries.len()
        invariant
            i <= entries.len(),
            all == entries.deep_view(),
            dirty_files.deep_view() == reported(all.take(i as int), *opts).dirty_files,
            staged_files.deep_view() == reported(all.take(i as int), *opts).staged_files,
        decreases entries.len() - i,
    {
        let entry = &entries[i];
        proof {
            lemma_listed_next(all, Kind::Dirty, i as int);
            lemma_listed_next(all, Kind::Staged, i as int);
        }
        match &entry.path {
            Some(path) => {
                match kind(entry.status) {
                    Kind::Unchanged => {},
                    Kind::Staged => {
                        if !opts.allow_staged {
                            staged_files.push(path.clone());
                        }
                    },
                    Kind::Dirty => {
                        if !opts.allow_dirty {
                            dirty_files.push(path.clone());
                        }
                    },
                }
            },
            None => {},
        }
        i += 1;
    }
    assert(all.take(entries.len() as int) =~= all);
    FileSets { dirty_files, staged_files }
}

} // verus!
