use vstd::prelude::*;

verus! {

/// Why a working directory was not found safe.
#[derive(Debug, Clone, PartialEq, Eq)]
pub enum VCSError {
    /// No supported repository governs the path, and going without one was
    /// not allowed.
    NoVCS,
    /// A repository was found, but it holds files of a kind that was not
    /// allowed. At least one of the two lists is non-empty.
    NotAllowedFilesFound { dirty_files: Vec<String>, staged_files: Vec<String> },
    /// Listing the file statuses of an opened repository failed. Holds the
    /// version-control tool's own message.
    GitError(String),
}

/// Result of a check.
pub type VCSResult<T> = Result<T, VCSError>;

/// What a [`VCSError`] says, with texts and lists as mathematical sequences.
pub enum VCSErrorView {
    NoVCS,
    NotAllowedFilesFound { dirty_files: Seq<Seq<char>>, staged_files: Seq<Seq<char>> },
    GitError(Seq<char>),
}

impl View for VCSError {
    type V = VCSErrorView;

    open spec fn view(&self) -> VCSErrorView {
        match self {
            VCSError::NoVCS => VCSErrorView::NoVCS,
            VCSError::NotAllowedFilesFound { dirty_files, staged_files } => {
                VCSErrorView::NotAllowedFilesFound {
                    dirty_files: dirty_files.deep_view(),
                    staged_files: staged_files.deep_view(),
                }
            },
            VCSError::GitError(message) => VCSErrorView::GitError(message@),
        }
    }
}

/// What the result of a check says: success, or the failure's view.
pub open spec fn outcome_of(result: VCSResult<()>) -> Result<(), VCSErrorView> {
    match result {
        Ok(_) => Ok(()),
        Err(error) => Err(error@),
    }
}

} // verus!
