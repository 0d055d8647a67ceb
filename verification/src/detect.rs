use vstd::prelude::*;

verus! {

/// A Git repository as discovery found it.
#[derive(Debug, Clone, PartialEq, Eq)]
pub struct GitRepo {
    /// The root of the repository's working directory, or `None` where the
    /// repository has none. It is compared with the path under detection
    /// character by character, so the two are to be written in one form.
    pub workdir: Option<String>,
}

/// A [`GitRepo`] with its path as a sequence of characters.
pub struct GitRepoView {
    pub workdir: Option<Seq<char>>,
}

impl View for GitRepo {
    type V = GitRepoView;

    open spec fn view(&self) -> GitRepoView {
        GitRepoView { workdir: self.workdir.deep_view() }
    }
}

impl DeepView for GitRepo {
    type V = GitRepoView;

    open spec fn deep_view(&self) -> GitRepoView {
        self@
    }
}

/// A Mercurial repository. Only its existence is known.
#[derive(Copy, Clone, Debug, PartialEq, Eq, Structural)]
pub struct HgRepo;

/// A question that detection puts to the outside world about the path.
#[derive(Copy, Clone, Debug, PartialEq, Eq, Structural)]
pub enum Probe {
    /// Is the path inside a Git repository? Discovery starts at the path and
    /// ascends through its parent directories.
    Git,
    /// Do the ignore rules of the repository just discovered exclude the
    /// path?
    Ignored,
    /// Does `hg --cwd <path> root`, run from the path as its working
    /// directory, exit with success? What it prints does not matter.
    Hg,
}

/// The answer to a [`Probe`].
#[derive(Debug, PartialEq, Eq)]
pub enum Finding<'a> {
    /// No question has been put yet.
    Nothing,
    /// Answers [`Probe::Git`]: the repository discovered, or `None` where
    /// discovery failed for whatever reason.
    Git(Option<&'a GitRepo>),
    /// Answers [`Probe::Ignored`]: whether the path is excluded, or `None`
    /// where the repository could not tell.
    Ignored(Option<bool>),
    /// Answers [`Probe::Hg`]: the repository, or `None` where the command
    /// failed or could not be run.
    Hg(Option<HgRepo>),
}

/// A [`Finding`] with its paths as sequences of characters.
pub enum FindingView {
    Nothing,
    Git(Option<GitRepoView>),
    Ignored(Option<bool>),
    Hg(Option<HgRepo>),
}

impl<'a> View for Finding<'a> {
    type V = FindingView;

    open spec fn view(&self) -> FindingView {
        match self {
            Finding::Nothing => FindingView::Nothing,
            Finding::Git(repo) => FindingView::Git(repo.deep_view()),
            Finding::Ignored(ignored) => FindingView::Ignored(*ignored),
            Finding::Hg(repo) => FindingView::Hg(*repo),
        }
    }
}

/// Where detection stands: it needs another answer, or it has its verdict.
#[derive(Copy, Clone, Debug, PartialEq, Eq, Structural)]
pub enum Detection {
    /// The driver is to put this question and come back with the answer.
    Ask(Probe),
    /// Detection is over: whether a supported repository governs the path.
    Done(bool),
}

/// How detection goes on after a finding.
///
/// Git is asked first. A repository whose working directory is the path
/// itself counts at once: a directory cannot be ignored with respect to
/// itself. Any other repository counts unless it says that it ignores the
/// path; a repository that cannot tell is taken not to. Mercurial is asked
/// only where Git gave no repository that counts, and has the last word.
pub open spec fn detection_after(path: Seq<char>, finding: FindingView) -> Detection {
    match finding {
        FindingView::Nothing => Detection::Ask(Probe::Git),
        FindingView::Git(Some(repo)) => if repo.workdir == Some(path) {
            Detection::Done(true)
        } else {
            Detection::Ask(Probe::Ignored)
        },
        FindingView::Git(None) => Detection::Ask(Probe::Hg),
        FindingView::Ignored(Some(true)) => Detection::Ask(Probe::Hg),
        FindingView::Ignored(_) => Detection::Done(true),
        FindingView::Hg(repo) => Detection::Done(repo is Some),
    }
}

/// Takes detection one step further: from the latest finding to the next
/// question, or to the verdict.
pub fn advance_detection(path: &str, finding: &Finding) -> (next: Detection)
    ensures
        next == detection_after(path@, finding@),
{
    match finding {
        Finding::Nothing => Detection::Ask(Probe::Git),
        Finding::Git(Some(repo)) => {
            let at_root = match &repo.workdir {
                Some(workdir) => *workdir == path.to_owned(),
                None => false,
            };
            if at_root {
                Detection::Done(true)
            } else {
                Detection::Ask(Probe::Ignored)
            }
        },
        Finding::Git(None) => Detection::Ask(Probe::Hg),
        Finding::Ignored(Some(true)) => Detection::Ask(Probe::Hg),
        Finding::Ignored(_) => Detection::Done(true),
        Finding::Hg(repo) => Detection::Done(repo.is_some()),
    }
}

} // verus!
