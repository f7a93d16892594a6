//! The failures that operations report, and the text shown for each.

use vstd::prelude::*;
use vstd::string::*;
use crate::model::texts_view;
use crate::text::join2;

verus! {

/// Why an operation did not succeed.
#[derive(Debug, Clone, PartialEq, Eq)]
pub enum GitError {
    /// The repository, its index or its working tree could not be read.
    RepositoryUnavailable { detail: String },
    /// A branch, reference or commit does not exist or is malformed.
    RefNotFound { detail: String },
    /// A commit was asked for while nothing is staged.
    NothingStaged,
    /// A stash was asked for while nothing has changed.
    NothingToStash,
    /// A pull was asked for while the working tree has changes.
    UncommittedChanges,
    /// The remote turned down the credential that was offered.
    AuthenticationExhausted { detail: String, url: String, refspec: String },
    /// A transfer from or to the remote failed.
    NetworkFailure { detail: String, url: String, refspec: String },
    /// A merge left paths in conflict.
    MergeConflict { detail: String },
    /// Applying a stash ran into conflicting paths.
    StashConflict { detail: String },
    /// No stash, or more than one, answers to the given id or prefix.
    StashNotFound { requested: String, available: Vec<String> },
}

pub enum GitErrorView {
    RepositoryUnavailable { detail: Seq<char> },
    RefNotFound { detail: Seq<char> },
    NothingStaged,
    NothingToStash,
    UncommittedChanges,
    AuthenticationExhausted { detail: Seq<char>, url: Seq<char>, refspec: Seq<char> },
    NetworkFailure { detail: Seq<char>, url: Seq<char>, refspec: Seq<char> },
    MergeConflict { detail: Seq<char> },
    StashConflict { detail: Seq<char> },
    StashNotFound { requested: Seq<char>, available: Seq<Seq<char>> },
}

impl View for GitError {
    type V = GitErrorView;

    open spec fn view(&self) -> GitErrorView {
        match *self {
            GitError::RepositoryUnavailable { detail } => GitErrorView::RepositoryUnavailable {
                detail: detail@,
            },
            GitError::RefNotFound { detail } => GitErrorView::RefNotFound { detail: detail@ },
            GitError::NothingStaged => GitErrorView::NothingStaged,
            GitError::NothingToStash => GitErrorView::NothingToStash,
            GitError::UncommittedChanges => GitErrorView::UncommittedChanges,
            GitError::AuthenticationExhausted { detail, url, refspec } => {
                GitErrorView::AuthenticationExhausted {
                    detail: detail@,
                    url: url@,
                    refspec: refspec@,
                }
            },
            GitError::NetworkFailure { detail, url, refspec } => GitErrorView::NetworkFailure {
                detail: detail@,
                url: url@,
                refspec: refspec@,
            },
            GitError::MergeConflict { detail } => GitErrorView::MergeConflict { detail: detail@ },
            GitError::StashConflict { detail } => GitErrorView::StashConflict { detail: detail@ },
            GitError::StashNotFound { requested, available } => GitErrorView::StashNotFound {
                requested: requested@,
                available: texts_view(available@),
            },
        }
    }
}

/// `items` separated by a comma and a space.
pub open spec fn comma_joined(items: Seq<Seq<char>>) -> Seq<char>
    decreases items.len(),
{
    if items.len() == 0 {
        Seq::empty()
    } else if items.len() == 1 {
        items[0]
    } else {
        comma_joined(items.drop_last()) + ", "@ + items.last()
    }
}

/// Where a transfer was aimed at, as appended to its failure text.
pub open spec fn transfer_context(url: Seq<char>, refspec: Seq<char>) -> Seq<char> {
    " | url="@ + url + " refspec="@ + refspec
}

/// The text shown for a failure.
pub open spec fn error_text(e: GitErrorView) -> Seq<char> {
    match e {
        GitErrorView::RepositoryUnavailable { detail } => detail,
        GitErrorView::RefNotFound { detail } => detail,
        GitErrorView::NothingStaged => "No files staged for commit"@,
        GitErrorView::NothingToStash => "No changes to stash"@,
        GitErrorView::UncommittedChanges => "Cannot pull: You have uncommitted changes. Please commit or stash them first."@,
        GitErrorView::AuthenticationExhausted { detail, url, refspec } => detail
            + transfer_context(url, refspec) + ". Check your credentials."@,
        GitErrorView::NetworkFailure { detail, url, refspec } => detail + transfer_context(
            url,
            refspec,
        ),
        GitErrorView::MergeConflict { detail } => detail + ". Resolve the conflicts by hand."@,
        GitErrorView::StashConflict { detail } => detail,
        GitErrorView::StashNotFound { requested, available } => "Stash not found: "@ + requested
            + ". Available stashes: ["@ + comma_joined(available) + "]"@,
    }
}

/// The failure of a transfer to or from `url`: an exhausted authentication
/// where the remote was offered no credential that it accepts, a network
/// failure otherwise.
pub open spec fn transfer_failure(
    prefix: Seq<char>,
    reason: Seq<char>,
    url: Seq<char>,
    refspec: Seq<char>,
    refused: bool,
) -> GitErrorView {
    if refused {
        GitErrorView::AuthenticationExhausted { detail: prefix + reason, url, refspec }
    } else {
        GitErrorView::NetworkFailure { detail: prefix + reason, url, refspec }
    }
}

fn join_with_commas(items: &Vec<String>) -> (r: String)
    ensures
        r@ == comma_joined(texts_view(items@)),
{
    let mut r = String::new();
    let mut i: usize = 0;
    while i < items.len()
        invariant
            i <= items.len(),
            r@ == comma_joined(texts_view(items@).take(i as int)),
        decreases items.len() - i,
    {
        proof {
            let all = texts_view(items@);
            assert(all.take(i + 1).drop_last() =~= all.take(i as int));
            assert(all.take(i + 1).last() == items@[i as int]@);
        }
        if i > 0 {
            r.append(", ");
        }
        r.append(items[i].as_str());
        proof {
            if i == 0 {
                assert(r@ =~= items@[0]@);
            }
        }
        i += 1;
    }
    proof {
        let all = texts_view(items@);
        assert(all.take(items@.len() as int) =~= all);
    }
    r
}

fn with_transfer_context(detail: &String, url: &String, refspec: &String) -> (r: String)
    ensures
        r@ == detail@ + transfer_context(url@, refspec@),
{
    let mut r = detail.clone();
    r.append(" | url=");
    r.append(url.as_str());
    r.append(" refspec=");
    r.append(refspec.as_str());
    proof {
        assert(r@ =~= detail@ + transfer_context(url@, refspec@));
    }
    r
}

impl GitError {
    /// The text shown for this failure.
    pub fn message(&self) -> (r: String)
        ensures
            r@ == error_text(self@),
    {
        match self {
            GitError::RepositoryUnavailable { detail } => detail.clone(),
            GitError::RefNotFound { detail } => detail.clone(),
            GitError::NothingStaged => "No files staged for commit".to_owned(),
            GitError::NothingToStash => "No changes to stash".to_owned(),
            GitError::UncommittedChanges => "Cannot pull: You have uncommitted changes. Please commit or stash them first.".to_owned(),
            GitError::AuthenticationExhausted { detail, url, refspec } => {
                let mut r = with_transfer_context(detail, url, refspec);
                r.append(". Check your credentials.");
                r
            },
            GitError::NetworkFailure { detail, url, refspec } => with_transfer_context(
                detail,
                url,
                refspec,
            ),
            GitError::MergeConflict { detail } => join2(
                detail.as_str(),
                ". Resolve the conflicts by hand.",
            ),
            GitError::StashConflict { detail } => detail.clone(),
            GitError::StashNotFound { requested, available } => {
                let mut r = "Stash not found: ".to_owned();
                r.append(requested.as_str());
                r.append(". Available stashes: [");
                let listed = join_with_commas(available);
                r.append(listed.as_str());
                r.append("]");
                r
            },
        }
    }
}

/// The failure of a transfer: an exhausted authentication where `refused`
/// says that no credential was accepted, a network failure otherwise.
pub fn transfer_error(prefix: &str, reason: &str, url: &str, refspec: &str, refused: bool) -> (e:
    GitError)
    ensures
        e@ == transfer_failure(prefix@, reason@, url@, refspec@, refused),
{
    let detail = join2(prefix, reason);
    if refused {
        GitError::AuthenticationExhausted {
            detail,
            url: url.to_owned(),
            refspec: refspec.to_owned(),
        }
    } else {
        GitError::NetworkFailure { detail, url: url.to_owned(), refspec: refspec.to_owned() }
    }
}

} // verus!
