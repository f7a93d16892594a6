//! What the caller reports back after carrying out a requested action.

use vstd::prelude::*;

verus! {

/// The result of one action on the repository, as plain values.
#[derive(Debug, Clone, PartialEq, Eq)]
pub enum Reply {
    /// The action succeeded and yields nothing.
    Done,
    /// The action succeeded and yields a name, an id or a URL.
    Text(String),
    /// The action succeeded and found that there is no such value.
    Nothing,
    /// The action succeeded and yields a number.
    Count(usize),
    /// The action succeeded and yields a yes or a no.
    Flag(bool),
    /// The action failed, with the reason given by the repository.
    Failed(String),
    /// The action failed because the remote was offered no credential that
    /// it accepts, with the reason given by the repository.
    Refused(String),
}

pub enum ReplyView {
    Done,
    Text(Seq<char>),
    Nothing,
    Count(nat),
    Flag(bool),
    Failed(Seq<char>),
    Refused(Seq<char>),
}

impl View for Reply {
    type V = ReplyView;

    open spec fn view(&self) -> ReplyView {
        match *self {
            Reply::Done => ReplyView::Done,
            Reply::Text(t) => ReplyView::Text(t@),
            Reply::Nothing => ReplyView::Nothing,
            Reply::Count(n) => ReplyView::Count(n as nat),
            Reply::Flag(b) => ReplyView::Flag(b),
            Reply::Failed(reason) => ReplyView::Failed(reason@),
            Reply::Refused(reason) => ReplyView::Refused(reason@),
        }
    }
}

/// A reply as a plain failure: a refusal is a failure with the same reason,
/// every other reply is itself.
pub open spec fn as_failure(r: ReplyView) -> ReplyView {
    match r {
        ReplyView::Refused(reason) => ReplyView::Failed(reason),
        _ => r,
    }
}

/// The text of the failure reported when a reply does not answer the action
/// that was requested.
pub open spec fn unexpected_reply_text() -> Seq<char> {
    "Unexpected reply from the repository"@
}

} // verus!
