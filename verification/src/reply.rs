//! What the host reports back after it has performed an action.

use vstd::prelude::*;

verus! {

/// The host's report on the action it was asked to perform.
#[derive(Clone, Debug, PartialEq, Eq)]
pub enum Reply {
    /// The action succeeded and yielded nothing to read.
    Completed,
    /// The action succeeded and yielded a text (a file's content, a response body).
    Text(String),
    /// The action failed, with the cause in words.
    Failed(String),
}

/// A `Reply` with its texts as sequences of characters.
pub enum ReplyView {
    Completed,
    Text(Seq<char>),
    Failed(Seq<char>),
}

impl View for Reply {
    type V = ReplyView;

    open spec fn view(&self) -> ReplyView {
        match *self {
            Reply::Completed => ReplyView::Completed,
            Reply::Text(text) => ReplyView::Text(text@),
            Reply::Failed(cause) => ReplyView::Failed(cause@),
        }
    }
}

} // verus!
