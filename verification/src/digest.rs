//! Fetching the digest that the remote source publishes beside an archive.

use vstd::prelude::*;
use crate::error::LifecycleError;
use crate::error::LifecycleErrorView;
use crate::platform::digest_suffix;
use crate::platform::digest_url;
use crate::reply::Reply;
use crate::reply::ReplyView;

verus! {

/// The progress of one fetch of the digest of the archive at `url`.
#[derive(Debug, PartialEq, Eq)]
pub enum DigestFetch {
    /// The digest is to be requested.
    Requesting { url: String },
    /// The remote source answered with `digest`.
    Fetched { digest: String },
    /// The request failed.
    Failed { cause: String },
}

/// A `DigestFetch` with its texts as sequences of characters.
pub enum DigestFetchView {
    Requesting { url: Seq<char> },
    Fetched { digest: Seq<char> },
    Failed { cause: Seq<char> },
}

/// What the host is to do for a fetch.
#[derive(Debug, PartialEq, Eq)]
pub enum FetchAction {
    /// Request `address` and report the body of the response as a text.
    Get { address: String },
    /// The fetch is over: the digest is `digest`.
    Done { digest: String },
    /// The fetch is over: the digest could not be had.
    Fail { error: LifecycleError },
}

/// A `FetchAction` with its texts as sequences of characters.
pub enum FetchActionView {
    Get { address: Seq<char> },
    Done { digest: Seq<char> },
    Fail { error: LifecycleErrorView },
}

impl View for DigestFetch {
    type V = DigestFetchView;

    open spec fn view(&self) -> DigestFetchView {
        match *self {
            DigestFetch::Requesting { url } => DigestFetchView::Requesting { url: url@ },
            DigestFetch::Fetched { digest } => DigestFetchView::Fetched { digest: digest@ },
            DigestFetch::Failed { cause } => DigestFetchView::Failed { cause: cause@ },
        }
    }
}

impl View for FetchAction {
    type V = FetchActionView;

    open spec fn view(&self) -> FetchActionView {
        match *self {
            FetchAction::Get { address } => FetchActionView::Get { address: address@ },
            FetchAction::Done { digest } => FetchActionView::Done { digest: digest@ },
            FetchAction::Fail { error } => FetchActionView::Fail { error: error@ },
        }
    }
}

impl DigestFetchView {
    /// What the fetch asks of the host in this state.
    pub open spec fn pending(self) -> FetchActionView {
        match self {
            DigestFetchView::Requesting { url } => FetchActionView::Get {
                address: url + digest_suffix(),
            },
            DigestFetchView::Fetched { digest } => FetchActionView::Done { digest },
            DigestFetchView::Failed { cause } => FetchActionView::Fail {
                error: LifecycleErrorView::DigestFetch { cause },
            },
        }
    }

    /// The state after the host's reply to the request. The body of the response is
    /// the digest, as it stands. A reply without a text is no answer to a request and
    /// changes nothing, and neither does any reply once the fetch is over.
    pub open spec fn after(self, reply: ReplyView) -> DigestFetchView {
        match self {
            DigestFetchView::Requesting { url } => match reply {
                ReplyView::Text(digest) => DigestFetchView::Fetched { digest },
                ReplyView::Failed(cause) => DigestFetchView::Failed { cause },
                ReplyView::Completed => self,
            },
            _ => self,
        }
    }
}

impl DigestFetch {
    /// The action that the host is to perform now.
    pub fn action(&self) -> (action: FetchAction)
        ensures
            action@ == self@.pending(),
    {
        match self {
            DigestFetch::Requesting { url } => FetchAction::Get { address: digest_url(url.as_str()) },
            DigestFetch::Fetched { digest } => FetchAction::Done { digest: digest.clone() },
            DigestFetch::Failed { cause } => FetchAction::Fail {
                error: LifecycleError::DigestFetch { cause: cause.clone() },
            },
        }
    }

    /// Takes the host's reply to the request.
    pub fn advance(self, reply: Reply) -> (fetch: DigestFetch)
        ensures
            fetch@ == self@.after(reply@),
    {
        match self {
            DigestFetch::Requesting { url } => match reply {
                Reply::Text(digest) => DigestFetch::Fetched { digest },
                Reply::Failed(cause) => DigestFetch::Failed { cause },
                Reply::Completed => DigestFetch::Requesting { url },
            },
            other => other,
        }
    }
}

/// Starts a fetch of the digest of the archive at `url`.
pub fn download_checksum(url: &str) -> (fetch: DigestFetch)
    ensures
        fetch@ == (DigestFetchView::Requesting { url: url@ }),
{
    DigestFetch::Requesting { url: String::from_str(url) }
}

} // verus!
