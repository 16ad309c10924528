//! Checking whether the installed bundle is the one that the remote source publishes.
//!
//! The local checksum is read first. Only if there is one is the remote digest
//! fetched, and the bundle is present exactly if the two are the same text.

use vstd::prelude::*;
use crate::digest::DigestFetch;
use crate::digest::DigestFetchView;
use crate::digest::FetchAction;
use crate::digest::download_checksum;
use crate::error::LifecycleError;
use crate::error::LifecycleErrorView;
use crate::paths::EnginePath;
use crate::platform::Platform;
use crate::platform::digest_suffix;
use crate::reply::Reply;
use crate::reply::ReplyView;

verus! {

/// The progress of a check of the installation against the archive at `url`.
#[derive(Debug, PartialEq, Eq)]
pub enum InstallCheck {
    /// The local checksum is to be read.
    ReadingLocal { url: String },
    /// The local checksum is `local`; the remote digest is being fetched.
    FetchingRemote { local: String, fetch: DigestFetch },
    /// The check is over.
    Decided { present: bool },
    /// The check could not be made.
    Failed { error: LifecycleError },
}

/// An `InstallCheck` with its texts as sequences of characters.
pub enum InstallCheckView {
    ReadingLocal { url: Seq<char> },
    FetchingRemote { local: Seq<char>, fetch: DigestFetchView },
    Decided { present: bool },
    Failed { error: LifecycleErrorView },
}

/// What the host is to do for a check.
#[derive(Debug, PartialEq, Eq)]
pub enum CheckAction {
    /// Read the file at `path` and report its content as a text; report a failure if it cannot be read.
    ReadChecksum { path: EnginePath },
    /// Request `address` and report the body of the response as a text.
    FetchDigest { address: String },
    /// The check is over: `present` says whether the installed bundle is the published one.
    Done { present: bool },
    /// The check is over: it could not be made.
    Fail { error: LifecycleError },
}

/// A `CheckAction` with its texts as sequences of characters.
pub enum CheckActionView {
    ReadChecksum { path: EnginePath },
    FetchDigest { address: Seq<char> },
    Done { present: bool },
    Fail { error: LifecycleErrorView },
}

impl View for InstallCheck {
    type V = InstallCheckView;

    open spec fn view(&self) -> InstallCheckView {
        match *self {
            InstallCheck::ReadingLocal { url } => InstallCheckView::ReadingLocal { url: url@ },
            InstallCheck::FetchingRemote { local, fetch } => InstallCheckView::FetchingRemote {
                local: local@,
                fetch: fetch@,
            },
            InstallCheck::Decided { present } => InstallCheckView::Decided { present },
            InstallCheck::Failed { error } => InstallCheckView::Failed { error: error@ },
        }
    }
}

impl View for CheckAction {
    type V = CheckActionView;

    open spec fn view(&self) -> CheckActionView {
        match *self {
            CheckAction::ReadChecksum { path } => CheckActionView::ReadChecksum { path },
            CheckAction::FetchDigest { address } => CheckActionView::FetchDigest {
                address: address@,
            },
            CheckAction::Done { present } => CheckActionView::Done { present },
            CheckAction::Fail { error } => CheckActionView::Fail { error: error@ },
        }
    }
}

impl InstallCheckView {
    /// The check against the archive at `url` before anything was done.
    pub open spec fn started(url: Seq<char>) -> InstallCheckView {
        InstallCheckView::ReadingLocal { url }
    }

    /// Where a check stands once the remote digest is being fetched with the local checksum known.
    pub open spec fn settled(local: Seq<char>, fetch: DigestFetchView) -> InstallCheckView {
        match fetch {
            DigestFetchView::Requesting { url } => InstallCheckView::FetchingRemote { local, fetch },
            DigestFetchView::Fetched { digest } => InstallCheckView::Decided {
                present: local == digest,
            },
            DigestFetchView::Failed { cause } => InstallCheckView::Failed {
                error: LifecycleErrorView::DigestFetch { cause },
            },
        }
    }

    /// What the check asks of the host in this state.
    pub open spec fn pending(self) -> CheckActionView {
        match self {
            InstallCheckView::ReadingLocal { url } => CheckActionView::ReadChecksum {
                path: EnginePath::ChecksumFile,
            },
            InstallCheckView::FetchingRemote { local, fetch } => match fetch {
                DigestFetchView::Requesting { url } => CheckActionView::FetchDigest {
                    address: url + digest_suffix(),
                },
                DigestFetchView::Fetched { digest } => CheckActionView::Done {
                    present: local == digest,
                },
                DigestFetchView::Failed { cause } => CheckActionView::Fail {
                    error: LifecycleErrorView::DigestFetch { cause },
                },
            },
            InstallCheckView::Decided { present } => CheckActionView::Done { present },
            InstallCheckView::Failed { error } => CheckActionView::Fail { error },
        }
    }

    /// The state after the host's reply to the pending action. A local checksum that
    /// cannot be read decides the check: nothing is installed, and nothing is
    /// fetched. A reply that the pending action cannot have changes nothing, and
    /// neither does any reply once the check is over.
    pub open spec fn after(self, reply: ReplyView) -> InstallCheckView {
        match self {
            InstallCheckView::ReadingLocal { url } => match reply {
                ReplyView::Text(local) => InstallCheckView::FetchingRemote {
                    local,
                    fetch: DigestFetchView::Requesting { url },
                },
                ReplyView::Failed(_) => InstallCheckView::Decided { present: false },
                ReplyView::Completed => self,
            },
            InstallCheckView::FetchingRemote { local, fetch } => InstallCheckView::settled(
                local,
                fetch.after(reply),
            ),
            _ => self,
        }
    }

    /// Whether the check is over.
    pub open spec fn finished(self) -> bool {
        self is Decided || self is Failed
    }
}

impl InstallCheck {
    /// The action that the host is to perform now.
    pub fn action(&self) -> (action: CheckAction)
        ensures
            action@ == self@.pending(),
    {
        match self {
            InstallCheck::ReadingLocal { url: _ } => CheckAction::ReadChecksum {
                path: EnginePath::ChecksumFile,
            },
            InstallCheck::FetchingRemote { local, fetch } => match fetch.action() {
                FetchAction::Get { address } => CheckAction::FetchDigest { address },
                FetchAction::Done { digest } => CheckAction::Done { present: *local == digest },
                FetchAction::Fail { error } => CheckAction::Fail { error },
            },
            InstallCheck::Decided { present } => CheckAction::Done { present: *present },
            InstallCheck::Failed { error } => CheckAction::Fail { error: error.clone() },
        }
    }

    /// Takes the host's reply to the pending action.
    pub fn advance(self, reply: Reply) -> (check: InstallCheck)
        ensures
            check@ == self@.after(reply@),
    {
        match self {
            InstallCheck::ReadingLocal { url } => match reply {
                Reply::Text(local) => InstallCheck::FetchingRemote {
                    local,
                    fetch: download_checksum(url.as_str()),
                },
                Reply::Failed(_) => InstallCheck::Decided { present: false },
                Reply::Completed => InstallCheck::ReadingLocal { url },
            },
            InstallCheck::FetchingRemote { local, fetch } => {
                let fetch = fetch.advance(reply);
                match fetch {
                    DigestFetch::Fetched { digest } => InstallCheck::Decided {
                        present: local == digest,
                    },
                    DigestFetch::Failed { cause } => InstallCheck::Failed {
                        error: LifecycleError::DigestFetch { cause },
                    },
                    requesting => InstallCheck::FetchingRemote { local, fetch: requesting },
                }
            },
            other => other,
        }
    }
}

/// Starts a check of the installation against the archive at `url`.
pub fn compare_checksums(url: &str) -> (check: InstallCheck)
    ensures
        check@ == InstallCheckView::started(url@),
{
    InstallCheck::ReadingLocal { url: String::from_str(url) }
}

/// Starts a check of the installation against the archive that is published for `platform`.
pub fn is_cef_present(platform: Platform) -> (check: InstallCheck)
    ensures
        check@ == InstallCheckView::started(platform.archive_address()),
{
    compare_checksums(platform.archive_url())
}

/// Without a readable local checksum the bundle counts as not installed, and the
/// check is over before anything is fetched.
pub proof fn missing_checksum_means_absent(url: Seq<char>, cause: Seq<char>)
    ensures
        InstallCheckView::started(url).after(ReplyView::Failed(cause)) == (InstallCheckView::Decided {
            present: false,
        }),
        !(InstallCheckView::started(url).pending() is FetchDigest),
{
}

/// With a local checksum, the remote digest is asked for at the archive's address
/// with the digest suffix, and the bundle is present exactly if the two texts are equal.
pub proof fn check_compares_local_and_remote(url: Seq<char>, local: Seq<char>, remote: Seq<char>)
    ensures
        InstallCheckView::started(url).after(ReplyView::Text(local)).pending() == (
        CheckActionView::FetchDigest { address: url + digest_suffix() }),
        InstallCheckView::started(url).after(ReplyView::Text(local)).after(ReplyView::Text(remote))
            == (InstallCheckView::Decided { present: local == remote }),
{
}

/// A digest that cannot be fetched is an error of its own, not the answer "absent".
pub proof fn unreachable_digest_fails_the_check(url: Seq<char>, local: Seq<char>, cause: Seq<char>)
    ensures
        InstallCheckView::started(url).after(ReplyView::Text(local)).after(ReplyView::Failed(cause))
            == (InstallCheckView::Failed { error: LifecycleErrorView::DigestFetch { cause } }),
{
}

} // verus!
