//! Provisioning: making the published bundle the installed one.
//!
//! The install directory is wiped and made anew, the archive is downloaded and
//! unpacked into it, and the digest is fetched and written down as the local
//! checksum. After any failure the install directory is removed again, so that no
//! half-installed bundle is left behind.

use vstd::prelude::*;
use crate::digest::DigestFetch;
use crate::digest::DigestFetchView;
use crate::digest::FetchAction;
use crate::digest::download_checksum;
use crate::error::LifecycleError;
use crate::error::LifecycleErrorView;
use crate::error::ProvisionStage;
use crate::paths::EnginePath;
use crate::platform::Platform;
use crate::platform::digest_suffix;
use crate::reply::Reply;
use crate::reply::ReplyView;

verus! {

/// The progress of one download of the archive at `url` into the install directory.
#[derive(Debug, PartialEq, Eq)]
pub enum Download {
    /// What is installed is to be removed.
    Wiping { url: String },
    /// The install directory is to be made anew.
    Creating { url: String },
    /// The archive is to be downloaded.
    Fetching { url: String },
    /// The archive is to be unpacked.
    Unpacking { url: String },
    /// The digest is being fetched.
    FetchingDigest { fetch: DigestFetch },
    /// The digest is to be written down as the local checksum.
    Persisting { digest: String },
    /// The bundle with this digest is installed.
    Installed { digest: String },
    /// The download failed. What it left in the install directory is still there.
    Failed { error: LifecycleError },
}

/// A `Download` with its texts as sequences of characters.
pub enum DownloadView {
    Wiping { url: Seq<char> },
    Creating { url: Seq<char> },
    Fetching { url: Seq<char> },
    Unpacking { url: Seq<char> },
    FetchingDigest { fetch: DigestFetchView },
    Persisting { digest: Seq<char> },
    Installed { digest: Seq<char> },
    Failed { error: LifecycleErrorView },
}

/// What the host is to do for a download or for provisioning.
#[derive(Debug, PartialEq, Eq)]
pub enum ProvisionAction {
    /// Remove the directory at `path` with all it holds. That there is none is no failure.
    RemoveDir { path: EnginePath },
    /// Make the directory at `path`, and those above it.
    CreateDir { path: EnginePath },
    /// Download the archive at `address` and keep its bytes at hand.
    FetchArchive { address: String },
    /// Unpack the downloaded archive into the directory at `into`.
    Unpack { into: EnginePath },
    /// Request `address` and report the body of the response as a text.
    FetchDigest { address: String },
    /// Write `digest` to the file at `path`.
    WriteChecksum { path: EnginePath, digest: String },
    /// The operation is over: the bundle with this digest is installed.
    Done { digest: String },
    /// The operation is over: it failed.
    Fail { error: LifecycleError },
}

/// A `ProvisionAction` with its texts as sequences of characters.
pub enum ProvisionActionView {
    RemoveDir { path: EnginePath },
    CreateDir { path: EnginePath },
    FetchArchive { address: Seq<char> },
    Unpack { into: EnginePath },
    FetchDigest { address: Seq<char> },
    WriteChecksum { path: EnginePath, digest: Seq<char> },
    Done { digest: Seq<char> },
    Fail { error: LifecycleErrorView },
}

impl View for Download {
    type V = DownloadView;

    open spec fn view(&self) -> DownloadView {
        match *self {
            Download::Wiping { url } => DownloadView::Wiping { url: url@ },
            Download::Creating { url } => DownloadView::Creating { url: url@ },
            Download::Fetching { url } => DownloadView::Fetching { url: url@ },
            Download::Unpacking { url } => DownloadView::Unpacking { url: url@ },
            Download::FetchingDigest { fetch } => DownloadView::FetchingDigest { fetch: fetch@ },
            Download::Persisting { digest } => DownloadView::Persisting { digest: digest@ },
            Download::Installed { digest } => DownloadView::Installed { digest: digest@ },
            Download::Failed { error } => DownloadView::Failed { error: error@ },
        }
    }
}

impl View for ProvisionAction {
    type V = ProvisionActionView;

    open spec fn view(&self) -> ProvisionActionView {
        match *self {
            ProvisionAction::RemoveDir { path } => ProvisionActionView::RemoveDir { path },
            ProvisionAction::CreateDir { path } => ProvisionActionView::CreateDir { path },
            ProvisionAction::FetchArchive { address } => ProvisionActionView::FetchArchive {
                address: address@,
            },
            ProvisionAction::Unpack { into } => ProvisionActionView::Unpack { into },
            ProvisionAction::FetchDigest { address } => ProvisionActionView::FetchDigest {
                address: address@,
            },
            ProvisionAction::WriteChecksum { path, digest } => ProvisionActionView::WriteChecksum {
                path,
                digest: digest@,
            },
            ProvisionAction::Done { digest } => ProvisionActionView::Done { digest: digest@ },
            ProvisionAction::Fail { error } => ProvisionActionView::Fail { error: error@ },
        }
    }
}

/// The failure of provisioning in `stage` with this cause.
pub open spec fn stage_failure(stage: ProvisionStage, cause: Seq<char>) -> DownloadView {
    DownloadView::Failed { error: LifecycleErrorView::Provision { stage, cause } }
}

impl DownloadView {
    /// The download of the archive at `url` before anything was done.
    pub open spec fn started(url: Seq<char>) -> DownloadView {
        DownloadView::Wiping { url }
    }

    /// Where a download stands once the digest is being fetched.
    pub open spec fn settled(fetch: DigestFetchView) -> DownloadView {
        match fetch {
            DigestFetchView::Requesting { url } => DownloadView::FetchingDigest { fetch },
            DigestFetchView::Fetched { digest } => DownloadView::Persisting { digest },
            DigestFetchView::Failed { cause } => stage_failure(ProvisionStage::PersistDigest, cause),
        }
    }

    /// What the download asks of the host in this state.
    pub open spec fn pending(self) -> ProvisionActionView {
        match self {
            DownloadView::Wiping { url } => ProvisionActionView::RemoveDir {
                path: EnginePath::InstallDir,
            },
            DownloadView::Creating { url } => ProvisionActionView::CreateDir {
                path: EnginePath::InstallDir,
            },
            DownloadView::Fetching { url } => ProvisionActionView::FetchArchive { address: url },
            DownloadView::Unpacking { url } => ProvisionActionView::Unpack {
                into: EnginePath::InstallDir,
            },
            DownloadView::FetchingDigest { fetch } => match fetch {
                DigestFetchView::Requesting { url } => ProvisionActionView::FetchDigest {
                    address: url + digest_suffix(),
                },
                DigestFetchView::Fetched { digest } => ProvisionActionView::WriteChecksum {
                    path: EnginePath::ChecksumFile,
                    digest,
                },
                DigestFetchView::Failed { cause } => ProvisionActionView::Fail {
                    error: LifecycleErrorView::Provision {
                        stage: ProvisionStage::PersistDigest,
                        cause,
                    },
                },
            },
            DownloadView::Persisting { digest } => ProvisionActionView::WriteChecksum {
                path: EnginePath::ChecksumFile,
                digest,
            },
            DownloadView::Installed { digest } => ProvisionActionView::Done { digest },
            DownloadView::Failed { error } => ProvisionActionView::Fail { error },
        }
    }

    /// The state after the host's reply to the pending action. The wipe at the start
    /// may fail without harm: there may be nothing to remove. Every other failure
    /// ends the download, in the stage that the failed action belongs to. A reply
    /// that the pending action cannot have changes nothing, and neither does any
    /// reply once the download is over.
    pub open spec fn after(self, reply: ReplyView) -> DownloadView {
        match self {
            DownloadView::Wiping { url } => match reply {
                ReplyView::Text(_) => self,
                _ => DownloadView::Creating { url },
            },
            DownloadView::Creating { url } => match reply {
                ReplyView::Completed => DownloadView::Fetching { url },
                ReplyView::Failed(cause) => stage_failure(ProvisionStage::Fetch, cause),
                ReplyView::Text(_) => self,
            },
            DownloadView::Fetching { url } => match reply {
                ReplyView::Completed => DownloadView::Unpacking { url },
                ReplyView::Failed(cause) => stage_failure(ProvisionStage::Fetch, cause),
                ReplyView::Text(_) => self,
            },
            DownloadView::Unpacking { url } => match reply {
                ReplyView::Completed => DownloadView::FetchingDigest {
                    fetch: DigestFetchView::Requesting { url },
                },
                ReplyView::Failed(cause) => stage_failure(ProvisionStage::Unpack, cause),
                ReplyView::Text(_) => self,
            },
            DownloadView::FetchingDigest { fetch } => DownloadView::settled(fetch.after(reply)),
            DownloadView::Persisting { digest } => match reply {
                ReplyView::Completed => DownloadView::Installed { digest },
                ReplyView::Failed(cause) => stage_failure(ProvisionStage::PersistDigest, cause),
                ReplyView::Text(_) => self,
            },
            _ => self,
        }
    }

    /// Whether the download is over.
    pub open spec fn finished(self) -> bool {
        self is Installed || self is Failed
    }
}

fn failed_in(stage: ProvisionStage, cause: String) -> (download: Download)
    ensures
        download@ == stage_failure(stage, cause@),
{
    Download::Failed { error: LifecycleError::Provision { stage, cause } }
}

impl Download {
    /// The action that the host is to perform now.
    pub fn action(&self) -> (action: ProvisionAction)
        ensures
            action@ == self@.pending(),
    {
        match self {
            Download::Wiping { url: _ } => ProvisionAction::RemoveDir { path: EnginePath::InstallDir },
            Download::Creating { url: _ } => ProvisionAction::CreateDir {
                path: EnginePath::InstallDir,
            },
            Download::Fetching { url } => ProvisionAction::FetchArchive { address: url.clone() },
            Download::Unpacking { url: _ } => ProvisionAction::Unpack { into: EnginePath::InstallDir },
            Download::FetchingDigest { fetch } => match fetch.action() {
                FetchAction::Get { address } => ProvisionAction::FetchDigest { address },
                FetchAction::Done { digest } => ProvisionAction::WriteChecksum {
                    path: EnginePath::ChecksumFile,
                    digest,
                },
                FetchAction::Fail { error } => match error {
                    LifecycleError::DigestFetch { cause } => ProvisionAction::Fail {
                        error: LifecycleError::Provision {
                            stage: ProvisionStage::PersistDigest,
                            cause,
                        },
                    },
                    other => ProvisionAction::Fail { error: other },
                },
            },
            Download::Persisting { digest } => ProvisionAction::WriteChecksum {
                path: EnginePath::ChecksumFile,
                digest: digest.clone(),
            },
            Download::Installed { digest } => ProvisionAction::Done { digest: digest.clone() },
            Download::Failed { error } => ProvisionAction::Fail { error: error.clone() },
        }
    }

    /// Takes the host's reply to the pending action.
    pub fn advance(self, reply: Reply) -> (download: Download)
        ensures
            download@ == self@.after(reply@),
    {
        match self {
            Download::Wiping { url } => match reply {
                Reply::Text(_) => Download::Wiping { url },
                _ => Download::Creating { url },
            },
            Download::Creating { url } => match reply {
                Reply::Completed => Download::Fetching { url },
                Reply::Failed(cause) => failed_in(ProvisionStage::Fetch, cause),
                Reply::Text(_) => Download::Creating { url },
            },
            Download::Fetching { url } => match reply {
                Reply::Completed => Download::Unpacking { url },
                Reply::Failed(cause) => failed_in(ProvisionStage::Fetch, cause),
                Reply::Text(_) => Download::Fetching { url },
            },
            Download::Unpacking { url } => match reply {
                Reply::Completed => Download::FetchingDigest {
                    fetch: download_checksum(url.as_str()),
                },
                Reply::Failed(cause) => failed_in(ProvisionStage::Unpack, cause),
                Reply::Text(_) => Download::Unpacking { url },
            },
            Download::FetchingDigest { fetch } => {
                let fetch = fetch.advance(reply);
                match fetch {
                    DigestFetch::Fetched { digest } => Download::Persisting { digest },
                    DigestFetch::Failed { cause } => failed_in(ProvisionStage::PersistDigest, cause),
                    requesting => Download::FetchingDigest { fetch: requesting },
                }
            },
            Download::Persisting { digest } => match reply {
                Reply::Completed => Download::Installed { digest },
                Reply::Failed(cause) => failed_in(ProvisionStage::PersistDigest, cause),
                Reply::Text(_) => Download::Persisting { digest },
            },
            other => other,
        }
    }
}

/// Starts a download of the archive at `url` into the install directory.
pub fn download_and_extract(url: &str) -> (download: Download)
    ensures
        download@ == DownloadView::started(url@),
{
    Download::Wiping { url: String::from_str(url) }
}

/// The progress of provisioning: a download, and the removal of what it left where it failed.
#[derive(Debug, PartialEq, Eq)]
pub enum Provision {
    /// The download is under way.
    Installing { download: Download },
    /// The download failed with `error`; the install directory is to be removed.
    CleaningUp { error: LifecycleError },
    /// The bundle with this digest is installed.
    Installed { digest: String },
    /// Provisioning failed, and the install directory was removed.
    Failed { error: LifecycleError },
}

/// A `Provision` with its texts as sequences of characters.
pub enum ProvisionView {
    Installing { download: DownloadView },
    CleaningUp { error: LifecycleErrorView },
    Installed { digest: Seq<char> },
    Failed { error: LifecycleErrorView },
}

impl View for Provision {
    type V = ProvisionView;

    open spec fn view(&self) -> ProvisionView {
        match *self {
            Provision::Installing { download } => ProvisionView::Installing { download: download@ },
            Provision::CleaningUp { error } => ProvisionView::CleaningUp { error: error@ },
            Provision::Installed { digest } => ProvisionView::Installed { digest: digest@ },
            Provision::Failed { error } => ProvisionView::Failed { error: error@ },
        }
    }
}

impl ProvisionView {
    /// Provisioning from the archive at `url` before anything was done.
    pub open spec fn started(url: Seq<char>) -> ProvisionView {
        ProvisionView::Installing { download: DownloadView::started(url) }
    }

    /// Where provisioning stands when its download stands at `download`.
    pub open spec fn settled(download: DownloadView) -> ProvisionView {
        match download {
            DownloadView::Installed { digest } => ProvisionView::Installed { digest },
            DownloadView::Failed { error } => ProvisionView::CleaningUp { error },
            _ => ProvisionView::Installing { download },
        }
    }

    /// What provisioning asks of the host in this state.
    pub open spec fn pending(self) -> ProvisionActionView {
        match self {
            ProvisionView::Installing { download } => download.pending(),
            ProvisionView::CleaningUp { error } => ProvisionActionView::RemoveDir {
                path: EnginePath::InstallDir,
            },
            ProvisionView::Installed { digest } => ProvisionActionView::Done { digest },
            ProvisionView::Failed { error } => ProvisionActionView::Fail { error },
        }
    }

    /// The state after the host's reply to the pending action. A failed download is
    /// followed by the removal of the install directory, and the failure of the
    /// download is reported whether that removal succeeds or not.
    pub open spec fn after(self, reply: ReplyView) -> ProvisionView {
        match self {
            ProvisionView::Installing { download } => ProvisionView::settled(download.after(reply)),
            ProvisionView::CleaningUp { error } => match reply {
                ReplyView::Text(_) => self,
                _ => ProvisionView::Failed { error },
            },
            _ => self,
        }
    }

    /// Whether provisioning is over.
    pub open spec fn finished(self) -> bool {
        self is Installed || self is Failed
    }
}

impl Provision {
    /// The action that the host is to perform now.
    pub fn action(&self) -> (action: ProvisionAction)
        ensures
            action@ == self@.pending(),
    {
        match self {
            Provision::Installing { download } => download.action(),
            Provision::CleaningUp { error: _ } => ProvisionAction::RemoveDir {
                path: EnginePath::InstallDir,
            },
            Provision::Installed { digest } => ProvisionAction::Done { digest: digest.clone() },
            Provision::Failed { error } => ProvisionAction::Fail { error: error.clone() },
        }
    }

    /// Takes the host's reply to the pending action.
    pub fn advance(self, reply: Reply) -> (provision: Provision)
        ensures
            provision@ == self@.after(reply@),
    {
        match self {
            Provision::Installing { download } => {
                let download = download.advance(reply);
                match download {
                    Download::Installed { digest } => Provision::Installed { digest },
                    Download::Failed { error } => Provision::CleaningUp { error },
                    under_way => Provision::Installing { download: under_way },
                }
            },
            Provision::CleaningUp { error } => match reply {
                Reply::Text(_) => Provision::CleaningUp { error },
                _ => Provision::Failed { error },
            },
            other => other,
        }
    }
}

/// Starts provisioning from the archive that is published for `platform`.
pub fn download_cef(platform: Platform) -> (provision: Provision)
    ensures
        provision@ == ProvisionView::started(platform.archive_address()),
{
    Provision::Installing { download: download_and_extract(platform.archive_url()) }
}

} // verus!
