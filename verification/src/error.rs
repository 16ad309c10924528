//! The failures of the lifecycle operations, and the words in which the host shows them.

use vstd::prelude::*;
use crate::paths::HostRoot;
use crate::text::decimal;
use crate::text::decimal_text;

verus! {

/// The part of provisioning in which a failure happened.
#[derive(Clone, Copy, Debug, PartialEq, Eq, Structural)]
pub enum ProvisionStage {
    /// The install directory could not be made anew, or the archive could not be downloaded.
    Fetch,
    /// The archive could not be unpacked into the install directory.
    Unpack,
    /// The digest could not be downloaded or could not be written down as the local checksum.
    PersistDigest,
}

/// Why a lifecycle operation failed.
#[derive(Debug, PartialEq, Eq)]
pub enum LifecycleError {
    /// The host could not name one of its directories.
    DirectoryNotFound { root: HostRoot },
    /// The remote digest could not be fetched, so the installation could not be checked.
    DigestFetch { cause: String },
    /// Provisioning failed; the install directory was removed again.
    Provision { stage: ProvisionStage, cause: String },
    /// The bundle could not be copied to its staging directory.
    Copy { cause: String },
    /// No port of the scanned range could be bound.
    NoPortAvailable,
    /// The engine's process could not be created.
    Spawn { port: u16, cache_dir: String, cause: String },
    /// The engine accepted no connection within the attempts it was given.
    HealthCheck { port: u16, last_failure: String },
    /// The engine was ready, but the control channel could not be opened.
    Connect { cause: String },
    /// The close request could not be sent. Shutdown goes on regardless.
    ShutdownSend { cause: String },
    /// An engine is running or being launched already.
    AlreadyRunning,
}

/// A `LifecycleError` with its texts as sequences of characters.
pub enum LifecycleErrorView {
    DirectoryNotFound { root: HostRoot },
    DigestFetch { cause: Seq<char> },
    Provision { stage: ProvisionStage, cause: Seq<char> },
    Copy { cause: Seq<char> },
    NoPortAvailable,
    Spawn { port: u16, cache_dir: Seq<char>, cause: Seq<char> },
    HealthCheck { port: u16, last_failure: Seq<char> },
    Connect { cause: Seq<char> },
    ShutdownSend { cause: Seq<char> },
    AlreadyRunning,
}

impl View for LifecycleError {
    type V = LifecycleErrorView;

    open spec fn view(&self) -> LifecycleErrorView {
        match *self {
            LifecycleError::DirectoryNotFound { root } => LifecycleErrorView::DirectoryNotFound {
                root,
            },
            LifecycleError::DigestFetch { cause } => LifecycleErrorView::DigestFetch {
                cause: cause@,
            },
            LifecycleError::Provision { stage, cause } => LifecycleErrorView::Provision {
                stage,
                cause: cause@,
            },
            LifecycleError::Copy { cause } => LifecycleErrorView::Copy { cause: cause@ },
            LifecycleError::NoPortAvailable => LifecycleErrorView::NoPortAvailable,
            LifecycleError::Spawn { port, cache_dir, cause } => LifecycleErrorView::Spawn {
                port,
                cache_dir: cache_dir@,
                cause: cause@,
            },
            LifecycleError::HealthCheck { port, last_failure } => LifecycleErrorView::HealthCheck {
                port,
                last_failure: last_failure@,
            },
            LifecycleError::Connect { cause } => LifecycleErrorView::Connect { cause: cause@ },
            LifecycleError::ShutdownSend { cause } => LifecycleErrorView::ShutdownSend {
                cause: cause@,
            },
            LifecycleError::AlreadyRunning => LifecycleErrorView::AlreadyRunning,
        }
    }
}

impl ProvisionStage {
    /// The words that open the message of a failure in this stage.
    pub open spec fn opening(self) -> Seq<char> {
        match self {
            ProvisionStage::Fetch => "failed to download CEF: "@,
            ProvisionStage::Unpack => "failed to extract CEF archive: "@,
            ProvisionStage::PersistDigest => "failed to save checksum: "@,
        }
    }
}

impl LifecycleErrorView {
    /// The failure in words, as the host shows it to the user.
    pub open spec fn message(self) -> Seq<char> {
        match self {
            LifecycleErrorView::DirectoryNotFound { root } => match root {
                HostRoot::ResourceDir => "app resource directory not found"@,
                HostRoot::AppCacheDir => "app cache directory not found"@,
                HostRoot::TempDir => "temporary directory not found"@,
            },
            LifecycleErrorView::DigestFetch { cause } => "failed to download checksum: "@ + cause,
            LifecycleErrorView::Provision { stage, cause } => stage.opening() + cause,
            LifecycleErrorView::Copy { cause } => "failed to copy CEF: "@ + cause,
            LifecycleErrorView::NoPortAvailable => "couldn't find available port: No available ports found"@,
            LifecycleErrorView::Spawn { port, cache_dir, cause } => {
                "failed to launch CEF with params port "@ + decimal(port as nat) + " cache-dir "@
                    + cache_dir + ": "@ + cause
            },
            LifecycleErrorView::HealthCheck { port, last_failure } => {
                "CEF failed to start with params port "@ + decimal(port as nat)
                    + ": CEF healthcheck failed: "@ + last_failure
            },
            LifecycleErrorView::Connect { cause } => "failed to connect to CEF: "@ + cause,
            LifecycleErrorView::ShutdownSend { cause } => "failed to send close request: "@ + cause,
            LifecycleErrorView::AlreadyRunning => "CEF is already running"@,
        }
    }
}

impl Clone for LifecycleError {
    fn clone(&self) -> (copy: Self)
        ensures
            copy@ == self@,
    {
        match self {
            LifecycleError::DirectoryNotFound { root } => LifecycleError::DirectoryNotFound {
                root: *root,
            },
            LifecycleError::DigestFetch { cause } => LifecycleError::DigestFetch {
                cause: cause.clone(),
            },
            LifecycleError::Provision { stage, cause } => LifecycleError::Provision {
                stage: *stage,
                cause: cause.clone(),
            },
            LifecycleError::Copy { cause } => LifecycleError::Copy { cause: cause.clone() },
            LifecycleError::NoPortAvailable => LifecycleError::NoPortAvailable,
            LifecycleError::Spawn { port, cache_dir, cause } => LifecycleError::Spawn {
                port: *port,
                cache_dir: cache_dir.clone(),
                cause: cause.clone(),
            },
            LifecycleError::HealthCheck { port, last_failure } => LifecycleError::HealthCheck {
                port: *port,
                last_failure: last_failure.clone(),
            },
            LifecycleError::Connect { cause } => LifecycleError::Connect { cause: cause.clone() },
            LifecycleError::ShutdownSend { cause } => LifecycleError::ShutdownSend {
                cause: cause.clone(),
            },
            LifecycleError::AlreadyRunning => LifecycleError::AlreadyRunning,
        }
    }
}

impl ProvisionStage {
    fn opening_text(self) -> (text: &'static str)
        ensures
            text@ == self.opening(),
    {
        match self {
            ProvisionStage::Fetch => "failed to download CEF: ",
            ProvisionStage::Unpack => "failed to extract CEF archive: ",
            ProvisionStage::PersistDigest => "failed to save checksum: ",
        }
    }
}

impl LifecycleError {
    /// The failure in words, as the host shows it to the user.
    pub fn message(&self) -> (text: String)
        ensures
            text@ == self@.message(),
    {
        match self {
            LifecycleError::DirectoryNotFound { root } => match root {
                HostRoot::ResourceDir => String::from_str("app resource directory not found"),
                HostRoot::AppCacheDir => String::from_str("app cache directory not found"),
                HostRoot::TempDir => String::from_str("temporary directory not found"),
            },
            LifecycleError::DigestFetch { cause } => {
                let mut text = String::from_str("failed to download checksum: ");
                text.append(cause.as_str());
                text
            },
            LifecycleError::Provision { stage, cause } => {
                let mut text = String::from_str(stage.opening_text());
                text.append(cause.as_str());
                text
            },
            LifecycleError::Copy { cause } => {
                let mut text = String::from_str("failed to copy CEF: ");
                text.append(cause.as_str());
                text
            },
            LifecycleError::NoPortAvailable => String::from_str(
                "couldn't find available port: No available ports found",
            ),
            LifecycleError::Spawn { port, cache_dir, cause } => {
                let mut text = String::from_str("failed to launch CEF with params port ");
                let number = decimal_text(*port);
                text.append(number.as_str());
                text.append(" cache-dir ");
                text.append(cache_dir.as_str());
                text.append(": ");
                text.append(cause.as_str());
                text
            },
            LifecycleError::HealthCheck { port, last_failure } => {
                let mut text = String::from_str("CEF failed to start with params port ");
                let number = decimal_text(*port);
                text.append(number.as_str());
                text.append(": CEF healthcheck failed: ");
                text.append(last_failure.as_str());
                text
            },
            LifecycleError::Connect { cause } => {
                let mut text = String::from_str("failed to connect to CEF: ");
                text.append(cause.as_str());
                text
            },
            LifecycleError::ShutdownSend { cause } => {
                let mut text = String::from_str("failed to send close request: ");
                text.append(cause.as_str());
                text
            },
            LifecycleError::AlreadyRunning => String::from_str("CEF is already running"),
        }
    }
}

} // verus!
