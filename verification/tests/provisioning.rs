use cef_lifecycle::error::{LifecycleError, ProvisionStage};
use cef_lifecycle::install::{compare_checksums, CheckAction};
use cef_lifecycle::paths::EnginePath;
use cef_lifecycle::platform::Platform;
use cef_lifecycle::provision::{download_and_extract, download_cef, Download, Provision, ProvisionAction};
use cef_lifecycle::reply::Reply;

const URL: &str = "https://example.org/engine.zip";

/// A host made of plain values: what is on its disk, what the remote source
/// answers, and which action is made to fail.
struct FakeHost {
    install_dir: bool,
    files: Vec<String>,
    checksum: Option<String>,
    remote_digest: String,
    fail_at: Option<&'static str>,
    log: Vec<String>,
}

impl FakeHost {
    fn new(remote_digest: &str) -> FakeHost {
        FakeHost {
            install_dir: false,
            files: Vec::new(),
            checksum: None,
            remote_digest: remote_digest.to_string(),
            fail_at: None,
            log: Vec::new(),
        }
    }

    fn with_old_install(mut self, checksum: &str) -> FakeHost {
        self.install_dir = true;
        self.files = vec!["old-engine".to_string()];
        self.checksum = Some(checksum.to_string());
        self
    }

    fn failing_at(mut self, step: &'static str) -> FakeHost {
        self.fail_at = Some(step);
        self
    }

    fn fails(&self, step: &str) -> bool {
        self.fail_at == Some(step)
    }

    fn perform(&mut self, action: ProvisionAction) -> Reply {
        match action {
            ProvisionAction::RemoveDir { path } => {
                assert_eq!(path, EnginePath::InstallDir);
                self.log.push("remove".to_string());
                if !self.install_dir {
                    return Reply::Failed("no such directory".to_string());
                }
                self.install_dir = false;
                self.files.clear();
                self.checksum = None;
                Reply::Completed
            }
            ProvisionAction::CreateDir { path } => {
                assert_eq!(path, EnginePath::InstallDir);
                self.log.push("create".to_string());
                if self.fails("create") {
                    return Reply::Failed("read-only".to_string());
                }
                self.install_dir = true;
                Reply::Completed
            }
            ProvisionAction::FetchArchive { address } => {
                self.log.push(format!("fetch {address}"));
                if self.fails("fetch") {
                    return Reply::Failed("connection reset".to_string());
                }
                Reply::Completed
            }
            ProvisionAction::Unpack { into } => {
                assert_eq!(into, EnginePath::InstallDir);
                self.log.push("unpack".to_string());
                assert!(self.install_dir);
                if self.fails("unpack") {
                    self.files.push("half".to_string());
                    return Reply::Failed("bad archive".to_string());
                }
                self.files.push("new-engine".to_string());
                Reply::Completed
            }
            ProvisionAction::FetchDigest { address } => {
                self.log.push(format!("digest {address}"));
                if self.fails("digest") {
                    return Reply::Failed("timeout".to_string());
                }
                Reply::Text(self.remote_digest.clone())
            }
            ProvisionAction::WriteChecksum { path, digest } => {
                assert_eq!(path, EnginePath::ChecksumFile);
                self.log.push(format!("write {digest}"));
                if self.fails("write") {
                    return Reply::Failed("disk full".to_string());
                }
                self.checksum = Some(digest);
                Reply::Completed
            }
            ProvisionAction::Done { .. } | ProvisionAction::Fail { .. } => unreachable!(),
        }
    }

    fn provision(&mut self, mut provision: Provision) -> Result<String, LifecycleError> {
        loop {
            match provision.action() {
                ProvisionAction::Done { digest } => return Ok(digest),
                ProvisionAction::Fail { error } => return Err(error),
                action => {
                    let reply = self.perform(action);
                    provision = provision.advance(reply);
                }
            }
        }
    }

    fn check_installed(&mut self) -> Result<bool, LifecycleError> {
        let mut check = compare_checksums(URL);
        loop {
            match check.action() {
                CheckAction::ReadChecksum { .. } => {
                    check = check.advance(match &self.checksum {
                        Some(text) => Reply::Text(text.clone()),
                        None => Reply::Failed("no such file".to_string()),
                    });
                }
                CheckAction::FetchDigest { .. } => {
                    check = check.advance(Reply::Text(self.remote_digest.clone()));
                }
                CheckAction::Done { present } => return Ok(present),
                CheckAction::Fail { error } => return Err(error),
            }
        }
    }
}

fn provision_from(url: &str) -> Provision {
    Provision::Installing { download: download_and_extract(url) }
}

#[test]
fn provision_on_an_empty_disk_installs_the_bundle() {
    let mut host = FakeHost::new("abc123");
    assert_eq!(host.provision(provision_from(URL)), Ok("abc123".to_string()));
    assert_eq!(
        host.log,
        vec![
            "remove",
            "create",
            "fetch https://example.org/engine.zip",
            "unpack",
            "digest https://example.org/engine.zip.sha256",
            "write abc123",
        ]
    );
    assert!(host.install_dir);
    assert_eq!(host.files, vec!["new-engine"]);
    assert_eq!(host.checksum.as_deref(), Some("abc123"));
}

#[test]
fn check_after_provision_finds_the_bundle_present() {
    let mut host = FakeHost::new("abc123");
    assert_eq!(host.check_installed(), Ok(false));
    host.provision(provision_from(URL)).unwrap();
    assert_eq!(host.checksum.as_deref(), Some(host.remote_digest.as_str()));
    assert_eq!(host.check_installed(), Ok(true));
    assert_eq!(host.check_installed(), Ok(true));
}

#[test]
fn stale_bundle_is_removed_before_the_new_one_is_unpacked() {
    let mut host = FakeHost::new("def456").with_old_install("abc123");
    assert_eq!(host.check_installed(), Ok(false));
    host.provision(provision_from(URL)).unwrap();
    let remove = host.log.iter().position(|line| line == "remove").unwrap();
    let unpack = host.log.iter().position(|line| line == "unpack").unwrap();
    assert!(remove < unpack);
    assert_eq!(host.files, vec!["new-engine"]);
    assert_eq!(host.checksum.as_deref(), Some("def456"));
    assert_eq!(host.check_installed(), Ok(true));
}

#[test]
fn failed_download_is_a_fetch_failure_and_leaves_no_install_dir() {
    let mut host = FakeHost::new("abc123").with_old_install("old").failing_at("fetch");
    assert_eq!(
        host.provision(provision_from(URL)),
        Err(LifecycleError::Provision {
            stage: ProvisionStage::Fetch,
            cause: "connection reset".to_string()
        })
    );
    assert!(!host.install_dir);
    assert!(host.files.is_empty());
    assert_eq!(host.checksum, None);
    assert_eq!(host.log.last().map(String::as_str), Some("remove"));
}

#[test]
fn failed_create_is_a_fetch_failure() {
    let mut host = FakeHost::new("abc123").failing_at("create");
    assert_eq!(
        host.provision(provision_from(URL)),
        Err(LifecycleError::Provision { stage: ProvisionStage::Fetch, cause: "read-only".to_string() })
    );
    assert_eq!(host.log, vec!["remove", "create", "remove"]);
}

#[test]
fn failed_unpack_is_an_unpack_failure_and_leaves_no_residue() {
    let mut host = FakeHost::new("abc123").failing_at("unpack");
    assert_eq!(
        host.provision(provision_from(URL)),
        Err(LifecycleError::Provision { stage: ProvisionStage::Unpack, cause: "bad archive".to_string() })
    );
    assert!(!host.install_dir);
    assert!(host.files.is_empty());
}

#[test]
fn failed_digest_fetch_is_a_persist_failure() {
    let mut host = FakeHost::new("abc123").failing_at("digest");
    assert_eq!(
        host.provision(provision_from(URL)),
        Err(LifecycleError::Provision {
            stage: ProvisionStage::PersistDigest,
            cause: "timeout".to_string()
        })
    );
    assert!(!host.install_dir);
    assert_eq!(host.checksum, None);
}

#[test]
fn failed_checksum_write_is_a_persist_failure() {
    let mut host = FakeHost::new("abc123").failing_at("write");
    assert_eq!(
        host.provision(provision_from(URL)),
        Err(LifecycleError::Provision {
            stage: ProvisionStage::PersistDigest,
            cause: "disk full".to_string()
        })
    );
    assert!(!host.install_dir);
    assert_eq!(host.check_installed(), Ok(false));
}

#[test]
fn download_alone_does_not_clean_up() {
    let download = download_and_extract(URL)
        .advance(Reply::Completed)
        .advance(Reply::Completed)
        .advance(Reply::Failed("connection reset".to_string()));
    assert_eq!(
        download,
        Download::Failed {
            error: LifecycleError::Provision {
                stage: ProvisionStage::Fetch,
                cause: "connection reset".to_string()
            }
        }
    );
    assert!(matches!(download.action(), ProvisionAction::Fail { .. }));
}

#[test]
fn failure_is_reported_even_if_the_cleanup_fails() {
    let provision = provision_from(URL)
        .advance(Reply::Completed)
        .advance(Reply::Failed("read-only".to_string()));
    assert_eq!(provision.action(), ProvisionAction::RemoveDir { path: EnginePath::InstallDir });
    let provision = provision.advance(Reply::Failed("busy".to_string()));
    assert_eq!(
        provision,
        Provision::Failed {
            error: LifecycleError::Provision {
                stage: ProvisionStage::Fetch,
                cause: "read-only".to_string()
            }
        }
    );
}

#[test]
fn download_cef_fetches_the_platform_archive() {
    let mut host = FakeHost::new("d");
    host.provision(download_cef(Platform::Windows)).unwrap();
    assert_eq!(
        host.log[2],
        "fetch https://github.com/hulylabs/huly-cef/releases/latest/download/huly-cef-windows.zip"
    );
    assert_eq!(
        host.log[4],
        "digest https://github.com/hulylabs/huly-cef/releases/latest/download/huly-cef-windows.zip.sha256"
    );
}

#[test]
fn provision_ignores_replies_that_do_not_fit() {
    let start = provision_from(URL).advance(Reply::Text("x".to_string()));
    assert_eq!(start, provision_from(URL));
    let creating = provision_from(URL).advance(Reply::Completed).advance(Reply::Text("x".to_string()));
    assert_eq!(creating, provision_from(URL).advance(Reply::Completed));
    let installed = Provision::Installed { digest: "d".to_string() }.advance(Reply::Failed("x".to_string()));
    assert_eq!(installed, Provision::Installed { digest: "d".to_string() });
}
