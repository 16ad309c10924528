use cef_lifecycle::endpoint::{control_endpoint_address, healthcheck_address};
use cef_lifecycle::error::{LifecycleError, ProvisionStage};
use cef_lifecycle::paths::{get_cef_paths, EnginePath, HostDirs, HostRoot, Location};
use cef_lifecycle::platform::{digest_url, Platform};
use cef_lifecycle::text::decimal_text;

fn host(resource: Option<&str>, cache: Option<&str>, temp: Option<&str>) -> HostDirs {
    HostDirs {
        resource_dir: resource.map(String::from),
        app_cache_dir: cache.map(String::from),
        temp_dir: temp.map(String::from),
    }
}

#[test]
fn decimal_text_of_zero_is_one_digit() {
    assert_eq!(decimal_text(0), "0");
}

#[test]
fn decimal_text_has_no_leading_zero() {
    assert_eq!(decimal_text(7), "7");
    assert_eq!(decimal_text(10), "10");
    assert_eq!(decimal_text(10000), "10000");
    assert_eq!(decimal_text(49999), "49999");
    assert_eq!(decimal_text(65535), "65535");
}

#[test]
fn decimal_text_agrees_with_std_on_every_port() {
    let mut port: u16 = 0;
    loop {
        assert_eq!(decimal_text(port), port.to_string());
        if port == u16::MAX {
            break;
        }
        port += 1;
    }
}

#[test]
fn digest_url_appends_suffix() {
    assert_eq!(digest_url("https://example.org/engine.zip"), "https://example.org/engine.zip.sha256");
    assert_eq!(digest_url(""), ".sha256");
}

#[test]
fn archive_url_per_platform() {
    assert_eq!(
        Platform::Linux.archive_url(),
        "https://github.com/hulylabs/huly-cef/releases/latest/download/huly-cef-linux.zip"
    );
    assert_eq!(
        Platform::MacArm64.archive_url(),
        "https://github.com/hulylabs/huly-cef/releases/latest/download/huly-cef-macos.zip"
    );
    assert_eq!(Platform::MacArm64.archive_url(), Platform::MacX86_64.archive_url());
    assert_eq!(
        Platform::Windows.archive_url(),
        "https://github.com/hulylabs/huly-cef/releases/latest/download/huly-cef-windows.zip"
    );
}

#[test]
fn executable_per_platform() {
    assert_eq!(Platform::Linux.executable(), "huly-cef-websockets");
    assert_eq!(
        Platform::MacArm64.executable(),
        "huly-cef-websockets-arm64.app/Contents/MacOS/huly-cef-websockets"
    );
    assert_eq!(
        Platform::MacX86_64.executable(),
        "huly-cef-websockets-x86_64.app/Contents/MacOS/huly-cef-websockets"
    );
    assert_eq!(Platform::Windows.executable(), "huly-cef-websockets.exe");
}

#[test]
fn addresses_of_the_control_endpoint() {
    assert_eq!(healthcheck_address("localhost", 10000), "ws://localhost:10000");
    assert_eq!(healthcheck_address("127.0.0.1", 9), "ws://127.0.0.1:9");
    assert_eq!(control_endpoint_address(10000), "ws://localhost:10000/browser");
    assert_eq!(control_endpoint_address(0), "ws://localhost:0/browser");
}

#[test]
fn engine_paths_lie_under_their_host_directories() {
    assert_eq!(EnginePath::InstallDir.root(), HostRoot::ResourceDir);
    assert_eq!(EnginePath::ChecksumFile.root(), HostRoot::ResourceDir);
    assert_eq!(EnginePath::CacheDir.root(), HostRoot::AppCacheDir);
    assert_eq!(EnginePath::StagingDir.root(), HostRoot::TempDir);
    assert_eq!(EnginePath::StagedExecutable.root(), HostRoot::TempDir);
    assert_eq!(EnginePath::InstallDir.segments(Platform::Linux), vec!["cef"]);
    assert_eq!(EnginePath::ChecksumFile.segments(Platform::Linux), vec!["cef", "checksum"]);
    assert_eq!(EnginePath::CacheDir.segments(Platform::Windows), vec!["cefcache"]);
    assert_eq!(EnginePath::StagingDir.segments(Platform::Windows), vec!["huly-cef"]);
    assert_eq!(
        EnginePath::StagedExecutable.segments(Platform::Windows),
        vec!["huly-cef", "huly-cef-websockets.exe"]
    );
}

#[test]
fn get_cef_paths_joins_names_to_host_directories() {
    let dirs = host(Some("/opt/app/resources"), Some("/home/u/.cache/app"), Some("/tmp"));
    let (install, cache) = get_cef_paths(&dirs).unwrap();
    assert_eq!(install, Location { base: "/opt/app/resources".to_string(), segments: vec!["cef"] });
    assert_eq!(cache, Location { base: "/home/u/.cache/app".to_string(), segments: vec!["cefcache"] });
}

#[test]
fn get_cef_paths_names_the_missing_directory() {
    let no_resource = host(None, Some("/cache"), Some("/tmp"));
    assert_eq!(
        get_cef_paths(&no_resource),
        Err(LifecycleError::DirectoryNotFound { root: HostRoot::ResourceDir })
    );
    let neither = host(None, None, None);
    assert_eq!(
        get_cef_paths(&neither),
        Err(LifecycleError::DirectoryNotFound { root: HostRoot::ResourceDir })
    );
    let no_cache = host(Some("/res"), None, None);
    assert_eq!(
        get_cef_paths(&no_cache),
        Err(LifecycleError::DirectoryNotFound { root: HostRoot::AppCacheDir })
    );
}

#[test]
fn locate_fails_only_for_the_root_it_needs() {
    let dirs = host(Some("/res"), None, Some("/tmp"));
    assert_eq!(
        dirs.locate(EnginePath::StagedExecutable, Platform::Linux),
        Ok(Location { base: "/tmp".to_string(), segments: vec!["huly-cef", "huly-cef-websockets"] })
    );
    assert_eq!(
        dirs.locate(EnginePath::CacheDir, Platform::Linux),
        Err(LifecycleError::DirectoryNotFound { root: HostRoot::AppCacheDir })
    );
}

#[test]
fn messages_of_every_error() {
    let cause = || "boom".to_string();
    assert_eq!(
        LifecycleError::DirectoryNotFound { root: HostRoot::ResourceDir }.message(),
        "app resource directory not found"
    );
    assert_eq!(
        LifecycleError::DirectoryNotFound { root: HostRoot::AppCacheDir }.message(),
        "app cache directory not found"
    );
    assert_eq!(
        LifecycleError::DirectoryNotFound { root: HostRoot::TempDir }.message(),
        "temporary directory not found"
    );
    assert_eq!(
        LifecycleError::DigestFetch { cause: cause() }.message(),
        "failed to download checksum: boom"
    );
    assert_eq!(
        LifecycleError::Provision { stage: ProvisionStage::Fetch, cause: cause() }.message(),
        "failed to download CEF: boom"
    );
    assert_eq!(
        LifecycleError::Provision { stage: ProvisionStage::Unpack, cause: cause() }.message(),
        "failed to extract CEF archive: boom"
    );
    assert_eq!(
        LifecycleError::Provision { stage: ProvisionStage::PersistDigest, cause: cause() }.message(),
        "failed to save checksum: boom"
    );
    assert_eq!(LifecycleError::Copy { cause: cause() }.message(), "failed to copy CEF: boom");
    assert_eq!(
        LifecycleError::NoPortAvailable.message(),
        "couldn't find available port: No available ports found"
    );
    assert_eq!(
        LifecycleError::Spawn { port: 10000, cache_dir: "/c".to_string(), cause: cause() }.message(),
        "failed to launch CEF with params port 10000 cache-dir /c: boom"
    );
    assert_eq!(
        LifecycleError::HealthCheck { port: 10001, last_failure: cause() }.message(),
        "CEF failed to start with params port 10001: CEF healthcheck failed: boom"
    );
    assert_eq!(LifecycleError::Connect { cause: cause() }.message(), "failed to connect to CEF: boom");
    assert_eq!(
        LifecycleError::ShutdownSend { cause: cause() }.message(),
        "failed to send close request: boom"
    );
    assert_eq!(LifecycleError::AlreadyRunning.message(), "CEF is already running");
}

#[test]
fn clone_of_an_error_is_equal_to_it() {
    let error = LifecycleError::Spawn { port: 3, cache_dir: "c".to_string(), cause: "x".to_string() };
    assert_eq!(error.clone(), error);
    assert_eq!(LifecycleError::NoPortAvailable.clone(), LifecycleError::NoPortAvailable);
}
