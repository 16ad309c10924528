use cef_lifecycle::digest::{download_checksum, DigestFetch, FetchAction};
use cef_lifecycle::error::LifecycleError;
use cef_lifecycle::install::{compare_checksums, is_cef_present, CheckAction, InstallCheck};
use cef_lifecycle::paths::EnginePath;
use cef_lifecycle::platform::Platform;
use cef_lifecycle::reply::Reply;

const URL: &str = "https://example.org/engine.zip";

/// Runs a check against a disk with this local checksum and a remote source that
/// answers like this. The log names what the host was asked for.
fn check_with(
    mut check: InstallCheck,
    local: Option<&str>,
    remote: Result<&str, &str>,
) -> (Result<bool, LifecycleError>, Vec<String>) {
    let mut log = Vec::new();
    loop {
        match check.action() {
            CheckAction::ReadChecksum { path } => {
                log.push(format!("read {path:?}"));
                check = check.advance(match local {
                    Some(text) => Reply::Text(text.to_string()),
                    None => Reply::Failed("no such file".to_string()),
                });
            }
            CheckAction::FetchDigest { address } => {
                log.push(format!("get {address}"));
                check = check.advance(match remote {
                    Ok(text) => Reply::Text(text.to_string()),
                    Err(cause) => Reply::Failed(cause.to_string()),
                });
            }
            CheckAction::Done { present } => return (Ok(present), log),
            CheckAction::Fail { error } => return (Err(error), log),
        }
    }
}

#[test]
fn no_local_checksum_means_absent_without_any_download() {
    let (outcome, log) = check_with(compare_checksums(URL), None, Ok("abc123"));
    assert_eq!(outcome, Ok(false));
    assert_eq!(log, vec!["read ChecksumFile"]);
}

#[test]
fn no_local_checksum_means_absent_even_if_the_remote_is_down() {
    let (outcome, log) = check_with(compare_checksums(URL), None, Err("offline"));
    assert_eq!(outcome, Ok(false));
    assert_eq!(log, vec!["read ChecksumFile"]);
}

#[test]
fn differing_digests_mean_stale() {
    let (outcome, log) = check_with(compare_checksums(URL), Some("abc123"), Ok("def456"));
    assert_eq!(outcome, Ok(false));
    assert_eq!(log, vec!["read ChecksumFile", "get https://example.org/engine.zip.sha256"]);
}

#[test]
fn equal_digests_mean_present() {
    let (outcome, _) = check_with(compare_checksums(URL), Some("abc123"), Ok("abc123"));
    assert_eq!(outcome, Ok(true));
}

#[test]
fn digests_are_compared_as_they_stand() {
    let (outcome, _) = check_with(compare_checksums(URL), Some("abc123"), Ok("abc123\n"));
    assert_eq!(outcome, Ok(false));
    let (outcome, _) = check_with(compare_checksums(URL), Some(""), Ok(""));
    assert_eq!(outcome, Ok(true));
}

#[test]
fn unreachable_digest_is_an_error_not_absent() {
    let (outcome, _) = check_with(compare_checksums(URL), Some("abc123"), Err("offline"));
    assert_eq!(outcome, Err(LifecycleError::DigestFetch { cause: "offline".to_string() }));
}

#[test]
fn check_is_stable_across_two_runs() {
    for (local, remote) in [(Some("abc123"), "abc123"), (Some("abc123"), "def456"), (None, "abc123")] {
        let (first, _) = check_with(compare_checksums(URL), local, Ok(remote));
        let (second, _) = check_with(compare_checksums(URL), local, Ok(remote));
        assert_eq!(first, second);
    }
}

#[test]
fn is_cef_present_checks_against_the_platform_archive() {
    let (_, log) = check_with(is_cef_present(Platform::Linux), Some("x"), Ok("x"));
    assert_eq!(
        log[1],
        "get https://github.com/hulylabs/huly-cef/releases/latest/download/huly-cef-linux.zip.sha256"
    );
    assert_eq!(is_cef_present(Platform::Windows).action(), CheckAction::ReadChecksum { path: EnginePath::ChecksumFile });
}

#[test]
fn check_ignores_replies_that_do_not_fit() {
    let check = compare_checksums(URL).advance(Reply::Completed);
    assert_eq!(check, compare_checksums(URL));
    let fetching = compare_checksums(URL).advance(Reply::Text("a".to_string())).advance(Reply::Completed);
    assert_eq!(fetching, compare_checksums(URL).advance(Reply::Text("a".to_string())));
    let decided = InstallCheck::Decided { present: true }.advance(Reply::Failed("x".to_string()));
    assert_eq!(decided, InstallCheck::Decided { present: true });
}

#[test]
fn digest_fetch_asks_for_the_address_with_suffix() {
    let fetch = download_checksum(URL);
    assert_eq!(fetch.action(), FetchAction::Get { address: format!("{URL}.sha256") });
}

#[test]
fn digest_fetch_takes_the_body_or_the_failure() {
    let fetched = download_checksum(URL).advance(Reply::Text("abc123".to_string()));
    assert_eq!(fetched, DigestFetch::Fetched { digest: "abc123".to_string() });
    assert_eq!(fetched.action(), FetchAction::Done { digest: "abc123".to_string() });
    let failed = download_checksum(URL).advance(Reply::Failed("offline".to_string()));
    assert_eq!(
        failed.action(),
        FetchAction::Fail { error: LifecycleError::DigestFetch { cause: "offline".to_string() } }
    );
    assert_eq!(download_checksum(URL).advance(Reply::Completed), download_checksum(URL));
    assert_eq!(
        failed.advance(Reply::Text("late".to_string())),
        DigestFetch::Failed { cause: "offline".to_string() }
    );
}
