use karate_cli::download::DownloadDecision;
use karate_cli::download::DownloadSlots;
use karate_cli::download::GitHubAsset;
use karate_cli::download::GitHubRelease;
use karate_cli::download::checksum_matches;
use karate_cli::download::decide_download;
use karate_cli::download::find_asset;
use karate_cli::download::release_version;
use karate_cli::error::KarateError;

const ABC_SHA256: &str = "ba7816bf8f01cfea414140de5dae2223b00361a396177a9cb410ff61f20015ad";

#[test]
fn test_decide_download_matching_checksum() {
    let content: Vec<u8> = b"abc".to_vec();
    let expected = ABC_SHA256.to_string();
    let d = decide_download(&content, Some(&expected));
    assert!(matches!(d, DownloadDecision::Publish));
}

#[test]
fn test_decide_download_is_case_insensitive() {
    let content: Vec<u8> = b"abc".to_vec();
    let expected = ABC_SHA256.to_uppercase();
    let d = decide_download(&content, Some(&expected));
    assert!(matches!(d, DownloadDecision::Publish));
}

#[test]
fn test_decide_download_mismatch_reports_actual_digest() {
    let content: Vec<u8> = b"abc".to_vec();
    let expected = "0000000000000000000000000000000000000000000000000000000000000000".to_string();
    match decide_download(&content, Some(&expected)) {
        DownloadDecision::RejectChecksum { expected: e, actual } => {
            assert_eq!(e, expected);
            assert_eq!(actual, ABC_SHA256);
        }
        other => panic!("expected rejection, got {:?}", other),
    }
}

#[test]
fn test_finish_download_mismatch_leaves_no_destination() {
    // the destination did not exist; the stream has filled the temporary file
    let content: Vec<u8> = b"abc".to_vec();
    let slots = DownloadSlots { dest: None, temp: Some(content.clone()) };
    let expected = "1111111111111111111111111111111111111111111111111111111111111111".to_string();
    let (after, result) = slots.finish(content, Some(&expected), "artifact.jar");
    assert!(after.dest.is_none());
    assert!(after.temp.is_none());
    match result {
        Err(KarateError::ChecksumMismatch { file, expected: e, actual }) => {
            assert_eq!(file, "artifact.jar");
            assert_eq!(e, expected);
            assert_eq!(actual, ABC_SHA256);
        }
        other => panic!("expected checksum mismatch, got {:?}", other),
    }
}

#[test]
fn test_finish_download_without_checksum_publishes_content() {
    let content: Vec<u8> = vec![1, 2, 3, 4, 5];
    let slots = DownloadSlots { dest: None, temp: Some(content.clone()) };
    let (after, result) = slots.finish(content.clone(), None, "artifact.jar");
    assert!(result.is_ok());
    assert_eq!(after.dest, Some(content));
    assert!(after.temp.is_none());
}

#[test]
fn test_finish_download_with_checksum_publishes_content() {
    let content: Vec<u8> = b"abc".to_vec();
    let slots = DownloadSlots { dest: None, temp: Some(content.clone()) };
    let expected = ABC_SHA256.to_string();
    let (after, result) = slots.finish(content.clone(), Some(&expected), "artifact.jar");
    assert!(result.is_ok());
    assert_eq!(after.dest, Some(content));
    assert!(after.temp.is_none());
}

#[test]
fn test_checksum_matches() {
    assert!(checksum_matches("ABCDEF01", "abcdef01"));
    assert!(checksum_matches("abcdef01", "abcdef01"));
    assert!(!checksum_matches("abcdef01", "abcdef02"));
    assert!(!checksum_matches("abc", "abcd"));
}

#[test]
fn test_release_version_trims_tag() {
    assert_eq!(release_version("v1.5.2"), "1.5.2");
    assert_eq!(release_version("1.5.2"), "1.5.2");
    assert_eq!(release_version("vv2"), "2");
}

#[test]
fn test_find_asset() {
    let release = GitHubRelease {
        tag_name: "v1.5.2".to_string(),
        assets: vec![
            GitHubAsset {
                name: "karate-robot-1.5.2.jar".to_string(),
                browser_download_url: "https://example.test/robot.jar".to_string(),
            },
            GitHubAsset {
                name: "karate-1.5.2.jar".to_string(),
                browser_download_url: "https://example.test/karate.jar".to_string(),
            },
        ],
    };
    let a = find_asset(&release, "karate-1.5.2.jar").expect("asset");
    assert_eq!(a.browser_download_url, "https://example.test/karate.jar");
    assert!(find_asset(&release, "missing.jar").is_none());
}
