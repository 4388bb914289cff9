use wasmedgeup::downloader::{Downloader, FetchError};

const EMPTY_SHA256: &str = "e3b0c44298fc1c149afbf4c8996fb92427ae41e4649b934ca495991b7852b855";
const ABC_SHA256: &str = "ba7816bf8f01cfea414140de5dae2223b00361a396177a9cb410ff61f20015ad";

#[test]
fn checksum_accepts_matching_digest() {
    let d = Downloader::new();
    assert!(d.verify_checksum(b"", EMPTY_SHA256));
    assert!(d.verify_checksum(b"abc", ABC_SHA256));
}

#[test]
fn checksum_rejects_mismatch_without_error() {
    let d = Downloader::new();
    assert!(!d.verify_checksum(b"abd", ABC_SHA256));
    assert!(!d.verify_checksum(b"abc", EMPTY_SHA256));
}

#[test]
fn checksum_comparison_is_case_sensitive() {
    let d = Downloader::new();
    let upper = ABC_SHA256.to_uppercase();
    assert!(!d.verify_checksum(b"abc", &upper));
}

#[test]
fn status_404_is_a_hard_failure() {
    let d = Downloader::new();
    match d.check_status(404) {
        Err(FetchError::HttpStatus(s)) => assert_eq!(s, 404),
        other => panic!("expected an HTTP status error, got {:?}", other),
    }
}

#[test]
fn status_2xx_succeeds_and_others_fail() {
    let d = Downloader::new();
    assert!(d.check_status(200).is_ok());
    assert!(d.check_status(299).is_ok());
    assert_eq!(d.check_status(301), Err(FetchError::HttpStatus(301)));
    assert_eq!(d.check_status(500), Err(FetchError::HttpStatus(500)));
    assert_eq!(d.check_status(199), Err(FetchError::HttpStatus(199)));
}

#[test]
fn progress_grows_and_is_clamped() {
    let d = Downloader::new();
    assert_eq!(d.next_progress(0, 100, 1000), 100);
    assert_eq!(d.next_progress(950, 100, 1000), 1000);
    assert_eq!(d.next_progress(1000, 100, 1000), 1000);
    assert_eq!(d.next_progress(5, 0, 8), 5);
}
