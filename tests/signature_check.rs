use webhook_inspect::mac::constant_time_eq;
use webhook_inspect::request::{Config, Header, RequestSnapshot};
use webhook_inspect::signature::{
    check_signature, find_signature_header, is_signature_header, verify_signature,
    VerificationOutcome,
};

const SIGNED_JSON_DIGEST: &str = "c2f8671f4859f66af5d8899d6f021108b8a35be21bea4b8a9d0f8c48e040d78f";
const SIGNED_BINARY_DIGEST: &str =
    "3551f79b3362197d6e368ddb5a9bcc5e66c39a68aa4356a18ff90861fc3e11a0";

fn header(name: &str, value: &[u8]) -> Header {
    Header::new(name.to_string(), value.to_vec())
}

fn signed(digest: &str) -> Vec<u8> {
    format!("sha256={}", digest).into_bytes()
}

fn outcome(secret: &[u8], headers: Vec<Header>, body: &[u8]) -> VerificationOutcome {
    verify_signature(secret, &headers, body)
}

#[test]
fn signed_json_body_passes() {
    let headers = vec![
        header("content-type", b"application/json"),
        header("x-super-signature", &signed(SIGNED_JSON_DIGEST)),
    ];
    let o = outcome(b"sk_test", headers, br#"{"a":1}"#);
    assert_eq!(o, VerificationOutcome::Passed);
    assert_eq!(o.status_code(), 200);
}

#[test]
fn altered_digest_is_a_mismatch() {
    let mut digest = SIGNED_JSON_DIGEST.to_string();
    digest.replace_range(0..1, "d");
    let headers = vec![header("x-super-signature", &signed(&digest))];
    let o = outcome(b"sk_test", headers, br#"{"a":1}"#);
    assert_eq!(o, VerificationOutcome::FailedMismatch);
    assert_eq!(o.status_code(), 401);
}

#[test]
fn uppercase_digest_is_a_mismatch() {
    let digest = SIGNED_JSON_DIGEST.to_uppercase();
    let headers = vec![header("x-super-signature", &signed(&digest))];
    assert_eq!(outcome(b"sk_test", headers, br#"{"a":1}"#), VerificationOutcome::FailedMismatch);
}

#[test]
fn signature_over_other_body_is_a_mismatch() {
    let headers = vec![header("x-super-signature", &signed(SIGNED_JSON_DIGEST))];
    assert_eq!(outcome(b"sk_test", headers, br#"{"a":2}"#), VerificationOutcome::FailedMismatch);
}

#[test]
fn other_secret_is_a_mismatch() {
    let headers = vec![header("x-super-signature", &signed(SIGNED_JSON_DIGEST))];
    assert_eq!(outcome(b"sk_live", headers, br#"{"a":1}"#), VerificationOutcome::FailedMismatch);
}

#[test]
fn binary_body_is_verified_on_its_bytes() {
    let headers = vec![header("X-Super-Signature", &signed(SIGNED_BINARY_DIGEST))];
    assert_eq!(outcome(b"sk_test", headers, &[0xFF, 0xFE, 0x00]), VerificationOutcome::Passed);
}

#[test]
fn missing_header_is_skipped() {
    let headers = vec![header("content-type", b"text/plain")];
    let o = outcome(b"sk_test", headers, b"hello");
    assert_eq!(o, VerificationOutcome::Skipped);
    assert_eq!(o.status_code(), 200);
}

#[test]
fn header_without_separator_is_malformed() {
    let headers = vec![header("x-super-signature", b"sha256")];
    let o = outcome(b"sk_test", headers, br#"{"a":1}"#);
    assert_eq!(o, VerificationOutcome::FailedMalformedHeader);
    assert_eq!(o.status_code(), 400);
}

#[test]
fn non_text_header_is_undecodable() {
    let mut value = b"sha256=".to_vec();
    value.push(0xFF);
    let headers = vec![header("x-super-signature", &value)];
    let o = outcome(b"sk_test", headers, br#"{"a":1}"#);
    assert_eq!(o, VerificationOutcome::FailedUndecodableHeader);
    assert_eq!(o.status_code(), 400);
}

#[test]
fn control_byte_header_is_undecodable() {
    let headers = vec![header("x-super-signature", b"sha256=\x01")];
    assert_eq!(outcome(b"k", headers, b""), VerificationOutcome::FailedUndecodableHeader);
}

#[test]
fn header_name_lookup_ignores_case() {
    assert!(is_signature_header("X-Super-Signature"));
    assert!(is_signature_header("x-super-signature"));
    assert!(is_signature_header("X-SUPER-SIGNATURE"));
    assert!(!is_signature_header("X-Super-Signature2"));
    assert!(!is_signature_header("X_Super_Signature"));
    assert!(!is_signature_header(""));
}

#[test]
fn first_signature_header_is_used() {
    let headers = vec![
        header("accept", b"*/*"),
        header("X-SUPER-SIGNATURE", &signed(SIGNED_JSON_DIGEST)),
        header("x-super-signature", b"sha256"),
    ];
    assert_eq!(find_signature_header(&headers), Some(1));
    assert_eq!(outcome(b"sk_test", headers, br#"{"a":1}"#), VerificationOutcome::Passed);
}

#[test]
fn split_is_on_first_separator() {
    let headers = vec![header("x-super-signature", b"sha256=abc=def")];
    let check = check_signature(b"sk_test", &headers, br#"{"a":1}"#);
    assert_eq!(check.outcome, VerificationOutcome::FailedMismatch);
    let digests = check.digests.unwrap();
    assert_eq!(digests.received, b"abc=def".to_vec());
    assert_eq!(digests.expected, SIGNED_JSON_DIGEST.as_bytes().to_vec());
}

#[test]
fn tag_is_not_checked() {
    let headers = vec![header("x-super-signature", &format!("md5={}", SIGNED_JSON_DIGEST).into_bytes())];
    assert_eq!(outcome(b"sk_test", headers, br#"{"a":1}"#), VerificationOutcome::Passed);
}

#[test]
fn empty_key_and_body_digest() {
    let headers = vec![header(
        "x-super-signature",
        b"=b613679a0814d9ec772f95d778c35fc5ff1697c493715653c6c712144292c5ad",
    )];
    assert_eq!(outcome(b"", headers, b""), VerificationOutcome::Passed);
}

#[test]
fn long_secret_is_accepted() {
    let secret = vec![7u8; 200];
    let headers = vec![header("x-super-signature", b"sha256=00")];
    assert_eq!(outcome(&secret, headers, b"x"), VerificationOutcome::FailedMismatch);
}

#[test]
fn verifying_twice_gives_the_same_outcome() {
    let headers = vec![header("x-super-signature", &signed(SIGNED_JSON_DIGEST))];
    let first = verify_signature(b"sk_test", &headers, br#"{"a":1}"#);
    let second = verify_signature(b"sk_test", &headers, br#"{"a":1}"#);
    assert_eq!(first, second);
}

#[test]
fn constant_time_eq_compares_whole_strings() {
    assert!(constant_time_eq(b"abc", b"abc"));
    assert!(constant_time_eq(b"", b""));
    assert!(!constant_time_eq(b"abc", b"abd"));
    assert!(!constant_time_eq(b"abc", b"ab"));
    assert!(!constant_time_eq(b"xbc", b"abc"));
}

#[test]
fn status_codes_follow_outcomes() {
    assert_eq!(VerificationOutcome::Skipped.status_code(), 200);
    assert_eq!(VerificationOutcome::Passed.status_code(), 200);
    assert_eq!(VerificationOutcome::FailedMismatch.status_code(), 401);
    assert_eq!(VerificationOutcome::FailedMalformedHeader.status_code(), 400);
    assert_eq!(VerificationOutcome::FailedUndecodableHeader.status_code(), 400);
}

#[test]
fn request_snapshot_keeps_body_bytes() {
    let req = RequestSnapshot::new(
        "POST".to_string(),
        "/hook".to_string(),
        vec![header("x-super-signature", &signed(SIGNED_JSON_DIGEST))],
        br#"{"a":1}"#.to_vec(),
    );
    let config = Config::new(b"sk_test".to_vec());
    assert_eq!(req.body, br#"{"a":1}"#.to_vec());
    assert_eq!(
        verify_signature(&config.secret, &req.headers, &req.body),
        VerificationOutcome::Passed
    );
}
