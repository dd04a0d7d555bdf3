use webhook_inspect::render::BodyKind;
use webhook_inspect::report::{build_report, display_secret, handle, header_lines};
use webhook_inspect::request::{Config, Header, RequestSnapshot};
use webhook_inspect::signature::VerificationOutcome;

const SIGNED_JSON_DIGEST: &str = "c2f8671f4859f66af5d8899d6f021108b8a35be21bea4b8a9d0f8c48e040d78f";

fn request(headers: Vec<Header>, body: &[u8]) -> RequestSnapshot {
    RequestSnapshot::new("POST".to_string(), "/hooks/in".to_string(), headers, body.to_vec())
}

#[test]
fn report_of_signed_request() {
    let config = Config::new(b"sk_test".to_vec());
    let req = request(
        vec![Header::new(
            "x-super-signature".to_string(),
            format!("sha256={}", SIGNED_JSON_DIGEST).into_bytes(),
        )],
        br#"{"a":1}"#,
    );
    let report = build_report(&config, &req, "2024-01-02 03:04:05".to_string());
    assert_eq!(report.timestamp, "2024-01-02 03:04:05");
    assert_eq!(report.method, "POST");
    assert_eq!(report.path, "/hooks/in");
    assert_eq!(report.status, 200);
    assert_eq!(report.outcome, VerificationOutcome::Passed);
    assert_eq!(report.body.kind, BodyKind::PrettyJson);
    let d = report.digests.unwrap();
    assert_eq!(d.secret, "sk_test");
    assert_eq!(d.expected, SIGNED_JSON_DIGEST);
    assert_eq!(d.received, SIGNED_JSON_DIGEST);
    assert_eq!(report.headers.len(), 1);
    assert_eq!(report.headers[0].name, "x-super-signature");
    assert_eq!(report.headers[0].value, format!("sha256={}...", &SIGNED_JSON_DIGEST[..40]));
}

#[test]
fn report_without_signature_has_no_digests() {
    let config = Config::new(b"sk_test".to_vec());
    let req = request(vec![Header::new("accept".to_string(), b"*/*".to_vec())], b"");
    let (status, report) = handle(&config, &req);
    assert_eq!(status, 200);
    assert_eq!(report.outcome, VerificationOutcome::Skipped);
    assert!(report.digests.is_none());
    assert_eq!(report.body.kind, BodyKind::Empty);
    assert_eq!(report.timestamp.len(), 19);
}

#[test]
fn report_of_malformed_header() {
    let config = Config::new(b"sk_test".to_vec());
    let req = request(
        vec![Header::new("X-Super-Signature".to_string(), b"sha256".to_vec())],
        b"x",
    );
    let (status, report) = handle(&config, &req);
    assert_eq!(status, 400);
    assert_eq!(report.outcome, VerificationOutcome::FailedMalformedHeader);
    assert!(report.digests.is_none());
}

#[test]
fn report_of_mismatch_shows_both_digests() {
    let config = Config::new(b"sk_test".to_vec());
    let req = request(
        vec![Header::new("x-super-signature".to_string(), b"sha256=00ff".to_vec())],
        br#"{"a":1}"#,
    );
    let (status, report) = handle(&config, &req);
    assert_eq!(status, 401);
    let d = report.digests.unwrap();
    assert_eq!(d.expected, SIGNED_JSON_DIGEST);
    assert_eq!(d.received, "00ff");
}

#[test]
fn header_lines_keep_order_and_duplicates() {
    let headers = vec![
        Header::new("b".to_string(), b"1".to_vec()),
        Header::new("a".to_string(), vec![0xFF]),
        Header::new("b".to_string(), b"2".to_vec()),
    ];
    let lines = header_lines(&headers);
    let shown: Vec<(String, String)> =
        lines.into_iter().map(|l| (l.name, l.value)).collect();
    assert_eq!(
        shown,
        vec![
            ("b".to_string(), "1".to_string()),
            ("a".to_string(), "<binary>".to_string()),
            ("b".to_string(), "2".to_string()),
        ]
    );
}

#[test]
fn secret_display_falls_back_for_binary() {
    assert_eq!(display_secret(b"sk_prod_123456"), "sk_prod_123456");
    assert_eq!(display_secret(&[0xFF]), "<binary>");
}

#[test]
fn outcome_labels() {
    assert_eq!(VerificationOutcome::Passed.label(), "PASS");
    assert_eq!(VerificationOutcome::FailedMismatch.label(), "FAIL (Mismatch)");
    assert_eq!(VerificationOutcome::FailedMalformedHeader.label(), "FAIL (Format Error)");
    assert_eq!(VerificationOutcome::FailedUndecodableHeader.label(), "FAIL (Undecodable Header)");
    assert_eq!(VerificationOutcome::Skipped.label(), "SKIPPED (No Header)");
}
