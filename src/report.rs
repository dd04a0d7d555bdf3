use vstd::prelude::*;
use vstd::utf8::*;
use crate::hexcode::lemma_hex_lower_is_text;
use crate::render::{RenderedBody, is_rendering, render_body};
use crate::request::{Config, Header, RequestSnapshot};
use crate::signature::{
    first_eq_from,
    VerificationOutcome, check_signature, expected_digest, first_eq, outcome_of,
    received_digest, signature_value, status_for,
};
use crate::text::{
    binary_marker, binary_text, display_header_value, header_display, is_ascii_bytes,
    is_header_text, lemma_ascii_is_utf8, utf8_text,
};

verus! {

/// Relies on chrono::Local::now: the local time, as `YYYY-MM-DD HH:MM:SS`.
/// Nothing is stated of it: it depends on the clock.
#[verifier::external_body]
fn local_timestamp() -> (r: String) {
    chrono::Local::now().format("%Y-%m-%d %H:%M:%S").to_string()
}

/// One header as shown in the report.
pub struct HeaderLine {
    pub name: String,
    pub value: String,
}

/// The verification details shown when a digest was compared.
pub struct DigestLines {
    pub secret: String,
    pub expected: String,
    pub received: String,
}

/// Everything shown for one request, in the order it is shown.
pub struct Report {
    pub timestamp: String,
    pub method: String,
    pub path: String,
    pub headers: Vec<HeaderLine>,
    pub body: RenderedBody,
    pub outcome: VerificationOutcome,
    pub digests: Option<DigestLines>,
    pub status: u16,
}

/// The secret as shown: its text when it is UTF-8, else a placeholder.
pub open spec fn secret_display(s: Seq<u8>) -> Seq<char> {
    if valid_utf8(s) {
        decode_utf8(s)
    } else {
        binary_marker()
    }
}

/// The label of an outcome in the report.
pub open spec fn outcome_label(o: VerificationOutcome) -> Seq<char> {
    match o {
        VerificationOutcome::Skipped => "SKIPPED (No Header)"@,
        VerificationOutcome::Passed => "PASS"@,
        VerificationOutcome::FailedMismatch => "FAIL (Mismatch)"@,
        VerificationOutcome::FailedMalformedHeader => "FAIL (Format Error)"@,
        VerificationOutcome::FailedUndecodableHeader => "FAIL (Undecodable Header)"@,
    }
}

impl VerificationOutcome {
    /// The label shown for this outcome.
    pub fn label(&self) -> (r: String)
        ensures
            r@ == outcome_label(*self),
    {
        match self {
            VerificationOutcome::Skipped => String::from_str("SKIPPED (No Header)"),
            VerificationOutcome::Passed => String::from_str("PASS"),
            VerificationOutcome::FailedMismatch => String::from_str("FAIL (Mismatch)"),
            VerificationOutcome::FailedMalformedHeader => String::from_str("FAIL (Format Error)"),
            VerificationOutcome::FailedUndecodableHeader => String::from_str(
                "FAIL (Undecodable Header)",
            ),
        }
    }
}

/// The header lines show each header in order, with its value as
/// `header_display` gives it.
pub open spec fn shows_headers(lines: Seq<HeaderLine>, hs: Seq<Header>) -> bool {
    &&& lines.len() == hs.len()
    &&& forall|i: int|
        0 <= i < hs.len() ==> (#[trigger] lines[i]).name@ == hs[i].name@ && lines[i].value@
            == header_display(hs[i].value@)
}

/// `rep` reports `req`, checked under `secret`, at time `ts`.
pub open spec fn is_report_of(secret: Seq<u8>, req: RequestSnapshot, ts: Seq<char>, rep: Report) -> bool {
    let o = outcome_of(secret, req.headers@, req.body@);
    &&& rep.timestamp@ == ts
    &&& rep.method@ == req.method@
    &&& rep.path@ == req.path@
    &&& shows_headers(rep.headers@, req.headers@)
    &&& is_rendering(req.body@, rep.body.kind, rep.body.text@)
    &&& rep.outcome == o
    &&& rep.status == status_for(o)
    &&& (rep.digests is Some <==> match signature_value(req.headers@) {
        None => false,
        Some(v) => is_header_text(v) && first_eq(v) is Some,
    })
    &&& (rep.digests is Some ==> {
        let d = rep.digests->0;
        &&& d.secret@ == secret_display(secret)
        &&& d.expected@ == decode_utf8(expected_digest(secret, req.body@))
        &&& d.received@ == decode_utf8(received_digest(signature_value(req.headers@)->0))
    })
}

/// The header lines of the report, one per header, in order.
pub fn header_lines(headers: &Vec<Header>) -> (r: Vec<HeaderLine>)
    ensures
        shows_headers(r@, headers@),
{
    let mut lines: Vec<HeaderLine> = Vec::new();
    let mut i: usize = 0;
    while i < headers.len()
        invariant
            0 <= i <= headers@.len(),
            lines@.len() == i,
            forall|j: int|
                0 <= j < i ==> (#[trigger] lines@[j]).name@ == headers@[j].name@
                    && lines@[j].value@ == header_display(headers@[j].value@),
        decreases headers@.len() - i,
    {
        let h = &headers[i];
        let line = HeaderLine { name: h.name.clone(), value: display_header_value(h.value.as_slice()) };
        lines.push(line);
        i = i + 1;
    }
    lines
}

/// Shows bytes that are known to be ASCII as text.
fn ascii_text(v: &[u8]) -> (r: String)
    requires
        is_ascii_bytes(v@),
    ensures
        r@ == decode_utf8(v@),
{
    proof {
        lemma_ascii_is_utf8(v@);
    }
    match utf8_text(v) {
        Some(s) => s,
        None => binary_text(),
    }
}

/// Shows the secret: see `secret_display`.
pub fn display_secret(secret: &[u8]) -> (r: String)
    ensures
        r@ == secret_display(secret@),
{
    match utf8_text(secret) {
        Some(s) => s,
        None => binary_text(),
    }
}

proof fn lemma_digest_is_ascii(v: Seq<u8>)
    requires
        is_header_text(v),
        first_eq(v) is Some,
        0 <= first_eq(v)->0 < v.len(),
    ensures
        is_ascii_bytes(received_digest(v)),
{
    let d = received_digest(v);
    let k = first_eq(v)->0 + 1;
    assert forall|i: int| 0 <= i < d.len() implies #[trigger] d[i] < 128 by {
        assert(d[i] == v[i + k]);
        assert(crate::text::is_text_byte(v[i + k]));
    }
}

proof fn lemma_first_eq_in_range(v: Seq<u8>, i: int)
    requires
        first_eq_from(v, i) is Some,
    ensures
        i <= first_eq_from(v, i)->0 < v.len(),
    decreases v.len() - i,
{
    if 0 <= i < v.len() && v[i] != 61 {
        lemma_first_eq_in_range(v, i + 1);
    }
}

/// Builds the report of a request checked under the configured secret, with
/// the given timestamp.
pub fn build_report(config: &Config, req: &RequestSnapshot, timestamp: String) -> (r: Report)
    ensures
        is_report_of(config.secret@, *req, timestamp@, r),
{
    let headers = header_lines(&req.headers);
    let body = render_body(req.body.as_slice());
    let check = check_signature(config.secret.as_slice(), &req.headers, req.body.as_slice());
    let status = check.outcome.status_code();
    let digests = match check.digests {
        None => None,
        Some(pair) => {
            proof {
                let v = signature_value(req.headers@)->0;
                lemma_first_eq_in_range(v, 0);
                lemma_digest_is_ascii(v);
                lemma_hex_lower_is_text(crate::mac::hmac_sha256_of(config.secret@, req.body@));
            }
            Some(
                DigestLines {
                    secret: display_secret(config.secret.as_slice()),
                    expected: ascii_text(pair.expected.as_slice()),
                    received: ascii_text(pair.received.as_slice()),
                },
            )
        },
    };
    Report {
        timestamp,
        method: req.method.clone(),
        path: req.path.clone(),
        headers,
        body,
        outcome: check.outcome,
        digests,
        status,
    }
}

/// Handles one request: builds its report, stamped with the local time, and
/// the status code to answer with.
pub fn handle(config: &Config, req: &RequestSnapshot) -> (r: (u16, Report))
    ensures
        r.0 == status_for(outcome_of(config.secret@, req.headers@, req.body@)),
        is_report_of(config.secret@, *req, r.1.timestamp@, r.1),
{
    let report = build_report(config, req, local_timestamp());
    (report.status, report)
}

} // verus!
