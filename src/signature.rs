use vstd::prelude::*;
use crate::hexcode::{hex_lower, hex_encode};
use crate::mac::{hmac_sha256_of, hmac_sha256, constant_time_eq};
use crate::request::Header;
use crate::text::{is_header_text, header_is_text};

verus! {

/// How the signature check of one request came out.
#[derive(Clone, Copy, Debug, PartialEq, Eq, Structural)]
pub enum VerificationOutcome {
    /// No signature header: the check is not asked for.
    Skipped,
    /// The received digest equals the computed one.
    Passed,
    /// The received digest differs from the computed one.
    FailedMismatch,
    /// The header value has no `=` between tag and digest.
    FailedMalformedHeader,
    /// The header value is not printable text.
    FailedUndecodableHeader,
}

/// `X-Super-Signature` in lowercase: the header that carries the signature.
pub open spec fn signature_header_name() -> Seq<char> {
    seq![
        'x', '-', 's', 'u', 'p', 'e', 'r', '-', 's', 'i', 'g', 'n', 'a', 't', 'u', 'r', 'e',
    ]
}

/// `c` equals the lowercase character `t` up to ASCII case.
pub open spec fn char_matches(c: char, t: char) -> bool {
    c == t || ('a' <= t && t <= 'z' && c as u32 + 32 == t as u32)
}

/// A header name that names the signature header, in any ASCII case.
pub open spec fn is_signature_name(name: Seq<char>) -> bool {
    &&& name.len() == signature_header_name().len()
    &&& forall|i: int|
        0 <= i < name.len() ==> char_matches(#[trigger] name[i], signature_header_name()[i])
}

/// The value of the first signature header at or after position `i`.
pub open spec fn signature_value_from(hs: Seq<Header>, i: int) -> Option<Seq<u8>>
    decreases hs.len() - i,
{
    if i < 0 || i >= hs.len() {
        None
    } else if is_signature_name(hs[i].name@) {
        Some(hs[i].value@)
    } else {
        signature_value_from(hs, i + 1)
    }
}

/// The value of the first signature header, if any.
pub open spec fn signature_value(hs: Seq<Header>) -> Option<Seq<u8>> {
    signature_value_from(hs, 0)
}

/// The position of the first `=` in `v` at or after `i`.
pub open spec fn first_eq_from(v: Seq<u8>, i: int) -> Option<int>
    decreases v.len() - i,
{
    if i < 0 || i >= v.len() {
        None
    } else if v[i] == 61 {
        Some(i)
    } else {
        first_eq_from(v, i + 1)
    }
}

/// The position of the first `=` in `v`.
pub open spec fn first_eq(v: Seq<u8>) -> Option<int> {
    first_eq_from(v, 0)
}

/// The digest part of a header value: what follows its first `=`.
pub open spec fn received_digest(v: Seq<u8>) -> Seq<u8>
    recommends
        first_eq(v) is Some,
{
    v.subrange(first_eq(v)->0 + 1, v.len() as int)
}

/// The lowercase hex HMAC-SHA256 of the body under the secret.
pub open spec fn expected_digest(secret: Seq<u8>, body: Seq<u8>) -> Seq<u8> {
    hex_lower(hmac_sha256_of(secret, body))
}

/// The outcome of checking a header value against the body.
pub open spec fn outcome_for_value(secret: Seq<u8>, v: Seq<u8>, body: Seq<u8>) -> VerificationOutcome {
    if !is_header_text(v) {
        VerificationOutcome::FailedUndecodableHeader
    } else if first_eq(v) is None {
        VerificationOutcome::FailedMalformedHeader
    } else if received_digest(v) == expected_digest(secret, body) {
        VerificationOutcome::Passed
    } else {
        VerificationOutcome::FailedMismatch
    }
}

/// The outcome of checking a request's signature.
pub open spec fn outcome_of(secret: Seq<u8>, hs: Seq<Header>, body: Seq<u8>) -> VerificationOutcome {
    match signature_value(hs) {
        None => VerificationOutcome::Skipped,
        Some(v) => outcome_for_value(secret, v, body),
    }
}

/// The HTTP status that answers a request with this outcome.
pub open spec fn status_for(o: VerificationOutcome) -> u16 {
    match o {
        VerificationOutcome::Skipped => 200,
        VerificationOutcome::Passed => 200,
        VerificationOutcome::FailedMismatch => 401,
        VerificationOutcome::FailedMalformedHeader => 400,
        VerificationOutcome::FailedUndecodableHeader => 400,
    }
}

impl VerificationOutcome {
    /// The HTTP status code for this outcome.
    pub fn status_code(&self) -> (r: u16)
        ensures
            r == status_for(*self),
    {
        match self {
            VerificationOutcome::Skipped => 200,
            VerificationOutcome::Passed => 200,
            VerificationOutcome::FailedMismatch => 401,
            VerificationOutcome::FailedMalformedHeader => 400,
            VerificationOutcome::FailedUndecodableHeader => 400,
        }
    }
}

/// The digests that a check compared, when it got as far as comparing.
pub struct DigestPair {
    /// Lowercase hex HMAC-SHA256 of the body, as ASCII bytes.
    pub expected: Vec<u8>,
    /// What followed the first `=` of the header value.
    pub received: Vec<u8>,
}

/// The result of a signature check: its outcome, and the digests when the
/// header was well formed.
pub struct SignatureCheck {
    pub outcome: VerificationOutcome,
    pub digests: Option<DigestPair>,
}

/// Tells whether a header name is `X-Super-Signature` in any ASCII case.
pub fn is_signature_header(name: &str) -> (r: bool)
    ensures
        r == is_signature_name(name@),
{
    let target = "x-super-signature";
    proof {
        reveal_strlit("x-super-signature");
        assert(target@ =~= signature_header_name());
    }
    if name.unicode_len() != 17 {
        return false;
    }
    let mut i: usize = 0;
    while i < 17
        invariant
            name@.len() == 17,
            target@ == signature_header_name(),
            0 <= i <= 17,
            forall|j: int| 0 <= j < i ==> char_matches(#[trigger] name@[j], signature_header_name()[j]),
        decreases 17 - i,
    {
        let c = name.get_char(i);
        let t = target.get_char(i);
        if !(c == t || ('a' <= t && t <= 'z' && c as u32 + 32 == t as u32)) {
            return false;
        }
        i = i + 1;
    }
    true
}

/// Finds the first header named `X-Super-Signature` (any ASCII case).
pub fn find_signature_header(headers: &Vec<Header>) -> (r: Option<usize>)
    ensures
        signature_value(headers@) is None <==> r is None,
        r is Some ==> r->0 < headers@.len() && signature_value(headers@) == Some(
            headers@[r->0 as int].value@,
        ),
{
    let mut i: usize = 0;
    while i < headers.len()
        invariant
            0 <= i <= headers@.len(),
            signature_value_from(headers@, i as int) == signature_value(headers@),
        decreases headers@.len() - i,
    {
        if is_signature_header(headers[i].name.as_str()) {
            return Some(i);
        }
        i = i + 1;
    }
    None
}

/// Finds the first `=` in a header value.
pub fn find_first_eq(v: &[u8]) -> (r: Option<usize>)
    ensures
        r is None <==> first_eq(v@) is None,
        r is Some ==> first_eq(v@) == Some(r->0 as int) && r->0 < v@.len(),
{
    let mut i: usize = 0;
    while i < v.len()
        invariant
            0 <= i <= v@.len(),
            first_eq_from(v@, i as int) == first_eq(v@),
        decreases v@.len() - i,
    {
        if v[i] == 61 {
            return Some(i);
        }
        i = i + 1;
    }
    None
}

/// Checks one signature header value against the body, keeping the digests.
pub fn check_signature_value(secret: &[u8], value: &[u8], body: &[u8]) -> (r: SignatureCheck)
    ensures
        r.outcome == outcome_for_value(secret@, value@, body@),
        r.digests is Some <==> (is_header_text(value@) && first_eq(value@) is Some),
        r.digests is Some ==> r.digests->0.expected@ == expected_digest(secret@, body@)
            && r.digests->0.received@ == received_digest(value@),
{
    if !header_is_text(value) {
        return SignatureCheck { outcome: VerificationOutcome::FailedUndecodableHeader, digests: None };
    }
    match find_first_eq(value) {
        None => SignatureCheck { outcome: VerificationOutcome::FailedMalformedHeader, digests: None },
        Some(i) => {
            let n = value.len();
            let received = vstd::slice::slice_to_vec(vstd::slice::slice_subrange(value, i + 1, n));
            let tag = hmac_sha256(secret, body);
            let expected = hex_encode(tag.as_slice());
            let outcome = if constant_time_eq(received.as_slice(), expected.as_slice()) {
                VerificationOutcome::Passed
            } else {
                VerificationOutcome::FailedMismatch
            };
            SignatureCheck { outcome, digests: Some(DigestPair { expected, received }) }
        },
    }
}

/// Checks a request's signature header against its raw body.
pub fn check_signature(secret: &[u8], headers: &Vec<Header>, body: &[u8]) -> (r: SignatureCheck)
    ensures
        r.outcome == outcome_of(secret@, headers@, body@),
        r.digests is Some <==> (match signature_value(headers@) {
            None => false,
            Some(v) => is_header_text(v) && first_eq(v) is Some,
        }),
        r.digests is Some ==> r.digests->0.expected@ == expected_digest(secret@, body@)
            && r.digests->0.received@ == received_digest(signature_value(headers@)->0),
{
    match find_signature_header(headers) {
        None => SignatureCheck { outcome: VerificationOutcome::Skipped, digests: None },
        Some(i) => check_signature_value(secret, headers[i].value.as_slice(), body),
    }
}

/// The outcome of checking a request's signature header against its raw body
/// under the secret.
pub fn verify_signature(secret: &[u8], headers: &Vec<Header>, body: &[u8]) -> (r:
    VerificationOutcome)
    ensures
        r == outcome_of(secret@, headers@, body@),
{
    check_signature(secret, headers, body).outcome
}

} // verus!
