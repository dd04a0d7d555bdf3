use vstd::prelude::*;
use crate::hexcode::{hex_digit, hex_lower, lemma_hex_lower_is_text};
use crate::mac::hmac_sha256_of;
use crate::render::{BodyKind, is_json, is_rendering, kind_of, text_of};
use crate::request::Header;
use crate::signature::{
    VerificationOutcome, expected_digest, first_eq, first_eq_from, outcome_of,
    received_digest, signature_value, status_for,
};
use crate::text::{is_header_text, is_text_byte};

verus! {

/// The header value `<tag>=<digest>`.
pub open spec fn signature_value_for(tag: Seq<u8>, digest: Seq<u8>) -> Seq<u8> {
    tag + seq![61u8] + digest
}

/// A tag that may stand before the `=`: printable text without `=`.
pub open spec fn is_plain_tag(tag: Seq<u8>) -> bool {
    forall|i: int| 0 <= i < tag.len() ==> is_text_byte(#[trigger] tag[i]) && tag[i] != 61
}

proof fn lemma_first_eq_skips(v: Seq<u8>, i: int, k: int)
    requires
        0 <= i <= k < v.len(),
        v[k] == 61,
        forall|j: int| i <= j < k ==> #[trigger] v[j] != 61,
    ensures
        first_eq_from(v, i) == Some(k),
    decreases k - i,
{
    if i < k {
        lemma_first_eq_skips(v, i + 1, k);
    }
}

proof fn lemma_split_signature_value(tag: Seq<u8>, digest: Seq<u8>)
    requires
        is_plain_tag(tag),
        forall|i: int| 0 <= i < digest.len() ==> is_text_byte(#[trigger] digest[i]),
    ensures
        is_header_text(signature_value_for(tag, digest)),
        first_eq(signature_value_for(tag, digest)) == Some(tag.len() as int),
        received_digest(signature_value_for(tag, digest)) == digest,
{
    let v = signature_value_for(tag, digest);
    let n = tag.len() as int;
    assert forall|i: int| 0 <= i < v.len() implies is_text_byte(#[trigger] v[i]) by {
        if i < n {
            assert(v[i] == tag[i]);
        } else if i > n {
            assert(v[i] == digest[i - n - 1]);
        }
    }
    assert forall|j: int| 0 <= j < n implies #[trigger] v[j] != 61 by {
        assert(v[j] == tag[j]);
    }
    lemma_first_eq_skips(v, 0, n);
    assert(received_digest(v) =~= digest);
}

proof fn lemma_byte_from_halves(a: u8, b: u8)
    requires
        a / 16 == b / 16,
        a % 16 == b % 16,
    ensures
        a == b,
{
    assert(a == 16 * (a / 16) + a % 16);
    assert(b == 16 * (b / 16) + b % 16);
}

/// Lowercase hex text tells the bytes it was made from.
pub proof fn lemma_hex_lower_injective(a: Seq<u8>, b: Seq<u8>)
    requires
        hex_lower(a) == hex_lower(b),
    ensures
        a == b,
{
    assert(hex_lower(a).len() == 2 * a.len());
    assert(hex_lower(b).len() == 2 * b.len());
    assert(a.len() == b.len());
    assert forall|i: int| 0 <= i < a.len() implies #[trigger] a[i] == b[i] by {
        let ha = hex_lower(a);
        let hb = hex_lower(b);
        assert((2 * i) / 2 == i);
        assert((2 * i + 1) / 2 == i);
        assert((2 * i) % 2 == 0);
        assert((2 * i + 1) % 2 == 1);
        assert(ha[2 * i] == hex_digit(a[i] / 16));
        assert(hb[2 * i] == hex_digit(b[i] / 16));
        assert(ha[2 * i + 1] == hex_digit(a[i] % 16));
        assert(hb[2 * i + 1] == hex_digit(b[i] % 16));
        lemma_byte_from_halves(a[i], b[i]);
    }
    assert(a =~= b);
}

/// A request signed with the secret over its own body passes: when the first
/// signature header reads `<tag>=<hex of HMAC-SHA256(secret, body)>`, for any
/// printable tag without `=`, the outcome is `Passed` and the status 200.
pub proof fn lemma_signed_body_passes(secret: Seq<u8>, body: Seq<u8>, hs: Seq<Header>, tag: Seq<u8>)
    requires
        is_plain_tag(tag),
        signature_value(hs) == Some(
            signature_value_for(tag, hex_lower(hmac_sha256_of(secret, body))),
        ),
    ensures
        outcome_of(secret, hs, body) == VerificationOutcome::Passed,
        status_for(outcome_of(secret, hs, body)) == 200,
{
    let digest = hex_lower(hmac_sha256_of(secret, body));
    lemma_hex_lower_is_text(hmac_sha256_of(secret, body));
    lemma_split_signature_value(tag, digest);
}

/// A signature made over one body fails against another: when the first
/// signature header carries the hex HMAC-SHA256 of `b1` and the request's
/// body is `b2`, the outcome is `FailedMismatch` and the status 401, unless
/// the two bodies have the same HMAC under the secret.
pub proof fn lemma_other_body_mismatches(
    secret: Seq<u8>,
    b1: Seq<u8>,
    b2: Seq<u8>,
    hs: Seq<Header>,
    tag: Seq<u8>,
)
    requires
        b1 != b2,
        hmac_sha256_of(secret, b1) != hmac_sha256_of(secret, b2),
        is_plain_tag(tag),
        signature_value(hs) == Some(
            signature_value_for(tag, hex_lower(hmac_sha256_of(secret, b1))),
        ),
    ensures
        outcome_of(secret, hs, b2) == VerificationOutcome::FailedMismatch,
        status_for(outcome_of(secret, hs, b2)) == 401,
{
    let digest = hex_lower(hmac_sha256_of(secret, b1));
    lemma_hex_lower_is_text(hmac_sha256_of(secret, b1));
    lemma_split_signature_value(tag, digest);
    if digest == expected_digest(secret, b2) {
        lemma_hex_lower_injective(hmac_sha256_of(secret, b1), hmac_sha256_of(secret, b2));
    }
}

/// Checking a request leaves nothing behind that changes a later check: the
/// outcome depends on the secret, the headers and the body alone.
pub proof fn lemma_verification_repeatable(
    secret: Seq<u8>,
    hs: Seq<Header>,
    body: Seq<u8>,
    first: VerificationOutcome,
    second: VerificationOutcome,
)
    requires
        first == outcome_of(secret, hs, body),
        second == outcome_of(secret, hs, body),
    ensures
        first == second,
{
}

/// Rendering a body that is not JSON twice gives the same kind and text.
pub proof fn lemma_rendering_repeatable(
    body: Seq<u8>,
    k1: BodyKind,
    t1: Seq<char>,
    k2: BodyKind,
    t2: Seq<char>,
)
    requires
        !is_json(body),
        is_rendering(body, k1, t1),
        is_rendering(body, k2, t2),
    ensures
        k1 == k2,
        t1 == t2,
{
    let first_pretty = choose|p: Option<Seq<char>>|
        (p is Some ==> is_json(body)) && k1 == #[trigger] kind_of(body, p) && t1 == text_of(body, p);
    let second_pretty = choose|p: Option<Seq<char>>|
        (p is Some ==> is_json(body)) && k2 == #[trigger] kind_of(body, p) && t2 == text_of(body, p);
    assert(first_pretty is None && second_pretty is None);
}

/// A request without a signature header is answered 200, its check skipped.
pub proof fn lemma_missing_header_skipped(secret: Seq<u8>, hs: Seq<Header>, body: Seq<u8>)
    requires
        signature_value(hs) is None,
    ensures
        outcome_of(secret, hs, body) == VerificationOutcome::Skipped,
        status_for(outcome_of(secret, hs, body)) == 200,
{
}

/// A signature header whose value is not printable text is answered 400.
pub proof fn lemma_undecodable_header_rejected(secret: Seq<u8>, hs: Seq<Header>, body: Seq<u8>)
    requires
        signature_value(hs) is Some,
        !is_header_text(signature_value(hs)->0),
    ensures
        outcome_of(secret, hs, body) == VerificationOutcome::FailedUndecodableHeader,
        status_for(outcome_of(secret, hs, body)) == 400,
{
}

/// A printable signature header value without `=` is answered 400.
pub proof fn lemma_header_without_separator_rejected(
    secret: Seq<u8>,
    hs: Seq<Header>,
    body: Seq<u8>,
)
    requires
        signature_value(hs) is Some,
        is_header_text(signature_value(hs)->0),
        forall|i: int|
            0 <= i < signature_value(hs)->0.len() ==> #[trigger] signature_value(hs)->0[i] != 61,
    ensures
        outcome_of(secret, hs, body) == VerificationOutcome::FailedMalformedHeader,
        status_for(outcome_of(secret, hs, body)) == 400,
{
    let v = signature_value(hs)->0;
    lemma_no_eq_found(v, 0);
}

proof fn lemma_no_eq_found(v: Seq<u8>, i: int)
    requires
        0 <= i,
        forall|j: int| 0 <= j < v.len() ==> #[trigger] v[j] != 61,
    ensures
        first_eq_from(v, i) is None,
    decreases v.len() - i,
{
    if i < v.len() {
        lemma_no_eq_found(v, i + 1);
    }
}

} // verus!
