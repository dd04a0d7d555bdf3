use vstd::prelude::*;
use vstd::utf8::*;
use crate::text::{is_ascii_bytes, lemma_ascii_is_utf8, utf8_text};

verus! {

#[verifier::external_type_specification]
#[verifier::external_body]
pub struct ExJsonValue(serde_json::Value);

/// The body bytes are a JSON document that serde_json accepts.
pub uninterp spec fn is_json(b: Seq<u8>) -> bool;

/// Relies on serde_json::from_slice into a `Value`: whether it succeeds
/// depends on the bytes alone.
#[verifier::external_body]
fn parse_json(b: &[u8]) -> (r: Option<serde_json::Value>)
    ensures
        r is Some <==> is_json(b@),
{
    serde_json::from_slice::<serde_json::Value>(b).ok()
}

/// Relies on serde_json::to_string_pretty: indented JSON text of the value.
#[verifier::external_body]
fn pretty_json(v: &serde_json::Value) -> (r: Option<String>) {
    serde_json::to_string_pretty(v).ok()
}

/// How a body is shown.
#[derive(Clone, Copy, Debug, PartialEq, Eq, Structural)]
pub enum BodyKind {
    Empty,
    PrettyJson,
    Text,
    /// Bytes that are neither JSON nor UTF-8 text; only their count is shown.
    Binary(usize),
}

/// A body as shown in the report. It is never used to check a signature.
pub struct RenderedBody {
    pub kind: BodyKind,
    pub text: String,
}

/// The decimal digits of `n`, most significant first, as ASCII bytes.
pub open spec fn decimal_digits(n: nat) -> Seq<u8>
    decreases n,
{
    if n < 10 {
        seq![(48 + n) as u8]
    } else {
        decimal_digits(n / 10).push((48 + n % 10) as u8)
    }
}

/// The text shown for a body that is neither JSON nor UTF-8.
pub open spec fn binary_body_text(len: nat) -> Seq<char> {
    "<binary: "@ + decode_utf8(decimal_digits(len)) + " bytes>"@
}

proof fn lemma_decimal_is_ascii(n: nat)
    ensures
        is_ascii_bytes(decimal_digits(n)),
    decreases n,
{
    if n >= 10 {
        lemma_decimal_is_ascii(n / 10);
    }
}

/// The decimal digits of `n`.
pub fn decimal_bytes(n: usize) -> (r: Vec<u8>)
    ensures
        r@ == decimal_digits(n as nat),
    decreases n,
{
    if n < 10 {
        vec![(48 + n) as u8]
    } else {
        let mut v = decimal_bytes(n / 10);
        v.push((48 + n % 10) as u8);
        v
    }
}

/// The placeholder for a body of `len` bytes that is not text.
pub fn binary_body_placeholder(len: usize) -> (r: String)
    ensures
        r@ == binary_body_text(len as nat),
{
    let digits = decimal_bytes(len);
    proof {
        lemma_decimal_is_ascii(len as nat);
        lemma_ascii_is_utf8(digits@);
    }
    let count = match utf8_text(digits.as_slice()) {
        Some(s) => s,
        None => String::new(),
    };
    String::from_str("<binary: ").concat(count.as_str()).concat(" bytes>")
}

pub open spec fn empty_marker() -> Seq<char> {
    seq!['<', 'E', 'm', 'p', 't', 'y', '>']
}

/// The kind of a body's rendering, given the pretty-printed JSON text when
/// the body parsed as JSON and printed.
pub open spec fn kind_of(body: Seq<u8>, pretty: Option<Seq<char>>) -> BodyKind {
    if body.len() == 0 {
        BodyKind::Empty
    } else if pretty is Some {
        BodyKind::PrettyJson
    } else if valid_utf8(body) {
        BodyKind::Text
    } else {
        BodyKind::Binary(body.len() as usize)
    }
}

/// The text of a body's rendering, given the pretty-printed JSON text as above.
pub open spec fn text_of(body: Seq<u8>, pretty: Option<Seq<char>>) -> Seq<char> {
    if body.len() == 0 {
        empty_marker()
    } else if pretty is Some {
        pretty->0
    } else if valid_utf8(body) {
        decode_utf8(body)
    } else {
        binary_body_text(body.len())
    }
}

/// The characters of an optional string.
pub open spec fn text_view(s: Option<String>) -> Option<Seq<char>> {
    match s {
        Some(t) => Some(t@),
        None => None,
    }
}

/// Renders a body given what pretty-printing it as JSON gave (`None` when it
/// is not JSON).
pub fn render_with(body: &[u8], pretty: Option<String>) -> (r: RenderedBody)
    ensures
        r.kind == kind_of(body@, text_view(pretty)),
        r.text@ == text_of(body@, text_view(pretty)),
{
    if body.len() == 0 {
        proof {
            reveal_strlit("<Empty>");
        }
        return RenderedBody { kind: BodyKind::Empty, text: String::from_str("<Empty>") };
    }
    match pretty {
        Some(s) => RenderedBody { kind: BodyKind::PrettyJson, text: s },
        None => match utf8_text(body) {
            Some(s) => RenderedBody { kind: BodyKind::Text, text: s },
            None => RenderedBody { kind: BodyKind::Binary(body.len()), text: binary_body_placeholder(body.len()) },
        },
    }
}

/// `kind` and `text` are how `body` is shown, for some outcome of
/// pretty-printing it that is only present when the body is JSON.
pub open spec fn is_rendering(body: Seq<u8>, kind: BodyKind, text: Seq<char>) -> bool {
    exists|p: Option<Seq<char>>|
        (p is Some ==> is_json(body)) && kind == #[trigger] kind_of(body, p) && text == text_of(
            body,
            p,
        )
}

/// Renders a body for display: a placeholder when empty, indented JSON when
/// it parses as JSON, the text itself when it is UTF-8, and otherwise a
/// placeholder with the byte count in its kind.
pub fn render_body(body: &[u8]) -> (r: RenderedBody)
    ensures
        !is_json(body@) ==> r.kind == kind_of(body@, None) && r.text@ == text_of(body@, None),
        is_rendering(body@, r.kind, r.text@),
{
    let pretty = if body.len() == 0 {
        None
    } else {
        match parse_json(body) {
            Some(v) => pretty_json(&v),
            None => None,
        }
    };
    let ghost p = text_view(pretty);
    let r = render_with(body, pretty);
    assert((p is Some ==> is_json(body@)) && r.kind == kind_of(body@, p) && r.text@ == text_of(body@, p));
    r
}

} // verus!
