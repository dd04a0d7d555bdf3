use vstd::prelude::*;
use vstd::utf8::*;

verus! {

/// A byte that a header value may hold and still read as text: a tab or a
/// visible ASCII character (space included).
pub open spec fn is_text_byte(b: u8) -> bool {
    b == 9 || (32 <= b && b <= 126)
}

/// A header value that decodes as printable text.
pub open spec fn is_header_text(v: Seq<u8>) -> bool {
    forall|i: int| 0 <= i < v.len() ==> is_text_byte(#[trigger] v[i])
}

pub open spec fn is_ascii_bytes(v: Seq<u8>) -> bool {
    forall|i: int| 0 <= i < v.len() ==> #[trigger] v[i] < 128
}

/// Header values longer than this are cut for display.
pub const DISPLAY_CAP: usize = 50;

/// How many bytes of a cut value are kept before the ellipsis.
pub const DISPLAY_KEEP: usize = 47;

/// What a header value looks like in the report: text values are shown as
/// they are, cut to 47 characters and an ellipsis when longer than 50;
/// other values are shown as a placeholder.
pub open spec fn header_display(v: Seq<u8>) -> Seq<char> {
    if !is_header_text(v) {
        binary_marker()
    } else if v.len() > DISPLAY_CAP {
        decode_utf8(v.take(DISPLAY_KEEP as int)) + ellipsis()
    } else {
        decode_utf8(v)
    }
}

pub open spec fn binary_marker() -> Seq<char> {
    seq!['<', 'b', 'i', 'n', 'a', 'r', 'y', '>']
}

pub open spec fn ellipsis() -> Seq<char> {
    seq!['.', '.', '.']
}

/// Bytes below 128 are each a whole UTF-8 character.
pub proof fn lemma_ascii_is_utf8(v: Seq<u8>)
    requires
        is_ascii_bytes(v),
    ensures
        valid_utf8(v),
        decode_utf8(v).len() == v.len(),
    decreases v.len(),
{
    if v.len() > 0 {
        let rest = pop_first_scalar(v);
        assert(rest =~= v.subrange(1, v.len() as int));
        assert(is_ascii_bytes(rest)) by {
            assert forall|i: int| 0 <= i < rest.len() implies #[trigger] rest[i] < 128 by {
                assert(rest[i] == v[i + 1]);
            }
        }
        lemma_ascii_is_utf8(rest);
    }
}

pub proof fn lemma_text_is_ascii(v: Seq<u8>)
    requires
        is_header_text(v),
    ensures
        is_ascii_bytes(v),
        v.len() >= DISPLAY_KEEP ==> is_ascii_bytes(v.take(DISPLAY_KEEP as int)),
{
    assert forall|i: int| 0 <= i < v.len() implies #[trigger] v[i] < 128 by {
        assert(is_text_byte(v[i]));
    }
    if v.len() >= DISPLAY_KEEP {
        let t = v.take(DISPLAY_KEEP as int);
        assert forall|i: int| 0 <= i < t.len() implies #[trigger] t[i] < 128 by {
            assert(t[i] == v[i]);
        }
    }
}

/// Relies on std::str::from_utf8: it accepts exactly the well-formed UTF-8
/// sequences and then reads them as the characters they encode.
#[verifier::external_body]
pub(crate) fn utf8_text(b: &[u8]) -> (r: Option<String>)
    ensures
        r is Some <==> valid_utf8(b@),
        r is Some ==> r->0@ == decode_utf8(b@),
{
    match std::str::from_utf8(b) {
        Ok(s) => Some(s.to_string()),
        Err(_) => None,
    }
}

/// Tells whether a header value reads as printable text.
pub fn header_is_text(v: &[u8]) -> (r: bool)
    ensures
        r == is_header_text(v@),
{
    let mut i: usize = 0;
    while i < v.len()
        invariant
            0 <= i <= v@.len(),
            forall|j: int| 0 <= j < i ==> is_text_byte(#[trigger] v@[j]),
        decreases v@.len() - i,
    {
        let b = v[i];
        if !(b == 9 || (32 <= b && b <= 126)) {
            return false;
        }
        i = i + 1;
    }
    true
}

/// The placeholder shown for bytes that are not text.
pub fn binary_text() -> (r: String)
    ensures
        r@ == binary_marker(),
{
    proof {
        reveal_strlit("<binary>");
    }
    String::from_str("<binary>")
}

/// The report's form of a header value: see `header_display`.
pub fn display_header_value(v: &[u8]) -> (r: String)
    ensures
        r@ == header_display(v@),
{
    if !header_is_text(v) {
        return binary_text();
    }
    proof {
        lemma_text_is_ascii(v@);
        lemma_ascii_is_utf8(v@);
    }
    if v.len() > DISPLAY_CAP {
        proof {
            lemma_ascii_is_utf8(v@.take(DISPLAY_KEEP as int));
        }
        let head = vstd::slice::slice_subrange(v, 0, DISPLAY_KEEP);
        assert(head@ == v@.take(DISPLAY_KEEP as int));
        match utf8_text(head) {
            Some(s) => {
                proof {
                    reveal_strlit("...");
                }
                s.concat("...")
            },
            None => binary_text(),
        }
    } else {
        match utf8_text(v) {
            Some(s) => s,
            None => binary_text(),
        }
    }
}

} // verus!
