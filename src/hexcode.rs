use vstd::prelude::*;
use crate::text::{is_ascii_bytes, is_header_text};

verus! {

/// The lowercase hexadecimal digit for a value below 16.
pub open spec fn hex_digit(n: u8) -> u8 {
    if n < 10 {
        (48 + n) as u8
    } else {
        (87 + n) as u8
    }
}

/// Lowercase hexadecimal text of a byte string, two digits per byte, the
/// high half first, as ASCII bytes.
pub open spec fn hex_lower(b: Seq<u8>) -> Seq<u8> {
    Seq::new(
        2 * b.len(),
        |i: int|
            if i % 2 == 0 {
                hex_digit(b[i / 2] / 16)
            } else {
                hex_digit(b[i / 2] % 16)
            },
    )
}

/// Hex text is printable ASCII.
pub proof fn lemma_hex_lower_is_text(b: Seq<u8>)
    ensures
        is_header_text(hex_lower(b)),
        is_ascii_bytes(hex_lower(b)),
{
    let h = hex_lower(b);
    assert forall|i: int| 0 <= i < h.len() implies #[trigger] h[i] < 128 && crate::text::is_text_byte(
        h[i],
    ) by {
        assert(b[i / 2] / 16 < 16);
        assert(b[i / 2] % 16 < 16);
    }
}

/// Relies on hex::encode: two lowercase digits per byte, high half first.
#[verifier::external_body]
pub(crate) fn hex_encode(b: &[u8]) -> (r: Vec<u8>)
    ensures
        r@ == hex_lower(b@),
{
    hex::encode(b).into_bytes()
}

} // verus!
