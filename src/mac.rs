use vstd::prelude::*;
use hmac::Mac;

verus! {

/// The HMAC-SHA256 tag of `msg` under `key`.
pub uninterp spec fn hmac_sha256_of(key: Seq<u8>, msg: Seq<u8>) -> Seq<u8>;

/// Relies on hmac::Hmac<sha2::Sha256>: `new_from_slice` accepts a key of any
/// length (longer keys are hashed first), and the tag depends on the key and
/// the message alone and is 32 bytes long.
#[verifier::external_body]
pub(crate) fn hmac_sha256(key: &[u8], msg: &[u8]) -> (r: Vec<u8>)
    ensures
        r@ == hmac_sha256_of(key@, msg@),
        r@.len() == 32,
{
    let mut mac = <hmac::Hmac<sha2::Sha256> as Mac>::new_from_slice(key).expect(
        "HMAC takes keys of any length",
    );
    mac.update(msg);
    mac.finalize().into_bytes().to_vec()
}

/// Compares two byte strings without stopping at the first difference: the
/// time taken depends on the lengths only.
pub fn constant_time_eq(a: &[u8], b: &[u8]) -> (r: bool)
    ensures
        r == (a@ == b@),
{
    if a.len() != b.len() {
        return false;
    }
    let mut acc: u8 = 0;
    let mut i: usize = 0;
    while i < a.len()
        invariant
            a@.len() == b@.len(),
            0 <= i <= a@.len(),
            acc == 0 <==> forall|j: int| 0 <= j < i ==> a@[j] == b@[j],
        decreases a@.len() - i,
    {
        let x = a[i];
        let y = b[i];
        let next = acc | (x ^ y);
        assert((acc | (x ^ y)) == 0 <==> (acc == 0 && x == y)) by (bit_vector);
        acc = next;
        i = i + 1;
    }
    proof {
        if acc == 0 {
            assert(a@ =~= b@);
        }
    }
    acc == 0
}

} // verus!
