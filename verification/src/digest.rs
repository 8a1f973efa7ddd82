use vstd::prelude::*;
use vstd::string::StringSliceAdditionalSpecFns;

use crate::text::{
    hex_lower, is_lower_hex_char, lemma_hex_lower_chars, lemma_hex_lower_len, to_hex_lower,
};

verus! {

/// The MD5 digest of a byte sequence, as `md5::compute` gives it.
pub uninterp spec fn md5_digest(data: Seq<u8>) -> Seq<u8>;

/// Computes the MD5 digest of `data` with `md5::compute` and returns its bytes.
/// Trusted: the result is the named digest of `data`, and it has 16 bytes (the
/// crate's `Digest` is a `[u8; 16]`). What MD5 computes is not stated.
#[verifier::external_body]
fn md5_compute(data: &[u8]) -> (d: Vec<u8>)
    ensures
        d@ == md5_digest(data@),
        d@.len() == 16,
{
    md5::compute(data).0.to_vec()
}

/// The lower-case hexadecimal MD5 digest of the UTF-8 bytes of `data`, as
/// `format!("{:x}", md5::compute(data))` prints it: 32 hexadecimal digits.
pub fn md5_hex(data: &str) -> (r: String)
    ensures
        r@ == hex_lower(md5_digest(data.spec_bytes())),
        r@.len() == 32,
        forall|i: int| 0 <= i < r@.len() ==> is_lower_hex_char(#[trigger] r@[i]),
{
    let d = md5_compute(data.as_bytes());
    let r = to_hex_lower(d.as_slice());
    proof {
        lemma_hex_lower_len(d@);
        lemma_hex_lower_chars(d@);
    }
    r
}

} // verus!
