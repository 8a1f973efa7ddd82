use vstd::prelude::*;

use vstd::slice::slice_subrange;
use vstd::string::StringExecFns;

use crate::text::{byte_hex, hex_char, hex_lower, lemma_hex_lower_len, to_hex_lower};

verus! {

/// Whether 16 bytes are those of a random (version 4, RFC variant) UUID: the
/// high nibble of byte 6 is 4 and the two high bits of byte 8 are `10`.
pub open spec fn is_v4_bytes(b: Seq<u8>) -> bool {
    &&& b.len() == 16
    &&& b[6] / 16 == 4
    &&& b[8] / 64 == 2
}

/// The hyphenated lower-case spelling of a UUID's 16 bytes, in groups of 4, 2,
/// 2, 2 and 6 bytes.
pub open spec fn uuid_hyphenated(b: Seq<u8>) -> Seq<char> {
    hex_lower(b.subrange(0, 4)) + seq!['-'] + hex_lower(b.subrange(4, 6)) + seq!['-']
        + hex_lower(b.subrange(6, 8)) + seq!['-'] + hex_lower(b.subrange(8, 10)) + seq!['-']
        + hex_lower(b.subrange(10, 16))
}

/// Whether a string is the spelling of a random UUID.
pub open spec fn is_v4_uuid_text(s: Seq<char>) -> bool {
    exists|b: Seq<u8>| is_v4_bytes(b) && s == uuid_hyphenated(b)
}

/// Draws a random UUID with `uuid::Uuid::new_v4` and returns its 16 bytes.
/// Trusted, of every outcome: there are 16 bytes, and the version and variant
/// bits are set as the crate's source sets them (version 4, RFC variant).
/// Which bytes come is left open: they are random.
#[verifier::external_body]
fn new_v4_bytes() -> (b: Vec<u8>)
    ensures
        is_v4_bytes(b@),
{
    uuid::Uuid::new_v4().into_bytes().to_vec()
}

/// The hyphenated lower-case spelling of a UUID given by its 16 bytes, as
/// `uuid::Uuid`'s `Display` prints it.
pub fn uuid_text(b: &[u8]) -> (s: String)
    requires
        b@.len() == 16,
    ensures
        s@ == uuid_hyphenated(b@),
{
    let mut s = String::new();
    s.append(to_hex_lower(slice_subrange(b, 0, 4)).as_str());
    s.append("-");
    s.append(to_hex_lower(slice_subrange(b, 4, 6)).as_str());
    s.append("-");
    s.append(to_hex_lower(slice_subrange(b, 6, 8)).as_str());
    s.append("-");
    s.append(to_hex_lower(slice_subrange(b, 8, 10)).as_str());
    s.append("-");
    s.append(to_hex_lower(slice_subrange(b, 10, 16)).as_str());
    proof {
        reveal_strlit("-");
    }
    s
}

/// Whether a string spells UUID bytes that the random source returned: the
/// UUID was drawn, not made up.
pub closed spec fn is_drawn_uuid_text(s: Seq<char>) -> bool {
    exists|b: Vec<u8>| #[trigger] call_ensures(new_v4_bytes, (), b) && s == uuid_hyphenated(b@)
}

/// A drawn UUID is a random (version 4) UUID.
pub proof fn lemma_drawn_uuid_is_v4(s: Seq<char>)
    requires
        is_drawn_uuid_text(s),
    ensures
        is_v4_uuid_text(s),
{
    let b = choose|b: Vec<u8>| #[trigger] call_ensures(new_v4_bytes, (), b) && s == uuid_hyphenated(b@);
    assert(is_v4_bytes(b@) && s == uuid_hyphenated(b@));
}

/// A fresh random UUID, spelled as `Uuid::new_v4().to_string()` spells it:
/// 36 characters, hyphens at positions 8, 13, 18 and 23, and the version digit
/// `4` at position 14.
pub fn new_uuid() -> (s: String)
    ensures
        is_drawn_uuid_text(s@),
        is_v4_uuid_text(s@),
        s@.len() == 36,
        s@[8] == '-' && s@[13] == '-' && s@[18] == '-' && s@[23] == '-',
        s@[14] == '4',
{
    let b = new_v4_bytes();
    let s = uuid_text(b.as_slice());
    proof {
        lemma_uuid_text_shape(b@);
    }
    s
}

/// The spelling of a random UUID has 36 characters, hyphens at positions 8,
/// 13, 18 and 23, and the version digit `4` at position 14.
pub proof fn lemma_uuid_text_shape(b: Seq<u8>)
    requires
        is_v4_bytes(b),
    ensures
        uuid_hyphenated(b).len() == 36,
        uuid_hyphenated(b)[8] == '-',
        uuid_hyphenated(b)[13] == '-',
        uuid_hyphenated(b)[18] == '-',
        uuid_hyphenated(b)[23] == '-',
        uuid_hyphenated(b)[14] == '4',
{
    let g0 = b.subrange(0, 4);
    let g1 = b.subrange(4, 6);
    let g2 = b.subrange(6, 8);
    let g3 = b.subrange(8, 10);
    let g4 = b.subrange(10, 16);
    lemma_hex_lower_len(g0);
    lemma_hex_lower_len(g1);
    lemma_hex_lower_len(g2);
    lemma_hex_lower_len(g3);
    lemma_hex_lower_len(g4);
    assert(g2.drop_last().drop_last() =~= Seq::<u8>::empty());
    assert(hex_lower(g2.drop_last()) == hex_lower(g2.drop_last().drop_last()) + byte_hex(
        g2.drop_last().last(),
    ));
    assert(hex_lower(g2.drop_last()) =~= byte_hex(g2[0]));
    assert(hex_lower(g2)[0] == hex_char((g2[0] / 16) as int));
    assert(g2[0] == b[6]);
    assert(hex_char(4) == '4');
    let t = uuid_hyphenated(b);
    assert(t =~= hex_lower(g0) + seq!['-'] + hex_lower(g1) + seq!['-'] + hex_lower(g2) + seq![
        '-',
    ] + hex_lower(g3) + seq!['-'] + hex_lower(g4));
}

} // verus!
