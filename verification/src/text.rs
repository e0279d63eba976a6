//! Decoding of the ASCII text the device embeds in responses and events.

use vstd::prelude::*;

verus! {

/// The characters named by a sequence of ASCII bytes, one per byte.
pub open spec fn ascii_chars(s: Seq<u8>) -> Seq<char> {
    s.map_values(|b: u8| b as char)
}

/// Whether every byte of `bytes` from position `start` on is ASCII.
pub fn all_ascii_from(bytes: &[u8], start: usize) -> (ok: bool)
    requires
        start <= bytes@.len(),
    ensures
        ok == (forall|i: int| start <= i < bytes@.len() ==> bytes@[i] < 0x80),
{
    let mut i: usize = start;
    while i < bytes.len()
        invariant
            start <= i <= bytes@.len(),
            forall|j: int| start <= j < i ==> bytes@[j] < 0x80,
        decreases bytes@.len() - i,
    {
        if bytes[i] >= 0x80 {
            proof {
                assert(bytes@[i as int] >= 0x80);
            }
            return false;
        }
        i = i + 1;
    }
    true
}

/// Relies on std's String::from_utf8_lossy: bytes below 0x80 are valid
/// UTF-8 and decode to the characters with the same code points, so no
/// replacement character is ever produced here.
#[verifier::external_body]
pub(crate) fn ascii_to_string(bytes: &[u8]) -> (r: String)
    requires
        forall|i: int| 0 <= i < bytes@.len() ==> bytes@[i] < 0x80,
    ensures
        r@ == ascii_chars(bytes@),
{
    String::from_utf8_lossy(bytes).into_owned()
}

} // verus!
