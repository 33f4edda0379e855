//! The byte-to-text decoding service used when an owned `Token` is
//! materialized from a range-free token view.

use vstd::prelude::*;

verus! {

/// The text that UTF-8 decoding (with U+FFFD replacement of malformed
/// sequences) yields for the given bytes.
pub uninterp spec fn utf8_decode_of(b: Seq<u8>) -> Seq<char>;

/// Relies on encoding_rs's `Encoding::decode_without_bom_handling`, called
/// on the UTF-8 encoding: the decoded text depends on the bytes alone;
/// ASCII-only input is valid UTF-8, so it decodes to the same characters
/// with no malformed sequences reported.
#[verifier::external_body]
pub fn decode_utf8(bytes: &[u8]) -> (r: (String, bool))
    ensures
        r.0@ == utf8_decode_of(bytes@),
        (forall|i: int| 0 <= i < bytes@.len() ==> bytes@[i] < 0x80) ==> (
            r.0@ == Seq::new(bytes@.len(), |i: int| bytes@[i] as char) && r.1 == false
        ),
{
    let (text, had_errors) = encoding_rs::UTF_8.decode_without_bom_handling(bytes);
    (text.into_owned(), had_errors)
}

} // verus!
