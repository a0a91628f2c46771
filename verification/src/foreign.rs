//! Trusted boundary to outside text transformations.
//!
//! Each function here makes exactly one outside call; its result is named by
//! an uninterpreted function of the arguments, so that contracts elsewhere
//! can speak about it exactly.

use vstd::prelude::*;

verus! {

/// The text that `encoding_rs`'s decode entry yields for `bytes` when the
/// expected encoding is Shift_JIS: BOM-sniffed first, then decoded
/// lossily; a function of the bytes alone.
pub uninterp spec fn sjis_decode_of(bytes: Seq<u8>) -> Seq<char>;

/// Relies on encoding_rs::Encoding::decode on SHIFT_JIS: total, lossy
/// decoding (malformed sequences become replacement characters, never an
/// error); the decoder is ASCII-compatible, so all-ASCII input passes
/// through unchanged, and empty input stays empty.
#[verifier::external_body]
pub(crate) fn decode_shift_jis(bytes: &[u8]) -> (r: String)
    ensures
        r@ == sjis_decode_of(bytes@),
        bytes@.len() == 0 ==> r@.len() == 0,
        (forall|i: int| 0 <= i < bytes@.len() ==> bytes@[i] <= 0x7f) ==> r@ == bytes@.map_values(
            |b: u8| b as char,
        ),
{
    let (decoded, _, _) = encoding_rs::SHIFT_JIS.decode(bytes);
    decoded.into_owned()
}

/// The Unicode lowercasing of `s`: a function of the characters alone.
pub uninterp spec fn lower_of(s: Seq<char>) -> Seq<char>;

/// Relies on str::to_lowercase; empty input stays empty.
#[verifier::external_body]
pub(crate) fn lowercase(s: &str) -> (r: String)
    ensures
        r@ == lower_of(s@),
        s@.len() == 0 ==> r@.len() == 0,
{
    s.to_lowercase()
}

/// The lossy UTF-8 reading of `bytes`: a function of the bytes alone.
pub uninterp spec fn utf8_lossy_of(bytes: Seq<u8>) -> Seq<char>;

/// Relies on String::from_utf8_lossy: total (invalid sequences become
/// replacement characters); empty input stays empty.
#[verifier::external_body]
pub(crate) fn decode_utf8_lossy(bytes: &[u8]) -> (r: String)
    ensures
        r@ == utf8_lossy_of(bytes@),
        bytes@.len() == 0 ==> r@.len() == 0,
{
    String::from_utf8_lossy(bytes).into_owned()
}

} // verus!
