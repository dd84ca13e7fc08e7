//! Transcoding of captured child output from the legacy GBK encoding into
//! UTF-8 text. Malformed byte sequences never abort a decode: the decoder
//! substitutes the replacement character, since crash output is
//! uncontrolled input.

use vstd::prelude::*;
use crate::chars::{chars_of_str, chars_eq};

verus! {

/// What the GBK decoder yields on a byte sequence: a function of the
/// bytes alone. Malformed sequences appear as the replacement character
/// in the result.
pub uninterp spec fn gbk_decoded(bytes: Seq<u8>) -> Seq<char>;

/// What the GBK encoder yields on a character sequence: a function of the
/// characters alone. Unmappable characters appear as numeric character
/// references in the result.
pub uninterp spec fn gbk_encoded(text: Seq<char>) -> Seq<u8>;

/// Whether the GBK encoder had to replace some character of the text
/// with a numeric character reference: a function of the characters
/// alone.
pub uninterp spec fn gbk_lossy(text: Seq<char>) -> bool;

/// Relies on `encoding_rs::Encoding::decode_without_bom_handling` on the
/// GBK encoding: it decodes the whole buffer, replacing malformed
/// sequences with the replacement character, and reports in the flag
/// whether any replacement happened. The result depends on the bytes
/// alone.
#[verifier::external_body]
fn gbk_decode(bytes: &Vec<u8>) -> (r: (String, bool))
    ensures
        r.0@ == gbk_decoded(bytes@),
{
    let (cow, had_errors) = encoding_rs::GBK.decode_without_bom_handling(bytes.as_slice());
    (cow.into_owned(), had_errors)
}

/// Relies on `encoding_rs::Encoding::encode` on the GBK encoding: it
/// encodes the whole string, replacing unmappable characters with numeric
/// character references and reporting in the flag whether any replacement
/// happened. Bytes and flag both depend on the text alone.
#[verifier::external_body]
fn gbk_encode(text: &str) -> (r: (Vec<u8>, bool))
    ensures
        r.0@ == gbk_encoded(text@),
        r.1 == gbk_lossy(text@),
{
    let (cow, _, had_errors) = encoding_rs::GBK.encode(text);
    (cow.into_owned(), had_errors)
}

/// Decode captured child output from GBK. Total: malformed input yields
/// replacement characters, never an error.
pub fn decode_captured(bytes: &Vec<u8>) -> (r: String)
    ensures
        r@ == gbk_decoded(bytes@),
{
    let (text, _) = gbk_decode(bytes);
    text
}

/// Encode text into GBK. The flag reports whether any character was
/// unmappable and had to be replaced.
pub fn encode_legacy(text: &str) -> (r: (Vec<u8>, bool))
    ensures
        r.0@ == gbk_encoded(text@),
        r.1 == gbk_lossy(text@),
{
    gbk_encode(text)
}

/// Round trip: encode the text into GBK, decode the bytes back, and
/// return the decoded text only when it is the original. The comparison
/// is real: the encoder maps a handful of private-use code points to
/// byte sequences that the decoder reads as other characters, without
/// flagging a replacement, so a clean encode alone does not prove the
/// decode returns the input.
pub fn encode_then_decode(text: &str) -> (r: Option<String>)
    ensures
        r is Some <==> (!gbk_lossy(text@) && gbk_decoded(gbk_encoded(text@)) == text@),
        match r {
            Some(t) => t@ == text@,
            None => true,
        },
{
    let (bytes, lossy) = gbk_encode(text);
    if lossy {
        return None;
    }
    let decoded = decode_captured(&bytes);
    let dc = chars_of_str(decoded.as_str());
    let tc = chars_of_str(text);
    if chars_eq(&dc, &tc) {
        Some(decoded)
    } else {
        None
    }
}

} // verus!
