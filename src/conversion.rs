//! Re-encoding of GBK content as UTF-8.
use vstd::prelude::*;
use vstd::utf8::*;
use vstd::slice::slice_to_vec;

verus! {

/// Why a conversion did not happen.
#[derive(Clone, Copy, Debug, PartialEq, Eq, Structural)]
pub enum ConversionError {
    /// Some byte sequence is not valid under strict GBK decoding.
    DecodeFailure,
}

/// The text that the encoding crate's strict GBK decoder makes of `bytes`, or
/// `None` when it rejects them.
pub uninterp spec fn gbk_strict_decode(bytes: Seq<u8>) -> Option<Seq<char>>;

/// Relies on the encoding crate's `Encoding::decode` of `encoding::all::GBK` with
/// `DecoderTrap::Strict`: the decoded text, or an error as soon as a byte
/// sequence is not valid GBK.
#[verifier::external_body]
fn decode_gbk_strict(bytes: &[u8]) -> (r: Option<String>)
    ensures
        r.is_some() == gbk_strict_decode(bytes@).is_some(),
        r matches Some(s) ==> s@ == gbk_strict_decode(bytes@).unwrap(),
{
    encoding::Encoding::decode(encoding::all::GBK, bytes, encoding::DecoderTrap::Strict).ok()
}

/// The UTF-8 bytes of `text`.
pub fn utf8_bytes_of(text: &String) -> (r: Vec<u8>)
    ensures
        r@ == encode_utf8(text@),
        valid_utf8(r@),
        decode_utf8(r@) == text@,
{
    let r = slice_to_vec(text.as_str().as_bytes());
    proof {
        encode_utf8_valid_utf8(text@);
        encode_utf8_decode_utf8(text@);
    }
    r
}

/// Decodes `bytes` strictly as GBK and returns the text as UTF-8 bytes, or
/// `DecodeFailure` when the decoder rejects them.
pub fn gbk_to_utf8(bytes: &[u8]) -> (r: Result<Vec<u8>, ConversionError>)
    ensures
        r.is_ok() == gbk_strict_decode(bytes@).is_some(),
        r matches Ok(out) ==> out@ == encode_utf8(gbk_strict_decode(bytes@).unwrap()),
        r matches Err(e) ==> e == ConversionError::DecodeFailure,
{
    match decode_gbk_strict(bytes) {
        Some(text) => Ok(utf8_bytes_of(&text)),
        None => Err(ConversionError::DecodeFailure),
    }
}

/// Converted content reads back as text: the UTF-8 bytes of any text are valid
/// UTF-8 and decode to that same text.
pub proof fn lemma_converted_round_trip(text: Seq<char>)
    ensures
        valid_utf8(encode_utf8(text)),
        decode_utf8(encode_utf8(text)) == text,
{
    encode_utf8_valid_utf8(text);
    encode_utf8_decode_utf8(text);
}

} // verus!
