//! Image bytes to wire text and back, by the `base64` crate.

use crate::encoding::{
    encoded, encoded_len, is_encoding, lemma_encoded_injective, lemma_is_encoding_iff_well_formed,
    lemma_well_formed_encodes_carried, carried, well_formed,
};
use base64::Engine;
use vstd::prelude::*;

verus! {

/// Why a text was refused as base64.
#[derive(Clone, Copy, Debug, PartialEq, Eq, Structural)]
pub enum DecodeError {
    /// A character outside the alphabet, or padding where none may stand.
    InvalidByte { offset: usize, byte: u8 },
    /// The text ends with a lone symbol, which cannot carry a whole byte.
    InvalidLength { length: usize },
    /// The last symbol has bits set that belong to no byte.
    InvalidLastSymbol { offset: usize, byte: u8 },
    /// The padding is missing or is not of the length the data calls for.
    InvalidPadding,
}

/// The reason that `Engine::decode` of `base64::engine::general_purpose::STANDARD`
/// gives for refusing `text`.
pub uninterp spec fn rejection(text: Seq<char>) -> DecodeError;

/// What decoding `text` yields: the bytes that it is the encoding of, or the
/// reason for its refusal.
pub open spec fn decoded(text: Seq<char>) -> Result<Seq<u8>, DecodeError> {
    if is_encoding(text) {
        Ok(choose|bytes: Seq<u8>| encoded(bytes) == text)
    } else {
        Err(rejection(text))
    }
}

/// Calls `Engine::encode` on `base64::engine::general_purpose::STANDARD`, the
/// engine of the alphabet `A` to `Z`, `a` to `z`, `0` to `9`, `+`, `/` that pads with `=`.
///
/// Trusted: the text returned is [`encoded`] of the bytes. The engine writes, for
/// three bytes, the symbols of `b0 >> 2`, `(b0 << 4 | b1 >> 4) & 63`,
/// `(b1 << 2 | b2 >> 6) & 63` and `b2 & 63`, for a last group of one or two
/// bytes the first two or three of these with the missing bytes taken as zero,
/// and then `=` up to a multiple of four characters. The call panics where the
/// length of the text overflows `usize`; the precondition leaves that out.
#[verifier::external_body]
fn standard_encode(bytes: &[u8]) -> (text: String)
    requires
        encoded_len(bytes@.len()) <= usize::MAX,
    ensures
        text@ == encoded(bytes@),
{
    base64::engine::general_purpose::STANDARD.encode(bytes)
}

/// Calls `Engine::decode` on `base64::engine::general_purpose::STANDARD`, and
/// hands on its error variant for variant.
///
/// Trusted: the engine accepts a text only if it is the encoding of the bytes
/// returned, and it accepts every encoding. It refuses any character that is no
/// symbol, padding anywhere but at the end of the last group, padding that does
/// not fill the last group (`DecodePaddingMode::RequireCanonical`), and a last
/// symbol with bits set that belong to no byte (`decode_allow_trailing_bits` is
/// off). Which reason it gives depends on the text alone.
#[verifier::external_body]
fn standard_decode(text: &str) -> (r: Result<Vec<u8>, DecodeError>)
    ensures
        r matches Ok(bytes) ==> encoded(bytes@) == text@,
        r matches Err(e) ==> !is_encoding(text@) && e == rejection(text@),
{
    match base64::engine::general_purpose::STANDARD.decode(text) {
        Ok(bytes) => Ok(bytes),
        Err(base64::DecodeError::InvalidByte(offset, byte)) => Err(
            DecodeError::InvalidByte { offset, byte },
        ),
        Err(base64::DecodeError::InvalidLength(length)) => Err(
            DecodeError::InvalidLength { length },
        ),
        Err(base64::DecodeError::InvalidLastSymbol(offset, byte)) => Err(
            DecodeError::InvalidLastSymbol { offset, byte },
        ),
        Err(base64::DecodeError::InvalidPadding) => Err(DecodeError::InvalidPadding),
    }
}

/// Encodes image bytes for the wire. The text is the padded standard base64 form
/// of the bytes, and decodes back to them.
pub fn encode(bytes: &[u8]) -> (text: String)
    requires
        encoded_len(bytes@.len()) <= usize::MAX,
    ensures
        text@ == encoded(bytes@),
        decoded(text@) == Ok::<Seq<u8>, DecodeError>(bytes@),
{
    proof {
        lemma_decoded_encoded(bytes@);
    }
    standard_encode(bytes)
}

/// Encodes image bytes for the wire, unless the text would be longer than the
/// machine can hold.
pub fn try_encode(bytes: &[u8]) -> (text: Option<String>)
    ensures
        text is Some <==> encoded_len(bytes@.len()) <= usize::MAX,
        text matches Some(t) ==> t@ == encoded(bytes@) && decoded(t@) == Ok::<Seq<u8>, DecodeError>(
            bytes@,
        ),
{
    let whole: usize = bytes.len() / 3;
    let groups: usize = if bytes.len() % 3 == 0 {
        whole
    } else {
        whole + 1
    };
    if groups <= usize::MAX / 4 {
        Some(encode(bytes))
    } else {
        None
    }
}

/// Decodes wire text back into image bytes, all or nothing: a well-formed text
/// yields the bytes it encodes, and any other text is refused.
pub fn decode(text: &str) -> (r: Result<Vec<u8>, DecodeError>)
    ensures
        r is Ok <==> well_formed(text@),
        r matches Ok(bytes) ==> decoded(text@) == Ok::<Seq<u8>, DecodeError>(bytes@),
        r matches Ok(bytes) ==> encoded(bytes@) == text@,
        r matches Err(e) ==> decoded(text@) == Err::<Seq<u8>, DecodeError>(e),
{
    let r = standard_decode(text);
    proof {
        lemma_is_encoding_iff_well_formed(text@);
        if r is Ok {
            lemma_encoded_injective(r->Ok_0@, choose|b: Seq<u8>| encoded(b) == text@);
        }
    }
    r
}

/// Decoding inverts encoding: the encoding of any bytes, the empty sequence
/// among them, decodes to those bytes.
pub proof fn lemma_decoded_encoded(bytes: Seq<u8>)
    ensures
        decoded(encoded(bytes)) == Ok::<Seq<u8>, DecodeError>(bytes),
{
    lemma_encoded_injective(bytes, choose|b: Seq<u8>| encoded(b) == encoded(bytes));
}

/// Decoding is decided by the form of the text alone: a well-formed text decodes
/// to the bytes it carries, and any other text is refused, with nothing decoded.
pub proof fn lemma_decoded_by_form(text: Seq<char>)
    ensures
        well_formed(text) ==> decoded(text) == Ok::<Seq<u8>, DecodeError>(carried(text)),
        !well_formed(text) ==> decoded(text) == Err::<Seq<u8>, DecodeError>(rejection(text)),
{
    lemma_is_encoding_iff_well_formed(text);
    if well_formed(text) {
        lemma_well_formed_encodes_carried(text);
        lemma_encoded_injective(carried(text), choose|b: Seq<u8>| encoded(b) == text);
    }
}

} // verus!
