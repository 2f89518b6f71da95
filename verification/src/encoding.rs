//! Standard padded base64, as the `base64` crate computes it.
//!
//! The codec itself is not restated here. Its two results have names, and
//! beside the names stand the few facts about them that the key codecs rest
//! on. Nothing in this file is proved: it is what the rest of the library
//! takes on trust.

// Under another name: `DecodeError` is this library's own error.
use base64::DecodeError as Base64Error;
use vstd::prelude::*;

verus! {

/// The text that standard padded base64 gives for `bytes`.
pub uninterp spec fn base64_encoded(bytes: Seq<u8>) -> Seq<char>;

/// The bytes that `text` stands for in standard base64, or `None` where the
/// decoder refuses the text.
pub uninterp spec fn base64_decoded(text: Seq<char>) -> Option<Seq<u8>>;

/// One of the 64 symbols of the standard alphabet.
pub open spec fn is_base64_symbol(c: char) -> bool {
    ||| 'A' <= c <= 'Z'
    ||| 'a' <= c <= 'z'
    ||| '0' <= c <= '9'
    ||| c == '+'
    ||| c == '/'
}

/// A character that may stand in padded base64: a symbol or the pad `=`.
pub open spec fn is_base64_char(c: char) -> bool {
    is_base64_symbol(c) || c == '='
}

/// Every character of `text` may stand in padded base64.
pub open spec fn is_base64_text(text: Seq<char>) -> bool {
    forall|i: int| 0 <= i < text.len() ==> is_base64_char(#[trigger] text[i])
}

/// The length of the padded encoding of `n` bytes: four characters for every
/// three bytes, the last group filled up.
pub open spec fn encoded_len(n: nat) -> nat {
    4 * ((n + 2) / 3)
}

/// The decoder's own error; the codecs only tell it apart from success.
#[verifier::external_type_specification]
#[verifier::external_body]
pub struct ExBase64Error(Base64Error);

/// `base64::encode`: the standard alphabet with padding.
///
/// Taken on trust: the text is the encoding of `bytes`; it has four
/// characters for every group of three bytes, a last partial group included;
/// every character is a symbol of the alphabet or the pad; and
/// `base64::decode` reads the text back as `bytes`. The encoder panics where
/// the length of the text does not fit the machine, so such inputs are left
/// out.
#[verifier::external_body]
pub(crate) fn encode(bytes: &[u8]) -> (text: String)
    requires
        encoded_len(bytes@.len()) <= isize::MAX,
    ensures
        text@ == base64_encoded(bytes@),
        text@.len() == encoded_len(bytes@.len()),
        is_base64_text(text@),
        base64_decoded(text@) == Some(bytes@),
{
    base64::encode(bytes)
}

/// `base64::decode`: the standard alphabet, padding allowed at the end.
///
/// Taken on trust: the outcome is a function of the text alone, and the
/// decoder accepts no text that holds a character other than the 64 symbols
/// and the pad. For a `str`, whose length fits `isize`, the decoder's length
/// arithmetic cannot overflow.
#[verifier::external_body]
pub(crate) fn decode(text: &str) -> (outcome: Result<Vec<u8>, Base64Error>)
    ensures
        match outcome {
            Ok(bytes) => base64_decoded(text@) == Some(bytes@),
            Err(_) => base64_decoded(text@) is None,
        },
        outcome is Ok ==> is_base64_text(text@),
{
    base64::decode(text)
}

} // verus!
