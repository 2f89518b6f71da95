//! Onion addresses as text: the canonical short form, the address without
//! its `.onion` suffix.
//!
//! Which texts are addresses is for the address type to say; its grammar
//! checks the length, the version and the checksum. The codec is therefore
//! written over any address type `A` and is handed the type's two
//! operations: the one that writes the short form and the one that parses
//! it. The codec adds no check of its own. It writes what the address
//! writes, returns the address that the parser returns, and wraps the
//! parser's refusal, reason included.

use vstd::prelude::*;

use crate::error::DecodeError;

verus! {

/// What the codec makes of the parser's outcome: an address is returned as
/// it is, a refusal becomes `InvalidAddress` with the parser's reason.
pub open spec fn address_decoding<A>(parsed: Result<A, String>) -> Result<A, DecodeError> {
    match parsed {
        Ok(address) => Ok(address),
        Err(reason) => Err(DecodeError::InvalidAddress(reason)),
    }
}

/// `written` is a text of `address`: `short_form` may return it for the
/// address.
pub open spec fn is_address_text<A, F: FnOnce(&A) -> String>(
    short_form: F,
    address: A,
    written: String,
) -> bool {
    short_form.ensures((&address,), written)
}

/// `decoded` is a decoding of `text`: it is what the codec makes of an
/// outcome that `parse` may return for the text.
pub open spec fn is_address_decoding<A, P: FnOnce(&str) -> Result<A, String>>(
    parse: P,
    text: &str,
    decoded: Result<A, DecodeError>,
) -> bool {
    exists|parsed: Result<A, String>| #[trigger]
        parse.ensures((text,), parsed) && decoded == address_decoding(parsed)
}

/// The grammar's own round trip: `parse` reads every text of `address` back
/// as `address`, and as nothing else.
pub open spec fn reads_back<A, F: FnOnce(&A) -> String, P: FnOnce(&str) -> Result<A, String>>(
    short_form: F,
    parse: P,
    address: A,
) -> bool {
    forall|written: String, text: &str, parsed: Result<A, String>|
        #![trigger short_form.ensures((&address,), written), parse.ensures((text,), parsed)]
        short_form.ensures((&address,), written) && text@ == written@ && parse.ensures(
            (text,),
            parsed,
        ) ==> parsed == Ok::<A, String>(address)
}

/// The codec loses nothing and adds nothing: an address that the parser
/// returns is the decoder's result as it is.
pub proof fn lemma_parsed_address_is_kept<A>(address: A)
    ensures
        address_decoding(Ok::<A, String>(address)) == Ok::<A, DecodeError>(address),
{
}

/// Round trip: under a grammar that reads its own texts back, decoding a
/// text of an address gives the address.
pub proof fn lemma_address_round_trip<A, F, P>(
    short_form: F,
    parse: P,
    address: A,
    written: String,
    text: &str,
    decoded: Result<A, DecodeError>,
) where F: FnOnce(&A) -> String, P: FnOnce(&str) -> Result<A, String>
    requires
        reads_back(short_form, parse, address),
        is_address_text(short_form, address, written),
        text@ == written@,
        is_address_decoding(parse, text, decoded),
    ensures
        decoded == Ok::<A, DecodeError>(address),
{
}

/// The codec's result for the outcome `parsed` of the address parser.
pub fn address_from_parsed<A>(parsed: Result<A, String>) -> (r: Result<A, DecodeError>)
    ensures
        r == address_decoding(parsed),
{
    match parsed {
        Ok(address) => Ok(address),
        Err(reason) => Err(DecodeError::InvalidAddress(reason)),
    }
}

/// The text of `address`: what `short_form` writes for it, unchanged.
pub fn encode_address<A, F>(address: &A, short_form: F) -> (text: String) where
    F: FnOnce(&A) -> String,

    requires
        short_form.requires((address,)),
    ensures
        is_address_text(short_form, *address, text),
{
    short_form(address)
}

/// The address that `parse` reads from `text`.
///
/// `parse` is called once, on `text` as it came. Fails with
/// `InvalidAddress` where `parse` refuses, and carries its reason.
pub fn decode_address<A, P>(text: &str, parse: P) -> (decoded: Result<A, DecodeError>) where
    P: FnOnce(&str) -> Result<A, String>,

    requires
        parse.requires((text,)),
    ensures
        is_address_decoding(parse, text, decoded),
{
    let parsed = parse(text);
    address_from_parsed(parsed)
}

} // verus!
