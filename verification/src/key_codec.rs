//! Keys as text: the standard padded base64 of their raw bytes.
//!
//! Encoding cannot fail. Decoding reads the base64 and then asks one thing
//! of the bytes, their number: 64 for a secret key, 32 for a public key.
//! Whether the bytes are a key that the curve accepts is not asked here.

use vstd::prelude::*;

use crate::encoding;
use crate::encoding::{base64_decoded, base64_encoded, encoded_len, is_base64_text};
use crate::error::DecodeError;
use crate::key::{TorPublicKeyV3, TorSecretKeyV3, PUBLIC_KEY_LEN, SECRET_KEY_LEN};

verus! {

/// What a key decoder of `size` bytes makes of the base64 decoder's outcome:
/// no bytes are an encoding error, bytes of another number are a length
/// error, and `size` bytes are the key.
pub open spec fn key_decoding(decoded: Option<Seq<u8>>, size: usize) -> Result<
    Seq<u8>,
    DecodeError,
> {
    match decoded {
        None => Err(DecodeError::InvalidEncoding),
        Some(raw) => if raw.len() == size {
            Ok(raw)
        } else {
            Err(DecodeError::InvalidLength { expected: size, actual: raw.len() as usize })
        },
    }
}

/// The bytes of the secret key that `text` decodes to, or the error.
pub open spec fn secret_key_decoding(text: Seq<char>) -> Result<Seq<u8>, DecodeError> {
    key_decoding(base64_decoded(text), SECRET_KEY_LEN)
}

/// The bytes of the public key that `text` decodes to, or the error.
pub open spec fn public_key_decoding(text: Seq<char>) -> Result<Seq<u8>, DecodeError> {
    key_decoding(base64_decoded(text), PUBLIC_KEY_LEN)
}

/// A decoder's result, with the key seen as its bytes.
pub open spec fn key_outcome<K: View<V = Seq<u8>>>(r: Result<K, DecodeError>) -> Result<
    Seq<u8>,
    DecodeError,
> {
    match r {
        Ok(key) => Ok(key@),
        Err(e) => Err(e),
    }
}

/// `text` is the text of a key of these `bytes`: it is their padded base64,
/// four characters of the alphabet for every three bytes, and base64 reads
/// it back as the same bytes.
pub open spec fn is_key_text(text: Seq<char>, bytes: Seq<u8>) -> bool {
    &&& text == base64_encoded(bytes)
    &&& text.len() == encoded_len(bytes.len())
    &&& is_base64_text(text)
    &&& base64_decoded(text) == Some(bytes)
}

/// Bytes of another number than the key has are refused for their length,
/// and the error tells both numbers.
pub proof fn lemma_wrong_length_is_refused(raw: Seq<u8>, size: usize)
    requires
        raw.len() != size,
    ensures
        key_decoding(Some(raw), size) == Err::<Seq<u8>, DecodeError>(
            DecodeError::InvalidLength { expected: size, actual: raw.len() as usize },
        ),
{
}

/// A text that is base64 of another number of bytes than 64 is no secret
/// key: it is refused for its length.
pub proof fn lemma_secret_key_length_is_checked(text: Seq<char>)
    ensures
        base64_decoded(text) is Some && base64_decoded(text).unwrap().len() != SECRET_KEY_LEN
            ==> secret_key_decoding(text) == Err::<Seq<u8>, DecodeError>(
            DecodeError::InvalidLength {
                expected: SECRET_KEY_LEN,
                actual: base64_decoded(text).unwrap().len() as usize,
            },
        ),
{
    if base64_decoded(text) is Some && base64_decoded(text).unwrap().len() != SECRET_KEY_LEN {
        lemma_wrong_length_is_refused(base64_decoded(text).unwrap(), SECRET_KEY_LEN);
    }
}

/// A text that is base64 of another number of bytes than 32 is no public
/// key: it is refused for its length.
pub proof fn lemma_public_key_length_is_checked(text: Seq<char>)
    ensures
        base64_decoded(text) is Some && base64_decoded(text).unwrap().len() != PUBLIC_KEY_LEN
            ==> public_key_decoding(text) == Err::<Seq<u8>, DecodeError>(
            DecodeError::InvalidLength {
                expected: PUBLIC_KEY_LEN,
                actual: base64_decoded(text).unwrap().len() as usize,
            },
        ),
{
    if base64_decoded(text) is Some && base64_decoded(text).unwrap().len() != PUBLIC_KEY_LEN {
        lemma_wrong_length_is_refused(base64_decoded(text).unwrap(), PUBLIC_KEY_LEN);
    }
}

/// Decoding the text of a secret key gives the key back.
pub proof fn lemma_secret_key_round_trip(key: TorSecretKeyV3, text: Seq<char>)
    requires
        is_key_text(text, key@),
    ensures
        secret_key_decoding(text) == Ok::<Seq<u8>, DecodeError>(key@),
{
    key.lemma_len();
}

/// Decoding the text of a public key gives the key back.
pub proof fn lemma_public_key_round_trip(key: TorPublicKeyV3, text: Seq<char>)
    requires
        is_key_text(text, key@),
    ensures
        public_key_decoding(text) == Ok::<Seq<u8>, DecodeError>(key@),
{
    key.lemma_len();
}

/// A key has one text: two encodings of the same bytes are the same text.
pub proof fn lemma_key_text_is_unique(bytes: Seq<u8>, first: Seq<char>, second: Seq<char>)
    requires
        is_key_text(first, bytes),
        is_key_text(second, bytes),
    ensures
        first == second,
{
}

/// The `N` bytes of `raw` as an array, in their order.
fn to_array<const N: usize>(raw: &[u8]) -> (buf: [u8; N])
    requires
        raw@.len() == N,
    ensures
        buf@ == raw@,
{
    let mut buf = [0u8; N];
    let mut i: usize = 0;
    while i < N
        invariant
            i <= N,
            raw@.len() == N,
            forall|j: int| 0 <= j < i ==> buf@[j] == raw@[j],
        decreases N - i,
    {
        buf[i] = raw[i];
        i += 1;
    }
    assert(buf@ =~= raw@);
    buf
}

/// The secret key of the decoded bytes `raw`, if they are 64.
pub fn secret_key_from_decoded(raw: &[u8]) -> (r: Result<TorSecretKeyV3, DecodeError>)
    ensures
        key_outcome(r) == key_decoding(Some(raw@), SECRET_KEY_LEN),
{
    if raw.len() != SECRET_KEY_LEN {
        return Err(DecodeError::InvalidLength { expected: SECRET_KEY_LEN, actual: raw.len() });
    }
    Ok(TorSecretKeyV3::from_bytes(to_array(raw)))
}

/// The public key of the decoded bytes `raw`, if they are 32.
pub fn public_key_from_decoded(raw: &[u8]) -> (r: Result<TorPublicKeyV3, DecodeError>)
    ensures
        key_outcome(r) == key_decoding(Some(raw@), PUBLIC_KEY_LEN),
{
    if raw.len() != PUBLIC_KEY_LEN {
        return Err(DecodeError::InvalidLength { expected: PUBLIC_KEY_LEN, actual: raw.len() });
    }
    Ok(TorPublicKeyV3::from_bytes(to_array(raw)))
}

/// The text of a secret key: 88 characters of padded base64, which
/// [`decode_secret_key`] reads back as the same key.
pub fn encode_secret_key(key: &TorSecretKeyV3) -> (text: String)
    ensures
        is_key_text(text@, key@),
        text@.len() == 88,
        secret_key_decoding(text@) == Ok::<Seq<u8>, DecodeError>(key@),
{
    proof {
        key.lemma_len();
    }
    let text = encoding::encode(key.as_bytes().as_slice());
    proof {
        lemma_secret_key_round_trip(*key, text@);
    }
    text
}

/// The text of a public key: 44 characters of padded base64, which
/// [`decode_public_key`] reads back as the same key.
pub fn encode_public_key(key: &TorPublicKeyV3) -> (text: String)
    ensures
        is_key_text(text@, key@),
        text@.len() == 44,
        public_key_decoding(text@) == Ok::<Seq<u8>, DecodeError>(key@),
{
    proof {
        key.lemma_len();
    }
    let text = encoding::encode(key.as_bytes().as_slice());
    proof {
        lemma_public_key_round_trip(*key, text@);
    }
    text
}

/// The secret key that `text` encodes.
///
/// Fails with `InvalidEncoding` where `text` is not base64, as every text
/// with a character outside the alphabet is, and with `InvalidLength` where
/// it is base64 of another number of bytes than 64.
pub fn decode_secret_key(text: &str) -> (r: Result<TorSecretKeyV3, DecodeError>)
    ensures
        key_outcome(r) == secret_key_decoding(text@),
        !is_base64_text(text@) ==> r == Err::<TorSecretKeyV3, _>(DecodeError::InvalidEncoding),
{
    match encoding::decode(text) {
        Ok(raw) => secret_key_from_decoded(raw.as_slice()),
        Err(_) => Err(DecodeError::InvalidEncoding),
    }
}

/// The public key that `text` encodes.
///
/// Fails with `InvalidEncoding` where `text` is not base64, as every text
/// with a character outside the alphabet is, and with `InvalidLength` where
/// it is base64 of another number of bytes than 32.
pub fn decode_public_key(text: &str) -> (r: Result<TorPublicKeyV3, DecodeError>)
    ensures
        key_outcome(r) == public_key_decoding(text@),
        !is_base64_text(text@) ==> r == Err::<TorPublicKeyV3, _>(DecodeError::InvalidEncoding),
{
    match encoding::decode(text) {
        Ok(raw) => public_key_from_decoded(raw.as_slice()),
        Err(_) => Err(DecodeError::InvalidEncoding),
    }
}

} // verus!
