//! Text codecs for Tor v3 onion-service identities.
//!
//! A secret key (64 bytes) and a public key (32 bytes) travel as the standard
//! padded base64 of their raw bytes; an onion address travels as its
//! canonical short form, the address without its `.onion` suffix. Every
//! decoder either returns a complete value or one [`error::DecodeError`];
//! no encoder fails. All of them are stateless.

pub mod address_codec;
pub mod encoding;
pub mod error;
pub mod key;
pub mod key_codec;
