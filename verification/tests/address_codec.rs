use onion_codec::address_codec::{address_from_parsed, decode_address, encode_address};
use onion_codec::error::DecodeError;

const SAMPLE: &str = "pg6mmjiyjmcrsslvykfwnntlaru7p5svn6y2ymmju6nubxndf4pscryd";

/// An address type of the kind the codec is meant for: it knows its own
/// short form and its own grammar.
#[derive(Debug, Clone, PartialEq, Eq)]
struct Address {
    short_form: String,
}

impl Address {
    fn get_address_without_dot_onion(&self) -> String {
        self.short_form.clone()
    }

    fn parse(text: &str) -> Result<Address, String> {
        if text.len() != 56 {
            return Err(format!("an address has 56 characters, not {}", text.len()));
        }
        if !text.bytes().all(|b| b.is_ascii_lowercase() || (b'2'..=b'7').contains(&b)) {
            return Err(String::from("a character outside the address alphabet"));
        }
        if !text.ends_with('d') {
            return Err(String::from("not a version 3 address"));
        }
        Ok(Address { short_form: String::from(text) })
    }
}

#[test]
fn address_text_is_the_short_form() {
    let address = Address::parse(SAMPLE).unwrap();
    let text = encode_address(&address, Address::get_address_without_dot_onion);

    assert_eq!(text, SAMPLE);
    assert!(!text.ends_with(".onion"));
}

#[test]
fn address_text_decodes_to_the_parsed_address() {
    assert_eq!(
        decode_address(SAMPLE, Address::parse),
        Ok(Address { short_form: String::from(SAMPLE) })
    );
}

#[test]
fn address_round_trip() {
    let address = Address::parse(SAMPLE).unwrap();
    let text = encode_address(&address, |a: &Address| a.get_address_without_dot_onion());

    assert_eq!(decode_address(&text, Address::parse), Ok(address));
}

#[test]
fn encoding_an_address_twice_gives_the_same_text() {
    let address = Address::parse(SAMPLE).unwrap();

    assert_eq!(
        encode_address(&address, Address::get_address_without_dot_onion),
        encode_address(&address, Address::get_address_without_dot_onion)
    );
}

#[test]
fn refused_address_keeps_the_reason() {
    assert_eq!(
        decode_address("tooshort", Address::parse),
        Err(DecodeError::InvalidAddress(String::from("an address has 56 characters, not 8")))
    );

    let with_suffix = format!("{}.onion", SAMPLE);
    assert_eq!(
        decode_address(&with_suffix, Address::parse),
        Err(DecodeError::InvalidAddress(String::from("an address has 56 characters, not 62")))
    );

    let upper = SAMPLE.to_uppercase();
    assert_eq!(
        decode_address(&upper, Address::parse),
        Err(DecodeError::InvalidAddress(String::from("a character outside the address alphabet")))
    );

    let other_version = format!("{}a", &SAMPLE[..55]);
    assert_eq!(
        decode_address(&other_version, Address::parse),
        Err(DecodeError::InvalidAddress(String::from("not a version 3 address")))
    );
}

#[test]
fn the_parser_sees_the_text_as_it_came() {
    let seen = decode_address(" padded ", |text: &str| -> Result<String, String> {
        Ok(String::from(text))
    });

    assert_eq!(seen, Ok(String::from(" padded ")));
}

#[test]
fn parsed_address_is_handed_on() {
    let address = Address::parse(SAMPLE).unwrap();

    assert_eq!(address_from_parsed(Ok(address.clone())), Ok(address));
    assert_eq!(address_from_parsed::<u8>(Ok(3)), Ok(3));
}

#[test]
fn parser_refusal_becomes_invalid_address() {
    assert_eq!(
        address_from_parsed::<Address>(Err(String::from("bad checksum"))),
        Err(DecodeError::InvalidAddress(String::from("bad checksum")))
    );
    assert_eq!(
        address_from_parsed::<Address>(Err(String::new())),
        Err(DecodeError::InvalidAddress(String::new()))
    );
}
