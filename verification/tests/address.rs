use std::str::FromStr;

use solana_relay::address::Address;
use solana_sdk::pubkey::Pubkey;

const KEY: &str = "2gPihUTjt3FJqf1VpidgrY5cZ6PuyMccGVwQHRfjMPZG";

#[test]
fn parse_reads_the_key_bytes() {
    let address = Address::parse(KEY).unwrap();
    assert_eq!(
        address.to_bytes(),
        [
            24, 243, 6, 223, 230, 153, 210, 8, 92, 137, 123, 67, 164, 197, 79, 196, 125, 43, 183,
            85, 103, 91, 232, 167, 73, 131, 104, 131, 0, 101, 214, 231
        ]
    );
}

#[test]
fn parse_reads_the_all_zero_key() {
    let address = Address::parse("11111111111111111111111111111111").unwrap();
    assert_eq!(address.to_bytes(), [0u8; 32]);
}

#[test]
fn parse_agrees_with_the_key_type() {
    let texts =
        [KEY, "11111111111111111111111111111111", "So11111111111111111111111111111111111111112"];
    for text in texts {
        let address = Address::parse(text).unwrap();
        assert_eq!(address.to_bytes(), Pubkey::from_str(text).unwrap().to_bytes());
        assert_eq!(Pubkey::new_from_array(address.to_bytes()).to_string(), text);
    }
}

#[test]
fn parse_rejects_a_character_outside_the_alphabet() {
    assert_eq!(Address::parse("not-an-address"), Err("Invalid Base58 string".to_string()));
    assert_eq!(
        Address::parse("0gPihUTjt3FJqf1VpidgrY5cZ6PuyMccGVwQHRfjMPZG"),
        Err("Invalid Base58 string".to_string())
    );
    assert_eq!(Address::parse("caf\u{e9}"), Err("Invalid Base58 string".to_string()));
}

#[test]
fn parse_rejects_a_string_that_is_too_long() {
    let long = "1".repeat(45);
    assert_eq!(Address::parse(&long), Err("String is the wrong size".to_string()));
    let long = "not base58 at all, and far longer than any address could be";
    assert_eq!(Address::parse(long), Err("String is the wrong size".to_string()));
}

#[test]
fn parse_rejects_a_string_that_is_too_short() {
    assert_eq!(Address::parse(""), Err("String is the wrong size".to_string()));
    assert_eq!(Address::parse("abc"), Err("String is the wrong size".to_string()));
    assert_eq!(
        Address::parse("2gPihUTjt3FJqf1VpidgrY5cZ6PuyMccGVwQHRfjMPZ"),
        Err("String is the wrong size".to_string())
    );
}

#[test]
fn parse_rejects_a_key_of_more_than_32_bytes() {
    assert_eq!(
        Address::parse("JEKNVnkbo3jma5nREBBJCDoXFVeKkD56V3xKrvRmWxFJ"),
        Err("String is the wrong size".to_string())
    );
    assert_eq!(
        Address::parse("111111111111111111111111111111111"),
        Err("String is the wrong size".to_string())
    );
}

#[test]
fn parse_twice_gives_the_same_address() {
    assert_eq!(Address::parse(KEY), Address::parse(KEY));
    assert_eq!(Address::parse("bad!"), Address::parse("bad!"));
}

#[test]
fn addresses_of_different_strings_differ() {
    assert_ne!(
        Address::parse(KEY).unwrap(),
        Address::parse("11111111111111111111111111111111").unwrap()
    );
}
