use enclave_keygen::constants::{
    ENCLAVE_FILE, ENCLAVE_TOKEN, ETH_PREFIX, HEX_PREFIX, NETWORK_REGEX, SECRET_KEY_SIZE,
    URL_PREFIX, URL_SUFFIX,
};
use enclave_keygen::error::AppError;
use enclave_keygen::keygen::{KeyPair, PublicKey};
use enclave_keygen::utils::{
    convert_to_address_type, get_infura_url, get_network_name, hash, hex_digit, is_affirmative,
    public_to_address, same_text, serialize, trim_hex_prefix, trimmed_hex_to_i64, whitespace,
    Address,
};
use std::num::IntErrorKind;

fn unhex(text: &str) -> Vec<u8> {
    (0..text.len() / 2).map(|i| u8::from_str_radix(&text[2 * i..2 * i + 2], 16).unwrap()).collect()
}

fn public_of(secret_low_byte: u8) -> PublicKey {
    let mut secret = [0u8; 32];
    secret[31] = secret_low_byte;
    KeyPair::from_secret(secret).unwrap().public()
}

#[test]
fn the_constants_keep_their_values() {
    assert_eq!(SECRET_KEY_SIZE, 32);
    assert_eq!(HEX_PREFIX, "0x");
    assert_eq!(URL_PREFIX, "https://");
    assert_eq!(URL_SUFFIX, ".smilo.network/");
    assert_eq!(ENCLAVE_TOKEN, "enclave.token");
    assert_eq!(ENCLAVE_FILE, "enclave.signed.so");
    assert_eq!(ETH_PREFIX, "\x19Smilo Signed Message:\n32");
    assert_eq!(NETWORK_REGEX, "(testnet)|(mainnet)");
}

#[test]
fn network_ten_is_the_test_network() {
    assert_eq!(get_network_name(10), "testnet-wallet.smilo.network/api/");
    assert_eq!(get_infura_url(10), "https://testnet-wallet.smilo.network/api/");
}

#[test]
fn every_other_network_is_the_main_network() {
    for id in [0u8, 1, 9, 11, 20, 255] {
        assert_eq!(get_network_name(id), "api.smilo.network/");
        assert_eq!(get_infura_url(id), "https://api.smilo.network/");
    }
}

#[test]
fn the_digest_of_nothing_is_the_known_one() {
    // hash() digests bytes 1 to 64 of what it is given
    let mut key = vec![0x04u8];
    key.extend_from_slice(&[0u8; 64]);
    let zeros = hash(key);
    assert_eq!(
        zeros.to_vec(),
        unhex("ad3228b676f7d3cd4284a5443f17f1962b36e491b30a40b2405849e597ba5fb5")
    );
}

#[test]
fn the_digest_skips_the_first_byte_and_stops_after_the_coordinates() {
    let mut a = vec![0x04u8];
    a.extend_from_slice(&[7u8; 64]);
    let mut b = vec![0x99u8];
    b.extend_from_slice(&[7u8; 64]);
    b.extend_from_slice(&[1, 2, 3]);
    assert_eq!(hash(a.clone()), hash(b));
    let mut c = a.clone();
    c[64] = 8;
    assert_ne!(hash(a.clone()), hash(c));
    let mut d = a.clone();
    d[1] = 8;
    assert_ne!(hash(a), hash(d));
}

#[test]
fn the_address_is_the_end_of_the_digest() {
    let mut digest = [0u8; 32];
    for (i, byte) in digest.iter_mut().enumerate() {
        *byte = i as u8;
    }
    let address = convert_to_address_type(digest);
    let expected: Vec<u8> = (12..32).collect();
    assert_eq!(address.to_bytes().to_vec(), expected);
}

#[test]
fn the_address_of_secret_one_is_the_known_one() {
    let address = public_to_address(public_of(1)).unwrap();
    assert_eq!(
        address.to_bytes().to_vec(),
        unhex("7e5f4552091a69125d5dfcb7b8c2659029395bdf")
    );
}

#[test]
fn the_address_of_secret_two_is_the_known_one() {
    let address = public_to_address(public_of(2)).unwrap();
    assert_eq!(
        address.to_bytes().to_vec(),
        unhex("2b5ad5c4795c026514f8317c7a215e218dccd6cf")
    );
}

#[test]
fn the_address_is_made_of_the_three_steps() {
    let public = public_of(3);
    let bytes = serialize(public).unwrap();
    assert_eq!(bytes, public.to_bytes().to_vec());
    assert_eq!(bytes.len(), 65);
    let address = convert_to_address_type(hash(bytes));
    assert_eq!(address.to_bytes(), public_to_address(public).unwrap().to_bytes());
}

#[test]
fn an_address_keeps_its_bytes() {
    let bytes = [0xABu8; 20];
    assert_eq!(Address::from_bytes(bytes).to_bytes(), bytes);
}

#[test]
fn every_leading_prefix_is_trimmed() {
    let cases = [
        ("0x1f", "1f"),
        ("1f", "1f"),
        ("0x0x1f", "1f"),
        ("0x", ""),
        ("", ""),
        ("0", "0"),
        ("x0x1", "x0x1"),
        ("00x1", "00x1"),
        ("0X1f", "0X1f"),
        ("0x0", "0"),
        ("0x1f0x", "1f0x"),
        ("0x\u{e9}0x", "\u{e9}0x"),
    ];
    for (given, expected) in cases {
        assert_eq!(trim_hex_prefix(given.to_string()), Ok(expected.to_string()));
        assert_eq!(given.trim_start_matches("0x"), expected);
    }
}

#[test]
fn hexadecimal_numbers_are_read() {
    let cases: [(&str, i64); 14] = [
        ("0", 0),
        ("1f", 31),
        ("1F", 31),
        ("ff", 255),
        ("+ff", 255),
        ("-ff", -255),
        ("-0", 0),
        ("0000000000000000000000010", 16),
        ("7fffffffffffffff", i64::MAX),
        ("-8000000000000000", i64::MIN),
        ("-7fffffffffffffff", -i64::MAX),
        ("abcdef", 0xabcdef),
        ("ABCDEF", 0xabcdef),
        ("123456789", 0x123456789),
    ];
    for (text, expected) in cases {
        assert_eq!(trimmed_hex_to_i64(text.to_string()), Ok(expected));
        assert_eq!(i64::from_str_radix(text, 16), Ok(expected));
    }
}

#[test]
fn an_empty_string_is_no_number() {
    assert_eq!(trimmed_hex_to_i64(String::new()), Err(AppError::EmptyHex));
}

#[test]
fn a_character_that_is_no_digit_is_refused() {
    for text in ["g", "0x1f", "1 f", " 1f", "1f ", "+", "-", "--1", "+-1", "1_0", "\u{e9}", "1\u{ff11}"] {
        assert_eq!(trimmed_hex_to_i64(text.to_string()), Err(AppError::InvalidHexDigit));
        assert_eq!(
            i64::from_str_radix(text, 16).unwrap_err().kind(),
            &IntErrorKind::InvalidDigit
        );
    }
}

#[test]
fn a_number_out_of_range_is_refused() {
    for text in ["8000000000000000", "ffffffffffffffff", "10000000000000000", "+8000000000000000"] {
        assert_eq!(trimmed_hex_to_i64(text.to_string()), Err(AppError::HexTooLarge));
        assert_eq!(
            i64::from_str_radix(text, 16).unwrap_err().kind(),
            &IntErrorKind::PosOverflow
        );
    }
    for text in ["-8000000000000001", "-ffffffffffffffff", "-10000000000000000"] {
        assert_eq!(trimmed_hex_to_i64(text.to_string()), Err(AppError::HexTooSmall));
        assert_eq!(
            i64::from_str_radix(text, 16).unwrap_err().kind(),
            &IntErrorKind::NegOverflow
        );
    }
}

#[test]
fn what_comes_first_decides_between_range_and_digit() {
    // out of range before the bad character is reached
    assert_eq!(trimmed_hex_to_i64("fffffffffffffffffg".to_string()), Err(AppError::HexTooLarge));
    assert_eq!(
        i64::from_str_radix("fffffffffffffffffg", 16).unwrap_err().kind(),
        &IntErrorKind::PosOverflow
    );
    // the bad character comes while the number is still in range
    assert_eq!(trimmed_hex_to_i64("fg0000000000000000".to_string()), Err(AppError::InvalidHexDigit));
    assert_eq!(
        i64::from_str_radix("fg0000000000000000", 16).unwrap_err().kind(),
        &IntErrorKind::InvalidDigit
    );
    assert_eq!(trimmed_hex_to_i64("7fffffffffffffffg".to_string()), Err(AppError::InvalidHexDigit));
    assert_eq!(
        i64::from_str_radix("7fffffffffffffffg", 16).unwrap_err().kind(),
        &IntErrorKind::InvalidDigit
    );
}

#[test]
fn hexadecimal_digits_have_their_values() {
    let digits = "0123456789abcdef";
    for (value, c) in digits.chars().enumerate() {
        assert_eq!(hex_digit(c), Some(value as u8));
        assert_eq!(hex_digit(c.to_ascii_uppercase()), Some(value as u8));
    }
    for c in ['g', 'G', ' ', '/', ':', '@', '`', 'x', '-', '+', '\u{ff11}'] {
        assert_eq!(hex_digit(c), None);
    }
}

#[test]
fn a_yes_is_a_yes() {
    for answer in ["y", "yes", "Y", "YES", "Yes", "y\n", "  yes  ", "\tY\r\n", "\u{a0}Yes\u{3000}"] {
        assert!(is_affirmative(answer), "{:?}", answer);
    }
}

#[test]
fn anything_else_is_a_no() {
    for answer in ["", " ", "n", "no", "yEs", "yess", "y es", "ye", "yes.", "\n", "yes y", "oui"] {
        assert!(!is_affirmative(answer), "{:?}", answer);
    }
}

#[test]
fn white_space_is_what_the_standard_library_says() {
    for code in 0..0x3100u32 {
        if let Some(c) = char::from_u32(code) {
            assert_eq!(whitespace(c), c.is_whitespace(), "{:x}", code);
        }
    }
    assert!(!whitespace('\u{10FFFF}'));
}

#[test]
fn an_answer_is_trimmed_as_the_standard_library_trims() {
    let words = ["y", "yes", "Y", "YES", "Yes"];
    for answer in ["y", " y", "y ", " y y ", "\u{2003}yes\u{2009}", "\u{200b}yes", "  ", ""] {
        assert_eq!(is_affirmative(answer), words.contains(&answer.trim()), "{:?}", answer);
    }
}

#[test]
fn texts_compare_by_character() {
    assert!(same_text("", ""));
    assert!(same_text("yes", "yes"));
    assert!(!same_text("yes", "yeS"));
    assert!(!same_text("yes", "ye"));
    assert!(same_text("\u{e9}t\u{e9}", "\u{e9}t\u{e9}"));
}
