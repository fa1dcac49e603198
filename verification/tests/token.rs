use base64::prelude::BASE64_URL_SAFE;
use base64::Engine;
use cabinet::outside::DecodeError;
use cabinet::token::{exact_bytes, UserToken, XXH3_128Hash};

#[test]
fn tokens_are_written_and_read_back() {
    let mut bytes = [0u8; 32];
    for i in 0..32 {
        bytes[i] = (i * 37 + 200) as u8;
    }
    let token = UserToken::new(bytes);
    let text = token.to_string();
    assert_eq!(text, BASE64_URL_SAFE.encode(bytes));
    assert_eq!(text.len(), 44);
    let read = UserToken::from_str(&text).unwrap();
    assert!(read.equals(&token));
    assert_eq!(read.bytes(), bytes);
}

#[test]
fn a_known_token_has_a_known_text() {
    assert_eq!(
        UserToken::new([0u8; 32]).to_string(),
        "AAAAAAAAAAAAAAAAAAAAAAAAAAAAAAAAAAAAAAAAAAA="
    );
    assert_eq!(
        UserToken::new([0xff; 32]).to_string(),
        "__________________________________________8="
    );
}

#[test]
fn tokens_of_the_wrong_length_are_refused() {
    assert_eq!(UserToken::from_str("AAAA").unwrap_err(), DecodeError::InvalidLength(3));
    assert_eq!(UserToken::from_str("").unwrap_err(), DecodeError::InvalidLength(0));
    let long = BASE64_URL_SAFE.encode([1u8; 33]);
    assert_eq!(UserToken::from_str(&long).unwrap_err(), DecodeError::InvalidLength(33));
}

#[test]
fn texts_that_are_no_base64_are_refused() {
    assert_eq!(UserToken::from_str("AA!A").unwrap_err(), DecodeError::InvalidByte(2, b'!'));
    assert_eq!(UserToken::from_str("A/AA").unwrap_err(), DecodeError::InvalidByte(1, b'/'));
    assert_eq!(UserToken::from_str("AA").unwrap_err(), DecodeError::InvalidPadding);
    assert_eq!(UserToken::from_str("A").unwrap_err(), DecodeError::InvalidLength(1));
    assert_eq!(
        UserToken::from_str("AB==").unwrap_err(),
        DecodeError::InvalidLastSymbol(1, b'B')
    );
}

#[test]
fn generated_tokens_differ() {
    assert!(!UserToken::generate().equals(&UserToken::generate()));
}

#[test]
fn tokens_are_equal_only_byte_for_byte() {
    let a = UserToken::new([7u8; 32]);
    let mut bytes = [7u8; 32];
    assert!(a.equals(&UserToken::new(bytes)));
    bytes[31] = 8;
    assert!(!a.equals(&UserToken::new(bytes)));
    bytes[31] = 7;
    bytes[0] = 8;
    assert!(!a.equals(&UserToken::new(bytes)));
}

#[test]
fn hashes_are_those_of_xxh3() {
    for data in [&b""[..], &b"a"[..], &b"The quick brown fox"[..], &[0u8; 1000][..]] {
        let expected = xxhash_rust::xxh3::xxh3_128(data);
        let hash = XXH3_128Hash::calculate(data);
        assert_eq!(hash.0, expected.to_be_bytes());
        assert_eq!(hash.number(), expected);
    }
    assert_eq!(
        XXH3_128Hash::calculate(b"").number(),
        0x99aa06d3014798d86001c324468d497f
    );
}

#[test]
fn hashes_are_big_endian() {
    let number: u128 = 0x000102030405060708090a0b0c0d0e0f;
    let hash = XXH3_128Hash::from(number);
    assert_eq!(hash.0, [0, 1, 2, 3, 4, 5, 6, 7, 8, 9, 10, 11, 12, 13, 14, 15]);
    assert_eq!(hash.number(), number);
    assert_eq!(XXH3_128Hash::new([0xff; 16]).number(), u128::MAX);
    assert_eq!(XXH3_128Hash::from(u128::MAX).0, [0xff; 16]);
}

#[test]
fn hashes_are_written_and_read_back() {
    let hash = XXH3_128Hash::from(0x0123456789abcdef0123456789abcdefu128);
    let text = hash.to_string();
    assert_eq!(text, "ASNFZ4mrze8BI0VniavN7w==");
    assert_eq!(XXH3_128Hash::from_str(&text).unwrap().0, hash.0);
    assert_eq!(XXH3_128Hash::from_str("AAAA").unwrap_err(), DecodeError::InvalidLength(3));
    assert_eq!(XXH3_128Hash::from_str("ä").unwrap_err(), DecodeError::InvalidByte(0, 0xc3));
}

#[test]
fn different_hashes_have_different_texts() {
    let a = XXH3_128Hash::from(1u128);
    let b = XXH3_128Hash::from(2u128);
    assert_ne!(a.to_string(), b.to_string());
    assert_ne!(a.to_string(), ".database.bson");
}

#[test]
fn each_token_has_one_spelling() {
    let text = UserToken::new([0u8; 32]).to_string();
    assert_eq!(text.len(), 44);
    assert!(UserToken::from_str(&text[..43]).is_err());
    assert!(UserToken::from_str(&format!("{}=", text)).is_err());
    assert!(UserToken::from_str(&format!("{}B=", &text[..42])).is_err());
    assert!(UserToken::from_str(&format!("{} ", text)).is_err());
    assert_eq!(UserToken::from_str(&text).unwrap().to_string(), text);
    assert_eq!(XXH3_128Hash::from(9u128).to_string().len(), 24);
}

#[test]
fn decoded_bytes_must_be_exact() {
    assert_eq!(exact_bytes::<3>(Ok(vec![7, 8, 9])).unwrap(), [7, 8, 9]);
    assert_eq!(exact_bytes::<3>(Ok(vec![7, 8])).unwrap_err(), DecodeError::InvalidLength(2));
    assert_eq!(exact_bytes::<0>(Ok(vec![])).unwrap(), [0u8; 0]);
    let error = Err(DecodeError::InvalidPadding);
    assert_eq!(exact_bytes::<3>(error).unwrap_err(), DecodeError::InvalidPadding);
}
