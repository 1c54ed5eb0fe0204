use redstone_signal::data_types::{Errors, SerDe, String, StringError};
use std::str::FromStr;

#[test]
fn encode_decode_string_001() {
    let original_string = "Hello, 你好, नमस्ते!";
    let utf8_string = String::from_str(original_string).unwrap();

    let bytes = utf8_string.encode();

    if let Ok(decoded_string) = String::decode(&bytes.unwrap()) {
        assert_eq!(decoded_string.data, original_string);
    } else {
        panic!("Failed to decode the string");
    }
}

#[test]
fn encode_decode_string_002() {
    let original_string = "Hello, こんにちは, नमस्ते";
    let utf8_string = String::from_str(original_string).unwrap();

    let bytes = utf8_string.encode();

    if let Ok(decoded_string) = String::decode(&bytes.unwrap()) {
        assert_eq!(decoded_string.data, original_string);
    } else {
        panic!("Failed to decode the string");
    }
}

#[test]
fn encode_decode_string_003() {
    let original_string = "Hello, สวัสดี, 你好";
    let utf8_string = String::from_str(original_string).unwrap();

    let bytes = utf8_string.encode();

    if let Ok(decoded_string) = String::decode(&bytes.unwrap()) {
        assert_eq!(decoded_string.data, original_string);
    } else {
        panic!("Failed to decode the string");
    }
}

#[test]
fn encode_decode_string_004() {
    let original_string = "This is a valid string 🚀";
    let utf8_string = String::from_str(original_string).unwrap();

    let bytes = utf8_string.encode();

    if let Ok(decoded_string) = String::decode(&bytes.unwrap()) {
        assert_eq!(decoded_string.data, original_string);
    } else {
        panic!("Failed to decode the string");
    }
}

#[test]
fn invalid_utf8_bytes_001() {
    // Providing invalid UTF-8 bytes to check error handling
    let invalid_bytes = [vec![0x0B], b"Hello, \xF0\x28\x8C\xBC".into()].concat();
    let result = String::decode(&invalid_bytes);
    assert_eq!(result, Err(Errors::StringError(StringError::InvalidUTF8)));
}

#[test]
fn invalid_utf8_bytes_002() {
    // Providing invalid UTF-8 bytes to check error handling
    let invalid_bytes = [vec![0x02], vec![0xC0, 0xAF]].concat();
    let result = String::decode(&invalid_bytes);
    assert_eq!(result, Err(Errors::StringError(StringError::InvalidUTF8)));
}

#[test]
fn invalid_utf8_bytes_003() {
    // Providing invalid UTF-8 bytes to check error handling
    let invalid_bytes = [vec![0x04], vec![0xF5, 0x80, 0x82, 0x83]].concat();
    let result = String::decode(&invalid_bytes);
    assert_eq!(result, Err(Errors::StringError(StringError::InvalidUTF8)));
}

#[test]
fn invalid_length_001() {
    // The real string length is 12, but here we say it's 228
    let invalid_bytes: Vec<u8> = [vec![0xE4], b"Running fast".into()].concat();
    let result = String::decode(&invalid_bytes);
    assert_eq!(result, Err(Errors::StringError(StringError::InvalidLength)));
}

#[test]
fn invalid_length_002() {
    // The real string length is 55, but here we say it's 123
    let invalid_bytes = [
        vec![0x7B],
        b"Traversing the mountain ranges to seek hidden treasures".into(),
    ]
    .concat();
    let result = String::decode(&invalid_bytes);
    assert_eq!(result, Err(Errors::StringError(StringError::InvalidLength)));
}

#[test]
fn invalid_length_003() {
    // The real string length is 55, but here we say it's 161
    let invalid_bytes = [
        vec![0xA1],
        b"The symphony of nature orchestrates a mesmerizing dance".into(),
    ]
    .concat();
    let result = String::decode(&invalid_bytes);
    assert_eq!(result, Err(Errors::StringError(StringError::InvalidLength)));
}

#[test]
fn invalid_length_004() {
    // The real string length is 10, but here we say it's 63
    let invalid_bytes = [vec![0x3F], b"Pizza time".into()].concat();
    let result = String::decode(&invalid_bytes);
    assert_eq!(result, Err(Errors::StringError(StringError::InvalidLength)));
}

#[test]
fn invalid_length_005() {
    // The real string length is 55, but here we say it's 146
    let invalid_bytes = [
        vec![0x92],
        b"Lost in the maze of thoughts, seeking clarity and truth".into(),
    ]
    .concat();
    let result = String::decode(&invalid_bytes);
    assert_eq!(result, Err(Errors::StringError(StringError::InvalidLength)));
}

#[test]
fn invalid_length_006() {
    // The real string length is 11, but here we say it's 200
    let invalid_bytes = [vec![0xC8], b"Hello world".into()].concat();
    let result = String::decode(&invalid_bytes);
    assert_eq!(result, Err(Errors::StringError(StringError::InvalidLength)));
}

#[test]
fn invalid_length_007() {
    // The real string length is 8, but here we say it's 90
    let invalid_bytes = [vec![0x5A], b"Blue sky".into()].concat();
    let result = String::decode(&invalid_bytes);
    assert_eq!(result, Err(Errors::StringError(StringError::InvalidLength)));
}

#[test]
fn invalid_length_008() {
    // The real string length is 13, but here we say it's 175
    let invalid_bytes = [vec![0xAF], b"Coding is fun".into()].concat();
    let result = String::decode(&invalid_bytes);
    assert_eq!(result, Err(Errors::StringError(StringError::InvalidLength)));
}

#[test]
fn invalid_length_009() {
    let invalid_bytes = vec![0xFF, 0xFE, 0xFD, 0xFC];
    let result = String::decode(&invalid_bytes);
    assert_eq!(result, Err(Errors::StringError(StringError::InvalidLength)));
}

#[test]
fn empty_string() {
    let empty_string = "";
    let utf8_string = String::from_str(empty_string).unwrap();

    let bytes = utf8_string.encode();

    if let Ok(decoded_string) = String::decode(&bytes.unwrap()) {
        assert_eq!(decoded_string.data, empty_string);
    } else {
        panic!("Failed to decode the empty string");
    }
}

#[test]
fn round_trip() {
    let original_string = "Testing round-trip encoding and decoding!";
    let utf8_string = String::from_str(original_string).unwrap();

    let bytes = utf8_string.encode().unwrap();

    if let Ok(decoded_string) = String::decode(&bytes) {
        assert_eq!(decoded_string.data, original_string);
        let re_encoded_bytes = decoded_string.encode().unwrap();
        assert_eq!(re_encoded_bytes, bytes);
    } else {
        panic!("Failed to decode the string");
    }
}

#[test]
fn string_new_checks_the_limit() {
    assert!(String::new(None).is_ok());
    assert!(String::new(Some(0)).is_ok());
    assert!(String::new(Some(32767)).is_ok());
    assert_eq!(
        String::new(Some(32768)),
        Err(Errors::StringError(StringError::OutOfBoundsLength))
    );
    assert_eq!(String::new(Some(5)).unwrap().data, "");
}

#[test]
fn string_insert_replaces_the_text() {
    let mut string = String::new(Some(5)).unwrap();
    string.insert("abc".to_string()).unwrap();
    assert_eq!(string.data, "abc");
    string.insert("hello".to_string()).unwrap();
    assert_eq!(string.data, "hello");
    assert_eq!(
        string.insert("hello!".to_string()).err(),
        Some(Errors::StringError(StringError::OutOfBoundsLength))
    );
    assert_eq!(string.data, "hello");
    assert_eq!(
        string.insert("h\u{e9}llo".to_string()).err(),
        Some(Errors::StringError(StringError::OutOfBoundsLength))
    );
    string.insert("x".to_string()).unwrap().insert("yz".to_string()).unwrap();
    assert_eq!(string.data, "yz");
}

#[test]
fn string_concat_replaces_the_text_too() {
    let mut string = String::new(Some(4)).unwrap();
    string.concat("ab".to_string()).unwrap();
    string.concat("cd".to_string()).unwrap();
    assert_eq!(string.data, "cd");
    assert_eq!(
        string.concat("abcde".to_string()).err(),
        Some(Errors::StringError(StringError::OutOfBoundsLength))
    );
    assert_eq!(string.data, "cd");
}

#[test]
fn string_refuses_an_encoding_that_is_too_long() {
    let mut bytes = vec![0xa0, 0x8d, 0x06];
    bytes.extend(std::iter::repeat(b'a').take(100_000));
    let mut string = String::decode(&bytes).unwrap();
    assert_eq!(string.data.len(), 100_000);
    string.insert("a".repeat(98_301)).unwrap();
    assert_eq!(
        string.insert("a".repeat(98_302)).err(),
        Some(Errors::StringError(StringError::OutOfBoundsEncoding))
    );
    assert_eq!(string.data.len(), 98_301);
    assert_eq!(
        string.insert("a".repeat(100_001)).err(),
        Some(Errors::StringError(StringError::OutOfBoundsLength))
    );
}

#[test]
fn string_from_str_checks_the_length() {
    assert_eq!(String::from_str("abc").unwrap().data, "abc");
    assert!(String::from_str(&"a".repeat(32767)).is_ok());
    assert_eq!(
        String::from_str(&"a".repeat(32768)),
        Err(Errors::StringError(StringError::OutOfBoundsLength))
    );
    let mut string = String::from_str("abc").unwrap();
    assert_eq!(
        string.insert("abcd".to_string()).err(),
        Some(Errors::StringError(StringError::OutOfBoundsLength))
    );
}

#[test]
fn string_encode_exact_bytes() {
    assert_eq!(String::from_str("").unwrap().encode().unwrap(), vec![0u8]);
    assert_eq!(
        String::from_str("Hi!").unwrap().encode().unwrap(),
        vec![3u8, b'H', b'i', b'!']
    );
    assert_eq!(
        String::from_str("\u{e9}").unwrap().encode().unwrap(),
        vec![2u8, 0xc3, 0xa9]
    );
    let long = String::from_str(&"z".repeat(200)).unwrap().encode().unwrap();
    assert_eq!(long.len(), 202);
    assert_eq!(&long[..3], &[0xc8u8, 0x01, b'z']);
}

#[test]
fn string_decode_exact_values() {
    let string = String::decode(&[3u8, b'a', b'b', b'c']).unwrap();
    assert_eq!(string.data, "abc");
    assert_eq!(
        string.clone().insert("abcd".to_string()).err(),
        Some(Errors::StringError(StringError::OutOfBoundsLength))
    );
    assert_eq!(String::decode(&[0u8]).unwrap().data, "");
    assert_eq!(
        String::decode(&[2u8, b'a', b'b', b'c']),
        Err(Errors::StringError(StringError::InvalidLength))
    );
    assert_eq!(
        String::decode(&[0x80u8, 0x80, 0x80, 0x80, 0x80, b'a']).err(),
        Some(Errors::VarIntError(redstone_signal::data_types::VarIntError::DecodeOverflow))
    );
    assert_eq!(
        String::decode(&[0xffu8, 0xff, 0xff, 0xff, 0x0f]),
        Err(Errors::StringError(StringError::InvalidLength))
    );
}

#[test]
fn string_decode_takes_the_length_in_its_shortest_form() {
    assert_eq!(
        String::decode(&[0x81u8, 0x00, b'a']),
        Err(Errors::StringError(StringError::InvalidLength))
    );
    assert_eq!(String::decode(&[0x81u8, 0x00]).unwrap().data, "\0");
    assert_eq!(
        String::decode(&[0x82u8, 0x00]),
        Err(Errors::StringError(StringError::InvalidLength))
    );
}

#[test]
fn string_converts_into_its_text() {
    let string = String::from_str("caf\u{e9}").unwrap();
    assert_eq!(std::string::String::from(string), "caf\u{e9}");
    assert_eq!(String::default().data, "");
}
