use redstone_signal::data_types::{Boolean, BooleanError, Errors, SerDe};

#[test]
fn boolean_encode() {
    let boolean = Boolean::from(true);
    assert_eq!(boolean.encode(), 0x01);
    let boolean = Boolean::from(false);
    assert_eq!(boolean.encode(), 0x00);
}

#[test]
fn boolean_decode() {
    let boolean = Boolean::decode(0x01).unwrap();
    assert_eq!(boolean, Boolean::from(true));
    let boolean = Boolean::decode(0x00).unwrap();
    assert_eq!(boolean, Boolean::from(false));
}

#[test]
fn boolean_refuses_other_bytes() {
    for byte in [0x02u8, 0x7f, 0x80, 0xff] {
        assert_eq!(
            Boolean::decode(byte),
            Err(Errors::BooleanError(BooleanError::InvalidValue("Invalid byte value")))
        );
    }
}

#[test]
fn boolean_converts_both_ways() {
    assert!(bool::from(Boolean::from(true)));
    assert!(!bool::from(Boolean::from(false)));
    assert_ne!(Boolean::from(true), Boolean::from(false));
}
