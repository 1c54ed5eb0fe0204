use redstone_signal::data_types::{Errors, SerDe, VarLong, VarLongError};

#[test]
fn var_long_read_0() {
    assert_eq!(VarLong::decode(&[0x00]).unwrap().value(), 0);
}

#[test]
fn var_long_write_0() {
    assert_eq!(VarLong::new(0).write().unwrap(), vec![0x00]);
}

#[test]
fn var_long_read_1() {
    assert_eq!(VarLong::decode(&[0x01]).unwrap().value(), 1);
}

#[test]
fn var_long_write_1() {
    assert_eq!(VarLong::new(1).write().unwrap(), vec![0x01]);
}

#[test]
fn var_long_read_2() {
    assert_eq!(VarLong::decode(&[0x02]).unwrap().value(), 2);
}

#[test]
fn var_long_write_2() {
    assert_eq!(VarLong::new(2).write().unwrap(), vec![0x02]);
}

#[test]
fn var_long_read_127() {
    assert_eq!(VarLong::decode(&[0x7f]).unwrap().value(), 127);
}

#[test]
fn var_long_write_127() {
    assert_eq!(VarLong::new(127).write().unwrap(), vec![0x7f]);
}

#[test]
fn var_long_read_128() {
    assert_eq!(VarLong::decode(&[0x80, 0x01]).unwrap().value(), 128);
}

#[test]
fn var_long_write_128() {
    assert_eq!(VarLong::new(128).write().unwrap(), vec![0x80, 0x01]);
}

#[test]
fn var_long_read_255() {
    assert_eq!(VarLong::decode(&[0xff, 0x01]).unwrap().value(), 255);
}

#[test]
fn var_long_write_255() {
    assert_eq!(VarLong::new(255).write().unwrap(), vec![0xff, 0x01]);
}

#[test]
fn var_long_read_2147483647() {
    assert_eq!(VarLong::decode(&[0xff, 0xff, 0xff, 0xff, 0x07]).unwrap().value(), 2_147_483_647);
}

#[test]
fn var_long_write_2147483647() {
    assert_eq!(VarLong::new(2_147_483_647).write().unwrap(), vec![0xff, 0xff, 0xff, 0xff, 0x07]);
}

#[test]
fn var_long_read_9223372036854775807() {
    assert_eq!(VarLong::decode(&[0xff, 0xff, 0xff, 0xff, 0xff, 0xff, 0xff, 0xff, 0x7f]).unwrap().value(), 9_223_372_036_854_775_807);
}

#[test]
fn var_long_write_9223372036854775807() {
    assert_eq!(VarLong::new(9_223_372_036_854_775_807).write().unwrap(), vec![0xff, 0xff, 0xff, 0xff, 0xff, 0xff, 0xff, 0xff, 0x7f]);
}

#[test]
fn var_long_read_minus_1() {
    assert_eq!(VarLong::decode(&[0xff, 0xff, 0xff, 0xff, 0xff, 0xff, 0xff, 0xff, 0xff, 0x01]).unwrap().value(), -1);
}

#[test]
fn var_long_write_minus_1() {
    assert_eq!(VarLong::new(-1).write().unwrap(), vec![0xff, 0xff, 0xff, 0xff, 0xff, 0xff, 0xff, 0xff, 0xff, 0x01]);
}

#[test]
fn var_long_read_minus_2147483648() {
    assert_eq!(VarLong::decode(&[0x80, 0x80, 0x80, 0x80, 0xf8, 0xff, 0xff, 0xff, 0xff, 0x01]).unwrap().value(), -2_147_483_648);
}

#[test]
fn var_long_write_minus_2147483648() {
    assert_eq!(VarLong::new(-2_147_483_648).write().unwrap(), vec![0x80, 0x80, 0x80, 0x80, 0xf8, 0xff, 0xff, 0xff, 0xff, 0x01]);
}

#[test]
fn var_long_read_minus_9223372036854775808() {
    assert_eq!(VarLong::decode(&[0x80, 0x80, 0x80, 0x80, 0x80, 0x80, 0x80, 0x80, 0x80, 0x01]).unwrap().value(), -9_223_372_036_854_775_808);
}

#[test]
fn var_long_write_minus_9223372036854775808() {
    assert_eq!(VarLong::new(-9_223_372_036_854_775_808).write().unwrap(), vec![0x80, 0x80, 0x80, 0x80, 0x80, 0x80, 0x80, 0x80, 0x80, 0x01]);
}

#[test]
fn var_long_write_uses_the_value_up() {
    let mut value = VarLong::new(300);
    assert_eq!(value.write().unwrap(), vec![0xac, 0x02]);
    assert_eq!(value.value(), 2);
    let mut value = VarLong::new(-1);
    value.write().unwrap();
    assert_eq!(value.value(), 1);
    let value = VarLong::new(300);
    value.encode().unwrap();
    assert_eq!(value.value(), 300);
}

#[test]
fn var_long_reads_an_unfinished_buffer() {
    assert_eq!(VarLong::decode(&[]).unwrap().value(), 0);
    assert_eq!(VarLong::decode(&[0xff, 0xff]).unwrap().value(), 0x3fff);
    assert_eq!(VarLong::decode(&[0x85, 0x00, 0x44]).unwrap().value(), 5);
}

#[test]
fn var_long_refuses_an_eleventh_byte() {
    assert_eq!(
        VarLong::decode(&[0x80; 10]),
        Err(Errors::VarFloatError(VarLongError::DecodeOverflow))
    );
    assert_eq!(
        VarLong::decode(&[0xff, 0xff, 0xff, 0xff, 0xff, 0xff, 0xff, 0xff, 0xff, 0xff, 0x01]),
        Err(Errors::VarFloatError(VarLongError::DecodeOverflow))
    );
}

#[test]
fn var_long_keeps_the_lowest_bit_of_the_tenth_byte() {
    assert_eq!(
        VarLong::decode(&[0xff, 0xff, 0xff, 0xff, 0xff, 0xff, 0xff, 0xff, 0xff, 0x7f])
            .unwrap()
            .value(),
        -1
    );
    assert_eq!(
        VarLong::decode(&[0x80, 0x80, 0x80, 0x80, 0x80, 0x80, 0x80, 0x80, 0x80, 0x02])
            .unwrap()
            .value(),
        0
    );
}

#[test]
fn var_long_round_trips() {
    for value in [0, 1, -1, 127, 128, 1 << 35, -(1 << 40), i64::MAX, i64::MIN] {
        let bytes = VarLong::new(value).encode().unwrap();
        assert!(!bytes.is_empty() && bytes.len() <= 10);
        assert_eq!(VarLong::decode(&bytes).unwrap().value(), value);
    }
}
