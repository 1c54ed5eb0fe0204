use redstone_signal::data_types::{Errors, SerDe, VarInt, VarIntError};

#[test]
fn var_int_read_0() {
    assert_eq!(VarInt::decode(&[0x00]).unwrap().value(), 0);
}

#[test]
fn var_int_write_0() {
    assert_eq!(VarInt::new(0).encode().unwrap(), vec![0x00]);
}

#[test]
fn var_int_read_1() {
    assert_eq!(VarInt::decode(&[0x01]).unwrap().value(), 1);
}

#[test]
fn var_int_write_1() {
    assert_eq!(VarInt::new(1).encode().unwrap(), vec![0x01]);
}

#[test]
fn var_int_read_2() {
    assert_eq!(VarInt::decode(&[0x02]).unwrap().value(), 2);
}

#[test]
fn var_int_write_2() {
    assert_eq!(VarInt::new(2).encode().unwrap(), vec![0x02]);
}

#[test]
fn var_int_read_127() {
    assert_eq!(VarInt::decode(&[0x7f]).unwrap().value(), 127);
}

#[test]
fn var_int_write_127() {
    assert_eq!(VarInt::new(127).encode().unwrap(), vec![0x7f]);
}

#[test]
fn var_int_read_128() {
    assert_eq!(VarInt::decode(&[0x80, 0x01]).unwrap().value(), 128);
}

#[test]
fn var_int_write_128() {
    assert_eq!(VarInt::new(128).encode().unwrap(), vec![0x80, 0x01]);
}

#[test]
fn var_int_read_255() {
    assert_eq!(VarInt::decode(&[0xff, 0x01]).unwrap().value(), 255);
}

#[test]
fn var_int_write_255() {
    assert_eq!(VarInt::new(255).encode().unwrap(), vec![0xff, 0x01]);
}

#[test]
fn read_25565() {
    assert_eq!(VarInt::decode(&[0xdd, 0xc7, 0x01]).unwrap().value(), 25565);
}

#[test]
fn write_25565() {
    assert_eq!(VarInt::new(25565).encode().unwrap(), vec![0xdd, 0xc7, 0x01]);
}

#[test]
fn read_2097151() {
    assert_eq!(VarInt::decode(&[0xff, 0xff, 0x7f]).unwrap().value(), 2_097_151);
}

#[test]
fn write_2097151() {
    assert_eq!(VarInt::new(2_097_151).encode().unwrap(), vec![0xff, 0xff, 0x7f]);
}

#[test]
fn var_int_read_2147483647() {
    assert_eq!(VarInt::decode(&[0xff, 0xff, 0xff, 0xff, 0x07]).unwrap().value(), 2_147_483_647);
}

#[test]
fn var_int_write_2147483647() {
    assert_eq!(VarInt::new(2_147_483_647).encode().unwrap(), vec![0xff, 0xff, 0xff, 0xff, 0x07]);
}

#[test]
fn var_int_read_minus_1() {
    assert_eq!(VarInt::decode(&[0xff, 0xff, 0xff, 0xff, 0x0f]).unwrap().value(), -1);
}

#[test]
fn var_int_write_minus_1() {
    assert_eq!(VarInt::new(-1).encode().unwrap(), vec![0xff, 0xff, 0xff, 0xff, 0x0f]);
}

#[test]
fn var_int_read_minus_2147483648() {
    assert_eq!(VarInt::decode(&[0x80, 0x80, 0x80, 0x80, 0x08]).unwrap().value(), -2_147_483_648);
}

#[test]
fn var_int_write_minus_2147483648() {
    assert_eq!(VarInt::new(-2_147_483_648).encode().unwrap(), vec![0x80, 0x80, 0x80, 0x80, 0x08]);
}

#[test]
fn var_int_wraps_and_unwraps() {
    assert_eq!(VarInt::new(-7).value(), -7);
    assert_eq!(VarInt::from(12).value(), 12);
    assert_eq!(i32::from(VarInt::new(i32::MIN)), i32::MIN);
    assert_eq!(VarInt::new(3), VarInt::from(3));
}

#[test]
fn var_int_reads_up_to_the_first_last_byte() {
    assert_eq!(VarInt::decode(&[0x05, 0xff, 0xff]).unwrap().value(), 5);
    assert_eq!(VarInt::decode(&[0x80, 0x01, 0x7f]).unwrap().value(), 128);
    assert_eq!(VarInt::decode(&[0x80, 0x00]).unwrap().value(), 0);
}

#[test]
fn var_int_reads_an_unfinished_buffer() {
    assert_eq!(VarInt::decode(&[]).unwrap().value(), 0);
    assert_eq!(VarInt::decode(&[0x81]).unwrap().value(), 1);
    assert_eq!(VarInt::decode(&[0xff, 0xff, 0xff, 0xff]).unwrap().value(), 0x0fff_ffff);
}

#[test]
fn var_int_refuses_a_sixth_byte() {
    assert_eq!(
        VarInt::decode(&[0x80, 0x80, 0x80, 0x80, 0x80]),
        Err(Errors::VarIntError(VarIntError::DecodeOverflow))
    );
    assert_eq!(
        VarInt::decode(&[0xff, 0xff, 0xff, 0xff, 0xff, 0x01]),
        Err(Errors::VarIntError(VarIntError::DecodeOverflow))
    );
}

#[test]
fn var_int_keeps_the_low_bits_of_the_fifth_byte() {
    assert_eq!(VarInt::decode(&[0xff, 0xff, 0xff, 0xff, 0x7f]).unwrap().value(), -1);
    assert_eq!(VarInt::decode(&[0x80, 0x80, 0x80, 0x80, 0x10]).unwrap().value(), 0);
    assert_eq!(VarInt::decode(&[0x80, 0x80, 0x80, 0x80, 0x18]).unwrap().value(), i32::MIN);
}

#[test]
fn var_int_round_trips() {
    for value in [0, 1, -1, 63, 64, 127, 128, 300, 16383, 16384, 25565, i32::MAX, i32::MIN, -129] {
        let bytes = VarInt::new(value).encode().unwrap();
        assert!(!bytes.is_empty() && bytes.len() <= 5);
        assert_eq!(VarInt::decode(&bytes).unwrap().value(), value);
    }
}
