use redstone_signal::data_types::{SerDe, VarLong};

#[test]
fn read_0() {
    assert_eq!(<VarLong as SerDe>::decode(&[0x00]).unwrap().value(), 0);
}

#[test]
fn write_0() {
    assert_eq!(VarLong::new(0).encode().unwrap(), vec![0x00]);
}

#[test]
fn read_1() {
    assert_eq!(<VarLong as SerDe>::decode(&[0x01]).unwrap().value(), 1);
}

#[test]
fn write_1() {
    assert_eq!(VarLong::new(1).encode().unwrap(), vec![0x01]);
}

#[test]
fn read_2() {
    assert_eq!(<VarLong as SerDe>::decode(&[0x02]).unwrap().value(), 2);
}

#[test]
fn write_2() {
    assert_eq!(VarLong::new(2).encode().unwrap(), vec![0x02]);
}

#[test]
fn read_127() {
    assert_eq!(<VarLong as SerDe>::decode(&[0x7f]).unwrap().value(), 127);
}

#[test]
fn write_127() {
    assert_eq!(VarLong::new(127).encode().unwrap(), vec![0x7f]);
}

#[test]
fn read_128() {
    assert_eq!(<VarLong as SerDe>::decode(&[0x80, 0x01]).unwrap().value(), 128);
}

#[test]
fn write_128() {
    assert_eq!(VarLong::new(128).encode().unwrap(), vec![0x80, 0x01]);
}

#[test]
fn read_255() {
    assert_eq!(<VarLong as SerDe>::decode(&[0xff, 0x01]).unwrap().value(), 255);
}

#[test]
fn write_255() {
    assert_eq!(VarLong::new(255).encode().unwrap(), vec![0xff, 0x01]);
}

#[test]
fn read_2147483647() {
    assert_eq!(<VarLong as SerDe>::decode(&[0xff, 0xff, 0xff, 0xff, 0x07]).unwrap().value(), 2_147_483_647);
}

#[test]
fn write_2147483647() {
    assert_eq!(VarLong::new(2_147_483_647).encode().unwrap(), vec![0xff, 0xff, 0xff, 0xff, 0x07]);
}

#[test]
fn read_9223372036854775807() {
    assert_eq!(<VarLong as SerDe>::decode(&[0xff, 0xff, 0xff, 0xff, 0xff, 0xff, 0xff, 0xff, 0x7f]).unwrap().value(), 9_223_372_036_854_775_807);
}

#[test]
fn write_9223372036854775807() {
    assert_eq!(VarLong::new(9_223_372_036_854_775_807).encode().unwrap(), vec![0xff, 0xff, 0xff, 0xff, 0xff, 0xff, 0xff, 0xff, 0x7f]);
}

#[test]
fn read_minus_1() {
    assert_eq!(<VarLong as SerDe>::decode(&[0xff, 0xff, 0xff, 0xff, 0xff, 0xff, 0xff, 0xff, 0xff, 0x01]).unwrap().value(), -1);
}

#[test]
fn write_minus_1() {
    assert_eq!(VarLong::new(-1).encode().unwrap(), vec![0xff, 0xff, 0xff, 0xff, 0xff, 0xff, 0xff, 0xff, 0xff, 0x01]);
}

#[test]
fn read_minus_2147483648() {
    assert_eq!(<VarLong as SerDe>::decode(&[0x80, 0x80, 0x80, 0x80, 0xf8, 0xff, 0xff, 0xff, 0xff, 0x01]).unwrap().value(), -2_147_483_648);
}

#[test]
fn write_minus_2147483648() {
    assert_eq!(VarLong::new(-2_147_483_648).encode().unwrap(), vec![0x80, 0x80, 0x80, 0x80, 0xf8, 0xff, 0xff, 0xff, 0xff, 0x01]);
}

#[test]
fn read_minus_9223372036854775808() {
    assert_eq!(<VarLong as SerDe>::decode(&[0x80, 0x80, 0x80, 0x80, 0x80, 0x80, 0x80, 0x80, 0x80, 0x01]).unwrap().value(), -9_223_372_036_854_775_808);
}

#[test]
fn write_minus_9223372036854775808() {
    assert_eq!(VarLong::new(-9_223_372_036_854_775_808).encode().unwrap(), vec![0x80, 0x80, 0x80, 0x80, 0x80, 0x80, 0x80, 0x80, 0x80, 0x01]);
}
