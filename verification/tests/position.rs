use redstone_signal::data_types::{Errors, Position, PositionError};

const EXAMPLE_1_BYTES: i64 = 0b01000110000001110110001100_10110000010101101101001000_001100111111;

#[test]
fn position_encode() {
    assert_eq!(
        Position::new(18_357_644, 831, -20_882_616)
            .unwrap()
            .encode(),
        EXAMPLE_1_BYTES
    );
}

#[test]
fn position_decode() {
    assert_eq!(
        Position::decode(EXAMPLE_1_BYTES).unwrap(),
        Position::new(18_357_644, 831, -20_882_616).unwrap()
    );
}

#[test]
fn encode_decode() {
    let position = Position::new(18_357_644, 831, -20_882_616).unwrap();
    assert_eq!(Position::decode(position.encode()).unwrap(), position);
}

#[test]
fn position_new_checks_the_upper_bounds_in_order() {
    assert_eq!(
        Position::new(0x3FF_FFFF, 0xFFF, 0x3FF_FFFF),
        Ok(Position { x: 0x3FF_FFFF, y: 0xFFF, z: 0x3FF_FFFF })
    );
    assert_eq!(
        Position::new(0x400_0000, 0x1000, 0x400_0000),
        Err(Errors::PositionError(PositionError::XOutOfRange))
    );
    assert_eq!(
        Position::new(0, 0x1000, 0x400_0000),
        Err(Errors::PositionError(PositionError::YOutOfRange))
    );
    assert_eq!(
        Position::new(0, 0, 0x400_0000),
        Err(Errors::PositionError(PositionError::ZOutOfRange))
    );
    assert_eq!(
        Position::new(i32::MIN, i32::MIN, i32::MIN),
        Ok(Position { x: i32::MIN, y: i32::MIN, z: i32::MIN })
    );
}

#[test]
fn position_encode_exact_values() {
    assert_eq!(Position::new(0, 0, 0).unwrap().encode(), 0);
    assert_eq!(Position::new(1, 2, 3).unwrap().encode(), (1 << 38) | (3 << 12) | 2);
    assert_eq!(Position::new(-1, -1, -1).unwrap().encode(), -1);
    assert_eq!(Position::new(-1, 0, 0).unwrap().encode(), -(1i64 << 38));
    assert_eq!(Position::new(0, -1, 0).unwrap().encode(), 0xFFF);
    assert_eq!(Position::new(0x3FF_FFFF, 0, 0).unwrap().encode(), -(1i64 << 38));
}

#[test]
fn position_decode_exact_values() {
    assert_eq!(Position::decode(0), Ok(Position { x: 0, y: 0, z: 0 }));
    assert_eq!(Position::decode(-1), Ok(Position { x: -1, y: -1, z: -1 }));
    assert_eq!(Position::decode(0x7FF), Ok(Position { x: 0, y: 2047, z: 0 }));
    assert_eq!(Position::decode(0x800), Ok(Position { x: 0, y: -2048, z: 0 }));
    assert_eq!(
        Position::decode(i64::MIN),
        Ok(Position { x: -(1 << 25), y: 0, z: 0 })
    );
    assert_eq!(
        Position::decode(i64::MAX),
        Ok(Position { x: (1 << 25) - 1, y: -1, z: -1 })
    );
    assert_eq!(
        Position::decode((5 << 38) | (0x200_0000 << 12) | 7),
        Ok(Position { x: 5, y: 7, z: -(1 << 25) })
    );
}

#[test]
fn position_round_trips_within_the_signed_ranges() {
    for (x, y, z) in [(0, 0, 0), (33_554_431, 2047, 33_554_431), (-33_554_432, -2048, -33_554_432), (-5, 100, 77)] {
        let position = Position::new(x, y, z).unwrap();
        assert_eq!(Position::decode(position.encode()), Ok(position));
    }
}
