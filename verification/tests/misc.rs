use redstone_signal::data_types::{
    Angle, BooleanError, DataResult, Errors, IdentifierError, PositionError, Slot, SlotData,
    StringError, VarInt, VarIntError, VarLongError,
};
use redstone_signal::values::versions::Version;

#[test]
fn angle_keeps_its_steps() {
    assert_eq!(u8::from(Angle::from(0)), 0);
    assert_eq!(u8::from(Angle::from(64)), 64);
    assert_eq!(u8::from(Angle::from(255)), 255);
}

#[test]
fn errors_wrap_each_kind() {
    assert_eq!(
        Errors::from(VarIntError::DecodeOverflow),
        Errors::VarIntError(VarIntError::DecodeOverflow)
    );
    assert_eq!(
        Errors::from(VarLongError::EncodeOverflow),
        Errors::VarFloatError(VarLongError::EncodeOverflow)
    );
    assert_eq!(
        Errors::from(IdentifierError::Value),
        Errors::IdentifierError(IdentifierError::Value)
    );
    assert_eq!(
        Errors::from(StringError::InvalidUTF8),
        Errors::StringError(StringError::InvalidUTF8)
    );
    assert_eq!(
        Errors::from(BooleanError::InvalidValue("x")),
        Errors::BooleanError(BooleanError::InvalidValue("x"))
    );
    assert_eq!(
        Errors::from(PositionError::Overflow),
        Errors::PositionError(PositionError::Overflow)
    );
}

#[test]
fn errors_err_fails_with_the_error() {
    let result: DataResult<u8> = Errors::err(StringError::InvalidLength);
    assert_eq!(result, Err(Errors::StringError(StringError::InvalidLength)));
    let result: DataResult<()> = Errors::err(Errors::PositionError(PositionError::YOutOfRange));
    assert_eq!(result, Err(Errors::PositionError(PositionError::YOutOfRange)));
}

#[test]
fn errors_map_replaces_any_error() {
    let failed: Result<u8, &str> = Err("no");
    assert_eq!(
        failed.map_err(Errors::map(VarIntError::EncodeOverflow)),
        Err(Errors::VarIntError(VarIntError::EncodeOverflow))
    );
    let fine: Result<u8, &str> = Ok(3);
    assert_eq!(fine.map_err(Errors::map(VarIntError::EncodeOverflow)), Ok(3));
}

#[test]
fn slot_encodes_id_and_count() {
    let slot = Slot {
        data: Some(SlotData {
            item_id: VarInt::new(300),
            item_count: 7,
            nbt: quartz_nbt::NbtTag::Byte(1),
        }),
    };
    assert_eq!(slot.encode().unwrap(), vec![0xac, 0x02, 7]);
    let slot = Slot {
        data: Some(SlotData {
            item_id: VarInt::new(-1),
            item_count: 0,
            nbt: quartz_nbt::NbtTag::Long(9),
        }),
    };
    assert_eq!(slot.encode().unwrap(), vec![0xff, 0xff, 0xff, 0xff, 0x0f, 0]);
}

#[test]
fn empty_slot_encodes_as_false() {
    assert_eq!(Slot { data: None }.encode().unwrap(), vec![0u8]);
}

#[test]
fn versions_give_their_numbers() {
    assert_eq!(Version::Snapshot13W41B.protocol_version_number().value(), 0);
    assert_eq!(Version::Release1_7_10.protocol_version_number().value(), 5);
    assert_eq!(Version::ReleaseCandidate1_20_3_RC1.protocol_version_number().value(), 928);
    assert_eq!(Version::ReleaseCandidate1_20_4_RC1.protocol_version_number().value(), 930);
    assert_eq!(Version::Release1_20_4.protocol_version_number().value(), 931);
}

#[test]
fn versions_give_their_names() {
    assert_eq!(Version::Snapshot13W41B.name(), "Snapshot 13w41b");
    assert_eq!(Version::PreRelease1_7_1_PRE.name(), "Pre Release 1.7.1");
    assert_eq!(Version::PreRelease1_20_3_PRE4.name(), "Pre Release 1.20.3/4");
    assert_eq!(Version::Release1_20_4.name(), "Release 1.20.4");
}
