//! A slot of an inventory.

use vstd::prelude::*;
use super::leb128::leb128;
use super::primitives::{DataResult, SerDe};
use super::var_int::{unsigned32, VarInt};

verus! {

/// `quartz_nbt::NbtTag`, a tag of named binary data. It is carried along;
/// nothing here looks inside one.
#[verifier::external_type_specification]
#[verifier::external_body]
pub struct ExNbtTag(quartz_nbt::NbtTag);

/// A slot, empty or with items in it.
pub struct Slot {
    pub data: Option<SlotData>,
}

/// The items in a slot.
pub struct SlotData {
    pub item_id: VarInt,
    pub item_count: u8,
    pub nbt: quartz_nbt::NbtTag,
}

impl Slot {
    /// The bytes of a slot, as far as they are written yet.
    pub open spec fn encoded(&self) -> Seq<u8> {
        match self.data {
            Some(data) => leb128(unsigned32(data.item_id.value())) + seq![data.item_count],
            None => seq![0u8],
        }
    }

    /// Writes the slot: the id of the item and the count, or the byte of
    /// `false` for an empty slot. The tag is not written yet.
    pub fn encode(&self) -> (r: DataResult<Vec<u8>>)
        ensures
            r.is_ok(),
            r.unwrap()@ == self.encoded(),
    {
        match &self.data {
            Some(data) => {
                let mut bytes: Vec<u8> = match data.item_id.encode() {
                    Ok(bytes) => bytes,
                    Err(e) => {
                        return Err(e);
                    },
                };
                bytes.push(data.item_count);
                Ok(bytes)
            },
            None => {
                let mut bytes: Vec<u8> = Vec::new();
                bytes.push(0u8);
                Ok(bytes)
            },
        }
    }
}

} // verus!
