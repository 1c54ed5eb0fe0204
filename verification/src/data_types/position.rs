//! A block position packed into 64 bits: 26 bits of x, 26 bits of z and 12
//! bits of y, each in two's complement.

use vstd::prelude::*;
use super::primitives::{DataResult, Errors};

verus! {

/// Why coordinates make no position.
#[derive(Debug, Clone, Copy, PartialEq, Eq, PartialOrd, Ord, Structural)]
pub enum PositionError {
    /// X is above its range.
    XOutOfRange,
    /// Y is above its range.
    YOutOfRange,
    /// Z is above its range.
    ZOutOfRange,
    /// A coordinate does not fit 32 bits.
    Overflow,
}

/// A position in the world.
#[derive(Debug, Clone, Copy, PartialEq, Eq, PartialOrd, Ord, Structural)]
pub struct Position {
    pub x: i32,
    pub y: i32,
    pub z: i32,
}

/// The greatest x and z that [`Position::new`] takes.
pub const MAX_HORIZONTAL: i32 = 0x3FF_FFFF;

/// The greatest y that [`Position::new`] takes.
pub const MAX_VERTICAL: i32 = 0xFFF;

/// The signed number with the low 64 bits of `n`.
pub open spec fn as_signed64(n: int) -> i64 {
    let low = n % 0x1_0000_0000_0000_0000;
    if low < 0x8000_0000_0000_0000 {
        low as i64
    } else {
        (low - 0x1_0000_0000_0000_0000) as i64
    }
}

/// The signed number that the low `2 * half` values of `n` stand for, in
/// two's complement.
pub open spec fn sign_extended(n: int, half: int) -> int {
    let low = n % (2 * half);
    if low < half {
        low
    } else {
        low - 2 * half
    }
}

/// The packed form: the low 26 bits of `x` above the low 26 bits of `z`
/// above the low 12 bits of `y`.
pub open spec fn packed(x: i32, y: i32, z: i32) -> i64 {
    as_signed64((x % 0x400_0000) * 0x40_0000_0000 + (z % 0x400_0000) * 0x1000 + y % 0x1000)
}

/// The x of a packed position: its top 26 bits, signed.
pub open spec fn unpacked_x(value: i64) -> int {
    value / 0x40_0000_0000
}

/// The y of a packed position: its low 12 bits, signed.
pub open spec fn unpacked_y(value: i64) -> int {
    sign_extended(value as int, 0x800)
}

/// The z of a packed position: the 26 bits above the low 12, signed.
pub open spec fn unpacked_z(value: i64) -> int {
    sign_extended(value / 0x1000, 0x200_0000)
}

/// Packing with masks and shifts is packing by remainders and weights.
proof fn lemma_pack(x: u32, y: u32, z: u32)
    by (bit_vector)
    ensures
        (((x as u64) & 0x3FF_FFFFu64) << 38u64) | (((z as u64) & 0x3FF_FFFFu64) << 12u64) | ((y as u64)
            & 0xFFFu64) == (x % 0x400_0000u32) as u64 * 0x40_0000_0000u64 + (z % 0x400_0000u32) as u64
            * 0x1000u64 + (y % 0x1000u32) as u64,
{
}

/// The fields of a packed position, as the shifts give them.
proof fn lemma_unpack(v: u64)
    by (bit_vector)
    ensures
        v >> 38u64 == v / 0x40_0000_0000u64,
        (v >> 12u64) & 0x3FF_FFFFu64 == (v / 0x1000u64) % 0x400_0000u64,
        v & 0xFFFu64 == v % 0x1000u64,
{
}

/// Reinterpreting the bits of signed numbers.
proof fn lemma_unsigned(v: i32, w: i64)
    by (bit_vector)
    ensures
        v >= 0 ==> v as u32 == v,
        v < 0 ==> v as u32 == v + 0x1_0000_0000,
        w >= 0 ==> w as u64 == w,
        w < 0 ==> w as u64 == w + 0x1_0000_0000_0000_0000,
{
}

/// Reinterpreting 64 bits as a signed number.
proof fn lemma_signed(n: u64)
    by (bit_vector)
    ensures
        n < 0x8000_0000_0000_0000u64 ==> n as i64 == n,
        n >= 0x8000_0000_0000_0000u64 ==> n as i64 == n - 0x1_0000_0000_0000_0000,
{
}

/// Unpacking what was packed gives the coordinates back, where each is
/// in the range of its field: x and z from `-0x200_0000` to `0x1FF_FFFF`, y
/// from `-0x800` to `0x7FF`.
pub proof fn law_packed_position_unpacks(x: i32, y: i32, z: i32)
    requires
        -0x200_0000 <= x < 0x200_0000,
        -0x800 <= y < 0x800,
        -0x200_0000 <= z < 0x200_0000,
    ensures
        unpacked_x(packed(x, y, z)) == x,
        unpacked_y(packed(x, y, z)) == y,
        unpacked_z(packed(x, y, z)) == z,
{
    let fx: int = (x % 0x400_0000) as int;
    let fy: int = (y % 0x1000) as int;
    let fz: int = (z % 0x400_0000) as int;
    assert(fx == if x < 0 {
        x + 0x400_0000
    } else {
        x as int
    });
    assert(fy == if y < 0 {
        y + 0x1000
    } else {
        y as int
    });
    assert(fz == if z < 0 {
        z + 0x400_0000
    } else {
        z as int
    });
    let total = fx * 0x40_0000_0000 + fz * 0x1000 + fy;
    assert(0 <= total < 0x1_0000_0000_0000_0000);
    let value = packed(x, y, z) as int;
    assert(value == if total < 0x8000_0000_0000_0000 {
        total
    } else {
        total - 0x1_0000_0000_0000_0000
    });
    assert(value == x * 0x40_0000_0000 + fz * 0x1000 + fy);
    let upper = value / 0x1000;
    assert(upper == x * 0x400_0000 + fz);
    assert(upper % 0x400_0000 == fz) by (nonlinear_arith)
        requires
            upper == x * 0x400_0000 + fz,
            0 <= fz < 0x400_0000,
    ;
    assert(2 * 0x200_0000 == 0x400_0000);
}

impl Position {
    /// Makes a position of coordinates that are not above their range:
    /// x and z at most `0x3FF_FFFF`, y at most `0xFFF`. The first
    /// coordinate above its range, in the order x, y, z, names the error.
    pub fn new(x: i32, y: i32, z: i32) -> (r: DataResult<Position>)
        ensures
            r == if x > MAX_HORIZONTAL {
                Err::<Position, Errors>(Errors::PositionError(PositionError::XOutOfRange))
            } else if y > MAX_VERTICAL {
                Err::<Position, Errors>(Errors::PositionError(PositionError::YOutOfRange))
            } else if z > MAX_HORIZONTAL {
                Err::<Position, Errors>(Errors::PositionError(PositionError::ZOutOfRange))
            } else {
                Ok::<Position, Errors>((Position { x, y, z }))
            },
    {
        if x > MAX_HORIZONTAL {
            return Err(Errors::PositionError(PositionError::XOutOfRange));
        }
        if y > MAX_VERTICAL {
            return Err(Errors::PositionError(PositionError::YOutOfRange));
        }
        if z > MAX_HORIZONTAL {
            return Err(Errors::PositionError(PositionError::ZOutOfRange));
        }
        Ok(Position { x, y, z })
    }

    /// Packs the position into 64 bits.
    #[must_use]
    pub fn encode(&self) -> (r: i64)
        ensures
            r == packed(self.x, self.y, self.z),
    {
        let ux: u32 = #[verifier::truncate] (self.x as u32);
        let uy: u32 = #[verifier::truncate] (self.y as u32);
        let uz: u32 = #[verifier::truncate] (self.z as u32);
        let x: u64 = ((ux as u64) & 0x3FF_FFFF) << 38;
        let y: u64 = (uy as u64) & 0xFFF;
        let z: u64 = ((uz as u64) & 0x3FF_FFFF) << 12;
        let bits: u64 = x | z | y;
        proof {
            lemma_unsigned(self.x, 0);
            lemma_unsigned(self.y, 0);
            lemma_unsigned(self.z, 0);
            lemma_pack(ux, uy, uz);
            lemma_signed(bits);
            assert(ux % 0x400_0000 == self.x % 0x400_0000);
            assert(uz % 0x400_0000 == self.z % 0x400_0000);
            assert(uy % 0x1000 == self.y % 0x1000);
        }
        #[verifier::truncate]
        (bits as i64)
    }

    /// Unpacks a position: the top 26 bits are x, the next 26 bits z and
    /// the low 12 bits y, each signed. Every 64 bits are a position.
    pub fn decode(value: i64) -> (r: DataResult<Position>)
        ensures
            r.is_ok(),
            r.unwrap().x == unpacked_x(value),
            r.unwrap().y == unpacked_y(value),
            r.unwrap().z == unpacked_z(value),
    {
        let bits: u64 = #[verifier::truncate] (value as u64);
        let fx: u64 = bits >> 38;
        let fz: u64 = (bits >> 12) & 0x3FF_FFFF;
        let fy: u64 = bits & 0xFFF;
        proof {
            lemma_unsigned(0, value);
            lemma_unpack(bits);
            let wide = value as int;
            if value < 0 {
                assert(bits == wide + 0x1_0000_0000_0000_0000);
                assert(bits / 0x1000 == wide / 0x1000 + 0x10_0000_0000_0000);
                assert(bits / 0x40_0000_0000 == wide / 0x40_0000_0000 + 0x400_0000);
            }
            assert(bits % 0x1000 == wide % 0x1000);
            assert(fy == wide % 0x1000);
            assert((bits / 0x1000) % 0x400_0000 == (wide / 0x1000) % 0x400_0000);
            assert(fz == (wide / 0x1000) % 0x400_0000);
        }
        let x: i32 = if fx >= 0x200_0000 {
            (fx as i64 - 0x400_0000) as i32
        } else {
            fx as i32
        };
        let y: i32 = if fy >= 0x800 {
            (fy as i64 - 0x1000) as i32
        } else {
            fy as i32
        };
        let z: i32 = if fz >= 0x200_0000 {
            (fz as i64 - 0x400_0000) as i32
        } else {
            fz as i32
        };
        Self::new(x, y, z)
    }
}

} // verus!
