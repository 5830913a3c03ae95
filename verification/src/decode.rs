//! Decoding of the raw measurement register block.
//!
//! The sensor exposes its measurements as a contiguous block of
//! fourteen bytes: seven big-endian two's-complement 16-bit fields, in
//! the fixed order accel-X, accel-Y, accel-Z, temperature, gyro-X,
//! gyro-Y, gyro-Z. This module turns that block into signed raw
//! counts. The scale constants that turn counts into physical units
//! are defined here as well; the division itself involves floating
//! point and is left to the caller.

use vstd::prelude::*;

verus! {

/// Raw counts per standard gravity, fixed by the ±2 g full-scale
/// setting that [`crate::protocol::setup`] programs.
pub const ACCEL_COUNTS_PER_G: u16 = 16384;

/// Raw counts per degree-per-second, fixed by the ±250 dps full-scale
/// setting that [`crate::protocol::setup`] programs.
pub const GYRO_COUNTS_PER_DPS: u16 = 131;

/// Raw temperature counts per degree Celsius.
pub const TEMP_COUNTS_PER_DEG_C: u16 = 340;

/// Offset in degrees Celsius to add after scaling the temperature
/// counts.
pub const TEMP_OFFSET_DEG_C: u16 = 35;

/// Number of bytes in the measurement register block: seven 16-bit
/// fields.
pub const SAMPLE_LEN: usize = 14;

/// The value of the big-endian two's-complement 16-bit integer whose
/// bytes are `hi` and `lo`.
pub open spec fn be_i16(hi: u8, lo: u8) -> int {
    let unsigned = (hi as int) * 256 + (lo as int);
    if unsigned >= 32768 {
        unsigned - 65536
    } else {
        unsigned
    }
}

/// High byte of the big-endian encoding of `v`.
pub open spec fn be_hi(v: int) -> u8 {
    let unsigned = if v >= 0 {
        v
    } else {
        v + 65536
    };
    (unsigned / 256) as u8
}

/// Low byte of the big-endian encoding of `v`.
pub open spec fn be_lo(v: int) -> u8 {
    let unsigned = if v >= 0 {
        v
    } else {
        v + 65536
    };
    (unsigned % 256) as u8
}

/// Every 16-bit value round-trips through its big-endian encoding:
/// decoding is inverse to encoding over the whole signed range, so in
/// particular the extreme values 32767 and -32768 are reproduced
/// exactly, never clamped.
pub proof fn lemma_be_i16_round_trip(v: int)
    requires
        -32768 <= v <= 32767,
    ensures
        be_i16(be_hi(v), be_lo(v)) == v,
{
    let unsigned = if v >= 0 {
        v
    } else {
        v + 65536
    };
    assert(unsigned == (unsigned / 256) * 256 + unsigned % 256) by (nonlinear_arith);
    assert(0 <= unsigned / 256 < 256) by (nonlinear_arith)
        requires 0 <= unsigned < 65536;
    assert(0 <= unsigned % 256 < 256) by (nonlinear_arith);
}

/// Decoding is injective: distinct byte pairs decode to distinct
/// values, so no two raw readings collapse to one count.
pub proof fn lemma_be_i16_injective(hi1: u8, lo1: u8, hi2: u8, lo2: u8)
    requires
        be_i16(hi1, lo1) == be_i16(hi2, lo2),
    ensures
        hi1 == hi2,
        lo1 == lo2,
{
}

/// Decode one big-endian two's-complement 16-bit field.
pub fn decode_be_i16(hi: u8, lo: u8) -> (v: i16)
    ensures
        v as int == be_i16(hi, lo),
{
    let unsigned: i32 = (hi as i32) * 256 + (lo as i32);
    if unsigned >= 32768 {
        (unsigned - 65536) as i16
    } else {
        unsigned as i16
    }
}

/// One decoded measurement, in raw sensor counts. The caller divides
/// by the scale constants of this module to obtain physical units.
#[derive(Clone, Copy, Debug, PartialEq)]
pub struct RawSample {
    /// Acceleration X/Y/Z, in counts of 1/[`ACCEL_COUNTS_PER_G`] g.
    pub accel: [i16; 3],
    /// Temperature, in counts; degrees Celsius are
    /// `temp / TEMP_COUNTS_PER_DEG_C + TEMP_OFFSET_DEG_C`.
    pub temp: i16,
    /// Angular velocity X/Y/Z, in counts of
    /// 1/[`GYRO_COUNTS_PER_DPS`] degrees per second.
    pub gyro: [i16; 3],
}

/// The `i`-th 16-bit field of a raw register block, as an integer.
pub open spec fn raw_field(block: Seq<u8>, i: int) -> int
    recommends
        0 <= i < 7,
        block.len() == SAMPLE_LEN,
{
    be_i16(block[2 * i], block[2 * i + 1])
}

/// `s` holds exactly the seven fields of `block`, in the fixed order
/// accel-X, accel-Y, accel-Z, temperature, gyro-X, gyro-Y, gyro-Z.
pub open spec fn decodes_block(s: RawSample, block: Seq<u8>) -> bool {
    &&& s.accel[0] as int == raw_field(block, 0)
    &&& s.accel[1] as int == raw_field(block, 1)
    &&& s.accel[2] as int == raw_field(block, 2)
    &&& s.temp as int == raw_field(block, 3)
    &&& s.gyro[0] as int == raw_field(block, 4)
    &&& s.gyro[1] as int == raw_field(block, 5)
    &&& s.gyro[2] as int == raw_field(block, 6)
}

/// Decode a full fourteen-byte measurement block into raw counts.
pub fn decode_block(block: &Vec<u8>) -> (s: RawSample)
    requires
        block@.len() == SAMPLE_LEN,
    ensures
        decodes_block(s, block@),
{
    RawSample {
        accel: [
            decode_be_i16(block[0], block[1]),
            decode_be_i16(block[2], block[3]),
            decode_be_i16(block[4], block[5]),
        ],
        temp: decode_be_i16(block[6], block[7]),
        gyro: [
            decode_be_i16(block[8], block[9]),
            decode_be_i16(block[10], block[11]),
            decode_be_i16(block[12], block[13]),
        ],
    }
}

} // verus!
