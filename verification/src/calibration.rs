//! The calibration store: the device's factory-programmed compensation
//! constants, parsed once at initialization from three register blocks.
//!
//! The temperature and pressure constants arrive as little-endian 16-bit
//! words in one 26-byte block; the humidity constants arrive as one separate
//! byte plus a 7-byte block in which two 12-bit signed constants are packed
//! into overlapping nibbles of adjacent bytes.

use vstd::prelude::*;

verus! {

/// The factory compensation constants, plus the fine-temperature
/// intermediate that the temperature formula writes and the pressure and
/// humidity formulas read.
///
/// The constants are immutable once parsed. `t_fine` must be recomputed from
/// the current raw temperature sample (by the temperature formula) before
/// pressure or humidity compensation is evaluated for that sample.
#[derive(Clone, Copy, Debug, PartialEq, Eq, Structural)]
pub struct CalibrationData {
    pub dig_t1: u16,
    pub dig_t2: i16,
    pub dig_t3: i16,
    pub dig_p1: u16,
    pub dig_p2: i16,
    pub dig_p3: i16,
    pub dig_p4: i16,
    pub dig_p5: i16,
    pub dig_p6: i16,
    pub dig_p7: i16,
    pub dig_p8: i16,
    pub dig_p9: i16,
    pub dig_h1: u8,
    pub dig_h2: i16,
    pub dig_h3: u8,
    pub dig_h4: i16,
    pub dig_h5: i16,
    pub dig_h6: i8,
    /// Fine-temperature intermediate; integer-valued, written by the
    /// temperature formula and consumed by the pressure and humidity
    /// formulas of the same reading cycle.
    pub t_fine: i32,
}

/// The two calibration structures agree on every factory constant; only the
/// fine-temperature intermediate may differ.
pub open spec fn same_constants(a: CalibrationData, b: CalibrationData) -> bool {
    &&& a.dig_t1 == b.dig_t1
    &&& a.dig_t2 == b.dig_t2
    &&& a.dig_t3 == b.dig_t3
    &&& a.dig_p1 == b.dig_p1
    &&& a.dig_p2 == b.dig_p2
    &&& a.dig_p3 == b.dig_p3
    &&& a.dig_p4 == b.dig_p4
    &&& a.dig_p5 == b.dig_p5
    &&& a.dig_p6 == b.dig_p6
    &&& a.dig_p7 == b.dig_p7
    &&& a.dig_p8 == b.dig_p8
    &&& a.dig_p9 == b.dig_p9
    &&& a.dig_h1 == b.dig_h1
    &&& a.dig_h2 == b.dig_h2
    &&& a.dig_h3 == b.dig_h3
    &&& a.dig_h4 == b.dig_h4
    &&& a.dig_h5 == b.dig_h5
    &&& a.dig_h6 == b.dig_h6
}

/// Unsigned 16-bit word assembled from two bytes, low byte first.
pub open spec fn spec_le_u16(lo: u8, hi: u8) -> int {
    hi * 256 + lo
}

/// Two's-complement reading of an unsigned 16-bit word as a signed value.
pub open spec fn spec_as_i16(w: int) -> int {
    if w >= 32768 {
        w - 65536
    } else {
        w
    }
}

/// Two's-complement reading of an unsigned byte as a signed value.
pub open spec fn spec_as_i8(b: int) -> int {
    if b >= 128 {
        b - 256
    } else {
        b
    }
}

/// Sign extension from 12 bits: an unsigned 12-bit value above 2047 denotes
/// a negative number, 4096 below it.
pub open spec fn spec_sign_extend_12(v: int) -> int {
    if v > 2047 {
        v - 4096
    } else {
        v
    }
}

/// The fourth humidity constant: the whole of the block's fourth byte gives
/// the upper 8 of its 12 bits, the low nibble of the fifth byte the rest.
pub open spec fn spec_h4(e4: u8, e5: u8) -> int {
    spec_sign_extend_12(e4 * 16 + e5 % 16)
}

/// The fifth humidity constant: the whole of the block's sixth byte gives
/// the upper 8 of its 12 bits, the high nibble of the fifth byte the rest.
pub open spec fn spec_h5(e5: u8, e6: u8) -> int {
    spec_sign_extend_12(e6 * 16 + e5 / 16)
}

/// The calibration store parsed from the device's three calibration reads:
/// the 26-byte temperature/pressure block `tp`, the separately stored first
/// humidity constant `h1`, and the 7-byte humidity block `hum`. The
/// fine-temperature intermediate starts at zero.
pub open spec fn spec_parse_calibration(tp: Seq<u8>, h1: u8, hum: Seq<u8>) -> CalibrationData {
    CalibrationData {
        dig_t1: spec_le_u16(tp[0], tp[1]) as u16,
        dig_t2: spec_as_i16(spec_le_u16(tp[2], tp[3])) as i16,
        dig_t3: spec_as_i16(spec_le_u16(tp[4], tp[5])) as i16,
        dig_p1: spec_le_u16(tp[6], tp[7]) as u16,
        dig_p2: spec_as_i16(spec_le_u16(tp[8], tp[9])) as i16,
        dig_p3: spec_as_i16(spec_le_u16(tp[10], tp[11])) as i16,
        dig_p4: spec_as_i16(spec_le_u16(tp[12], tp[13])) as i16,
        dig_p5: spec_as_i16(spec_le_u16(tp[14], tp[15])) as i16,
        dig_p6: spec_as_i16(spec_le_u16(tp[16], tp[17])) as i16,
        dig_p7: spec_as_i16(spec_le_u16(tp[18], tp[19])) as i16,
        dig_p8: spec_as_i16(spec_le_u16(tp[20], tp[21])) as i16,
        dig_p9: spec_as_i16(spec_le_u16(tp[22], tp[23])) as i16,
        dig_h1: h1,
        dig_h2: spec_as_i16(spec_le_u16(hum[0], hum[1])) as i16,
        dig_h3: hum[2],
        dig_h4: spec_h4(hum[3], hum[4]) as i16,
        dig_h5: spec_h5(hum[4], hum[5]) as i16,
        dig_h6: spec_as_i8(hum[6] as int) as i8,
        t_fine: 0,
    }
}

/// Unsigned 16-bit word assembled from two bytes, low byte first.
fn le_u16(lo: u8, hi: u8) -> (r: u16)
    ensures
        r == spec_le_u16(lo, hi),
{
    (hi as u16) * 256 + (lo as u16)
}

/// Two's-complement reading of an unsigned 16-bit word as a signed value.
fn as_i16(w: u16) -> (r: i16)
    ensures
        r == spec_as_i16(w as int),
{
    if w >= 32768 {
        ((w as i32) - 65536) as i16
    } else {
        w as i16
    }
}

/// Two's-complement reading of an unsigned byte as a signed value.
fn as_i8(b: u8) -> (r: i8)
    ensures
        r == spec_as_i8(b as int),
{
    if b >= 128 {
        ((b as i16) - 256) as i8
    } else {
        b as i8
    }
}

/// Reconstructs the two 12-bit signed humidity constants from the 7-byte
/// humidity calibration block, where they span overlapping nibbles of three
/// adjacent bytes, and sign-extends each from 12 bits.
pub fn unpack_h4_h5(block: &Vec<u8>) -> (r: (i16, i16))
    requires
        block@.len() == 7,
    ensures
        r.0 == spec_h4(block@[3], block@[4]),
        r.1 == spec_h5(block@[4], block@[5]),
{
    let e4: u8 = block[3];
    let e5: u8 = block[4];
    let e6: u8 = block[5];
    let h4_packed: u16 = (e4 as u16) * 16 + (e5 as u16) % 16;
    let h5_packed: u16 = (e6 as u16) * 16 + (e5 as u16) / 16;
    let h4: i16 = if h4_packed > 2047 {
        ((h4_packed as i32) - 4096) as i16
    } else {
        h4_packed as i16
    };
    let h5: i16 = if h5_packed > 2047 {
        ((h5_packed as i32) - 4096) as i16
    } else {
        h5_packed as i16
    };
    (h4, h5)
}

/// Parses the calibration store from the device's three calibration reads:
/// the 26-byte temperature/pressure block, the separately stored first
/// humidity constant, and the 7-byte humidity block. Every 16-bit constant
/// is little-endian; the designated ones are reinterpreted as signed
/// two's-complement values.
pub fn parse_calibration(tp: &Vec<u8>, h1: u8, hum: &Vec<u8>) -> (c: CalibrationData)
    requires
        tp@.len() == 26,
        hum@.len() == 7,
    ensures
        c == spec_parse_calibration(tp@, h1, hum@),
        c.t_fine == 0,
{
    let (dig_h4, dig_h5) = unpack_h4_h5(hum);
    CalibrationData {
        dig_t1: le_u16(tp[0], tp[1]),
        dig_t2: as_i16(le_u16(tp[2], tp[3])),
        dig_t3: as_i16(le_u16(tp[4], tp[5])),
        dig_p1: le_u16(tp[6], tp[7]),
        dig_p2: as_i16(le_u16(tp[8], tp[9])),
        dig_p3: as_i16(le_u16(tp[10], tp[11])),
        dig_p4: as_i16(le_u16(tp[12], tp[13])),
        dig_p5: as_i16(le_u16(tp[14], tp[15])),
        dig_p6: as_i16(le_u16(tp[16], tp[17])),
        dig_p7: as_i16(le_u16(tp[18], tp[19])),
        dig_p8: as_i16(le_u16(tp[20], tp[21])),
        dig_p9: as_i16(le_u16(tp[22], tp[23])),
        dig_h1: h1,
        dig_h2: as_i16(le_u16(hum[0], hum[1])),
        dig_h3: hum[2],
        dig_h4,
        dig_h5,
        dig_h6: as_i8(hum[6]),
        t_fine: 0,
    }
}

} // verus!
