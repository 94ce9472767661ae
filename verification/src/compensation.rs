//! The compensation engine: the sensor family's integer compensation
//! formulas, which convert raw analog-to-digital codes into physical units
//! using the factory calibration constants.
//!
//! The formulas are chains of products and divisions by fixed powers of two,
//! evaluated here in 128-bit intermediates with division truncated toward
//! zero ([`tdiv`]). Temperature compensation also produces the
//! fine-temperature intermediate that the pressure and humidity formulas
//! consume; it must be recomputed from the current raw sample before either
//! of them runs.
//!
//! Units of the results:
//! - temperature: hundredths of a degree Celsius;
//! - pressure: pascals in unsigned Q24.8 fixed point (value / 256 = Pa),
//!   reduced modulo 2^32;
//! - humidity: percent relative humidity in Q22.10 fixed point
//!   (value / 1024 = %), clamped to [0 %, 100 %].

use vstd::arithmetic::div_mod::lemma_div_is_ordered;
use vstd::arithmetic::div_mod::lemma_div_pos_is_pos;
use vstd::arithmetic::div_mod::lemma_fundamental_div_mod;
use vstd::arithmetic::div_mod::lemma_fundamental_div_mod_converse;
use vstd::prelude::*;

use crate::bus::Bus;
use crate::calibration::{same_constants, CalibrationData};
use crate::driver::BME280Sensor;

verus! {

/// Absolute value of a mathematical integer.
pub open spec fn iabs(a: int) -> int {
    if a < 0 {
        -a
    } else {
        a
    }
}

/// Division truncated toward zero — the rounding the machine's signed
/// division performs, as opposed to the Euclidean `/` of specifications.
pub open spec fn tdiv(a: int, b: int) -> int {
    if (a < 0) != (b < 0) {
        -(iabs(a) / iabs(b))
    } else {
        iabs(a) / iabs(b)
    }
}

/// The range the temperature formula guarantees for the fine-temperature
/// intermediate on any 20-bit raw code and any calibration constants. The
/// pressure and humidity formulas rely on it to stay within their 128-bit
/// intermediates.
pub open spec fn t_fine_bounded(t: int) -> bool {
    -4194304 <= t <= 4194304
}

/// Fine temperature: the sum of the temperature formula's two polynomial
/// terms in the raw code `adc_t` and the three temperature constants.
pub open spec fn spec_t_fine(c: CalibrationData, adc_t: int) -> int {
    let v1: int = tdiv((tdiv(adc_t, 8) - 2 * c.dig_t1) * c.dig_t2, 2048);
    let d: int = tdiv(adc_t, 16) - c.dig_t1;
    let v2: int = tdiv(tdiv(d * d, 4096) * c.dig_t3, 16384);
    v1 + v2
}

/// Temperature in hundredths of a degree Celsius: the fine temperature
/// divided by 5120 (scaled by 100 and rounded at 1/256).
pub open spec fn spec_t_centi(t_fine: int) -> int {
    tdiv(t_fine * 5 + 128, 256)
}

/// The pressure formula's first normalizing term, built from the fine
/// temperature and pressure constants 1, 2 and 3. When it is zero the
/// formula is singular and the result is defined to be 0 Pa.
pub open spec fn spec_p_var1(c: CalibrationData) -> int {
    let v: int = c.t_fine - 128000;
    let a: int = tdiv(v * v * c.dig_p3, 256) + v * c.dig_p2 * 4096;
    tdiv((140737488355328 + a) * c.dig_p1, 8589934592)
}

/// The pressure formula's offset term, built from the fine temperature and
/// pressure constants 4, 5 and 6.
pub open spec fn spec_p_var2(c: CalibrationData) -> int {
    let v: int = c.t_fine - 128000;
    v * v * c.dig_p6 + v * c.dig_p5 * 131072 + c.dig_p4 * 34359738368
}

/// Pressure in Q24.8 pascals before the final reduction: zero when the
/// normalizing term is zero, otherwise the normalized raw code with the
/// successive corrections from pressure constants 7, 8 and 9.
pub open spec fn spec_pressure_q8(c: CalibrationData, adc_p: int) -> int {
    if spec_p_var1(c) == 0 {
        0
    } else {
        let p: int = tdiv(
            ((1048576 - adc_p) * 2147483648 - spec_p_var2(c)) * 3125,
            spec_p_var1(c),
        );
        let c9: int = c.dig_p9 * tdiv(tdiv(p, 8192) * tdiv(p, 8192), 33554432);
        let c8: int = tdiv(c.dig_p8 * p, 524288);
        tdiv(p + c9 + c8, 256) + c.dig_p7 * 16
    }
}

/// Pressure as the driver returns it: the Q24.8 value reduced to an
/// unsigned 32-bit quantity, as the device's reference integer routine
/// defines its result.
pub open spec fn spec_pressure(c: CalibrationData, adc_p: int) -> int {
    spec_pressure_q8(c, adc_p) % 4294967296
}

/// Humidity in Q22.10 percent: the raw code less two terms derived from the
/// fine temperature and humidity constants 4 and 5, scaled by the product of
/// three factors from constants 2, 3 and 6, corrected with constant 1, and
/// clamped to [0 %, 100 %].
pub open spec fn spec_humidity_q10(c: CalibrationData, adc_h: int) -> int {
    let x: int = c.t_fine - 76800;
    let a: int = tdiv(adc_h * 16384 - c.dig_h4 * 1048576 - c.dig_h5 * x + 16384, 32768);
    let b: int = tdiv(
        (tdiv(tdiv(x * c.dig_h6, 1024) * (tdiv(x * c.dig_h3, 2048) + 32768), 1024) + 2097152)
            * c.dig_h2 + 8192,
        16384,
    );
    let v: int = a * b;
    let w: int = v - tdiv(tdiv(tdiv(v, 32768) * tdiv(v, 32768), 128) * c.dig_h1, 16);
    let cl: int = if w < 0 {
        0
    } else if w > 419430400 {
        419430400
    } else {
        w
    };
    tdiv(cl, 4096)
}

/// A product of values from symmetric intervals stays in the product
/// interval.
proof fn lemma_mul_bound(a: int, b: int, aa: int, bb: int)
    by (nonlinear_arith)
    requires
        -aa <= a <= aa,
        -bb <= b <= bb,
    ensures
        -(aa * bb) <= a * b <= aa * bb,
{
}

/// Truncating division by a positive divisor shrinks magnitudes: the
/// quotient of a value from a symmetric interval stays in the divided
/// interval, keeps the dividend's sign, and its magnitude is the Euclidean
/// quotient of the magnitudes.
proof fn lemma_tdiv_bound(a: int, b: int, aa: int)
    requires
        b > 0,
        -aa <= a <= aa,
    ensures
        -(aa / b) <= tdiv(a, b) <= aa / b,
        iabs(tdiv(a, b)) == iabs(a) / b,
        a >= 0 ==> tdiv(a, b) >= 0,
        0 <= aa / b,
{
    lemma_div_is_ordered(iabs(a), aa, b);
    lemma_div_pos_is_pos(iabs(a), b);
    lemma_div_pos_is_pos(aa, b);
}

/// Signed 128-bit division truncated toward zero, computed through the
/// unsigned magnitudes.
fn tdiv128(a: i128, b: i128) -> (r: i128)
    requires
        b != 0,
        a != i128::MIN,
        b != i128::MIN,
    ensures
        r == tdiv(a as int, b as int),
        iabs(r as int) == iabs(a as int) / iabs(b as int),
        iabs(r as int) <= iabs(a as int),
{
    let ua: u128 = if a < 0 {
        (-a) as u128
    } else {
        a as u128
    };
    let ub: u128 = if b < 0 {
        (-b) as u128
    } else {
        b as u128
    };
    let q: u128 = ua / ub;
    proof {
        assert(ua == iabs(a as int));
        assert(ub == iabs(b as int));
        assert(q <= ua) by (nonlinear_arith)
            requires
                q == ua as int / ub as int,
                ub >= 1,
                ua >= 0,
        ;
        lemma_div_pos_is_pos(ua as int, ub as int);
    }
    if (a < 0) != (b < 0) {
        -(q as i128)
    } else {
        q as i128
    }
}

/// The low 32 bits of a signed 128-bit value, as an unsigned quantity — the
/// value reduced modulo 2^32.
fn wrap_u32(a: i128) -> (r: u32)
    requires
        -1000000000000000000000000000000 <= a <= 1000000000000000000000000000000,
    ensures
        r == (a as int) % 4294967296,
{
    let q: i128 = tdiv128(a, 4294967296);
    proof {
        lemma_tdiv_bound(a as int, 4294967296, 1000000000000000000000000000000);
        lemma_fundamental_div_mod(iabs(a as int), 4294967296);
    }
    let m: i128 = a - q * 4294967296;
    let r128: i128 = if m < 0 {
        m + 4294967296
    } else {
        m
    };
    proof {
        if a >= 0 {
            lemma_fundamental_div_mod_converse(a as int, 4294967296, q as int, m as int);
        } else if m == 0 {
            lemma_fundamental_div_mod_converse(a as int, 4294967296, q as int, 0);
        } else {
            lemma_fundamental_div_mod_converse(
                a as int,
                4294967296,
                q as int - 1,
                m as int + 4294967296,
            );
        }
    }
    r128 as u32
}

impl<T: Bus> BME280Sensor<T> {
    /// Temperature compensation: evaluates the two polynomial terms of the
    /// temperature formula on the raw 20-bit code, stores their sum as the
    /// fine-temperature intermediate for the pressure and humidity formulas
    /// of the same cycle, and returns the temperature in hundredths of a
    /// degree Celsius.
    pub fn compensate_temperature(&mut self, raw_temp: u32) -> (r: i32)
        requires
            raw_temp < 1048576,
        ensures
            final(self).bus == old(self).bus,
            same_constants(final(self).calib, old(self).calib),
            final(self).calib.t_fine == spec_t_fine(old(self).calib, raw_temp as int),
            t_fine_bounded(final(self).calib.t_fine as int),
            r == spec_t_centi(final(self).calib.t_fine as int),
    {
        let t1: i128 = self.calib.dig_t1 as i128;
        let t2: i128 = self.calib.dig_t2 as i128;
        let t3: i128 = self.calib.dig_t3 as i128;
        let adc: i128 = raw_temp as i128;

        let q8: i128 = tdiv128(adc, 8);
        proof {
            lemma_tdiv_bound(adc as int, 8, 1048575);
        }
        let s1: i128 = q8 - 2 * t1;
        proof {
            lemma_mul_bound(s1 as int, t2 as int, 131071, 32768);
        }
        let m1: i128 = s1 * t2;
        let va: i128 = tdiv128(m1, 2048);
        proof {
            lemma_tdiv_bound(m1 as int, 2048, 131071int * 32768);
        }

        let q16: i128 = tdiv128(adc, 16);
        proof {
            lemma_tdiv_bound(adc as int, 16, 1048575);
        }
        let d: i128 = q16 - t1;
        proof {
            lemma_mul_bound(d as int, d as int, 65535, 65535);
        }
        let m2: i128 = d * d;
        let dq: i128 = tdiv128(m2, 4096);
        proof {
            lemma_tdiv_bound(m2 as int, 4096, 65535int * 65535);
        }
        proof {
            lemma_mul_bound(dq as int, t3 as int, 1048544, 32768);
        }
        let m3: i128 = dq * t3;
        let vb: i128 = tdiv128(m3, 16384);
        proof {
            lemma_tdiv_bound(m3 as int, 16384, 1048544int * 32768);
        }

        let tf: i128 = va + vb;
        proof {
            assert(-4194304 <= tf <= 4194304);
            assert(tf as int == spec_t_fine(old(self).calib, raw_temp as int));
        }
        self.calib.t_fine = tf as i32;

        let tc: i128 = tdiv128(tf * 5 + 128, 256);
        proof {
            lemma_tdiv_bound(tf as int * 5 + 128, 256, 20971648);
        }
        tc as i32
    }

    /// Pressure compensation: normalizes the raw 20-bit code with the two
    /// terms built from the fine-temperature intermediate, applies the
    /// corrections from pressure constants 7, 8 and 9, and returns pascals
    /// in unsigned Q24.8 fixed point. When the first normalizing term is
    /// exactly zero the formula is singular and the result is 0 Pa — a
    /// defined degenerate case, not an error.
    pub fn compensate_pressure(&self, raw_pressure: u32) -> (r: u32)
        requires
            raw_pressure < 1048576,
            t_fine_bounded(self.calib.t_fine as int),
        ensures
            r == spec_pressure(self.calib, raw_pressure as int),
            spec_p_var1(self.calib) == 0 ==> r == 0,
    {
        let p1c: i128 = self.calib.dig_p1 as i128;
        let p2c: i128 = self.calib.dig_p2 as i128;
        let p3c: i128 = self.calib.dig_p3 as i128;
        let p4c: i128 = self.calib.dig_p4 as i128;
        let p5c: i128 = self.calib.dig_p5 as i128;
        let p6c: i128 = self.calib.dig_p6 as i128;
        let p7c: i128 = self.calib.dig_p7 as i128;
        let p8c: i128 = self.calib.dig_p8 as i128;
        let p9c: i128 = self.calib.dig_p9 as i128;
        let tf: i128 = self.calib.t_fine as i128;

        let v: i128 = tf - 128000;
        proof {
            assert(-5000000 <= v <= 5000000);
            lemma_mul_bound(v as int, v as int, 5000000, 5000000);
        }
        let vv: i128 = v * v;
        proof {
            lemma_mul_bound(vv as int, p6c as int, 25000000000000, 32768);
        }
        let var2a: i128 = vv * p6c;
        proof {
            lemma_mul_bound(v as int, p5c as int, 5000000, 32768);
        }
        let var2b: i128 = var2a + (v * p5c) * 131072;
        let var2: i128 = var2b + p4c * 34359738368;
        proof {
            assert(-900000000000000000 <= var2 <= 900000000000000000);
            lemma_mul_bound(vv as int, p3c as int, 25000000000000, 32768);
        }
        let m3: i128 = vv * p3c;
        let d3: i128 = tdiv128(m3, 256);
        proof {
            lemma_tdiv_bound(m3 as int, 256, 25000000000000int * 32768);
            lemma_mul_bound(v as int, p2c as int, 5000000, 32768);
        }
        let var1a: i128 = d3 + (v * p2c) * 4096;
        let s: i128 = 140737488355328 + var1a;
        proof {
            assert(-5000000000000000 <= s <= 5000000000000000);
            lemma_mul_bound(s as int, p1c as int, 5000000000000000, 65535);
        }
        let m5: i128 = s * p1c;
        let var1: i128 = tdiv128(m5, 8589934592);
        proof {
            lemma_tdiv_bound(m5 as int, 8589934592, 5000000000000000int * 65535);
            assert(var1 as int == spec_p_var1(self.calib));
        }

        if var1 == 0 {
            return 0u32;
        }
        let p0: i128 = 1048576 - (raw_pressure as i128);
        let n1: i128 = p0 * 2147483648 - var2;
        let n2: i128 = n1 * 3125;
        proof {
            assert(-3200000000000000000000 <= n2 <= 3200000000000000000000);
        }
        let pv: i128 = tdiv128(n2, var1);
        proof {
            assert(-3200000000000000000000 <= pv <= 3200000000000000000000);
        }
        let q: i128 = tdiv128(pv, 8192);
        proof {
            lemma_tdiv_bound(pv as int, 8192, 3200000000000000000000);
            lemma_mul_bound(q as int, q as int, 400000000000000000, 400000000000000000);
        }
        let qq2: i128 = q * q;
        let d7: i128 = tdiv128(qq2, 33554432);
        proof {
            lemma_tdiv_bound(qq2 as int, 33554432, 400000000000000000int * 400000000000000000);
            lemma_mul_bound(d7 as int, p9c as int, 5000000000000000000000000000, 32768);
        }
        let c9: i128 = p9c * d7;
        proof {
            lemma_mul_bound(p8c as int, pv as int, 32768, 3200000000000000000000);
        }
        let m8: i128 = p8c * pv;
        let c8: i128 = tdiv128(m8, 524288);
        proof {
            lemma_tdiv_bound(m8 as int, 524288, 32768int * 3200000000000000000000);
        }
        let sum: i128 = pv + c9 + c8;
        let d9: i128 = tdiv128(sum, 256);
        proof {
            lemma_tdiv_bound(
                sum as int,
                256,
                3200000000000000000000int + 5000000000000000000000000000int * 32768
                    + (32768int * 3200000000000000000000) / 524288,
            );
        }
        let pf: i128 = d9 + p7c * 16;
        proof {
            assert(pf as int == spec_pressure_q8(self.calib, raw_pressure as int));
            assert(-1000000000000000000000000000000 <= pf <= 1000000000000000000000000000000);
        }
        wrap_u32(pf)
    }

    /// Humidity compensation: subtracts from the raw 16-bit code the two
    /// terms derived from the fine-temperature intermediate and humidity
    /// constants 4 and 5, scales by the product of the factors from
    /// constants 2, 3 and 6, applies the final correction from constant 1,
    /// and clamps the result to [0 %, 100 %]. Returns percent relative
    /// humidity in Q22.10 fixed point (1024 = 1 %); values pushed outside
    /// the band by numeric drift are clamped silently, not reported as
    /// errors.
    pub fn compensate_humidity(&self, raw_humidity: u32) -> (r: u32)
        requires
            raw_humidity < 65536,
            t_fine_bounded(self.calib.t_fine as int),
        ensures
            r == spec_humidity_q10(self.calib, raw_humidity as int),
            r <= 102400,
    {
        let h1c: i128 = self.calib.dig_h1 as i128;
        let h2c: i128 = self.calib.dig_h2 as i128;
        let h3c: i128 = self.calib.dig_h3 as i128;
        let h4c: i128 = self.calib.dig_h4 as i128;
        let h5c: i128 = self.calib.dig_h5 as i128;
        let h6c: i128 = self.calib.dig_h6 as i128;
        let tf: i128 = self.calib.t_fine as i128;
        let adc: i128 = raw_humidity as i128;

        let x: i128 = tf - 76800;
        proof {
            assert(-5000000 <= x <= 5000000);
            lemma_mul_bound(h5c as int, x as int, 32768, 5000000);
        }
        let a_num: i128 = adc * 16384 - h4c * 1048576 - h5c * x + 16384;
        let a: i128 = tdiv128(a_num, 32768);
        proof {
            lemma_tdiv_bound(a_num as int, 32768, 200000000000);
            lemma_mul_bound(x as int, h6c as int, 5000000, 128);
        }
        let t1h: i128 = tdiv128(x * h6c, 1024);
        proof {
            lemma_tdiv_bound((x * h6c) as int, 1024, 640000000);
            lemma_mul_bound(x as int, h3c as int, 5000000, 255);
        }
        let t2h: i128 = tdiv128(x * h3c, 2048);
        proof {
            lemma_tdiv_bound((x * h3c) as int, 2048, 1275000000);
        }
        let t2b: i128 = t2h + 32768;
        proof {
            lemma_mul_bound(t1h as int, t2b as int, 700000, 800000);
        }
        let t3h: i128 = tdiv128(t1h * t2b, 1024);
        proof {
            lemma_tdiv_bound((t1h * t2b) as int, 1024, 560000000000);
        }
        let t3b: i128 = t3h + 2097152;
        proof {
            lemma_mul_bound(t3b as int, h2c as int, 700000000, 32768);
        }
        let b: i128 = tdiv128(t3b * h2c + 8192, 16384);
        proof {
            lemma_tdiv_bound((t3b * h2c + 8192) as int, 16384, 23000000000000);
            lemma_mul_bound(a as int, b as int, 7000000, 1500000000);
        }
        let v: i128 = a * b;
        let v15: i128 = tdiv128(v, 32768);
        proof {
            lemma_tdiv_bound(v as int, 32768, 11000000000000000);
            lemma_mul_bound(v15 as int, v15 as int, 400000000000, 400000000000);
        }
        let m3h: i128 = v15 * v15;
        let dh: i128 = tdiv128(m3h, 128);
        proof {
            lemma_tdiv_bound(m3h as int, 128, 160000000000000000000000);
            lemma_mul_bound(dh as int, h1c as int, 1300000000000000000000, 255);
        }
        let m4h: i128 = dh * h1c;
        let corr: i128 = tdiv128(m4h, 16);
        proof {
            lemma_tdiv_bound(m4h as int, 16, 1300000000000000000000int * 255);
        }
        let w: i128 = v - corr;
        let cl: i128 = if w < 0 {
            0
        } else if w > 419430400 {
            419430400
        } else {
            w
        };
        let r128: i128 = tdiv128(cl, 4096);
        proof {
            lemma_tdiv_bound(cl as int, 4096, 419430400);
            assert(r128 as int == spec_humidity_q10(self.calib, raw_humidity as int));
        }
        r128 as u32
    }
}

} // verus!
