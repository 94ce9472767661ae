//! The device initializer and the per-cycle read path.
//!
//! Initialization verifies the device identity, issues a soft reset, parses
//! the calibration blocks and programs the oversampling, mode and filter
//! registers in the device's required order; the contract records that exact
//! transaction sequence in the bus's ghost log. Each later read cycle burst
//! reads the three raw codes in one transaction and compensates them,
//! temperature first, so that the fine-temperature intermediate is fresh for
//! the pressure and humidity formulas.

use vstd::prelude::*;

use crate::bus::{Bus, BusOp};
use crate::calibration::{parse_calibration, same_constants, spec_parse_calibration, CalibrationData};
use crate::clock;
use crate::compensation::{spec_humidity_q10, spec_pressure, spec_t_centi, spec_t_fine};

verus! {

/// Chip-identity register.
pub const CHIP_ID_REG: u8 = 0xD0;

/// The identity value the sensor family reports.
pub const CHIP_ID: u8 = 0x60;

/// Soft-reset register.
pub const RESET_REG: u8 = 0xE0;

/// The value whose write to the reset register triggers a soft reset.
pub const RESET_CMD: u8 = 0xB6;

/// Humidity-control register (humidity oversampling).
pub const CTRL_HUM_REG: u8 = 0xF2;

/// Measurement-control register (temperature/pressure oversampling and
/// mode); writing it is what latches the humidity-control value.
pub const CTRL_MEAS_REG: u8 = 0xF4;

/// Filter-configuration register.
pub const CONFIG_REG: u8 = 0xF5;

/// First register of the 8-byte burst sample (pressure MSB).
pub const SAMPLE_REG: u8 = 0xF7;

/// First register of the 26-byte temperature/pressure calibration block.
pub const CALIB_TP_REG: u8 = 0x88;

/// Register of the separately stored first humidity constant.
pub const CALIB_H1_REG: u8 = 0xA1;

/// First register of the 7-byte humidity calibration block.
pub const CALIB_HUM_REG: u8 = 0xE1;

/// Humidity oversampling x1.
pub const HUM_OVERSAMPLING_X1: u8 = 0x01;

/// Temperature and pressure oversampling x1, normal mode.
pub const MEAS_OVERSAMPLING_X1_NORMAL: u8 = 0x27;

/// IIR filter disabled.
pub const FILTER_OFF: u8 = 0x00;

/// Settle delay after the soft reset and after configuration, in
/// milliseconds.
pub const SETTLE_DELAY_MS: u64 = 100;

/// Why initialization or a read cycle failed. There is no error for
/// out-of-range compensation results: those are defined degenerate or
/// clamped outputs.
#[derive(Debug)]
pub enum SensorError<F> {
    /// A bus transaction failed; wraps the transport's own fault value.
    /// Never retried by the driver.
    Transport(F),
    /// The chip-identity register held `found` instead of the documented
    /// identity. Fatal to that initialization attempt; no driver value is
    /// produced.
    UnexpectedDeviceId { found: u8 },
}

/// One calibrated reading, immutable and owned by the caller.
///
/// Fixed-point units: `temperature` is hundredths of a degree Celsius;
/// `pressure` is pascals in unsigned Q24.8 (value / 256 = Pa), unclamped;
/// `humidity` is percent relative humidity in Q22.10 (value / 1024 = %),
/// clamped to [0 %, 100 %]; `timestamp` is milliseconds since the Unix
/// epoch, captured at read time.
#[derive(Clone, Copy, Debug, PartialEq, Eq, Structural)]
pub struct SensorReading {
    pub temperature: i32,
    pub humidity: u32,
    pub pressure: u32,
    pub timestamp: i64,
}

/// The three raw analog-to-digital codes of one 8-byte burst sample;
/// transient, consumed by compensation within the same read call.
#[derive(Clone, Copy, Debug, PartialEq, Eq, Structural)]
pub struct RawSample {
    /// 20-bit raw pressure code.
    pub pressure: u32,
    /// 20-bit raw temperature code.
    pub temperature: u32,
    /// 16-bit raw humidity code.
    pub humidity: u32,
}

/// A 20-bit raw code split 8/8/4 over three bytes: the third byte's high
/// nibble holds the lowest four bits.
pub open spec fn spec_raw20(msb: u8, lsb: u8, xlsb: u8) -> int {
    msb * 4096 + lsb * 16 + xlsb / 16
}

/// A 16-bit raw code over two bytes, high byte first.
pub open spec fn spec_raw16(msb: u8, lsb: u8) -> int {
    msb * 256 + lsb
}

/// Splits one 8-byte burst sample into the three raw codes: pressure in
/// bytes 0..3, temperature in bytes 3..6 (both 20 significant bits split
/// 8/8/4), humidity in bytes 6..8 (16 bits).
pub fn parse_raw_sample(data: &Vec<u8>) -> (r: RawSample)
    requires
        data@.len() == 8,
    ensures
        r.pressure == spec_raw20(data@[0], data@[1], data@[2]),
        r.temperature == spec_raw20(data@[3], data@[4], data@[5]),
        r.humidity == spec_raw16(data@[6], data@[7]),
        r.pressure < 1048576,
        r.temperature < 1048576,
        r.humidity < 65536,
{
    let pressure: u32 = (data[0] as u32) * 4096 + (data[1] as u32) * 16 + (data[2] as u32) / 16;
    let temperature: u32 = (data[3] as u32) * 4096 + (data[4] as u32) * 16 + (data[5] as u32) / 16;
    let humidity: u32 = (data[6] as u32) * 256 + (data[7] as u32);
    RawSample { pressure, temperature, humidity }
}

/// The driver: the bus capability it exclusively owns, plus the calibration
/// store parsed at initialization.
pub struct BME280Sensor<T: Bus> {
    pub bus: T,
    pub calib: CalibrationData,
}

/// The successful initialization handshake, stated over the bus's ghost
/// log: after it, exactly ten transactions have been appended, in the
/// device's required order — identity read (which returned the documented
/// identity), soft reset, settle delay, the three calibration reads,
/// humidity oversampling before the measurement-control write that latches
/// it, filter configuration, and a final settle delay — and the calibration
/// store is the parse of the three calibration replies.
pub open spec fn init_sequence_ok(pre: Seq<BusOp>, post: Seq<BusOp>, c: CalibrationData) -> bool {
    let n = pre.len() as int;
    &&& post.len() == n + 10
    &&& post.subrange(0, n) == pre
    &&& post[n] == (BusOp::Read { reg: CHIP_ID_REG, data: seq![CHIP_ID] })
    &&& post[n + 1] == (BusOp::Write { reg: RESET_REG, value: RESET_CMD })
    &&& post[n + 2] == (BusOp::Delay { ms: SETTLE_DELAY_MS })
    &&& post[n + 3].is_read_of(CALIB_TP_REG, 26)
    &&& post[n + 4].is_read_of(CALIB_H1_REG, 1)
    &&& post[n + 5].is_read_of(CALIB_HUM_REG, 7)
    &&& post[n + 6] == (BusOp::Write { reg: CTRL_HUM_REG, value: HUM_OVERSAMPLING_X1 })
    &&& post[n + 7] == (BusOp::Write { reg: CTRL_MEAS_REG, value: MEAS_OVERSAMPLING_X1_NORMAL })
    &&& post[n + 8] == (BusOp::Write { reg: CONFIG_REG, value: FILTER_OFF })
    &&& post[n + 9] == (BusOp::Delay { ms: SETTLE_DELAY_MS })
    &&& c == spec_parse_calibration(
        post[n + 3].read_data(),
        post[n + 4].read_data()[0],
        post[n + 5].read_data(),
    )
}

/// One successful read cycle, relating the driver before and after: exactly
/// one 8-byte burst read at the sample register was appended to the bus
/// log; the calibration constants are unchanged; the fine-temperature
/// intermediate was recomputed from the sample's raw temperature code
/// before pressure and humidity were compensated against it; and the
/// reading's three fields are the compensation formulas applied to the
/// sample's three raw codes.
pub open spec fn read_cycle_ok<T: Bus>(
    pre: BME280Sensor<T>,
    post: BME280Sensor<T>,
    rd: SensorReading,
) -> bool {
    let n = pre.bus.ops().len() as int;
    let d = post.bus.ops()[n].read_data();
    &&& post.bus.ops().len() == n + 1
    &&& post.bus.ops().subrange(0, n) == pre.bus.ops()
    &&& post.bus.ops()[n].is_read_of(SAMPLE_REG, 8)
    &&& same_constants(post.calib, pre.calib)
    &&& post.calib.t_fine == spec_t_fine(pre.calib, spec_raw20(d[3], d[4], d[5]))
    &&& rd.temperature == spec_t_centi(post.calib.t_fine as int)
    &&& rd.pressure == spec_pressure(post.calib, spec_raw20(d[0], d[1], d[2]))
    &&& rd.humidity == spec_humidity_q10(post.calib, spec_raw16(d[6], d[7]))
}

impl<T: Bus> BME280Sensor<T> {
    /// Initializes the device over `bus` and returns the ready driver.
    ///
    /// The steps run in the device's required order: identity check (no
    /// retry), soft reset followed by a settle delay, the three calibration
    /// reads, humidity oversampling strictly before the measurement-control
    /// write that latches it, filter configuration, and a final settle
    /// delay. Any failed transaction aborts initialization with the
    /// transport's fault; no half-initialized driver is ever returned.
    ///
    /// Whether the bus replies with the documented identity is the bus's
    /// affair, so success cannot be promised; but on success the ghost log
    /// extension is exactly the documented sequence, and an identity error
    /// reports precisely the unexpected byte it found.
    pub fn new(bus: T) -> (r: Result<BME280Sensor<T>, SensorError<T::Fault>>)
        ensures
            r matches Ok(s) ==> init_sequence_ok(bus.ops(), s.bus.ops(), s.calib)
                && s.calib.t_fine == 0,
            r matches Err(SensorError::UnexpectedDeviceId { found }) ==> found != CHIP_ID,
    {
        let ghost pre: Seq<BusOp> = bus.ops();
        let mut bus = bus;

        let id_bytes: Vec<u8> = match bus.burst_read(CHIP_ID_REG, 1) {
            Ok(v) => v,
            Err(f) => {
                return Err(SensorError::Transport(f));
            },
        };
        let found: u8 = id_bytes[0];
        if found != CHIP_ID {
            return Err(SensorError::UnexpectedDeviceId { found });
        }
        proof {
            assert(id_bytes@ =~= seq![CHIP_ID]);
        }

        match bus.write_register(RESET_REG, RESET_CMD) {
            Ok(u) => u,
            Err(f) => {
                return Err(SensorError::Transport(f));
            },
        };
        bus.delay_ms(SETTLE_DELAY_MS);

        let tp: Vec<u8> = match bus.burst_read(CALIB_TP_REG, 26) {
            Ok(v) => v,
            Err(f) => {
                return Err(SensorError::Transport(f));
            },
        };
        let h1_bytes: Vec<u8> = match bus.burst_read(CALIB_H1_REG, 1) {
            Ok(v) => v,
            Err(f) => {
                return Err(SensorError::Transport(f));
            },
        };
        let hum: Vec<u8> = match bus.burst_read(CALIB_HUM_REG, 7) {
            Ok(v) => v,
            Err(f) => {
                return Err(SensorError::Transport(f));
            },
        };
        let calib: CalibrationData = parse_calibration(&tp, h1_bytes[0], &hum);

        match bus.write_register(CTRL_HUM_REG, HUM_OVERSAMPLING_X1) {
            Ok(u) => u,
            Err(f) => {
                return Err(SensorError::Transport(f));
            },
        };
        match bus.write_register(CTRL_MEAS_REG, MEAS_OVERSAMPLING_X1_NORMAL) {
            Ok(u) => u,
            Err(f) => {
                return Err(SensorError::Transport(f));
            },
        };
        match bus.write_register(CONFIG_REG, FILTER_OFF) {
            Ok(u) => u,
            Err(f) => {
                return Err(SensorError::Transport(f));
            },
        };
        bus.delay_ms(SETTLE_DELAY_MS);

        let sensor = BME280Sensor { bus, calib };
        proof {
            assert(sensor.bus.ops().subrange(0, pre.len() as int) =~= pre);
        }
        Ok(sensor)
    }

    /// Performs one read cycle: a single 8-byte burst read of the three raw
    /// codes (one transaction, so no torn sample can be observed across the
    /// device's internal update boundary), with the capture timestamp taken
    /// at read time, right after the burst; then compensation — temperature
    /// first, refreshing the fine-temperature intermediate the pressure and
    /// humidity formulas then consume.
    ///
    /// Success depends only on the bus: the one error a read cycle can
    /// produce is the fault of a failed burst read, which leaves the
    /// calibration store untouched.
    pub fn read(&mut self) -> (r: Result<SensorReading, SensorError<T::Fault>>)
        ensures
            r matches Ok(rd) ==> read_cycle_ok(*old(self), *final(self), rd),
            r matches Err(e) ==> e is Transport && final(self).calib == old(self).calib,
    {
        let data: Vec<u8> = match self.bus.burst_read(SAMPLE_REG, 8) {
            Ok(v) => v,
            Err(f) => {
                return Err(SensorError::Transport(f));
            },
        };
        let timestamp: i64 = clock::utc_now_millis();
        let raw: RawSample = parse_raw_sample(&data);
        let temperature: i32 = self.compensate_temperature(raw.temperature);
        let pressure: u32 = self.compensate_pressure(raw.pressure);
        let humidity: u32 = self.compensate_humidity(raw.humidity);
        proof {
            let n = old(self).bus.ops().len() as int;
            assert(self.bus.ops()[n] == (BusOp::Read { reg: SAMPLE_REG, data: data@ }));
            assert(self.bus.ops().subrange(0, n) =~= old(self).bus.ops());
        }
        Ok(SensorReading { temperature, humidity, pressure, timestamp })
    }
}

} // verus!
