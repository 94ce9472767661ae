use selfhydro::driver::parse_raw_sample;
use selfhydro::{BME280Sensor, Bus, SensorError};

// A scripted bus: hands out the queued replies to successive burst reads,
// accepts every register write, and counts delays. Read replies past the
// end of the script fail, standing in for a bus fault.
struct MockBus {
    replies: Vec<Vec<u8>>,
    next: usize,
    delays: u32,
}

impl MockBus {
    fn new(replies: Vec<Vec<u8>>) -> MockBus {
        MockBus { replies, next: 0, delays: 0 }
    }
}

impl Bus for MockBus {
    type Fault = String;

    fn burst_read(&mut self, reg: u8, n: usize) -> Result<Vec<u8>, String> {
        if self.next >= self.replies.len() {
            return Err(format!("no reply for read of {} bytes at 0x{:02X}", n, reg));
        }
        let reply = self.replies[self.next].clone();
        self.next += 1;
        assert_eq!(reply.len(), n, "scripted reply length mismatch at 0x{:02X}", reg);
        Ok(reply)
    }

    fn write_register(&mut self, _reg: u8, _value: u8) -> Result<(), String> {
        Ok(())
    }

    fn delay_ms(&mut self, _ms: u64) {
        self.delays += 1;
    }
}

// The documented chip identity byte.
fn chip_id_reply() -> Vec<u8> {
    vec![0x60]
}

// 26-byte temperature/pressure calibration block: t1=27504, t2=26435,
// t3=-1000, p1=36477, p2=-10685, p3=3024, p4=2855, p5=140, p6=-7, p7=15500,
// p8=-14600, p9=6000.
fn tp_block() -> Vec<u8> {
    vec![
        112, 107, 67, 103, 24, 252, 125, 142, 67, 214, 208, 11, 39, 11, 140, 0, 249, 255, 140, 60,
        248, 198, 112, 23, 0, 0,
    ]
}

// 7-byte humidity calibration block: h2=363, h3=0, h4=332, h5=-50, h6=30.
fn hum_block() -> Vec<u8> {
    vec![107, 1, 0, 20, 236, 252, 30]
}

// One 8-byte burst sample: raw pressure 415148, raw temperature 519888,
// raw humidity 30000.
fn sample() -> Vec<u8> {
    vec![101, 90, 192, 126, 237, 0, 117, 48]
}

fn init_replies() -> Vec<Vec<u8>> {
    vec![chip_id_reply(), tp_block(), vec![75], hum_block()]
}

#[test]
fn test_sensor_initialization() {
    let sensor = BME280Sensor::new(MockBus::new(init_replies())).unwrap();
    assert_eq!(sensor.calib.dig_t1, 27504);
    assert_eq!(sensor.calib.t_fine, 0);
    assert_eq!(sensor.bus.delays, 2);
}

#[test]
fn round_trip_reading_matches_formulas() {
    // Initialize against a scripted transport, read once, and hold every
    // field of the reading against the formula outputs computed
    // independently from the same calibration bytes and sample.
    let mut replies = init_replies();
    replies.push(sample());
    let mut sensor = BME280Sensor::new(MockBus::new(replies)).unwrap();
    assert_eq!(sensor.calib.dig_h4, 332);
    assert_eq!(sensor.calib.dig_h5, -50);

    let reading = sensor.read().unwrap();
    assert_eq!(sensor.calib.t_fine, 128423);
    assert_eq!(reading.temperature, 2508);
    assert_eq!(reading.pressure, 25767234);
    assert_eq!(reading.humidity, 51329);

    // The same three values in physical units, within loose bounds.
    assert!((reading.temperature as f64 / 100.0 - 25.08).abs() < 0.01);
    assert!((reading.pressure as f64 / 256.0 - 100653.26).abs() < 0.01);
    assert!((reading.humidity as f64 / 1024.0 - 50.13).abs() < 0.01);
}

#[test]
fn unexpected_device_id_is_reported() {
    let result = BME280Sensor::new(MockBus::new(vec![vec![0x61]]));
    match result {
        Err(SensorError::UnexpectedDeviceId { found }) => assert_eq!(found, 0x61),
        _ => panic!("expected an identity error"),
    }
}

#[test]
fn transport_fault_aborts_initialization() {
    // The very first transaction fails: no driver value is produced.
    let result = BME280Sensor::new(MockBus::new(vec![]));
    assert!(matches!(result, Err(SensorError::Transport(_))));
}

#[test]
fn transport_fault_during_calibration_read() {
    // The identity check passes but the calibration read fails.
    let result = BME280Sensor::new(MockBus::new(vec![chip_id_reply()]));
    assert!(matches!(result, Err(SensorError::Transport(_))));
}

#[test]
fn transport_fault_during_read_leaves_calibration_untouched() {
    let mut sensor = BME280Sensor::new(MockBus::new(init_replies())).unwrap();
    let calib_before = sensor.calib;
    let result = sensor.read();
    assert!(matches!(result, Err(SensorError::Transport(_))));
    assert_eq!(sensor.calib, calib_before);
}

#[test]
fn test_multiple_readings() {
    let mut replies = init_replies();
    replies.push(sample());
    replies.push(sample());
    replies.push(sample());
    let mut sensor = BME280Sensor::new(MockBus::new(replies)).unwrap();

    for _ in 0..3 {
        let reading = sensor.read().unwrap();
        let temperature = reading.temperature as f64 / 100.0;
        let humidity = reading.humidity as f64 / 1024.0;
        let pressure = reading.pressure as f64 / 256.0;

        assert!(
            temperature >= -40.0 && temperature <= 85.0,
            "Temperature out of range: {}",
            temperature
        );
        assert!(humidity >= 0.0 && humidity <= 100.0, "Humidity out of range: {}", humidity);
        assert!(
            pressure >= 90000.0 && pressure <= 110000.0,
            "Pressure out of range: {}",
            pressure
        );
    }
}

#[test]
fn test_reading_stability() {
    let mut replies = init_replies();
    replies.push(sample());
    replies.push(sample());
    let mut sensor = BME280Sensor::new(MockBus::new(replies)).unwrap();

    let reading1 = sensor.read().unwrap();
    let reading2 = sensor.read().unwrap();

    let temperature_diff = (reading1.temperature as f64 - reading2.temperature as f64) / 100.0;
    let humidity_diff = (reading1.humidity as f64 - reading2.humidity as f64) / 1024.0;
    let pressure_diff = (reading1.pressure as f64 - reading2.pressure as f64) / 256.0;

    assert!(temperature_diff.abs() < 1.0, "Temperature changed too rapidly");
    assert!(humidity_diff.abs() < 5.0, "Humidity changed too rapidly");
    assert!(pressure_diff.abs() < 100.0, "Pressure changed too rapidly");
}

#[test]
fn raw_sample_bit_assembly() {
    let raw = parse_raw_sample(&sample());
    assert_eq!(raw.pressure, 415148);
    assert_eq!(raw.temperature, 519888);
    assert_eq!(raw.humidity, 30000);

    let all_ones = parse_raw_sample(&vec![0xFF; 8]);
    assert_eq!(all_ones.pressure, 1048575);
    assert_eq!(all_ones.temperature, 1048575);
    assert_eq!(all_ones.humidity, 65535);
}
