use selfhydro::calibration::{parse_calibration, unpack_h4_h5};

// The 26-byte temperature/pressure calibration block encoding, little-endian:
// t1=27504, t2=26435, t3=-1000, p1=36477, p2=-10685, p3=3024, p4=2855,
// p5=140, p6=-7, p7=15500, p8=-14600, p9=6000, plus two trailing bytes the
// parser ignores.
fn tp_block() -> Vec<u8> {
    vec![
        112, 107, 67, 103, 24, 252, 125, 142, 67, 214, 208, 11, 39, 11, 140, 0, 249, 255, 140, 60,
        248, 198, 112, 23, 0, 0,
    ]
}

// The 7-byte humidity calibration block encoding h2=363, h3=0, h4=332,
// h5=-50, h6=30; h4 and h5 share the middle byte 236 nibble-wise.
fn hum_block() -> Vec<u8> {
    vec![107, 1, 0, 20, 236, 252, 30]
}

#[test]
fn parse_reproduces_exact_constants() {
    let c = parse_calibration(&tp_block(), 75, &hum_block());
    assert_eq!(c.dig_t1, 27504);
    assert_eq!(c.dig_t2, 26435);
    assert_eq!(c.dig_t3, -1000);
    assert_eq!(c.dig_p1, 36477);
    assert_eq!(c.dig_p2, -10685);
    assert_eq!(c.dig_p3, 3024);
    assert_eq!(c.dig_p4, 2855);
    assert_eq!(c.dig_p5, 140);
    assert_eq!(c.dig_p6, -7);
    assert_eq!(c.dig_p7, 15500);
    assert_eq!(c.dig_p8, -14600);
    assert_eq!(c.dig_p9, 6000);
    assert_eq!(c.dig_h1, 75);
    assert_eq!(c.dig_h2, 363);
    assert_eq!(c.dig_h3, 0);
    assert_eq!(c.dig_h4, 332);
    assert_eq!(c.dig_h5, -50);
    assert_eq!(c.dig_h6, 30);
    assert_eq!(c.t_fine, 0);
}

#[test]
fn nibble_unpack_sign_extends_negative_h4() {
    // e4=249, e5=44, e6=3: h4 packs to 3996 (> 2047, so -100 after sign
    // extension), h5 packs to 50 and stays positive.
    let block: Vec<u8> = vec![0, 0, 0, 249, 44, 3, 0];
    let (h4, h5) = unpack_h4_h5(&block);
    assert_eq!(h4, -100);
    assert_eq!(h5, 50);
}

#[test]
fn nibble_unpack_sign_extends_negative_h5() {
    let (h4, h5) = unpack_h4_h5(&hum_block());
    assert_eq!(h4, 332);
    assert_eq!(h5, -50);
}

#[test]
fn nibble_unpack_sign_boundary() {
    // 2047 is the largest positive 12-bit value; 2048 wraps to -2048.
    let positive_max: Vec<u8> = vec![0, 0, 0, 127, 15, 0, 0];
    let (h4, h5) = unpack_h4_h5(&positive_max);
    assert_eq!(h4, 2047);
    assert_eq!(h5, 0);
    let negative_min: Vec<u8> = vec![0, 0, 0, 128, 0, 128, 0];
    let (h4, h5) = unpack_h4_h5(&negative_min);
    assert_eq!(h4, -2048);
    assert_eq!(h5, -2048);
}

#[test]
fn parse_signed_byte_constant() {
    // The last humidity byte is a signed 8-bit constant: 226 reads as -30.
    let mut hum = hum_block();
    hum[6] = 226;
    let c = parse_calibration(&tp_block(), 0, &hum);
    assert_eq!(c.dig_h6, -30);
    assert_eq!(c.dig_h1, 0);
}
