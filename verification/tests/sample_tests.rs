use recorder::sample::{f32_bits, magnitude, normalize_i16, normalize_u16, quantize_i16, UNIT};

#[test]
fn magnitude_covers_whole_range() {
    assert_eq!(magnitude(0), 0);
    assert_eq!(magnitude(-1), 1);
    assert_eq!(magnitude(i32::MAX), i32::MAX as u32);
    assert_eq!(magnitude(i32::MIN), 2147483648);
}

#[test]
fn signed_16_bit_normalization() {
    assert_eq!(normalize_i16(0), 0);
    assert_eq!(normalize_i16(16384), 32768); // 0.5
    assert_eq!(normalize_i16(-32768), -(UNIT as i32)); // -1.0
    assert_eq!(normalize_i16(32767), 65534);
}

#[test]
fn unsigned_16_bit_normalization_centers_on_silence() {
    assert_eq!(normalize_u16(32768), 0);
    assert_eq!(normalize_u16(0), -(UNIT as i32)); // -1.0
    assert_eq!(normalize_u16(65535), 65534);
    assert_eq!(normalize_u16(49152), 32768); // 0.5
}

#[test]
fn quantization_round_trips_half_scale() {
    // 0.5 in Q16.16 stores as 16384, which reads back as 16384/32768 = 0.5.
    assert_eq!(quantize_i16(32768), 16384);
    assert_eq!(16384.0f32 / 32768.0, 0.5);
    assert_eq!(quantize_i16(-32768), -16384);
    assert_eq!(quantize_i16(0), 0);
}

#[test]
fn quantization_clamps_overdrive() {
    assert_eq!(quantize_i16(UNIT as i32), 32767); // 1.0 clamps to max
    assert_eq!(quantize_i16(2 * UNIT as i32), 32767);
    assert_eq!(quantize_i16(-(UNIT as i32)), -32768);
    assert_eq!(quantize_i16(i32::MIN), -32768);
}

#[test]
fn float_bits_match_ieee_single_precision() {
    let cases: Vec<i32> = vec![
        0,
        1,          // 2^-16, the smallest positive amplitude
        -1,
        32768,      // 0.5
        -32768,
        UNIT as i32,
        -(UNIT as i32),
        2 * UNIT as i32,
        3,
        -12345,
        0x7FFFFF00, // 23 significant bits: still exactly representable
        i32::MIN,
    ];
    for &s in &cases {
        let expect = (s as f64 / 65536.0) as f32;
        assert_eq!(
            f32_bits(s),
            expect.to_bits(),
            "bit pattern for fixed-point {}",
            s
        );
    }
}

#[test]
fn float_bits_truncate_excess_precision_toward_zero() {
    // i32::MAX carries 31 significant bits; the significand keeps the top
    // 24 and drops the rest, giving the largest float below full range.
    let bits = f32_bits(i32::MAX);
    assert_eq!(bits, 0x46FFFFFF);
    assert_eq!(f32::from_bits(bits), 32767.998046875);
}
