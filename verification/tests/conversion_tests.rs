use pixel_convert::conversion::{
    avg_i16, avg_i8, avg_u16, avg_u8, i16_to_i8, i16_to_u16, i32_to_u32, i64_to_u64, i8_to_i16,
    i8_to_u16, i8_to_u8, u16_to_i16, u16_to_i8, u16_to_u8, u32_to_i32, u32_to_u8, u64_to_i64,
    u64_to_u8, u8_to_i16, u8_to_i8, u8_to_u16, u8_to_u32, u8_to_u64,
};

#[test]
fn round_trip_u8_i8() {
    // 255 does not survive the trip: halving drops its low bit.
    let vals_u = [0u8, 128];
    for &v in &vals_u {
        assert_eq!(v, i8_to_u8(u8_to_i8(v)));
    }
    // i8::MIN does not survive the trip: negative samples clamp to zero.
    let vals_i = [0, i8::MAX];
    for &v in &vals_i {
        assert_eq!(v, u8_to_i8(i8_to_u8(v)));
    }
}

#[test]
fn round_trip_u16_i16() {
    let vals_u = [0u16, 32768];
    for &v in &vals_u {
        assert_eq!(v, i16_to_u16(u16_to_i16(v)));
    }
    let vals_i = [0, i16::MAX];
    for &v in &vals_i {
        assert_eq!(v, u16_to_i16(i16_to_u16(v)));
    }
}

#[test]
fn round_trip_u32_i32() {
    let vals_u = [0u32, 2_147_483_648u32];
    for &v in &vals_u {
        assert_eq!(v, i32_to_u32(u32_to_i32(v)));
    }
    let vals_i = [0, i32::MAX];
    for &v in &vals_i {
        assert_eq!(v, u32_to_i32(i32_to_u32(v)));
    }
}

#[test]
fn round_trip_u64_i64() {
    let vals_u = [0u64, 9_223_372_036_854_775_808u64];
    for &v in &vals_u {
        assert_eq!(v, i64_to_u64(u64_to_i64(v)));
    }
    let vals_i = [0, i64::MAX];
    for &v in &vals_i {
        assert_eq!(v, u64_to_i64(i64_to_u64(v)));
    }
}

#[test]
fn widen_then_narrow_restores_every_byte() {
    for v in 0..=255u8 {
        assert_eq!(u16_to_u8(u8_to_u16(v)), v);
        assert_eq!(u32_to_u8(u8_to_u32(v)), v);
        assert_eq!(u64_to_u8(u8_to_u64(v)), v);
    }
}

#[test]
fn widening_replicates_the_bit_pattern() {
    assert_eq!(u8_to_u16(0xab), 0xabab);
    assert_eq!(u8_to_u32(0xab), 0xabab_abab);
    assert_eq!(u8_to_u64(0xab), 0xabab_abab_abab_abab);
    assert_eq!(i8_to_i16(0x2c), 0x2c2c);
}

#[test]
fn narrowing_keeps_the_most_significant_bits() {
    assert_eq!(u16_to_u8(0x1234), 0x12);
    assert_eq!(u32_to_u8(0xdead_beef), 0xde);
    assert_eq!(u64_to_u8(0x0102_0304_0506_0708), 0x01);
    assert_eq!(i16_to_i8(0x7b00), 0x7b);
}

#[test]
fn representation_swap_halves_and_doubles() {
    assert_eq!(u8_to_i8(200), 100);
    assert_eq!(u8_to_i8(255), 127);
    assert_eq!(i8_to_u8(100), 200);
    assert_eq!(i8_to_u8(-5), 0);
    assert_eq!(i8_to_u8(i8::MIN), 0);
}

#[test]
fn cross_representation_swaps_at_source_width_then_widens() {
    // 200 halves to 100 at 8 bits, then replicates into the wider field.
    assert_eq!(u8_to_i16(200), (100i16 << 8) | 100);
    // 100 doubles to 200 at 8 bits, then replicates.
    assert_eq!(i8_to_u16(100), 0xc8c8);
    // Narrowing first keeps the most significant bits, then halves.
    assert_eq!(u16_to_i8(0xc800), 100);
}

#[test]
fn average_truncates_in_the_source_representation() {
    assert_eq!(avg_u8(0, 90, 255), 115);
    assert_eq!(avg_u8(255, 255, 255), 255);
    assert_eq!(avg_u16(1, 1, 2), 1);
    assert_eq!(avg_i8(-1, -1, -2), -1);
    assert_eq!(avg_i16(-100, 50, 20), -10);
}
