use lm75::codec::{decode_temperature, encode_temperature};
use lm75::Resolution;

#[test]
fn encodes_whole_degrees_at_nine_bits() {
    assert_eq!(encode_temperature(50_000, Resolution::Mask9bit), (0x32, 0x00));
    assert_eq!(encode_temperature(0, Resolution::Mask9bit), (0x00, 0x00));
    assert_eq!(encode_temperature(-25_000, Resolution::Mask9bit), (0xE7, 0x00));
    assert_eq!(encode_temperature(125_000, Resolution::Mask9bit), (0x7D, 0x00));
    assert_eq!(encode_temperature(-55_000, Resolution::Mask9bit), (0xC9, 0x00));
}

#[test]
fn encodes_half_degrees_at_nine_bits() {
    assert_eq!(encode_temperature(25_500, Resolution::Mask9bit), (0x19, 0x80));
    assert_eq!(encode_temperature(-500, Resolution::Mask9bit), (0xFF, 0x80));
}

#[test]
fn encodes_eighths_at_eleven_bits() {
    assert_eq!(encode_temperature(25_125, Resolution::Mask11bit), (0x19, 0x20));
    assert_eq!(encode_temperature(-125, Resolution::Mask11bit), (0xFF, 0xE0));
    assert_eq!(encode_temperature(50_000, Resolution::Mask11bit), (0x32, 0x00));
}

#[test]
fn rounds_to_the_nearest_step_halves_away_from_zero() {
    assert_eq!(encode_temperature(24_800, Resolution::Mask9bit), (0x19, 0x00));
    assert_eq!(encode_temperature(24_700, Resolution::Mask9bit), (0x18, 0x80));
    assert_eq!(encode_temperature(250, Resolution::Mask9bit), (0x00, 0x80));
    assert_eq!(encode_temperature(-250, Resolution::Mask9bit), (0xFF, 0x80));
    assert_eq!(encode_temperature(249, Resolution::Mask9bit), (0x00, 0x00));
    assert_eq!(encode_temperature(62, Resolution::Mask11bit), (0x00, 0x00));
    assert_eq!(encode_temperature(63, Resolution::Mask11bit), (0x00, 0x20));
}

#[test]
fn out_of_range_values_wrap() {
    assert_eq!(encode_temperature(128_000, Resolution::Mask9bit), (0x80, 0x00));
    assert_eq!(encode_temperature(256_000, Resolution::Mask9bit), (0x00, 0x00));
    assert_eq!(encode_temperature(i32::MAX, Resolution::Mask11bit).1 & 0x1F, 0);
    assert_eq!(encode_temperature(i32::MIN, Resolution::Mask9bit).1 & 0x7F, 0);
}

#[test]
fn decodes_register_values() {
    assert_eq!(decode_temperature(0x32, 0x00, Resolution::Mask9bit), 50_000);
    assert_eq!(decode_temperature(0x19, 0x80, Resolution::Mask9bit), 25_500);
    assert_eq!(decode_temperature(0xE7, 0x00, Resolution::Mask9bit), -25_000);
    assert_eq!(decode_temperature(0xFF, 0x80, Resolution::Mask9bit), -500);
    assert_eq!(decode_temperature(0x80, 0x00, Resolution::Mask9bit), -128_000);
    assert_eq!(decode_temperature(0x7F, 0x80, Resolution::Mask9bit), 127_500);
    assert_eq!(decode_temperature(0x19, 0x20, Resolution::Mask11bit), 25_125);
    assert_eq!(decode_temperature(0xFF, 0xE0, Resolution::Mask11bit), -125);
}

#[test]
fn decoding_ignores_undefined_bits() {
    assert_eq!(decode_temperature(0x19, 0x7F, Resolution::Mask9bit), 25_000);
    assert_eq!(decode_temperature(0x19, 0x3F, Resolution::Mask11bit), 25_125);
    assert_eq!(decode_temperature(0x19, 0xFF, Resolution::Mask11bit), 25_875);
}

#[test]
fn every_representable_value_round_trips() {
    for k in -256i32..256 {
        let t = k * 500;
        let (msb, lsb) = encode_temperature(t, Resolution::Mask9bit);
        assert_eq!(decode_temperature(msb, lsb, Resolution::Mask9bit), t);
    }
    for k in -1024i32..1024 {
        let t = k * 125;
        let (msb, lsb) = encode_temperature(t, Resolution::Mask11bit);
        assert_eq!(decode_temperature(msb, lsb, Resolution::Mask11bit), t);
    }
}

#[test]
fn round_trip_stays_within_half_a_step() {
    for t in -60_000i32..60_000 {
        let (msb, lsb) = encode_temperature(t, Resolution::Mask9bit);
        let d = decode_temperature(msb, lsb, Resolution::Mask9bit);
        assert!((2 * (d - t)).abs() <= 500);
        let (msb, lsb) = encode_temperature(t, Resolution::Mask11bit);
        let d = decode_temperature(msb, lsb, Resolution::Mask11bit);
        assert!((2 * (d - t)).abs() <= 125);
    }
}

#[test]
fn resolution_masks() {
    assert_eq!(Resolution::Mask9bit.mask(), 0b1000_0000);
    assert_eq!(Resolution::Mask11bit.mask(), 0b1110_0000);
    assert_eq!(Resolution::default(), Resolution::Mask9bit);
}
