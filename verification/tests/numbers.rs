use command_core::number::Number;
use command_core::value::Value;

fn truncate(number: f64) -> i32 {
    Number::from_bits(number.to_bits()).truncate()
}

#[test]
fn zero_is_all_bits_clear() {
    assert_eq!(Number::zero().to_bits(), 0.0f64.to_bits());
    assert_eq!(Number::zero(), Number::from_bits(0));
    assert_eq!(Value::zero(), Value::Number(Number::from_bits(0)));
}

#[test]
fn bits_survive_the_round_trip() {
    for bits in [0u64, 1, 0x4014_0000_0000_0000, 0x7ff0_0000_0000_0000, u64::MAX] {
        assert_eq!(Number::from_bits(bits).to_bits(), bits);
        assert_eq!(Number::from_bits(bits).bits, bits);
    }
}

#[test]
fn zeros_truncate_to_zero() {
    assert_eq!(truncate(0.0), 0);
    assert_eq!(truncate(-0.0), 0);
}

#[test]
fn fractions_are_dropped_towards_zero() {
    assert_eq!(truncate(0.5), 0);
    assert_eq!(truncate(-0.5), 0);
    assert_eq!(truncate(0.999_999_999_999), 0);
    assert_eq!(truncate(1.0), 1);
    assert_eq!(truncate(-1.0), -1);
    assert_eq!(truncate(1.5), 1);
    assert_eq!(truncate(-1.5), -1);
    assert_eq!(truncate(2.999), 2);
    assert_eq!(truncate(-2.999), -2);
    assert_eq!(truncate(4.0), 4);
    assert_eq!(truncate(255.75), 255);
    assert_eq!(truncate(-1_000_000.25), -1_000_000);
}

#[test]
fn bounds_are_reached_exactly() {
    assert_eq!(truncate(2_147_483_647.0), i32::MAX);
    assert_eq!(truncate(2_147_483_646.5), 2_147_483_646);
    assert_eq!(truncate(2_147_483_647.5), i32::MAX);
    assert_eq!(truncate(-2_147_483_648.0), i32::MIN);
    assert_eq!(truncate(-2_147_483_647.5), -2_147_483_647);
    assert_eq!(truncate(-2_147_483_648.5), i32::MIN);
}

#[test]
fn out_of_range_numbers_are_pinned() {
    assert_eq!(truncate(2_147_483_648.0), i32::MAX);
    assert_eq!(truncate(-2_147_483_649.0), i32::MIN);
    assert_eq!(truncate(1e10), i32::MAX);
    assert_eq!(truncate(-1e10), i32::MIN);
    assert_eq!(truncate(1e300), i32::MAX);
    assert_eq!(truncate(-1e300), i32::MIN);
    assert_eq!(truncate(f64::MAX), i32::MAX);
    assert_eq!(truncate(f64::MIN), i32::MIN);
    assert_eq!(truncate(f64::INFINITY), i32::MAX);
    assert_eq!(truncate(f64::NEG_INFINITY), i32::MIN);
}

#[test]
fn nan_truncates_to_zero() {
    assert_eq!(truncate(f64::NAN), 0);
    assert_eq!(truncate(-f64::NAN), 0);
    assert_eq!(Number::from_bits(0x7ff0_0000_0000_0001).truncate(), 0);
    assert_eq!(Number::from_bits(0xffff_ffff_ffff_ffff).truncate(), 0);
}

#[test]
fn tiny_numbers_truncate_to_zero() {
    assert_eq!(truncate(f64::MIN_POSITIVE), 0);
    assert_eq!(truncate(-f64::MIN_POSITIVE), 0);
    assert_eq!(Number::from_bits(1).truncate(), 0);
    assert_eq!(Number::from_bits(0x000f_ffff_ffff_ffff).truncate(), 0);
    assert_eq!(truncate(f64::EPSILON), 0);
}

#[test]
fn truncation_agrees_with_the_machine_on_every_binade() {
    for exponent in 0u64..2048 {
        for fraction in [0u64, 1, 0x8_0000_0000_0000, 0xf_ffff_ffff_ffff, 0x5_5555_5555_5555] {
            for sign in [0u64, 1] {
                let bits = (sign << 63) | (exponent << 52) | fraction;
                assert_eq!(
                    Number::from_bits(bits).truncate(),
                    f64::from_bits(bits) as i32,
                    "bits {:#018x}",
                    bits
                );
            }
        }
    }
}

#[test]
fn truncation_agrees_with_the_machine_on_scattered_patterns() {
    let mut bits: u64 = 0x9e37_79b9_7f4a_7c15;
    for _ in 0..200_000 {
        bits = bits.wrapping_mul(6364136223846793005).wrapping_add(1442695040888963407);
        assert_eq!(Number::from_bits(bits).truncate(), f64::from_bits(bits) as i32);
        let near = (bits & 0x800f_ffff_ffff_ffff) | ((1023 + (bits >> 52) % 40) << 52);
        assert_eq!(Number::from_bits(near).truncate(), f64::from_bits(near) as i32);
    }
}

#[test]
fn truncation_agrees_with_the_machine_on_whole_numbers() {
    for k in [-2_147_483_648i64, -65_536, -17, -1, 0, 1, 2, 3, 4, 5, 1023, 1 << 20, 2_147_483_647] {
        assert_eq!(truncate(k as f64) as i64, k);
    }
}

#[test]
fn as_number_tells_numbers_from_text() {
    assert_eq!(Value::Number(Number::from_bits(7)).as_number(), Some(Number::from_bits(7)));
    assert_eq!(Value::text(String::from("7")).as_number(), None);
    assert_eq!(Value::text(String::from("a")), Value::Text(String::from("a")));
}
