use space_computation::number::{Real, Vector2, EXPONENT_WEIGHT, INFINITY_BITS, ONE_BITS, SIGN_WEIGHT};
use space_computation::simulation::{
    DEFAULT_ACCELERATION_RATE_BITS, DEFAULT_ELASTICITY_BITS, DEFAULT_G_BITS,
    DEFAULT_SIMULATION_TIME_BITS, DEFAULT_TIME_DELTA_BITS,
};

fn number(x: f64) -> Real {
    Real::from_bits(x.to_bits())
}

fn samples() -> Vec<f64> {
    vec![
        0.0,
        -0.0,
        1.0,
        -1.0,
        0.5,
        2.0,
        1e-4,
        -1e-4,
        1.0 + f64::EPSILON,
        1.0 - f64::EPSILON / 2.0,
        f64::MIN_POSITIVE,
        -f64::MIN_POSITIVE,
        f64::MIN_POSITIVE / 2.0,
        f64::from_bits(1),
        f64::from_bits(SIGN_WEIGHT | 1),
        f64::MAX,
        f64::MIN,
        f64::INFINITY,
        f64::NEG_INFINITY,
        f64::NAN,
        -f64::NAN,
        f64::from_bits(0x7FF0_0000_0000_0001),
        f64::from_bits(0xFFF0_0000_0000_0001),
        f64::from_bits(0x7FFF_FFFF_FFFF_FFFF),
        f64::from_bits(0xFFFF_FFFF_FFFF_FFFF),
        0.999_999_999_999,
        1e300,
        1e-300,
        123.456,
    ]
}

#[test]
fn positive_agrees_with_the_hardware_on_samples() {
    for x in samples() {
        assert_eq!(number(x).is_positive(), x > 0.0, "bits {:#x}", x.to_bits());
    }
}

#[test]
fn unit_agrees_with_the_hardware_on_samples() {
    for x in samples() {
        assert_eq!(number(x).is_unit(), 0.0 <= x && x <= 1.0, "bits {:#x}", x.to_bits());
    }
}

#[test]
fn classification_agrees_with_the_hardware_on_scattered_encodings() {
    let mut bits: u64 = 0x9E37_79B9_7F4A_7C15;
    for _ in 0..200_000 {
        bits = bits.wrapping_mul(6364136223846793005).wrapping_add(1442695040888963407);
        let x = f64::from_bits(bits);
        assert_eq!(Real::from_bits(bits).is_positive(), x > 0.0, "bits {:#x}", bits);
        assert_eq!(Real::from_bits(bits).is_unit(), 0.0 <= x && x <= 1.0, "bits {:#x}", bits);
    }
}

#[test]
fn classification_agrees_with_the_hardware_around_every_exponent() {
    for exponent in 0..2048u64 {
        for sign in [0u64, SIGN_WEIGHT] {
            for fraction in [0u64, 1, EXPONENT_WEIGHT / 2, EXPONENT_WEIGHT - 1] {
                let bits = sign | (exponent * EXPONENT_WEIGHT) | fraction;
                let x = f64::from_bits(bits);
                assert_eq!(Real::from_bits(bits).is_positive(), x > 0.0, "bits {:#x}", bits);
                assert_eq!(
                    Real::from_bits(bits).is_unit(),
                    0.0 <= x && x <= 1.0,
                    "bits {:#x}",
                    bits
                );
            }
        }
    }
}

#[test]
fn not_a_number_is_neither_positive_nor_in_the_unit_interval() {
    assert!(!number(f64::NAN).is_positive());
    assert!(!number(f64::NAN).is_unit());
}

#[test]
fn both_zeros_are_in_the_unit_interval_and_not_positive() {
    assert!(number(0.0).is_unit());
    assert!(number(-0.0).is_unit());
    assert!(!number(0.0).is_positive());
    assert!(!number(-0.0).is_positive());
}

#[test]
fn one_is_the_last_number_of_the_unit_interval() {
    assert!(number(1.0).is_unit());
    assert!(!Real::from_bits(ONE_BITS + 1).is_unit());
    assert!(Real::from_bits(ONE_BITS - 1).is_unit());
}

#[test]
fn the_named_encodings_are_the_numbers_they_stand_for() {
    assert_eq!(f64::from_bits(ONE_BITS), 1.0);
    assert_eq!(f64::from_bits(INFINITY_BITS), f64::INFINITY);
    assert_eq!(f64::from_bits(SIGN_WEIGHT).to_bits(), (-0.0f64).to_bits());
    assert_eq!(EXPONENT_WEIGHT, 1u64 << 52);
    assert_eq!(SIGN_WEIGHT, 1u64 << 63);
}

#[test]
fn the_default_encodings_are_the_default_numbers() {
    assert_eq!(f64::from_bits(DEFAULT_TIME_DELTA_BITS), 10e-5);
    assert_eq!(f64::from_bits(DEFAULT_TIME_DELTA_BITS), 1e-4);
    assert_eq!(f64::from_bits(DEFAULT_SIMULATION_TIME_BITS), 10.0);
    assert_eq!(f64::from_bits(DEFAULT_G_BITS), 10.0);
    assert_eq!(f64::from_bits(DEFAULT_ACCELERATION_RATE_BITS), 1.0);
    assert_eq!(f64::from_bits(DEFAULT_ELASTICITY_BITS), 0.5);
}

#[test]
fn bits_go_in_and_come_out_unchanged() {
    for x in samples() {
        assert_eq!(number(x).to_bits(), x.to_bits());
        assert_eq!(number(x).bits, x.to_bits());
    }
}

#[test]
fn zero_is_positive_zero() {
    assert_eq!(Real::zero().to_bits(), 0.0f64.to_bits());
    let zeros = Vector2::zeros();
    assert_eq!(f64::from_bits(zeros.x.to_bits()), 0.0);
    assert_eq!(zeros.x.to_bits(), 0);
    assert_eq!(zeros.y.to_bits(), 0);
}

#[test]
fn a_vector_keeps_its_coordinates() {
    let v = Vector2::new(number(3.5), number(-2.25));
    assert_eq!(f64::from_bits(v.x.to_bits()), 3.5);
    assert_eq!(f64::from_bits(v.y.to_bits()), -2.25);
}

fn whole(x: f64) -> usize {
    x.floor() as usize
}

#[test]
fn the_count_agrees_with_the_hardware_on_samples() {
    for x in samples() {
        assert_eq!(number(x).to_count(), whole(x), "bits {:#x}", x.to_bits());
    }
}

#[test]
fn the_count_of_given_numbers() {
    assert_eq!(number(0.0).to_count(), 0);
    assert_eq!(number(0.999).to_count(), 0);
    assert_eq!(number(1.0).to_count(), 1);
    assert_eq!(number(1.999).to_count(), 1);
    assert_eq!(number(2.0).to_count(), 2);
    assert_eq!(number(166.666_666).to_count(), 166);
    assert_eq!(number(100_000.0).to_count(), 100_000);
    assert_eq!(number(99_999.999_999).to_count(), 99_999);
    assert_eq!(number(4_503_599_627_370_496.0).to_count(), 4_503_599_627_370_496);
    assert_eq!(number(9_007_199_254_740_993.0).to_count(), 9_007_199_254_740_992);
    assert_eq!(number(-3.5).to_count(), 0);
    assert_eq!(number(-0.0).to_count(), 0);
    assert_eq!(number(f64::NAN).to_count(), 0);
    assert_eq!(number(f64::INFINITY).to_count(), usize::MAX);
    assert_eq!(number(f64::NEG_INFINITY).to_count(), 0);
    assert_eq!(number(1e300).to_count(), usize::MAX);
    assert_eq!(number(18_446_744_073_709_551_616.0).to_count(), usize::MAX);
    assert_eq!(number(18_446_744_073_709_549_568.0).to_count(), 18_446_744_073_709_549_568);
}

#[test]
fn the_count_agrees_with_the_hardware_on_scattered_encodings() {
    let mut bits: u64 = 0x0123_4567_89AB_CDEF;
    for _ in 0..200_000 {
        bits = bits.wrapping_mul(6364136223846793005).wrapping_add(1442695040888963407);
        assert_eq!(Real::from_bits(bits).to_count(), whole(f64::from_bits(bits)), "bits {:#x}", bits);
    }
}

#[test]
fn the_count_agrees_with_the_hardware_around_every_exponent() {
    for exponent in 0..2048u64 {
        for sign in [0u64, SIGN_WEIGHT] {
            for fraction in [
                0u64,
                1,
                EXPONENT_WEIGHT / 2,
                EXPONENT_WEIGHT / 2 + 1,
                EXPONENT_WEIGHT / 3,
                EXPONENT_WEIGHT - 2,
                EXPONENT_WEIGHT - 1,
            ] {
                let bits = sign | (exponent * EXPONENT_WEIGHT) | fraction;
                assert_eq!(
                    Real::from_bits(bits).to_count(),
                    whole(f64::from_bits(bits)),
                    "bits {:#x}",
                    bits
                );
            }
        }
    }
}

#[test]
fn the_count_agrees_with_the_hardware_on_small_numbers() {
    for k in 0..20_000u32 {
        let x = f64::from(k) / 64.0;
        assert_eq!(number(x).to_count(), whole(x));
        assert_eq!(number(x).to_count(), (k / 64) as usize);
        assert_eq!(number(-x).to_count(), 0);
    }
}
