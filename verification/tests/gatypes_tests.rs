use moea_core::errors::ConfigError;
use moea_core::gatypes::clip;
use moea_core::gatypes::BitBinary;
use moea_core::gatypes::Integer;
use moea_core::gatypes::Real;
use moea_core::gatypes::SolutionDataTypes;
use moea_core::gatypes::SolutionType;
use moea_core::gatypes::SolutionTypeBounds;
use rand::rngs::StdRng;
use rand::SeedableRng;

/// The order-keeping integer image of a real number.
fn ordinal_of(x: f64) -> i64 {
    let bits = x.to_bits() as i64;
    if bits < 0 {
        bits ^ i64::MAX
    } else {
        bits
    }
}

/// The real number that an ordinal stands for.
fn real_of(ordinal: i64) -> f64 {
    let bits = if ordinal < 0 { ordinal ^ i64::MAX } else { ordinal };
    f64::from_bits(bits as u64)
}

#[test]
fn test_bit_binary_generation() {
    let mut rng = StdRng::seed_from_u64(1);
    let bit_binary = BitBinary::new();
    for _ in 0..100 {
        let value = bit_binary.generate_value(&mut rng).unwrap();
        assert!(value == 0 || value == 1);
    }
}

#[test]
fn test_integer_generation_with_bounds() {
    let mut rng = StdRng::seed_from_u64(2);
    let integer = Integer::new(Some(10), Some(20)).unwrap();
    for _ in 0..100 {
        let value = integer.generate_value(&mut rng).unwrap();
        assert!(value >= 10 && value < 20);
    }
}

#[test]
fn test_real_generation_with_bounds() {
    let mut rng = StdRng::seed_from_u64(3);
    let real = Real::new(Some(ordinal_of(10.0)), Some(ordinal_of(20.0))).unwrap();
    for _ in 0..100 {
        let draw: f64 = rand::Rng::gen_range(&mut rng, 10.0..20.0);
        let value = real_of(real.generate_value(ordinal_of(draw)).unwrap());
        assert!(value >= 10.0 && value < 20.0);
        assert_eq!(value, draw);
    }
}

#[test]
fn test_integer_generation_without_bounds() {
    let mut rng = StdRng::seed_from_u64(4);
    let integer = Integer::new(None, None).unwrap();
    for _ in 0..100 {
        let value = integer.generate_value(&mut rng).unwrap();
        assert!(value >= i64::MIN && value <= i64::MAX);
        assert!(value < i64::MAX);
    }
}

#[test]
#[should_panic(expected = "Lower bound must be less than upper bound")]
fn test_integer_invalid_bounds() {
    Integer::new(Some(20), Some(10)).expect("Lower bound must be less than upper bound");
}

#[test]
#[should_panic(expected = "Lower bound must be less than upper bound")]
fn test_real_invalid_bounds() {
    Real::new(Some(ordinal_of(20.0)), Some(ordinal_of(10.0)))
        .expect("Lower bound must be less than upper bound");
}

#[test]
fn bounds_that_are_not_ordered_are_invalid() {
    assert_eq!(Integer::new(Some(20), Some(10)).err(), Some(ConfigError::InvalidBounds));
    assert_eq!(Integer::new(Some(10), Some(10)).err(), Some(ConfigError::InvalidBounds));
    assert_eq!(Integer::new(Some(i64::MAX), None).err(), Some(ConfigError::InvalidBounds));
    assert_eq!(Integer::new(None, Some(i64::MIN)).err(), Some(ConfigError::InvalidBounds));
    assert_eq!(Real::new(Some(5), Some(5)).err(), Some(ConfigError::InvalidBounds));
    assert_eq!(Real::new(Some(6), Some(5)).err(), Some(ConfigError::InvalidBounds));
    assert!(Integer::new(Some(10), Some(11)).is_ok());
    assert!(Real::new(None, Some(0)).is_ok());
}

#[test]
fn sampling_from_invalid_bounds_fails() {
    let mut rng = StdRng::seed_from_u64(5);
    let integer = Integer { lower_bound: Some(3), upper_bound: Some(3) };
    assert_eq!(integer.generate_value(&mut rng), Err(ConfigError::InvalidBounds));
    let real = Real { lower_bound: Some(4), upper_bound: Some(1) };
    assert_eq!(real.generate_value(2), Err(ConfigError::InvalidBounds));
    let variable = SolutionDataTypes::Integer(Integer { lower_bound: Some(9), upper_bound: Some(1) });
    assert_eq!(variable.generate_value(&mut rng, 0), Err(ConfigError::InvalidBounds));
}

#[test]
fn integer_sampling_covers_a_small_range() {
    let mut rng = StdRng::seed_from_u64(6);
    let integer = Integer::new(Some(-1), Some(2)).unwrap();
    let mut seen = [false; 3];
    for _ in 0..200 {
        let value = integer.generate_value(&mut rng).unwrap();
        assert!(value >= -1 && value < 2);
        seen[(value + 1) as usize] = true;
    }
    assert_eq!(seen, [true, true, true]);
}

#[test]
fn binary_sampling_gives_both_values() {
    let mut rng = StdRng::seed_from_u64(7);
    let binary = BitBinary::new();
    let mut zeros = 0;
    let mut ones = 0;
    for _ in 0..200 {
        match binary.generate_value(&mut rng).unwrap() {
            0 => zeros += 1,
            1 => ones += 1,
            other => panic!("not binary: {}", other),
        }
    }
    assert!(zeros > 0 && ones > 0);
}

#[test]
fn a_real_draw_is_brought_below_the_upper_bound() {
    let real = Real::new(Some(10), Some(20)).unwrap();
    assert_eq!(real.generate_value(10), Ok(10));
    assert_eq!(real.generate_value(15), Ok(15));
    assert_eq!(real.generate_value(19), Ok(19));
    assert_eq!(real.generate_value(20), Ok(19));
    assert_eq!(real.generate_value(i64::MAX), Ok(19));
    assert_eq!(real.generate_value(9), Ok(10));
    assert_eq!(real.generate_value(i64::MIN), Ok(10));
}

#[test]
fn clip_brings_a_value_into_the_bounds() {
    assert_eq!(clip(5, 0, 10), 5);
    assert_eq!(clip(-5, 0, 10), 0);
    assert_eq!(clip(15, 0, 10), 10);
    assert_eq!(clip(0, 0, 10), 0);
    assert_eq!(clip(10, 0, 10), 10);
    assert_eq!(clip(i64::MIN, -3, 3), -3);
    assert_eq!(clip(i64::MAX, -3, 3), 3);
}

#[test]
fn descriptors_report_their_bounds() {
    let real = SolutionDataTypes::Real(Real::new(Some(-7), None).unwrap());
    let integer = SolutionDataTypes::Integer(Integer::new(None, Some(9)).unwrap());
    let binary = SolutionDataTypes::BitBinary(BitBinary::new());
    assert_eq!(real.get_lower_bound(), Some(-7));
    assert_eq!(real.get_upper_bound(), None);
    assert_eq!(integer.get_lower_bound(), None);
    assert_eq!(integer.get_upper_bound(), Some(9));
    assert_eq!(binary.get_lower_bound(), None);
    assert_eq!(binary.get_upper_bound(), None);
    assert_eq!(real.lower_value(), -7);
    assert_eq!(real.upper_value(), i64::MAX);
    assert_eq!(integer.lower_value(), i64::MIN);
    assert_eq!(integer.upper_value(), 9);
    assert_eq!(binary.lower_value(), 0);
    assert_eq!(binary.upper_value(), 1);
    assert!(real.is_valid() && integer.is_valid() && binary.is_valid());
    assert_eq!(binary.clamp(5), 1);
    assert_eq!(binary.clamp(-5), 0);
    assert_eq!(integer.clamp(10), 9);
    assert_eq!(real.clamp(-8), -7);
}

#[test]
fn descriptors_sample_through_the_trait() {
    let mut rng = StdRng::seed_from_u64(8);
    let integer = Integer::new(Some(0), Some(5)).unwrap();
    let binary = BitBinary::new();
    for _ in 0..50 {
        let value = SolutionType::generate_value(&integer, &mut rng).unwrap();
        assert!(value >= 0 && value < 5);
        let bit = SolutionType::generate_value(&binary, &mut rng).unwrap();
        assert!(bit == 0 || bit == 1);
    }
}

#[test]
fn ordinals_keep_the_order_of_the_reals() {
    let reals = [-1.0e300, -20.5, -1.0, -1.0e-300, 0.0, 1.0e-300, 0.5, 1.0, 20.5, 1.0e300];
    for i in 0..reals.len() {
        assert_eq!(real_of(ordinal_of(reals[i])), reals[i]);
        for j in 0..reals.len() {
            assert_eq!(reals[i] < reals[j], ordinal_of(reals[i]) < ordinal_of(reals[j]));
        }
    }
}
