use forza_chroma::fixed::{fx_from_bits, normalize, FX_MAX, FX_ONE};

#[test]
fn fx_conversion_exact_values() {
    assert_eq!(fx_from_bits(0.0f32.to_bits()), 0);
    assert_eq!(fx_from_bits(1.0f32.to_bits()), FX_ONE);
    assert_eq!(fx_from_bits(0.5f32.to_bits()), FX_ONE / 2);
    assert_eq!(fx_from_bits(255.0f32.to_bits()), 255 * FX_ONE);
    assert_eq!(fx_from_bits(5000.0f32.to_bits()), 5000 * FX_ONE);
    assert_eq!(fx_from_bits((-2.5f32).to_bits()), -(5 * FX_ONE / 2));
    assert_eq!(fx_from_bits((-0.0f32).to_bits()), 0);
}

#[test]
fn fx_conversion_truncates_toward_zero() {
    // 0.1 is not representable exactly; the fixed value is floor(0.1 * 2^16)
    // of the nearest f32, truncated toward zero.
    let v = fx_from_bits(0.1f32.to_bits());
    assert!(v == 6553 || v == 6554);
    let neg = fx_from_bits((-0.1f32).to_bits());
    assert_eq!(neg, -v);
}

#[test]
fn fx_conversion_maps_non_finite_to_zero() {
    assert_eq!(fx_from_bits(f32::NAN.to_bits()), 0);
    assert_eq!(fx_from_bits(f32::INFINITY.to_bits()), 0);
    assert_eq!(fx_from_bits(f32::NEG_INFINITY.to_bits()), 0);
}

#[test]
fn fx_conversion_flushes_tiny_values() {
    // Subnormals and anything below 2^-16 truncate to zero.
    assert_eq!(fx_from_bits(1), 0);
    assert_eq!(fx_from_bits(f32::MIN_POSITIVE.to_bits()), 0);
    assert_eq!(fx_from_bits(0.00001f32.to_bits()), 0);
}

#[test]
fn fx_conversion_saturates_huge_values() {
    assert_eq!(fx_from_bits(f32::MAX.to_bits()), FX_MAX);
    assert_eq!(fx_from_bits(f32::MIN.to_bits()), -FX_MAX);
    assert_eq!(fx_from_bits(1.0e30f32.to_bits()), FX_MAX);
}

#[test]
fn normalization_bounds() {
    // In range for a positive maximum.
    let r = normalize(4000 * FX_ONE, 7000 * FX_ONE);
    assert!(r <= FX_ONE as u32);
    assert_eq!(r, 37449);
    // current >= max is exactly full.
    assert_eq!(normalize(100, 100), FX_ONE as u32);
    assert_eq!(normalize(200, 100), FX_ONE as u32);
    // current <= 0 is exactly zero.
    assert_eq!(normalize(0, 100), 0);
    assert_eq!(normalize(-5, 100), 0);
}

#[test]
fn normalization_zero_maximum_is_zero_rate() {
    assert_eq!(normalize(5 * FX_ONE, 0), 0);
    assert_eq!(normalize(5 * FX_ONE, -1), 0);
}

#[test]
fn normalization_halfway() {
    assert_eq!(normalize(50 * FX_ONE, 100 * FX_ONE), (FX_ONE / 2) as u32);
}
