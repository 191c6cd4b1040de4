use tower_balance::weight::{div_load, Weight, WEIGHT_UNIT};

#[test]
fn weight_into() {
    assert_eq!(Weight::from_bits(f64::INFINITY.to_bits()), Weight::max_weight());
    assert_eq!(Weight::from_bits(f64::NAN.to_bits()), Weight::zero());
    assert_eq!(Weight::from_bits(0.0f64.to_bits()), Weight::zero());
    assert_eq!(Weight::from_bits(1.0f64.to_bits()), Weight::unit());
    assert_eq!(Weight::from_bits(0.1f64.to_bits()), Weight::from_units(1_000));
    assert_eq!(Weight::from_bits(0.01f64.to_bits()), Weight::from_units(100));
    assert_eq!(Weight::from_bits(0.001f64.to_bits()), Weight::from_units(10));
    assert_eq!(Weight::from_bits(0.0001f64.to_bits()), Weight::min_weight());
    assert_eq!(Weight::from_bits(0.00001f64.to_bits()), Weight::min_weight());
}

#[test]
fn weight_div_min() {
    assert_eq!(div_load(10, Weight::zero()), u64::MAX);
    assert_eq!(div_load(10, Weight::zero()), u64::MAX);
    assert_eq!(div_load(0, Weight::zero()), u64::MAX);
}

/// What the conversion should give, computed with the host's own floating
/// point: the double times ten thousand, truncated toward zero, with the
/// special cases of the conversion's contract.
fn expected_units(w: f64) -> u32 {
    if w.is_nan() || w <= 0.0 {
        return 0;
    }
    if w == f64::INFINITY {
        return u32::MAX;
    }
    let x = (w * 10_000.0) as u32;
    if x == 0 {
        1
    } else {
        x
    }
}

#[test]
fn weight_from_bits_matches_float_arithmetic() {
    let interesting: &[f64] = &[
        0.3,
        0.7,
        2.5,
        3.14159,
        1.0 / 3.0,
        2.0 / 3.0,
        123.456,
        9999.9999,
        429496.7295,
        429496.7296,
        429497.0,
        1.0e9,
        1.0e300,
        f64::MAX,
        f64::MIN_POSITIVE,
        5.0e-324,
        1.0e-310,
        2.0e-5,
        4.9999e-5,
        5.0001e-5,
        0.00015,
        0.00025,
        -1.0,
        -0.0,
        -f64::INFINITY,
    ];
    for &w in interesting {
        assert_eq!(
            Weight::from_bits(w.to_bits()).units(),
            expected_units(w),
            "value {w:?}"
        );
    }
    // A deterministic sweep over many bit patterns.
    let mut x: u64 = 0x243F_6A88_85A3_08D3;
    for _ in 0..20_000 {
        // xorshift
        x ^= x << 13;
        x ^= x >> 7;
        x ^= x << 17;
        let w = f64::from_bits(x);
        assert_eq!(
            Weight::from_bits(x).units(),
            expected_units(w),
            "bits {x:#x} value {w:?}"
        );
        // The same significand over the exponent range where the product
        // with ten thousand lands near the edges of whole numbers, so the
        // rounding step actually decides the result.
        let small = (x & 0x000F_FFFF_FFFF_FFFF) | ((1009 + ((x >> 56) & 31)) << 52);
        let ws = f64::from_bits(small);
        assert_eq!(
            Weight::from_bits(small).units(),
            expected_units(ws),
            "bits {small:#x} value {ws:?}"
        );
    }
}

#[test]
fn weight_add_saturates() {
    let near = Weight::from_units(u32::MAX - 1);
    assert_eq!(near.add(Weight::min_weight()), Weight::max_weight());
    assert_eq!(near.add(Weight::max_weight()), Weight::max_weight());
    assert_eq!(
        Weight::unit().add(Weight::unit()),
        Weight::from_units(2 * WEIGHT_UNIT)
    );
}

#[test]
fn weight_default_is_unit() {
    assert_eq!(Weight::default(), Weight::unit());
}

#[test]
fn div_load_scales_by_weight() {
    // Unit weight leaves the load alone.
    assert_eq!(div_load(5, Weight::unit()), 5);
    // Half weight doubles the apparent load.
    assert_eq!(div_load(10, Weight::from_units(WEIGHT_UNIT / 2)), 20);
    // Double weight halves it.
    assert_eq!(div_load(10, Weight::from_units(2 * WEIGHT_UNIT)), 5);
    // Saturation at the top.
    assert_eq!(div_load(u64::MAX, Weight::min_weight()), u64::MAX);
}
