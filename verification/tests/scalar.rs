use planet_renderer::scalar::{Scalar, INFINITY_BITS, ONE_BITS, ZERO_BITS};

fn samples() -> Vec<f32> {
    let mut v = vec![
        0.0f32,
        -0.0,
        1.0,
        -1.0,
        0.5,
        -0.5,
        2.0,
        3.0,
        5.0,
        f32::MIN_POSITIVE,
        -f32::MIN_POSITIVE,
        f32::MAX,
        f32::MIN,
        f32::EPSILON,
        f32::INFINITY,
        f32::NEG_INFINITY,
        f32::NAN,
        -f32::NAN,
        f32::from_bits(1),
        f32::from_bits(0x8000_0001),
        f32::from_bits(0x7f80_0001),
        f32::from_bits(0xff80_0001),
        f32::from_bits(0x7fff_ffff),
        f32::from_bits(0xffff_ffff),
        f32::from_bits(0x007f_ffff),
        f32::from_bits(0x0080_0000),
        1.0e-30,
        -1.0e30,
        123456.78,
    ];
    let mut bits: u32 = 0x1234_5678;
    for _ in 0..200 {
        bits = bits.wrapping_mul(1664525).wrapping_add(1013904223);
        v.push(f32::from_bits(bits));
    }
    v
}

#[test]
fn order_on_bits_is_the_order_of_floats() {
    let v = samples();
    for a in v.iter() {
        for b in v.iter() {
            let sa = Scalar::from_bits(a.to_bits());
            let sb = Scalar::from_bits(b.to_bits());
            assert_eq!(sa.is_less_than(sb), a < b, "{:?} < {:?}", a, b);
        }
    }
}

#[test]
fn nan_bits_are_those_of_a_nan() {
    for a in samples().iter() {
        assert_eq!(Scalar::from_bits(a.to_bits()).is_nan(), a.is_nan(), "{:?}", a);
    }
}

#[test]
fn constants_are_the_bits_of_their_numbers() {
    assert_eq!(INFINITY_BITS, f32::INFINITY.to_bits());
    assert_eq!(ZERO_BITS, 0.0f32.to_bits());
    assert_eq!(ONE_BITS, 1.0f32.to_bits());
    assert_eq!(Scalar::infinity().to_bits(), f32::INFINITY.to_bits());
    assert_eq!(Scalar::zero().to_bits(), 0.0f32.to_bits());
    assert_eq!(Scalar::one().to_bits(), 1.0f32.to_bits());
    assert_eq!(Scalar::from_bits(0x4049_0fdb).to_bits(), 0x4049_0fdb);
}

#[test]
fn exact_cases_of_the_order() {
    let s = |v: f32| Scalar::from_bits(v.to_bits());
    assert!(s(3.0).is_less_than(s(5.0)));
    assert!(!s(5.0).is_less_than(s(3.0)));
    assert!(!s(3.0).is_less_than(s(3.0)));
    assert!(s(-5.0).is_less_than(s(-3.0)));
    assert!(s(-1.0).is_less_than(s(0.0)));
    assert!(!s(-0.0).is_less_than(s(0.0)));
    assert!(!s(0.0).is_less_than(s(-0.0)));
    assert!(s(1.0e30).is_less_than(s(f32::INFINITY)));
    assert!(!s(f32::INFINITY).is_less_than(s(f32::INFINITY)));
    assert!(!s(f32::NAN).is_less_than(s(f32::INFINITY)));
    assert!(!s(0.0).is_less_than(s(f32::NAN)));
}
