use solarsim::scalar::Scalar;

fn s(x: f32) -> Scalar {
    Scalar::from_bits(x.to_bits())
}

fn samples() -> Vec<f32> {
    vec![
        f32::NEG_INFINITY,
        f32::MIN,
        -1365.4,
        -88.0,
        -1.0,
        -f32::MIN_POSITIVE,
        -1.0e-45,
        -0.0,
        0.0,
        1.0e-45,
        f32::MIN_POSITIVE,
        0.02,
        0.03,
        0.25,
        1.0,
        3.231,
        25.0,
        797.88446,
        2000.0,
        f32::MAX,
        f32::INFINITY,
        f32::NAN,
        -f32::NAN,
    ]
}

#[test]
fn comparisons_agree_with_the_numbers() {
    for a in samples() {
        for b in samples() {
            assert_eq!(s(a).lt(s(b)), a < b, "{} < {}", a, b);
            assert_eq!(s(a).gt(s(b)), a > b, "{} > {}", a, b);
            assert_eq!(s(a).le(s(b)), a <= b, "{} <= {}", a, b);
            assert_eq!(s(a).num_eq(s(b)), a == b, "{} == {}", a, b);
        }
    }
}

#[test]
fn clamp_agrees_with_the_numbers() {
    let bounds = [(-88.0f32, 58.0f32), (0.0, 0.0), (-0.0, 0.0), (4.0, 19.0), (0.02, 0.07)];
    for v in samples() {
        for (lo, hi) in bounds {
            let got = f32::from_bits(s(v).clamp(s(lo), s(hi)).to_bits());
            let want = v.clamp(lo, hi);
            assert_eq!(got.to_bits(), want.to_bits(), "{} into [{}, {}]", v, lo, hi);
        }
    }
}

#[test]
fn is_nan_agrees_with_the_numbers() {
    for v in samples() {
        assert_eq!(s(v).is_nan(), v.is_nan(), "{}", v);
    }
    assert!(Scalar::from_bits(0x7f80_0001).is_nan());
    assert!(Scalar::from_bits(0xffff_ffff).is_nan());
    assert!(!Scalar::from_bits(0x7f80_0000).is_nan());
    assert!(!Scalar::from_bits(0xff80_0000).is_nan());
}

#[test]
fn sort_key_orders_like_the_numbers() {
    let mut numbers: Vec<f32> = samples().into_iter().filter(|v| !v.is_nan()).collect();
    numbers.reverse();
    numbers.sort_by_key(|v| s(*v).sort_key());
    for pair in numbers.windows(2) {
        assert!(pair[0] <= pair[1], "{} before {}", pair[0], pair[1]);
    }
    assert_eq!(s(0.0).sort_key(), 0);
    assert_eq!(s(-0.0).sort_key(), 0);
    assert_eq!(s(1.0).sort_key(), 0x3f80_0000);
    assert_eq!(s(-1.0).sort_key(), -0x3f80_0000);
}

#[test]
fn zero_and_one_are_what_they_say() {
    assert_eq!(f32::from_bits(Scalar::zero().to_bits()), 0.0);
    assert_eq!(f32::from_bits(Scalar::one().to_bits()), 1.0);
    assert_eq!(Scalar::from_bits(0x41c8_0000).to_bits(), 25.0f32.to_bits());
}
