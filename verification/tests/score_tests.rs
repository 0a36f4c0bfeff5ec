use cutout::Score;

fn score(value: f32) -> Score {
    Score::from_bits(value.to_bits())
}

fn samples() -> Vec<f32> {
    vec![
        0.0,
        -0.0,
        1.0,
        -1.0,
        0.5,
        -0.5,
        100.25,
        -100.25,
        f32::MIN_POSITIVE,
        -f32::MIN_POSITIVE,
        f32::from_bits(1),
        f32::from_bits(0x8000_0001),
        f32::MAX,
        f32::MIN,
        f32::INFINITY,
        f32::NEG_INFINITY,
        f32::NAN,
        f32::from_bits(0xffc0_0000),
        f32::from_bits(0x7f80_0001),
        f32::EPSILON,
        -f32::EPSILON,
        3.4e-30,
        -7.5e20,
    ]
}

#[test]
fn at_least_agrees_with_the_numeric_comparison() {
    for a in samples() {
        for b in samples() {
            assert_eq!(score(a).at_least(score(b)), a >= b, "{:?} >= {:?}", a, b);
        }
    }
}

#[test]
fn at_least_agrees_on_neighbouring_patterns() {
    let anchors: Vec<u32> = vec![0, 1, 0x007f_ffff, 0x0080_0000, 0x3f80_0000, 0x7f7f_ffff, 0x7f80_0000];
    for anchor in anchors {
        for offset in 0u32..3 {
            for sign in [0u32, 0x8000_0000] {
                let a = (anchor + offset) | sign;
                for other in [anchor, anchor + 1, anchor | 0x8000_0000, 0, 0x8000_0000] {
                    let expected = f32::from_bits(a) >= f32::from_bits(other);
                    assert_eq!(Score::from_bits(a).at_least(Score::from_bits(other)), expected);
                }
            }
        }
    }
}

#[test]
fn both_zeros_reach_each_other() {
    assert!(score(0.0).at_least(score(-0.0)));
    assert!(score(-0.0).at_least(score(0.0)));
}

#[test]
fn nan_reaches_nothing_and_nothing_reaches_nan() {
    let nan = score(f32::NAN);
    assert!(nan.is_nan());
    assert!(!nan.at_least(nan));
    assert!(!nan.at_least(score(f32::NEG_INFINITY)));
    assert!(!score(f32::INFINITY).at_least(nan));
}

#[test]
fn is_nan_agrees_with_the_float() {
    for a in samples() {
        assert_eq!(score(a).is_nan(), a.is_nan());
    }
}

#[test]
fn bits_round_trip() {
    assert_eq!(Score::from_bits(0xdead_beef).to_bits(), 0xdead_beef);
    assert_eq!(Score::zero().to_bits(), 0.0f32.to_bits());
    assert_eq!(Score::zero(), score(0.0));
}
