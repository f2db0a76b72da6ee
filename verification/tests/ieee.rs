use whispering::ieee::is_above;

fn specimens() -> Vec<f32> {
    vec![
        0.0,
        -0.0,
        f32::MIN_POSITIVE,
        -f32::MIN_POSITIVE,
        f32::from_bits(1),
        f32::from_bits(0x8000_0001),
        0.1,
        0.4,
        0.4999,
        0.5,
        0.5001,
        0.6,
        1.0,
        1.5,
        -0.5,
        -1.0,
        -2.0,
        f32::MAX,
        f32::MIN,
        f32::INFINITY,
        f32::NEG_INFINITY,
        f32::NAN,
        -f32::NAN,
        f32::from_bits(0x7f80_0001),
        f32::from_bits(0xffff_ffff),
    ]
}

#[test]
fn is_above_agrees_with_the_order_of_the_numbers() {
    for a in specimens() {
        for b in specimens() {
            assert_eq!(
                is_above(a.to_bits(), b.to_bits()),
                a > b,
                "{a} > {b}"
            );
        }
    }
}

#[test]
fn is_above_is_strict() {
    for a in specimens() {
        assert!(!is_above(a.to_bits(), a.to_bits()));
    }
    assert!(is_above(0.5001f32.to_bits(), 0.5f32.to_bits()));
    assert!(!is_above(0.4999f32.to_bits(), 0.5f32.to_bits()));
    assert!(!is_above(0.5f32.to_bits(), 0.5f32.to_bits()));
}

#[test]
fn the_two_zeros_are_equal() {
    assert!(!is_above(0.0f32.to_bits(), (-0.0f32).to_bits()));
    assert!(!is_above((-0.0f32).to_bits(), 0.0f32.to_bits()));
}

#[test]
fn nothing_is_above_or_below_a_nan() {
    for a in specimens() {
        assert!(!is_above(a.to_bits(), f32::NAN.to_bits()));
        assert!(!is_above(f32::NAN.to_bits(), a.to_bits()));
    }
}
