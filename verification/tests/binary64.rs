use rabbitnut::binary64::Binary64;

fn le(a: f64, b: f64) -> bool {
    Binary64::from_bits(a.to_bits()).le(&Binary64::from_bits(b.to_bits()))
}

#[test]
fn le_agrees_with_the_hardware() {
    let values = [
        0.0, -0.0, 1.0, -1.0, 15.0, 20.0, 19.999999999999996, 20.000000000000004, 100.0, 0.5,
        f64::MIN_POSITIVE, -f64::MIN_POSITIVE, 5e-324, -5e-324, f64::MAX, f64::MIN, f64::INFINITY,
        f64::NEG_INFINITY, f64::NAN, -f64::NAN, f64::from_bits(0x7ff0_0000_0000_0001),
        f64::from_bits(0xfff8_0000_0000_0000),
    ];
    for a in values {
        for b in values {
            assert_eq!(le(a, b), a <= b, "{:?} <= {:?}", a, b);
        }
    }
}

#[test]
fn le_orders_charge_against_threshold() {
    assert!(le(15.0, 20.0));
    assert!(le(20.0, 20.0));
    assert!(!le(20.5, 20.0));
    assert!(le(0.0, 20.0));
    assert!(!le(f64::NAN, 20.0));
}

#[test]
fn bits_are_kept() {
    let b = Binary64::from_bits(0x4034_0000_0000_0000);
    assert_eq!(b.to_bits(), 20.0f64.to_bits());
    assert_eq!(Binary64::zero().to_bits(), 0.0f64.to_bits());
    assert_eq!(b, Binary64 { bits: 0x4034_0000_0000_0000 });
}
