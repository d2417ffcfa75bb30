use ddstats_rust::float_bits::{f32_le, f32_lt, f64_le};

fn samples32() -> Vec<f32> {
    vec![0.0, -0.0, 1.0, -1.0, 0.5, 350.0, 100.0, 500.0, 1e-40, -1e-40, f32::MAX, f32::MIN,
        f32::INFINITY, f32::NEG_INFINITY, f32::NAN, -f32::NAN, 3.14159, -2.5e10]
}

#[test]
fn f32_comparison_matches_hardware() {
    for a in samples32() {
        for b in samples32() {
            assert_eq!(f32_lt(a.to_bits(), b.to_bits()), a < b, "{a} < {b}");
            assert_eq!(f32_le(a.to_bits(), b.to_bits()), a <= b, "{a} <= {b}");
        }
    }
}

#[test]
fn f32_strict_order_scenario() {
    let (a, b, c) = (1.0f32.to_bits(), 2.0f32.to_bits(), 3.0f32.to_bits());
    assert!(!f32_lt(a, a));
    assert!(f32_lt(a, b) && f32_lt(b, c) && f32_lt(a, c));
    assert!(!f32_lt(b, a));
}

#[test]
fn f64_comparison_matches_hardware() {
    let s = [0.0f64, -0.0, 60.0, 59.9999, 1000.0, 999.9999, -5.0, f64::NAN, f64::INFINITY, 1e300];
    for a in s {
        for b in s {
            assert_eq!(f64_le(a.to_bits(), b.to_bits()), a <= b, "{a} <= {b}");
        }
    }
}
