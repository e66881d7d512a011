//! Coefficient pairs, their bit-exact equality, the positivity predicate
//! on coefficient bit patterns, and the table cursor.

use restreamer::crossfade::{f64_bits_positive, CrossFadePair, CrossFader};

#[test]
fn test_pair_equality_is_bit_exact() {
    let a = CrossFadePair::new(0.5_f64.to_bits(), 0.5_f64.to_bits());
    let b = CrossFadePair::new(0.5_f64.to_bits(), 0.5_f64.to_bits());
    assert_eq!(a, b);
    assert_eq!(a, a);

    // values equal as floats but distinct as bit patterns stay distinct
    let plus_zero = CrossFadePair::new(0.0_f64.to_bits(), 1.0_f64.to_bits());
    let minus_zero = CrossFadePair::new((-0.0_f64).to_bits(), 1.0_f64.to_bits());
    assert_eq!(0.0_f64, -0.0_f64);
    assert_ne!(plus_zero, minus_zero);

    // NaN patterns compare equal to themselves, although the values do not
    let nan = CrossFadePair::new(f64::NAN.to_bits(), 0.0_f64.to_bits());
    let nan_again = CrossFadePair::new(f64::NAN.to_bits(), 0.0_f64.to_bits());
    assert_eq!(nan, nan_again);
}

#[test]
fn test_bits_positive_matches_float_comparison() {
    let probes = [
        0.0_f64,
        -0.0,
        1.0,
        -1.0,
        0.5,
        f64::MIN_POSITIVE,
        5e-324,
        f64::MAX,
        f64::INFINITY,
        f64::NEG_INFINITY,
        f64::NAN,
        -f64::NAN,
    ];
    for v in probes {
        assert_eq!(f64_bits_positive(v.to_bits()), v > 0.0, "probe {v}");
    }
}

#[test]
fn test_fader_yields_table_then_terminal_pair() {
    let p0 = CrossFadePair::new(1.0_f64.to_bits(), 0.0_f64.to_bits());
    let p1 = CrossFadePair::new(0.25_f64.to_bits(), 0.25_f64.to_bits());
    let end = CrossFadePair::new(0.0_f64.to_bits(), 1.0_f64.to_bits());

    let mut fader = CrossFader::new(vec![p0, p1]);
    assert_eq!(fader.next(), p0);
    assert_eq!(fader.next(), p1);
    assert_eq!(fader.next(), end);
    assert_eq!(fader.next(), end);

    fader.reset();
    assert_eq!(fader.next(), p0);

    // a drained fader starts at the terminal pair
    let mut drained = CrossFader::drained(vec![p0, p1]);
    assert_eq!(drained.next(), end);
    drained.reset();
    assert_eq!(drained.next(), p0);
}

#[test]
fn test_end_pair_is_fully_fade_in() {
    let end = CrossFadePair::end();
    assert_eq!(end.fade_out(), 0.0_f64.to_bits());
    assert_eq!(end.fade_in(), 1.0_f64.to_bits());
    assert!(!end.fades_out());
    assert!(end.fades_in());
}
