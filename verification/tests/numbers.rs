use brutal::{Double, Moment, RemoteAddr, Span};

fn double(v: f64) -> Double {
    Double { bits: v.to_bits() }
}

fn samples() -> Vec<f64> {
    vec![
        f64::NEG_INFINITY,
        -1.0e300,
        -1.0,
        -f64::MIN_POSITIVE,
        -f64::from_bits(1),
        -0.0,
        0.0,
        f64::from_bits(1),
        f64::from_bits(0x000f_ffff_ffff_ffff),
        f64::MIN_POSITIVE,
        0.1,
        0.8,
        1.0,
        1.25,
        1.0e300,
        f64::MAX,
        f64::INFINITY,
        f64::NAN,
        -f64::NAN,
    ]
}

#[test]
fn comparison_agrees_with_doubles() {
    for a in samples() {
        for b in samples() {
            assert_eq!(double(a).le(double(b)), a <= b, "{} <= {}", a, b);
        }
    }
}

#[test]
fn numbers_are_ordered() {
    for a in samples() {
        assert_eq!(double(a).nan(), a.is_nan());
        for b in samples() {
            if !a.is_nan() && !b.is_nan() {
                assert!(double(a).le(double(b)) || double(b).le(double(a)));
            }
        }
    }
}

#[test]
fn maximum_agrees_with_doubles() {
    for a in samples() {
        for b in samples() {
            let got = f64::from_bits(double(a).max(double(b)).bits);
            let want = a.max(b);
            assert!(got == want || got.is_nan() && want.is_nan(), "max({}, {})", a, b);
        }
    }
}

#[test]
fn larger_of_two_numbers_bounds_both() {
    let got = double(0.8).max(double(0.9));
    assert_eq!(got.bits, 0.9f64.to_bits());
    assert!(double(0.8).le(got) && double(0.9).le(got));
}

#[test]
fn constants_are_the_doubles_they_name() {
    assert_eq!(f64::from_bits(Double::one().bits), 1.0);
    assert_eq!(f64::from_bits(Double::zero().bits), 0.0);
    assert!(!f64::from_bits(Double::zero().bits).is_sign_negative());
}

#[test]
fn spans_keep_seconds_and_nanoseconds() {
    let span = Span::new(7, 250_000_000);
    assert_eq!((span.as_secs(), span.subsec_nanos()), (7, 250_000_000));
    let carried = Span::new(1, 2_500_000_000);
    assert_eq!((carried.as_secs(), carried.subsec_nanos()), (3, 500_000_000));
    let millis = Span::from_millis(1_234);
    assert_eq!((millis.as_secs(), millis.subsec_nanos()), (1, 234_000_000));
    let longest = Span::new(u64::MAX, 999_999_999);
    assert_eq!((longest.as_secs(), longest.subsec_nanos()), (u64::MAX, 999_999_999));
}

#[test]
fn span_between_moments_saturates() {
    let early = Moment { since_origin: Span::new(5, 900_000_000) };
    let late = Moment { since_origin: Span::new(8, 100_000_000) };
    let between = late.saturating_span_since(early);
    assert_eq!((between.as_secs(), between.subsec_nanos()), (2, 200_000_000));
    let backwards = early.saturating_span_since(late);
    assert_eq!((backwards.as_secs(), backwards.subsec_nanos()), (0, 0));
    let same_second = Moment { since_origin: Span::new(5, 950_000_000) };
    let short = same_second.saturating_span_since(early);
    assert_eq!((short.as_secs(), short.subsec_nanos()), (0, 50_000_000));
    assert_eq!(early.saturating_span_since(same_second).subsec_nanos(), 0);
}

#[test]
fn keys_tell_addresses_apart() {
    let a = RemoteAddr::V4 { ip: 0x7f00_0001, port: 443 };
    let others = vec![
        RemoteAddr::V4 { ip: 0x7f00_0001, port: 444 },
        RemoteAddr::V4 { ip: 0x7f00_0002, port: 443 },
        RemoteAddr::V6 { ip6: 0x7f00_0001, port: 443, flowinfo: 0, scope_id: 0 },
        RemoteAddr::V6 { ip6: 0x7f00_0001, port: 443, flowinfo: 1, scope_id: 0 },
        RemoteAddr::V6 { ip6: 0x7f00_0001, port: 443, flowinfo: 0, scope_id: 1 },
    ];
    assert_eq!(a.key(), (4, 0x7f00_0001, 443, 0, 0));
    assert_eq!(others[4].key(), (6, 0x7f00_0001, 443, 0, 1));
    for (i, x) in others.iter().enumerate() {
        assert_ne!(a.key(), x.key());
        for (j, y) in others.iter().enumerate() {
            assert_eq!(x.key() == y.key(), i == j);
        }
    }
}
