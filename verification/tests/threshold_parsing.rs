use slow_function_warning::{parse_threshold, MalformedThreshold, ThresholdSpec, TimeUnit};

fn ok(s: &str) -> ThresholdSpec {
    parse_threshold(s).unwrap()
}

#[test]
fn parse_nanoseconds_suffix() {
    let t = ok("5ns");
    assert_eq!(t.magnitude, 5);
    assert_eq!(t.unit, TimeUnit::Nanoseconds);
    assert_eq!(t.to_ns(), 5);
}

#[test]
fn parse_microseconds_suffix() {
    let t = ok("7us");
    assert_eq!(t.magnitude, 7);
    assert_eq!(t.unit, TimeUnit::Microseconds);
    assert_eq!(t.to_ns(), 7_000);
}

#[test]
fn parse_microseconds_unicode_suffix() {
    let t = ok("7μs");
    assert_eq!(t.magnitude, 7);
    assert_eq!(t.unit, TimeUnit::Microseconds);
    assert_eq!(t.to_ns(), 7_000);
}

#[test]
fn parse_milliseconds_suffix() {
    let t = ok("10ms");
    assert_eq!(t.magnitude, 10);
    assert_eq!(t.unit, TimeUnit::Milliseconds);
    assert_eq!(t.to_ns(), 10_000_000);
}

#[test]
fn parse_seconds_suffix() {
    let t = ok("3s");
    assert_eq!(t.magnitude, 3);
    assert_eq!(t.unit, TimeUnit::Seconds);
    assert_eq!(t.to_ns(), 3_000_000_000);
}

#[test]
fn parse_minutes_suffix() {
    let t = ok("2m");
    assert_eq!(t.magnitude, 2);
    assert_eq!(t.unit, TimeUnit::Minutes);
    assert_eq!(t.to_ns(), 120_000_000_000);
}

#[test]
fn parse_hours_suffix() {
    let t = ok("1h");
    assert_eq!(t.magnitude, 1);
    assert_eq!(t.unit, TimeUnit::Hours);
    assert_eq!(t.to_ns(), 3_600_000_000_000);
}

#[test]
fn parse_days_suffix() {
    let t = ok("2d");
    assert_eq!(t.magnitude, 2);
    assert_eq!(t.unit, TimeUnit::Days);
    assert_eq!(t.to_ns(), 172_800_000_000_000);
}

#[test]
fn parse_absent_suffix_means_milliseconds() {
    let t = ok("500");
    assert_eq!(t.magnitude, 500);
    assert_eq!(t.unit, TimeUnit::Milliseconds);
    assert_eq!(t.to_ns(), 500_000_000);
}

#[test]
fn parse_underscore_separators() {
    let t = ok("1_000ms");
    assert_eq!(t.magnitude, 1_000);
    assert_eq!(t.unit, TimeUnit::Milliseconds);
}

#[test]
fn parse_trailing_underscore() {
    let t = ok("1_");
    assert_eq!(t.magnitude, 1);
    assert_eq!(t.unit, TimeUnit::Milliseconds);
}

#[test]
fn parse_zero_magnitude() {
    let t = ok("0ns");
    assert_eq!(t.magnitude, 0);
    assert_eq!(t.to_ns(), 0);
}

#[test]
fn parse_is_deterministic() {
    assert_eq!(parse_threshold("42us"), parse_threshold("42us"));
    assert_eq!(parse_threshold("oops"), parse_threshold("oops"));
}

#[test]
fn parse_empty_literal_fails() {
    assert_eq!(parse_threshold(""), Err(MalformedThreshold::NotAnInteger));
}

#[test]
fn parse_non_integer_fails() {
    assert_eq!(parse_threshold("abc"), Err(MalformedThreshold::NotAnInteger));
}

#[test]
fn parse_leading_underscore_fails() {
    assert_eq!(parse_threshold("_1"), Err(MalformedThreshold::NotAnInteger));
}

#[test]
fn parse_bare_suffix_fails() {
    assert_eq!(parse_threshold("ms"), Err(MalformedThreshold::NotAnInteger));
}

#[test]
fn parse_negative_fails() {
    assert_eq!(parse_threshold("-5ms"), Err(MalformedThreshold::NotAnInteger));
}

#[test]
fn parse_unknown_suffix_fails() {
    assert_eq!(parse_threshold("5xs"), Err(MalformedThreshold::UnrecognizedSuffix));
}

#[test]
fn parse_uppercase_suffix_fails() {
    assert_eq!(parse_threshold("5MS"), Err(MalformedThreshold::UnrecognizedSuffix));
}

#[test]
fn parse_inner_space_fails() {
    assert_eq!(parse_threshold("10 ms"), Err(MalformedThreshold::UnrecognizedSuffix));
}

#[test]
fn parse_magnitude_too_large_fails() {
    // One past u64::MAX.
    assert_eq!(
        parse_threshold("18446744073709551616"),
        Err(MalformedThreshold::MagnitudeTooLarge)
    );
    assert_eq!(
        parse_threshold("99999999999999999999999ns"),
        Err(MalformedThreshold::MagnitudeTooLarge)
    );
}

#[test]
fn parse_magnitude_at_limit_in_nanoseconds_is_accepted() {
    let t = ok("18446744073709551615ns");
    assert_eq!(t.magnitude, u64::MAX);
    assert_eq!(t.to_ns(), u64::MAX);
}

#[test]
fn parse_limit_too_large_fails() {
    // Fits 64 bits as a magnitude, but not once converted to nanoseconds.
    assert_eq!(parse_threshold("1000000000000d"), Err(MalformedThreshold::LimitTooLarge));
    assert_eq!(parse_threshold("18446744073709551615us"), Err(MalformedThreshold::LimitTooLarge));
}

#[test]
fn parse_matches_magnitude_times_factor() {
    // For each suffix, converting equals magnitude * factor(suffix).
    let cases: Vec<(&str, u64)> = vec![
        ("9ns", 1),
        ("9us", 1_000),
        ("9μs", 1_000),
        ("9ms", 1_000_000),
        ("9s", 1_000_000_000),
        ("9m", 60_000_000_000),
        ("9h", 3_600_000_000_000),
        ("9d", 86_400_000_000_000),
        ("9", 1_000_000),
    ];
    for (lit, factor) in cases {
        let t = ok(lit);
        assert_eq!(t.to_ns(), 9 * factor);
    }
}

#[test]
fn default_threshold_is_one_millisecond() {
    let t = ThresholdSpec::default();
    assert_eq!(t.magnitude, 1);
    assert_eq!(t.unit, TimeUnit::Milliseconds);
    assert_eq!(t.to_ns(), 1_000_000);
}
