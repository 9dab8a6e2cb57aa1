use slow_function_warning::{
    convert_ns, decimal_string, default_message, parse_threshold, render_ns, ExecutionContext,
    TimeUnit,
};

#[test]
fn decimal_digits() {
    assert_eq!(decimal_string(0).as_str(), "0");
    assert_eq!(decimal_string(7).as_str(), "7");
    assert_eq!(decimal_string(10).as_str(), "10");
    assert_eq!(decimal_string(100).as_str(), "100");
    assert_eq!(decimal_string(12_345).as_str(), "12345");
    assert_eq!(decimal_string(1_000_000).as_str(), "1000000");
    assert_eq!(decimal_string(u64::MAX).as_str(), "18446744073709551615");
}

#[test]
fn conversion_truncates() {
    assert_eq!(convert_ns(1_999_999, TimeUnit::Milliseconds), 1);
    assert_eq!(convert_ns(2_000_000, TimeUnit::Milliseconds), 2);
    assert_eq!(convert_ns(59_999_999_999, TimeUnit::Minutes), 0);
    assert_eq!(convert_ns(60_000_000_000, TimeUnit::Minutes), 1);
    assert_eq!(convert_ns(86_399_999_999_999, TimeUnit::Days), 0);
    assert_eq!(convert_ns(86_400_000_000_000, TimeUnit::Days), 1);
}

#[test]
fn rendered_durations() {
    assert_eq!(render_ns(2_000_000, TimeUnit::Milliseconds).as_str(), "2ms");
    assert_eq!(render_ns(2_500_000, TimeUnit::Milliseconds).as_str(), "2ms");
    assert_eq!(render_ns(0, TimeUnit::Nanoseconds).as_str(), "0ns");
    assert_eq!(render_ns(1_234, TimeUnit::Nanoseconds).as_str(), "1234ns");
    assert_eq!(render_ns(7_000, TimeUnit::Microseconds).as_str(), "7μs");
    assert_eq!(render_ns(3_000_000_000, TimeUnit::Seconds).as_str(), "3s");
    assert_eq!(render_ns(120_000_000_000, TimeUnit::Minutes).as_str(), "2m");
    assert_eq!(render_ns(7_200_000_000_000, TimeUnit::Hours).as_str(), "2h");
    assert_eq!(render_ns(172_800_000_000_000, TimeUnit::Days).as_str(), "2d");
}

#[test]
fn default_message_format() {
    // 12.3ms elapsed against a 10ms threshold.
    let threshold = parse_threshold("10ms").unwrap();
    let ctx = ExecutionContext::new(
        "mymodule".to_string(),
        "sleep".to_string(),
        12_300_000,
        &threshold,
    );
    assert_eq!(
        default_message(&ctx).as_str(),
        "Warning: mymodule::sleep: ran for 12ms (limit: 10ms)"
    );
}

#[test]
fn default_message_uses_threshold_unit() {
    let threshold = parse_threshold("1s").unwrap();
    let ctx = ExecutionContext::new(
        "jobs".to_string(),
        "rebuild".to_string(),
        2_718_281_828,
        &threshold,
    );
    assert_eq!(
        default_message(&ctx).as_str(),
        "Warning: jobs::rebuild: ran for 2s (limit: 1s)"
    );
}
