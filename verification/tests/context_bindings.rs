use slow_function_warning::{parse_threshold, ExecutionContext};

fn ctx_2ms_against_1ms() -> ExecutionContext {
    let threshold = parse_threshold("1ms").unwrap();
    ExecutionContext::new("variables".to_string(), "sleep".to_string(), 2_000_000, &threshold)
}

fn ctx_large() -> ExecutionContext {
    // 2 days, 3 hours, 4 minutes, 5 seconds, and a remainder, against 1h.
    let threshold = parse_threshold("1h").unwrap();
    let seconds: u64 = ((2 * 24 + 3) * 3600) + (4 * 60) + 5;
    ExecutionContext::new(
        "variables".to_string(),
        "long_task".to_string(),
        seconds * 1_000_000_000 + 123_456_789,
        &threshold,
    )
}

#[test]
fn module() {
    assert_eq!(ctx_2ms_against_1ms().module_name().as_str(), "variables");
    assert_eq!(ctx_2ms_against_1ms().module, "variables");
}

#[test]
fn function() {
    assert_eq!(ctx_2ms_against_1ms().function_name().as_str(), "sleep");
    assert_eq!(ctx_2ms_against_1ms().function, "sleep");
}

#[test]
fn elapsed() {
    // The raw elapsed duration, in nanoseconds.
    assert_eq!(ctx_2ms_against_1ms().elapsed(), 2_000_000);
}

#[test]
fn elapsed_str() {
    assert_eq!(ctx_2ms_against_1ms().elapsed_string().as_str(), "2ms");
}

#[test]
fn elapsed_ns() {
    assert_eq!(ctx_2ms_against_1ms().elapsed_ns(), 2_000_000);
}

#[test]
fn elapsed_nanos() {
    assert_eq!(ctx_2ms_against_1ms().elapsed_nanos(), 2_000_000);
}

#[test]
fn elapsed_nanoseconds() {
    assert_eq!(ctx_2ms_against_1ms().elapsed_nanoseconds(), 2_000_000);
}

#[test]
fn elapsed_us() {
    assert_eq!(ctx_2ms_against_1ms().elapsed_us(), 2_000);
}

#[test]
fn elapsed_micros() {
    assert_eq!(ctx_2ms_against_1ms().elapsed_micros(), 2_000);
}

#[test]
fn elapsed_microseconds() {
    assert_eq!(ctx_2ms_against_1ms().elapsed_microseconds(), 2_000);
}

#[test]
fn elapsed_ms() {
    assert_eq!(ctx_2ms_against_1ms().elapsed_ms(), 2);
}

#[test]
fn elapsed_millis() {
    assert_eq!(ctx_2ms_against_1ms().elapsed_millis(), 2);
}

#[test]
fn elapsed_milliseconds() {
    assert_eq!(ctx_2ms_against_1ms().elapsed_milliseconds(), 2);
}

#[test]
fn elapsed_s() {
    assert_eq!(ctx_2ms_against_1ms().elapsed_s(), 0);
    assert_eq!(ctx_large().elapsed_s(), 183_845);
}

#[test]
fn elapsed_secs() {
    assert_eq!(ctx_2ms_against_1ms().elapsed_secs(), 0);
    assert_eq!(ctx_large().elapsed_secs(), 183_845);
}

#[test]
fn elapsed_seconds() {
    assert_eq!(ctx_2ms_against_1ms().elapsed_seconds(), 0);
    assert_eq!(ctx_large().elapsed_seconds(), 183_845);
}

#[test]
fn elapsed_m() {
    assert_eq!(ctx_2ms_against_1ms().elapsed_m(), 0);
    // 183_845 seconds, truncating division by 60.
    assert_eq!(ctx_large().elapsed_m(), 3_064);
}

#[test]
fn elapsed_min() {
    assert_eq!(ctx_2ms_against_1ms().elapsed_min(), 0);
    assert_eq!(ctx_large().elapsed_min(), 3_064);
}

#[test]
fn elapsed_minutes() {
    assert_eq!(ctx_2ms_against_1ms().elapsed_minutes(), 0);
    assert_eq!(ctx_large().elapsed_minutes(), 3_064);
}

#[test]
fn elapsed_h() {
    assert_eq!(ctx_2ms_against_1ms().elapsed_h(), 0);
    assert_eq!(ctx_large().elapsed_h(), 51);
}

#[test]
fn elapsed_hours() {
    assert_eq!(ctx_2ms_against_1ms().elapsed_hours(), 0);
    assert_eq!(ctx_large().elapsed_hours(), 51);
}

#[test]
fn elapsed_d() {
    assert_eq!(ctx_2ms_against_1ms().elapsed_d(), 0);
    assert_eq!(ctx_large().elapsed_d(), 2);
}

#[test]
fn elapsed_days() {
    assert_eq!(ctx_2ms_against_1ms().elapsed_days(), 0);
    assert_eq!(ctx_large().elapsed_days(), 2);
}

#[test]
fn limit() {
    assert_eq!(ctx_2ms_against_1ms().limit(), 1_000_000);
}

#[test]
fn limit_str() {
    assert_eq!(ctx_2ms_against_1ms().limit_string().as_str(), "1ms");
    assert_eq!(ctx_large().limit_string().as_str(), "1h");
}

#[test]
fn limit_ns() {
    assert_eq!(ctx_2ms_against_1ms().limit_ns(), 1_000_000);
}

#[test]
fn limit_nanos() {
    assert_eq!(ctx_2ms_against_1ms().limit_nanos(), 1_000_000);
}

#[test]
fn limit_nanoseconds() {
    assert_eq!(ctx_2ms_against_1ms().limit_nanoseconds(), 1_000_000);
}

#[test]
fn limit_us() {
    assert_eq!(ctx_2ms_against_1ms().limit_us(), 1_000);
}

#[test]
fn limit_micros() {
    assert_eq!(ctx_2ms_against_1ms().limit_micros(), 1_000);
}

#[test]
fn limit_microseconds() {
    assert_eq!(ctx_2ms_against_1ms().limit_microseconds(), 1_000);
}

#[test]
fn limit_ms() {
    assert_eq!(ctx_2ms_against_1ms().limit_ms(), 1);
}

#[test]
fn limit_millis() {
    assert_eq!(ctx_2ms_against_1ms().limit_millis(), 1);
}

#[test]
fn limit_milliseconds() {
    assert_eq!(ctx_2ms_against_1ms().limit_milliseconds(), 1);
}

#[test]
fn limit_s() {
    assert_eq!(ctx_2ms_against_1ms().limit_s(), 0);
    assert_eq!(ctx_large().limit_s(), 3_600);
}

#[test]
fn limit_secs() {
    assert_eq!(ctx_large().limit_secs(), 3_600);
}

#[test]
fn limit_seconds() {
    assert_eq!(ctx_large().limit_seconds(), 3_600);
}

#[test]
fn limit_m() {
    assert_eq!(ctx_2ms_against_1ms().limit_m(), 0);
    assert_eq!(ctx_large().limit_m(), 60);
}

#[test]
fn limit_min() {
    assert_eq!(ctx_large().limit_min(), 60);
}

#[test]
fn limit_minutes() {
    assert_eq!(ctx_large().limit_minutes(), 60);
}

#[test]
fn limit_h() {
    assert_eq!(ctx_2ms_against_1ms().limit_h(), 0);
    assert_eq!(ctx_large().limit_h(), 1);
}

#[test]
fn limit_hours() {
    assert_eq!(ctx_large().limit_hours(), 1);
}

#[test]
fn limit_d() {
    assert_eq!(ctx_2ms_against_1ms().limit_d(), 0);
    assert_eq!(ctx_large().limit_d(), 0);
}

#[test]
fn limit_days() {
    assert_eq!(ctx_large().limit_days(), 0);
}

#[test]
fn bindings_by_name_match_getters() {
    let ctx = ctx_large();
    let names: Vec<(&str, u64)> = vec![
        ("elapsed", ctx.elapsed()),
        ("elapsed_ns", ctx.elapsed_ns()),
        ("elapsed_nanos", ctx.elapsed_nanos()),
        ("elapsed_nanoseconds", ctx.elapsed_nanoseconds()),
        ("elapsed_us", ctx.elapsed_us()),
        ("elapsed_micros", ctx.elapsed_micros()),
        ("elapsed_microseconds", ctx.elapsed_microseconds()),
        ("elapsed_ms", ctx.elapsed_ms()),
        ("elapsed_millis", ctx.elapsed_millis()),
        ("elapsed_milliseconds", ctx.elapsed_milliseconds()),
        ("elapsed_s", ctx.elapsed_s()),
        ("elapsed_secs", ctx.elapsed_secs()),
        ("elapsed_seconds", ctx.elapsed_seconds()),
        ("elapsed_m", ctx.elapsed_m()),
        ("elapsed_min", ctx.elapsed_min()),
        ("elapsed_minutes", ctx.elapsed_minutes()),
        ("elapsed_h", ctx.elapsed_h()),
        ("elapsed_hours", ctx.elapsed_hours()),
        ("elapsed_d", ctx.elapsed_d()),
        ("elapsed_days", ctx.elapsed_days()),
        ("limit", ctx.limit()),
        ("limit_ns", ctx.limit_ns()),
        ("limit_nanos", ctx.limit_nanos()),
        ("limit_nanoseconds", ctx.limit_nanoseconds()),
        ("limit_us", ctx.limit_us()),
        ("limit_micros", ctx.limit_micros()),
        ("limit_microseconds", ctx.limit_microseconds()),
        ("limit_ms", ctx.limit_ms()),
        ("limit_millis", ctx.limit_millis()),
        ("limit_milliseconds", ctx.limit_milliseconds()),
        ("limit_s", ctx.limit_s()),
        ("limit_secs", ctx.limit_secs()),
        ("limit_seconds", ctx.limit_seconds()),
        ("limit_m", ctx.limit_m()),
        ("limit_min", ctx.limit_min()),
        ("limit_minutes", ctx.limit_minutes()),
        ("limit_h", ctx.limit_h()),
        ("limit_hours", ctx.limit_hours()),
        ("limit_d", ctx.limit_d()),
        ("limit_days", ctx.limit_days()),
    ];
    for (name, expected) in names {
        assert_eq!(ctx.numeric_binding(name), Some(expected), "binding {}", name);
    }
}

#[test]
fn aliases_are_bit_identical() {
    let ctx = ctx_large();
    let groups: Vec<Vec<&str>> = vec![
        vec!["elapsed", "elapsed_ns", "elapsed_nanos", "elapsed_nanoseconds"],
        vec!["elapsed_us", "elapsed_micros", "elapsed_microseconds"],
        vec!["elapsed_ms", "elapsed_millis", "elapsed_milliseconds"],
        vec!["elapsed_s", "elapsed_secs", "elapsed_seconds"],
        vec!["elapsed_m", "elapsed_min", "elapsed_minutes"],
        vec!["elapsed_h", "elapsed_hours"],
        vec!["elapsed_d", "elapsed_days"],
        vec!["limit", "limit_ns", "limit_nanos", "limit_nanoseconds"],
        vec!["limit_us", "limit_micros", "limit_microseconds"],
        vec!["limit_ms", "limit_millis", "limit_milliseconds"],
        vec!["limit_s", "limit_secs", "limit_seconds"],
        vec!["limit_m", "limit_min", "limit_minutes"],
        vec!["limit_h", "limit_hours"],
        vec!["limit_d", "limit_days"],
    ];
    for group in groups {
        let first = ctx.numeric_binding(group[0]);
        assert!(first.is_some());
        for name in &group {
            assert_eq!(ctx.numeric_binding(name), first, "alias {}", name);
        }
    }
}

#[test]
fn unknown_binding_is_absent() {
    let ctx = ctx_2ms_against_1ms();
    assert_eq!(ctx.numeric_binding("elapsed_fortnights"), None);
    assert_eq!(ctx.numeric_binding(""), None);
    assert!(ctx.text_binding("nonsense").is_none());
}

#[test]
fn text_bindings_by_name() {
    let ctx = ctx_2ms_against_1ms();
    assert_eq!(ctx.text_binding("module").unwrap().as_str(), "variables");
    assert_eq!(ctx.text_binding("function").unwrap().as_str(), "sleep");
    assert_eq!(ctx.text_binding("elapsed_str").unwrap().as_str(), "2ms");
    assert_eq!(ctx.text_binding("limit_str").unwrap().as_str(), "1ms");
}

#[test]
fn unit_views_are_mutually_consistent() {
    let ctx = ctx_large();
    assert_eq!(ctx.elapsed_us(), ctx.elapsed_ns() / 1_000);
    assert_eq!(ctx.elapsed_ms(), ctx.elapsed_us() / 1_000);
    assert_eq!(ctx.elapsed_s(), ctx.elapsed_ms() / 1_000);
    assert_eq!(ctx.elapsed_m(), ctx.elapsed_s() / 60);
    assert_eq!(ctx.elapsed_h(), ctx.elapsed_m() / 60);
    assert_eq!(ctx.elapsed_d(), ctx.elapsed_h() / 24);
    assert_eq!(ctx.limit_us(), ctx.limit_ns() / 1_000);
    assert_eq!(ctx.limit_ms(), ctx.limit_us() / 1_000);
    assert_eq!(ctx.limit_s(), ctx.limit_ms() / 1_000);
    assert_eq!(ctx.limit_m(), ctx.limit_s() / 60);
    assert_eq!(ctx.limit_h(), ctx.limit_m() / 60);
    assert_eq!(ctx.limit_d(), ctx.limit_h() / 24);
}
