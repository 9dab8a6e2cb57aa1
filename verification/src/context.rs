use vstd::arithmetic::div_mod::lemma_div_denominator;
use vstd::prelude::*;
use vstd::string::StringExecFns;

use crate::decimal::{render_ns, spec_render};
use crate::text::str_eq;
use crate::threshold::ThresholdSpec;
use crate::time_unit::{convert_ns, in_unit, TimeUnit};

verus! {

/// The full set of named timing and identity facts handed to a handler when a
/// call exceeds its threshold. One instance exists per exceeding call; every
/// numeric view is derived from the single elapsed and limit nanosecond
/// counts, so all bindings are consistent with one another by construction.
pub struct ExecutionContext {
    /// Module path of the instrumented callable, unmodified.
    pub module: String,
    /// Name of the instrumented callable, unmodified.
    pub function: String,
    /// The unit the threshold was written in; display strings use it.
    pub unit: TimeUnit,
    pub elapsed_ns: u64,
    pub elapsed_us: u64,
    pub elapsed_ms: u64,
    pub elapsed_s: u64,
    pub elapsed_m: u64,
    pub elapsed_h: u64,
    pub elapsed_d: u64,
    /// The elapsed time rendered in the threshold's own unit, e.g. `2ms`.
    pub elapsed_str: String,
    pub limit_ns: u64,
    pub limit_us: u64,
    pub limit_ms: u64,
    pub limit_s: u64,
    pub limit_m: u64,
    pub limit_h: u64,
    pub limit_d: u64,
    /// The limit rendered in the threshold's own unit, e.g. `10ms`.
    pub limit_str: String,
}

impl ExecutionContext {
    /// Internal consistency: every unit view truncates the nanosecond count,
    /// and both display strings render in the context's unit.
    pub open spec fn wf(&self) -> bool {
        &&& self.elapsed_us == in_unit(self.elapsed_ns as nat, TimeUnit::Microseconds)
        &&& self.elapsed_ms == in_unit(self.elapsed_ns as nat, TimeUnit::Milliseconds)
        &&& self.elapsed_s == in_unit(self.elapsed_ns as nat, TimeUnit::Seconds)
        &&& self.elapsed_m == in_unit(self.elapsed_ns as nat, TimeUnit::Minutes)
        &&& self.elapsed_h == in_unit(self.elapsed_ns as nat, TimeUnit::Hours)
        &&& self.elapsed_d == in_unit(self.elapsed_ns as nat, TimeUnit::Days)
        &&& self.elapsed_str@ == spec_render(self.elapsed_ns as nat, self.unit)
        &&& self.limit_us == in_unit(self.limit_ns as nat, TimeUnit::Microseconds)
        &&& self.limit_ms == in_unit(self.limit_ns as nat, TimeUnit::Milliseconds)
        &&& self.limit_s == in_unit(self.limit_ns as nat, TimeUnit::Seconds)
        &&& self.limit_m == in_unit(self.limit_ns as nat, TimeUnit::Minutes)
        &&& self.limit_h == in_unit(self.limit_ns as nat, TimeUnit::Hours)
        &&& self.limit_d == in_unit(self.limit_ns as nat, TimeUnit::Days)
        &&& self.limit_str@ == spec_render(self.limit_ns as nat, self.unit)
    }

    /// Build the complete context from a start-to-now elapsed time, the
    /// identity of the callable, and the configured threshold. Every binding
    /// is computed here, once, whether or not a handler reads it.
    pub fn new(
        module: String,
        function: String,
        elapsed_ns: u64,
        threshold: &ThresholdSpec,
    ) -> (ctx: ExecutionContext)
        requires
            threshold.wf(),
        ensures
            ctx.wf(),
            ctx.module == module,
            ctx.function == function,
            ctx.unit == threshold.unit,
            ctx.elapsed_ns == elapsed_ns,
            ctx.limit_ns == threshold.spec_ns(),
    {
        let limit_ns: u64 = threshold.to_ns();
        ExecutionContext {
            module,
            function,
            unit: threshold.unit,
            elapsed_ns,
            elapsed_us: convert_ns(elapsed_ns, TimeUnit::Microseconds),
            elapsed_ms: convert_ns(elapsed_ns, TimeUnit::Milliseconds),
            elapsed_s: convert_ns(elapsed_ns, TimeUnit::Seconds),
            elapsed_m: convert_ns(elapsed_ns, TimeUnit::Minutes),
            elapsed_h: convert_ns(elapsed_ns, TimeUnit::Hours),
            elapsed_d: convert_ns(elapsed_ns, TimeUnit::Days),
            elapsed_str: render_ns(elapsed_ns, threshold.unit),
            limit_ns,
            limit_us: convert_ns(limit_ns, TimeUnit::Microseconds),
            limit_ms: convert_ns(limit_ns, TimeUnit::Milliseconds),
            limit_s: convert_ns(limit_ns, TimeUnit::Seconds),
            limit_m: convert_ns(limit_ns, TimeUnit::Minutes),
            limit_h: convert_ns(limit_ns, TimeUnit::Hours),
            limit_d: convert_ns(limit_ns, TimeUnit::Days),
            limit_str: render_ns(limit_ns, threshold.unit),
        }
    }
}

/// Law: each coarser unit view is the truncation of the finer one, so the
/// bindings of a well-formed context are consistent with each other and not
/// merely with the nanosecond count they come from.
pub proof fn lemma_context_consistent(ctx: ExecutionContext)
    requires
        ctx.wf(),
    ensures
        ctx.elapsed_us == ctx.elapsed_ns / 1_000,
        ctx.elapsed_ms == ctx.elapsed_us / 1_000,
        ctx.elapsed_s == ctx.elapsed_ms / 1_000,
        ctx.elapsed_m == ctx.elapsed_s / 60,
        ctx.elapsed_h == ctx.elapsed_m / 60,
        ctx.elapsed_d == ctx.elapsed_h / 24,
        ctx.limit_us == ctx.limit_ns / 1_000,
        ctx.limit_ms == ctx.limit_us / 1_000,
        ctx.limit_s == ctx.limit_ms / 1_000,
        ctx.limit_m == ctx.limit_s / 60,
        ctx.limit_h == ctx.limit_m / 60,
        ctx.limit_d == ctx.limit_h / 24,
{
    lemma_div_denominator(ctx.elapsed_ns as int, 1_000, 1_000);
    lemma_div_denominator(ctx.elapsed_ns as int, 1_000_000, 1_000);
    lemma_div_denominator(ctx.elapsed_ns as int, 1_000_000_000, 60);
    lemma_div_denominator(ctx.elapsed_ns as int, 60_000_000_000, 60);
    lemma_div_denominator(ctx.elapsed_ns as int, 3_600_000_000_000, 24);
    lemma_div_denominator(ctx.limit_ns as int, 1_000, 1_000);
    lemma_div_denominator(ctx.limit_ns as int, 1_000_000, 1_000);
    lemma_div_denominator(ctx.limit_ns as int, 1_000_000_000, 60);
    lemma_div_denominator(ctx.limit_ns as int, 60_000_000_000, 60);
    lemma_div_denominator(ctx.limit_ns as int, 3_600_000_000_000, 24);
}

/// The numeric binding a name denotes: each canonical unit name and its
/// aliases share one value. `elapsed` and `limit` are the raw durations, in
/// nanoseconds.
pub open spec fn spec_numeric_binding(ctx: ExecutionContext, name: Seq<char>) -> Option<u64> {
    if name == "elapsed"@ || name == "elapsed_ns"@ || name == "elapsed_nanos"@ || name
        == "elapsed_nanoseconds"@ {
        Some(ctx.elapsed_ns)
    } else if name == "elapsed_us"@ || name == "elapsed_micros"@ || name
        == "elapsed_microseconds"@ {
        Some(ctx.elapsed_us)
    } else if name == "elapsed_ms"@ || name == "elapsed_millis"@ || name
        == "elapsed_milliseconds"@ {
        Some(ctx.elapsed_ms)
    } else if name == "elapsed_s"@ || name == "elapsed_secs"@ || name == "elapsed_seconds"@ {
        Some(ctx.elapsed_s)
    } else if name == "elapsed_m"@ || name == "elapsed_min"@ || name == "elapsed_minutes"@ {
        Some(ctx.elapsed_m)
    } else if name == "elapsed_h"@ || name == "elapsed_hours"@ {
        Some(ctx.elapsed_h)
    } else if name == "elapsed_d"@ || name == "elapsed_days"@ {
        Some(ctx.elapsed_d)
    } else if name == "limit"@ || name == "limit_ns"@ || name == "limit_nanos"@ || name
        == "limit_nanoseconds"@ {
        Some(ctx.limit_ns)
    } else if name == "limit_us"@ || name == "limit_micros"@ || name == "limit_microseconds"@ {
        Some(ctx.limit_us)
    } else if name == "limit_ms"@ || name == "limit_millis"@ || name == "limit_milliseconds"@ {
        Some(ctx.limit_ms)
    } else if name == "limit_s"@ || name == "limit_secs"@ || name == "limit_seconds"@ {
        Some(ctx.limit_s)
    } else if name == "limit_m"@ || name == "limit_min"@ || name == "limit_minutes"@ {
        Some(ctx.limit_m)
    } else if name == "limit_h"@ || name == "limit_hours"@ {
        Some(ctx.limit_h)
    } else if name == "limit_d"@ || name == "limit_days"@ {
        Some(ctx.limit_d)
    } else {
        None
    }
}

/// The names of one canonical unit all resolve to its value.
proof fn lemma_bindings_elapsed_ns(ctx: ExecutionContext)
    ensures
        spec_numeric_binding(ctx, "elapsed"@) == Some(ctx.elapsed_ns),
        spec_numeric_binding(ctx, "elapsed_ns"@) == Some(ctx.elapsed_ns),
        spec_numeric_binding(ctx, "elapsed_nanos"@) == Some(ctx.elapsed_ns),
        spec_numeric_binding(ctx, "elapsed_nanoseconds"@) == Some(ctx.elapsed_ns),
{
    reveal_strlit("elapsed");
    reveal_strlit("elapsed_ns");
    reveal_strlit("elapsed_nanos");
    reveal_strlit("elapsed_nanoseconds");
    assert("elapsed"@.len() == 7);
    assert("elapsed_ns"@.len() == 10);
    assert("elapsed_nanos"@.len() == 13);
    assert("elapsed_nanoseconds"@.len() == 19);
}

/// The names of one canonical unit all resolve to its value.
proof fn lemma_bindings_elapsed_us(ctx: ExecutionContext)
    ensures
        spec_numeric_binding(ctx, "elapsed_us"@) == Some(ctx.elapsed_us),
        spec_numeric_binding(ctx, "elapsed_micros"@) == Some(ctx.elapsed_us),
        spec_numeric_binding(ctx, "elapsed_microseconds"@) == Some(ctx.elapsed_us),
{
    reveal_strlit("elapsed");
    reveal_strlit("elapsed_ns");
    reveal_strlit("elapsed_nanos");
    reveal_strlit("elapsed_nanoseconds");
    reveal_strlit("elapsed_us");
    reveal_strlit("elapsed_micros");
    reveal_strlit("elapsed_microseconds");
    assert("elapsed"@.len() == 7);
    assert("elapsed_ns"@.len() == 10);
    assert("elapsed_nanos"@.len() == 13);
    assert("elapsed_nanoseconds"@.len() == 19);
    assert("elapsed_us"@.len() == 10);
    assert("elapsed_micros"@.len() == 14);
    assert("elapsed_microseconds"@.len() == 20);
    assert("elapsed_ns"@[8] == 'n' && "elapsed_us"@[8] == 'u');
    assert("elapsed_us"@ != "elapsed_ns"@);
}

/// The names of one canonical unit all resolve to its value.
proof fn lemma_bindings_elapsed_ms(ctx: ExecutionContext)
    ensures
        spec_numeric_binding(ctx, "elapsed_ms"@) == Some(ctx.elapsed_ms),
        spec_numeric_binding(ctx, "elapsed_millis"@) == Some(ctx.elapsed_ms),
        spec_numeric_binding(ctx, "elapsed_milliseconds"@) == Some(ctx.elapsed_ms),
{
    reveal_strlit("elapsed");
    reveal_strlit("elapsed_ns");
    reveal_strlit("elapsed_nanos");
    reveal_strlit("elapsed_nanoseconds");
    reveal_strlit("elapsed_us");
    reveal_strlit("elapsed_micros");
    reveal_strlit("elapsed_microseconds");
    reveal_strlit("elapsed_ms");
    reveal_strlit("elapsed_millis");
    reveal_strlit("elapsed_milliseconds");
    assert("elapsed"@.len() == 7);
    assert("elapsed_ns"@.len() == 10);
    assert("elapsed_nanos"@.len() == 13);
    assert("elapsed_nanoseconds"@.len() == 19);
    assert("elapsed_us"@.len() == 10);
    assert("elapsed_micros"@.len() == 14);
    assert("elapsed_microseconds"@.len() == 20);
    assert("elapsed_ms"@.len() == 10);
    assert("elapsed_millis"@.len() == 14);
    assert("elapsed_milliseconds"@.len() == 20);
    assert("elapsed_ns"@[8] == 'n' && "elapsed_ms"@[8] == 'm');
    assert("elapsed_ms"@ != "elapsed_ns"@);
    assert("elapsed_us"@[8] == 'u' && "elapsed_ms"@[8] == 'm');
    assert("elapsed_ms"@ != "elapsed_us"@);
    assert("elapsed_micros"@[10] == 'c' && "elapsed_millis"@[10] == 'l');
    assert("elapsed_millis"@ != "elapsed_micros"@);
    assert("elapsed_microseconds"@[10] == 'c' && "elapsed_milliseconds"@[10] == 'l');
    assert("elapsed_milliseconds"@ != "elapsed_microseconds"@);
}

/// The names of one canonical unit all resolve to its value.
proof fn lemma_bindings_elapsed_s(ctx: ExecutionContext)
    ensures
        spec_numeric_binding(ctx, "elapsed_s"@) == Some(ctx.elapsed_s),
        spec_numeric_binding(ctx, "elapsed_secs"@) == Some(ctx.elapsed_s),
        spec_numeric_binding(ctx, "elapsed_seconds"@) == Some(ctx.elapsed_s),
{
    reveal_strlit("elapsed");
    reveal_strlit("elapsed_ns");
    reveal_strlit("elapsed_nanos");
    reveal_strlit("elapsed_nanoseconds");
    reveal_strlit("elapsed_us");
    reveal_strlit("elapsed_micros");
    reveal_strlit("elapsed_microseconds");
    reveal_strlit("elapsed_ms");
    reveal_strlit("elapsed_millis");
    reveal_strlit("elapsed_milliseconds");
    reveal_strlit("elapsed_s");
    reveal_strlit("elapsed_secs");
    reveal_strlit("elapsed_seconds");
    assert("elapsed"@.len() == 7);
    assert("elapsed_ns"@.len() == 10);
    assert("elapsed_nanos"@.len() == 13);
    assert("elapsed_nanoseconds"@.len() == 19);
    assert("elapsed_us"@.len() == 10);
    assert("elapsed_micros"@.len() == 14);
    assert("elapsed_microseconds"@.len() == 20);
    assert("elapsed_ms"@.len() == 10);
    assert("elapsed_millis"@.len() == 14);
    assert("elapsed_milliseconds"@.len() == 20);
    assert("elapsed_s"@.len() == 9);
    assert("elapsed_secs"@.len() == 12);
    assert("elapsed_seconds"@.len() == 15);
}

/// The names of one canonical unit all resolve to its value.
proof fn lemma_bindings_elapsed_m(ctx: ExecutionContext)
    ensures
        spec_numeric_binding(ctx, "elapsed_m"@) == Some(ctx.elapsed_m),
        spec_numeric_binding(ctx, "elapsed_min"@) == Some(ctx.elapsed_m),
        spec_numeric_binding(ctx, "elapsed_minutes"@) == Some(ctx.elapsed_m),
{
    reveal_strlit("elapsed");
    reveal_strlit("elapsed_ns");
    reveal_strlit("elapsed_nanos");
    reveal_strlit("elapsed_nanoseconds");
    reveal_strlit("elapsed_us");
    reveal_strlit("elapsed_micros");
    reveal_strlit("elapsed_microseconds");
    reveal_strlit("elapsed_ms");
    reveal_strlit("elapsed_millis");
    reveal_strlit("elapsed_milliseconds");
    reveal_strlit("elapsed_s");
    reveal_strlit("elapsed_secs");
    reveal_strlit("elapsed_seconds");
    reveal_strlit("elapsed_m");
    reveal_strlit("elapsed_min");
    reveal_strlit("elapsed_minutes");
    assert("elapsed"@.len() == 7);
    assert("elapsed_ns"@.len() == 10);
    assert("elapsed_nanos"@.len() == 13);
    assert("elapsed_nanoseconds"@.len() == 19);
    assert("elapsed_us"@.len() == 10);
    assert("elapsed_micros"@.len() == 14);
    assert("elapsed_microseconds"@.len() == 20);
    assert("elapsed_ms"@.len() == 10);
    assert("elapsed_millis"@.len() == 14);
    assert("elapsed_milliseconds"@.len() == 20);
    assert("elapsed_s"@.len() == 9);
    assert("elapsed_secs"@.len() == 12);
    assert("elapsed_seconds"@.len() == 15);
    assert("elapsed_m"@.len() == 9);
    assert("elapsed_min"@.len() == 11);
    assert("elapsed_minutes"@.len() == 15);
    assert("elapsed_s"@[8] == 's' && "elapsed_m"@[8] == 'm');
    assert("elapsed_m"@ != "elapsed_s"@);
    assert("elapsed_seconds"@[8] == 's' && "elapsed_minutes"@[8] == 'm');
    assert("elapsed_minutes"@ != "elapsed_seconds"@);
}

/// The names of one canonical unit all resolve to its value.
proof fn lemma_bindings_elapsed_h(ctx: ExecutionContext)
    ensures
        spec_numeric_binding(ctx, "elapsed_h"@) == Some(ctx.elapsed_h),
        spec_numeric_binding(ctx, "elapsed_hours"@) == Some(ctx.elapsed_h),
{
    reveal_strlit("elapsed");
    reveal_strlit("elapsed_ns");
    reveal_strlit("elapsed_nanos");
    reveal_strlit("elapsed_nanoseconds");
    reveal_strlit("elapsed_us");
    reveal_strlit("elapsed_micros");
    reveal_strlit("elapsed_microseconds");
    reveal_strlit("elapsed_ms");
    reveal_strlit("elapsed_millis");
    reveal_strlit("elapsed_milliseconds");
    reveal_strlit("elapsed_s");
    reveal_strlit("elapsed_secs");
    reveal_strlit("elapsed_seconds");
    reveal_strlit("elapsed_m");
    reveal_strlit("elapsed_min");
    reveal_strlit("elapsed_minutes");
    reveal_strlit("elapsed_h");
    reveal_strlit("elapsed_hours");
    assert("elapsed"@.len() == 7);
    assert("elapsed_ns"@.len() == 10);
    assert("elapsed_nanos"@.len() == 13);
    assert("elapsed_nanoseconds"@.len() == 19);
    assert("elapsed_us"@.len() == 10);
    assert("elapsed_micros"@.len() == 14);
    assert("elapsed_microseconds"@.len() == 20);
    assert("elapsed_ms"@.len() == 10);
    assert("elapsed_millis"@.len() == 14);
    assert("elapsed_milliseconds"@.len() == 20);
    assert("elapsed_s"@.len() == 9);
    assert("elapsed_secs"@.len() == 12);
    assert("elapsed_seconds"@.len() == 15);
    assert("elapsed_m"@.len() == 9);
    assert("elapsed_min"@.len() == 11);
    assert("elapsed_minutes"@.len() == 15);
    assert("elapsed_h"@.len() == 9);
    assert("elapsed_hours"@.len() == 13);
    assert("elapsed_s"@[8] == 's' && "elapsed_h"@[8] == 'h');
    assert("elapsed_h"@ != "elapsed_s"@);
    assert("elapsed_m"@[8] == 'm' && "elapsed_h"@[8] == 'h');
    assert("elapsed_h"@ != "elapsed_m"@);
    assert("elapsed_nanos"@[8] == 'n' && "elapsed_hours"@[8] == 'h');
    assert("elapsed_hours"@ != "elapsed_nanos"@);
}

/// The names of one canonical unit all resolve to its value.
proof fn lemma_bindings_elapsed_d(ctx: ExecutionContext)
    ensures
        spec_numeric_binding(ctx, "elapsed_d"@) == Some(ctx.elapsed_d),
        spec_numeric_binding(ctx, "elapsed_days"@) == Some(ctx.elapsed_d),
{
    reveal_strlit("elapsed");
    reveal_strlit("elapsed_ns");
    reveal_strlit("elapsed_nanos");
    reveal_strlit("elapsed_nanoseconds");
    reveal_strlit("elapsed_us");
    reveal_strlit("elapsed_micros");
    reveal_strlit("elapsed_microseconds");
    reveal_strlit("elapsed_ms");
    reveal_strlit("elapsed_millis");
    reveal_strlit("elapsed_milliseconds");
    reveal_strlit("elapsed_s");
    reveal_strlit("elapsed_secs");
    reveal_strlit("elapsed_seconds");
    reveal_strlit("elapsed_m");
    reveal_strlit("elapsed_min");
    reveal_strlit("elapsed_minutes");
    reveal_strlit("elapsed_h");
    reveal_strlit("elapsed_hours");
    reveal_strlit("elapsed_d");
    reveal_strlit("elapsed_days");
    assert("elapsed"@.len() == 7);
    assert("elapsed_ns"@.len() == 10);
    assert("elapsed_nanos"@.len() == 13);
    assert("elapsed_nanoseconds"@.len() == 19);
    assert("elapsed_us"@.len() == 10);
    assert("elapsed_micros"@.len() == 14);
    assert("elapsed_microseconds"@.len() == 20);
    assert("elapsed_ms"@.len() == 10);
    assert("elapsed_millis"@.len() == 14);
    assert("elapsed_milliseconds"@.len() == 20);
    assert("elapsed_s"@.len() == 9);
    assert("elapsed_secs"@.len() == 12);
    assert("elapsed_seconds"@.len() == 15);
    assert("elapsed_m"@.len() == 9);
    assert("elapsed_min"@.len() == 11);
    assert("elapsed_minutes"@.len() == 15);
    assert("elapsed_h"@.len() == 9);
    assert("elapsed_hours"@.len() == 13);
    assert("elapsed_d"@.len() == 9);
    assert("elapsed_days"@.len() == 12);
    assert("elapsed_s"@[8] == 's' && "elapsed_d"@[8] == 'd');
    assert("elapsed_d"@ != "elapsed_s"@);
    assert("elapsed_m"@[8] == 'm' && "elapsed_d"@[8] == 'd');
    assert("elapsed_d"@ != "elapsed_m"@);
    assert("elapsed_h"@[8] == 'h' && "elapsed_d"@[8] == 'd');
    assert("elapsed_d"@ != "elapsed_h"@);
    assert("elapsed_secs"@[8] == 's' && "elapsed_days"@[8] == 'd');
    assert("elapsed_days"@ != "elapsed_secs"@);
}

/// The names of one canonical unit all resolve to its value.
proof fn lemma_bindings_limit_ns(ctx: ExecutionContext)
    ensures
        spec_numeric_binding(ctx, "limit"@) == Some(ctx.limit_ns),
        spec_numeric_binding(ctx, "limit_ns"@) == Some(ctx.limit_ns),
        spec_numeric_binding(ctx, "limit_nanos"@) == Some(ctx.limit_ns),
        spec_numeric_binding(ctx, "limit_nanoseconds"@) == Some(ctx.limit_ns),
{
    reveal_strlit("elapsed");
    reveal_strlit("elapsed_ns");
    reveal_strlit("elapsed_nanos");
    reveal_strlit("elapsed_nanoseconds");
    reveal_strlit("elapsed_us");
    reveal_strlit("elapsed_micros");
    reveal_strlit("elapsed_microseconds");
    reveal_strlit("elapsed_ms");
    reveal_strlit("elapsed_millis");
    reveal_strlit("elapsed_milliseconds");
    reveal_strlit("elapsed_s");
    reveal_strlit("elapsed_secs");
    reveal_strlit("elapsed_seconds");
    reveal_strlit("elapsed_m");
    reveal_strlit("elapsed_min");
    reveal_strlit("elapsed_minutes");
    reveal_strlit("elapsed_h");
    reveal_strlit("elapsed_hours");
    reveal_strlit("elapsed_d");
    reveal_strlit("elapsed_days");
    reveal_strlit("limit");
    reveal_strlit("limit_ns");
    reveal_strlit("limit_nanos");
    reveal_strlit("limit_nanoseconds");
    assert("elapsed"@.len() == 7);
    assert("elapsed_ns"@.len() == 10);
    assert("elapsed_nanos"@.len() == 13);
    assert("elapsed_nanoseconds"@.len() == 19);
    assert("elapsed_us"@.len() == 10);
    assert("elapsed_micros"@.len() == 14);
    assert("elapsed_microseconds"@.len() == 20);
    assert("elapsed_ms"@.len() == 10);
    assert("elapsed_millis"@.len() == 14);
    assert("elapsed_milliseconds"@.len() == 20);
    assert("elapsed_s"@.len() == 9);
    assert("elapsed_secs"@.len() == 12);
    assert("elapsed_seconds"@.len() == 15);
    assert("elapsed_m"@.len() == 9);
    assert("elapsed_min"@.len() == 11);
    assert("elapsed_minutes"@.len() == 15);
    assert("elapsed_h"@.len() == 9);
    assert("elapsed_hours"@.len() == 13);
    assert("elapsed_d"@.len() == 9);
    assert("elapsed_days"@.len() == 12);
    assert("limit"@.len() == 5);
    assert("limit_ns"@.len() == 8);
    assert("limit_nanos"@.len() == 11);
    assert("limit_nanoseconds"@.len() == 17);
    assert("elapsed_min"@[0] == 'e' && "limit_nanos"@[0] == 'l');
    assert("limit_nanos"@ != "elapsed_min"@);
}

/// The names of one canonical unit all resolve to its value.
proof fn lemma_bindings_limit_us(ctx: ExecutionContext)
    ensures
        spec_numeric_binding(ctx, "limit_us"@) == Some(ctx.limit_us),
        spec_numeric_binding(ctx, "limit_micros"@) == Some(ctx.limit_us),
        spec_numeric_binding(ctx, "limit_microseconds"@) == Some(ctx.limit_us),
{
    reveal_strlit("elapsed");
    reveal_strlit("elapsed_ns");
    reveal_strlit("elapsed_nanos");
    reveal_strlit("elapsed_nanoseconds");
    reveal_strlit("elapsed_us");
    reveal_strlit("elapsed_micros");
    reveal_strlit("elapsed_microseconds");
    reveal_strlit("elapsed_ms");
    reveal_strlit("elapsed_millis");
    reveal_strlit("elapsed_milliseconds");
    reveal_strlit("elapsed_s");
    reveal_strlit("elapsed_secs");
    reveal_strlit("elapsed_seconds");
    reveal_strlit("elapsed_m");
    reveal_strlit("elapsed_min");
    reveal_strlit("elapsed_minutes");
    reveal_strlit("elapsed_h");
    reveal_strlit("elapsed_hours");
    reveal_strlit("elapsed_d");
    reveal_strlit("elapsed_days");
    reveal_strlit("limit");
    reveal_strlit("limit_ns");
    reveal_strlit("limit_nanos");
    reveal_strlit("limit_nanoseconds");
    reveal_strlit("limit_us");
    reveal_strlit("limit_micros");
    reveal_strlit("limit_microseconds");
    assert("elapsed"@.len() == 7);
    assert("elapsed_ns"@.len() == 10);
    assert("elapsed_nanos"@.len() == 13);
    assert("elapsed_nanoseconds"@.len() == 19);
    assert("elapsed_us"@.len() == 10);
    assert("elapsed_micros"@.len() == 14);
    assert("elapsed_microseconds"@.len() == 20);
    assert("elapsed_ms"@.len() == 10);
    assert("elapsed_millis"@.len() == 14);
    assert("elapsed_milliseconds"@.len() == 20);
    assert("elapsed_s"@.len() == 9);
    assert("elapsed_secs"@.len() == 12);
    assert("elapsed_seconds"@.len() == 15);
    assert("elapsed_m"@.len() == 9);
    assert("elapsed_min"@.len() == 11);
    assert("elapsed_minutes"@.len() == 15);
    assert("elapsed_h"@.len() == 9);
    assert("elapsed_hours"@.len() == 13);
    assert("elapsed_d"@.len() == 9);
    assert("elapsed_days"@.len() == 12);
    assert("limit"@.len() == 5);
    assert("limit_ns"@.len() == 8);
    assert("limit_nanos"@.len() == 11);
    assert("limit_nanoseconds"@.len() == 17);
    assert("limit_us"@.len() == 8);
    assert("limit_micros"@.len() == 12);
    assert("limit_microseconds"@.len() == 18);
    assert("limit_ns"@[6] == 'n' && "limit_us"@[6] == 'u');
    assert("limit_us"@ != "limit_ns"@);
    assert("elapsed_secs"@[0] == 'e' && "limit_micros"@[0] == 'l');
    assert("limit_micros"@ != "elapsed_secs"@);
    assert("elapsed_days"@[0] == 'e' && "limit_micros"@[0] == 'l');
    assert("limit_micros"@ != "elapsed_days"@);
}

/// The names of one canonical unit all resolve to its value.
proof fn lemma_bindings_limit_ms(ctx: ExecutionContext)
    ensures
        spec_numeric_binding(ctx, "limit_ms"@) == Some(ctx.limit_ms),
        spec_numeric_binding(ctx, "limit_millis"@) == Some(ctx.limit_ms),
        spec_numeric_binding(ctx, "limit_milliseconds"@) == Some(ctx.limit_ms),
{
    reveal_strlit("elapsed");
    reveal_strlit("elapsed_ns");
    reveal_strlit("elapsed_nanos");
    reveal_strlit("elapsed_nanoseconds");
    reveal_strlit("elapsed_us");
    reveal_strlit("elapsed_micros");
    reveal_strlit("elapsed_microseconds");
    reveal_strlit("elapsed_ms");
    reveal_strlit("elapsed_millis");
    reveal_strlit("elapsed_milliseconds");
    reveal_strlit("elapsed_s");
    reveal_strlit("elapsed_secs");
    reveal_strlit("elapsed_seconds");
    reveal_strlit("elapsed_m");
    reveal_strlit("elapsed_min");
    reveal_strlit("elapsed_minutes");
    reveal_strlit("elapsed_h");
    reveal_strlit("elapsed_hours");
    reveal_strlit("elapsed_d");
    reveal_strlit("elapsed_days");
    reveal_strlit("limit");
    reveal_strlit("limit_ns");
    reveal_strlit("limit_nanos");
    reveal_strlit("limit_nanoseconds");
    reveal_strlit("limit_us");
    reveal_strlit("limit_micros");
    reveal_strlit("limit_microseconds");
    reveal_strlit("limit_ms");
    reveal_strlit("limit_millis");
    reveal_strlit("limit_milliseconds");
    assert("elapsed"@.len() == 7);
    assert("elapsed_ns"@.len() == 10);
    assert("elapsed_nanos"@.len() == 13);
    assert("elapsed_nanoseconds"@.len() == 19);
    assert("elapsed_us"@.len() == 10);
    assert("elapsed_micros"@.len() == 14);
    assert("elapsed_microseconds"@.len() == 20);
    assert("elapsed_ms"@.len() == 10);
    assert("elapsed_millis"@.len() == 14);
    assert("elapsed_milliseconds"@.len() == 20);
    assert("elapsed_s"@.len() == 9);
    assert("elapsed_secs"@.len() == 12);
    assert("elapsed_seconds"@.len() == 15);
    assert("elapsed_m"@.len() == 9);
    assert("elapsed_min"@.len() == 11);
    assert("elapsed_minutes"@.len() == 15);
    assert("elapsed_h"@.len() == 9);
    assert("elapsed_hours"@.len() == 13);
    assert("elapsed_d"@.len() == 9);
    assert("elapsed_days"@.len() == 12);
    assert("limit"@.len() == 5);
    assert("limit_ns"@.len() == 8);
    assert("limit_nanos"@.len() == 11);
    assert("limit_nanoseconds"@.len() == 17);
    assert("limit_us"@.len() == 8);
    assert("limit_micros"@.len() == 12);
    assert("limit_microseconds"@.len() == 18);
    assert("limit_ms"@.len() == 8);
    assert("limit_millis"@.len() == 12);
    assert("limit_milliseconds"@.len() == 18);
    assert("limit_ns"@[6] == 'n' && "limit_ms"@[6] == 'm');
    assert("limit_ms"@ != "limit_ns"@);
    assert("limit_us"@[6] == 'u' && "limit_ms"@[6] == 'm');
    assert("limit_ms"@ != "limit_us"@);
    assert("elapsed_secs"@[0] == 'e' && "limit_millis"@[0] == 'l');
    assert("limit_millis"@ != "elapsed_secs"@);
    assert("elapsed_days"@[0] == 'e' && "limit_millis"@[0] == 'l');
    assert("limit_millis"@ != "elapsed_days"@);
    assert("limit_micros"@[8] == 'c' && "limit_millis"@[8] == 'l');
    assert("limit_millis"@ != "limit_micros"@);
    assert("limit_microseconds"@[8] == 'c' && "limit_milliseconds"@[8] == 'l');
    assert("limit_milliseconds"@ != "limit_microseconds"@);
}

/// The names of one canonical unit all resolve to its value.
proof fn lemma_bindings_limit_s(ctx: ExecutionContext)
    ensures
        spec_numeric_binding(ctx, "limit_s"@) == Some(ctx.limit_s),
        spec_numeric_binding(ctx, "limit_secs"@) == Some(ctx.limit_s),
        spec_numeric_binding(ctx, "limit_seconds"@) == Some(ctx.limit_s),
{
    reveal_strlit("elapsed");
    reveal_strlit("elapsed_ns");
    reveal_strlit("elapsed_nanos");
    reveal_strlit("elapsed_nanoseconds");
    reveal_strlit("elapsed_us");
    reveal_strlit("elapsed_micros");
    reveal_strlit("elapsed_microseconds");
    reveal_strlit("elapsed_ms");
    reveal_strlit("elapsed_millis");
    reveal_strlit("elapsed_milliseconds");
    reveal_strlit("elapsed_s");
    reveal_strlit("elapsed_secs");
    reveal_strlit("elapsed_seconds");
    reveal_strlit("elapsed_m");
    reveal_strlit("elapsed_min");
    reveal_strlit("elapsed_minutes");
    reveal_strlit("elapsed_h");
    reveal_strlit("elapsed_hours");
    reveal_strlit("elapsed_d");
    reveal_strlit("elapsed_days");
    reveal_strlit("limit");
    reveal_strlit("limit_ns");
    reveal_strlit("limit_nanos");
    reveal_strlit("limit_nanoseconds");
    reveal_strlit("limit_us");
    reveal_strlit("limit_micros");
    reveal_strlit("limit_microseconds");
    reveal_strlit("limit_ms");
    reveal_strlit("limit_millis");
    reveal_strlit("limit_milliseconds");
    reveal_strlit("limit_s");
    reveal_strlit("limit_secs");
    reveal_strlit("limit_seconds");
    assert("elapsed"@.len() == 7);
    assert("elapsed_ns"@.len() == 10);
    assert("elapsed_nanos"@.len() == 13);
    assert("elapsed_nanoseconds"@.len() == 19);
    assert("elapsed_us"@.len() == 10);
    assert("elapsed_micros"@.len() == 14);
    assert("elapsed_microseconds"@.len() == 20);
    assert("elapsed_ms"@.len() == 10);
    assert("elapsed_millis"@.len() == 14);
    assert("elapsed_milliseconds"@.len() == 20);
    assert("elapsed_s"@.len() == 9);
    assert("elapsed_secs"@.len() == 12);
    assert("elapsed_seconds"@.len() == 15);
    assert("elapsed_m"@.len() == 9);
    assert("elapsed_min"@.len() == 11);
    assert("elapsed_minutes"@.len() == 15);
    assert("elapsed_h"@.len() == 9);
    assert("elapsed_hours"@.len() == 13);
    assert("elapsed_d"@.len() == 9);
    assert("elapsed_days"@.len() == 12);
    assert("limit"@.len() == 5);
    assert("limit_ns"@.len() == 8);
    assert("limit_nanos"@.len() == 11);
    assert("limit_nanoseconds"@.len() == 17);
    assert("limit_us"@.len() == 8);
    assert("limit_micros"@.len() == 12);
    assert("limit_microseconds"@.len() == 18);
    assert("limit_ms"@.len() == 8);
    assert("limit_millis"@.len() == 12);
    assert("limit_milliseconds"@.len() == 18);
    assert("limit_s"@.len() == 7);
    assert("limit_secs"@.len() == 10);
    assert("limit_seconds"@.len() == 13);
    assert("elapsed"@[0] == 'e' && "limit_s"@[0] == 'l');
    assert("limit_s"@ != "elapsed"@);
    assert("elapsed_ns"@[0] == 'e' && "limit_secs"@[0] == 'l');
    assert("limit_secs"@ != "elapsed_ns"@);
    assert("elapsed_us"@[0] == 'e' && "limit_secs"@[0] == 'l');
    assert("limit_secs"@ != "elapsed_us"@);
    assert("elapsed_ms"@[0] == 'e' && "limit_secs"@[0] == 'l');
    assert("limit_secs"@ != "elapsed_ms"@);
    assert("elapsed_nanos"@[0] == 'e' && "limit_seconds"@[0] == 'l');
    assert("limit_seconds"@ != "elapsed_nanos"@);
    assert("elapsed_hours"@[0] == 'e' && "limit_seconds"@[0] == 'l');
    assert("limit_seconds"@ != "elapsed_hours"@);
}

/// The names of one canonical unit all resolve to its value.
proof fn lemma_bindings_limit_m(ctx: ExecutionContext)
    ensures
        spec_numeric_binding(ctx, "limit_m"@) == Some(ctx.limit_m),
        spec_numeric_binding(ctx, "limit_min"@) == Some(ctx.limit_m),
        spec_numeric_binding(ctx, "limit_minutes"@) == Some(ctx.limit_m),
{
    reveal_strlit("elapsed");
    reveal_strlit("elapsed_ns");
    reveal_strlit("elapsed_nanos");
    reveal_strlit("elapsed_nanoseconds");
    reveal_strlit("elapsed_us");
    reveal_strlit("elapsed_micros");
    reveal_strlit("elapsed_microseconds");
    reveal_strlit("elapsed_ms");
    reveal_strlit("elapsed_millis");
    reveal_strlit("elapsed_milliseconds");
    reveal_strlit("elapsed_s");
    reveal_strlit("elapsed_secs");
    reveal_strlit("elapsed_seconds");
    reveal_strlit("elapsed_m");
    reveal_strlit("elapsed_min");
    reveal_strlit("elapsed_minutes");
    reveal_strlit("elapsed_h");
    reveal_strlit("elapsed_hours");
    reveal_strlit("elapsed_d");
    reveal_strlit("elapsed_days");
    reveal_strlit("limit");
    reveal_strlit("limit_ns");
    reveal_strlit("limit_nanos");
    reveal_strlit("limit_nanoseconds");
    reveal_strlit("limit_us");
    reveal_strlit("limit_micros");
    reveal_strlit("limit_microseconds");
    reveal_strlit("limit_ms");
    reveal_strlit("limit_millis");
    reveal_strlit("limit_milliseconds");
    reveal_strlit("limit_s");
    reveal_strlit("limit_secs");
    reveal_strlit("limit_seconds");
    reveal_strlit("limit_m");
    reveal_strlit("limit_min");
    reveal_strlit("limit_minutes");
    assert("elapsed"@.len() == 7);
    assert("elapsed_ns"@.len() == 10);
    assert("elapsed_nanos"@.len() == 13);
    assert("elapsed_nanoseconds"@.len() == 19);
    assert("elapsed_us"@.len() == 10);
    assert("elapsed_micros"@.len() == 14);
    assert("elapsed_microseconds"@.len() == 20);
    assert("elapsed_ms"@.len() == 10);
    assert("elapsed_millis"@.len() == 14);
    assert("elapsed_milliseconds"@.len() == 20);
    assert("elapsed_s"@.len() == 9);
    assert("elapsed_secs"@.len() == 12);
    assert("elapsed_seconds"@.len() == 15);
    assert("elapsed_m"@.len() == 9);
    assert("elapsed_min"@.len() == 11);
    assert("elapsed_minutes"@.len() == 15);
    assert("elapsed_h"@.len() == 9);
    assert("elapsed_hours"@.len() == 13);
    assert("elapsed_d"@.len() == 9);
    assert("elapsed_days"@.len() == 12);
    assert("limit"@.len() == 5);
    assert("limit_ns"@.len() == 8);
    assert("limit_nanos"@.len() == 11);
    assert("limit_nanoseconds"@.len() == 17);
    assert("limit_us"@.len() == 8);
    assert("limit_micros"@.len() == 12);
    assert("limit_microseconds"@.len() == 18);
    assert("limit_ms"@.len() == 8);
    assert("limit_millis"@.len() == 12);
    assert("limit_milliseconds"@.len() == 18);
    assert("limit_s"@.len() == 7);
    assert("limit_secs"@.len() == 10);
    assert("limit_seconds"@.len() == 13);
    assert("limit_m"@.len() == 7);
    assert("limit_min"@.len() == 9);
    assert("limit_minutes"@.len() == 13);
    assert("elapsed"@[0] == 'e' && "limit_m"@[0] == 'l');
    assert("limit_m"@ != "elapsed"@);
    assert("limit_s"@[6] == 's' && "limit_m"@[6] == 'm');
    assert("limit_m"@ != "limit_s"@);
    assert("elapsed_s"@[0] == 'e' && "limit_min"@[0] == 'l');
    assert("limit_min"@ != "elapsed_s"@);
    assert("elapsed_m"@[0] == 'e' && "limit_min"@[0] == 'l');
    assert("limit_min"@ != "elapsed_m"@);
    assert("elapsed_h"@[0] == 'e' && "limit_min"@[0] == 'l');
    assert("limit_min"@ != "elapsed_h"@);
    assert("elapsed_d"@[0] == 'e' && "limit_min"@[0] == 'l');
    assert("limit_min"@ != "elapsed_d"@);
    assert("elapsed_nanos"@[0] == 'e' && "limit_minutes"@[0] == 'l');
    assert("limit_minutes"@ != "elapsed_nanos"@);
    assert("elapsed_hours"@[0] == 'e' && "limit_minutes"@[0] == 'l');
    assert("limit_minutes"@ != "elapsed_hours"@);
    assert("limit_seconds"@[6] == 's' && "limit_minutes"@[6] == 'm');
    assert("limit_minutes"@ != "limit_seconds"@);
}

/// The names of one canonical unit all resolve to its value.
proof fn lemma_bindings_limit_h(ctx: ExecutionContext)
    ensures
        spec_numeric_binding(ctx, "limit_h"@) == Some(ctx.limit_h),
        spec_numeric_binding(ctx, "limit_hours"@) == Some(ctx.limit_h),
{
    reveal_strlit("elapsed");
    reveal_strlit("elapsed_ns");
    reveal_strlit("elapsed_nanos");
    reveal_strlit("elapsed_nanoseconds");
    reveal_strlit("elapsed_us");
    reveal_strlit("elapsed_micros");
    reveal_strlit("elapsed_microseconds");
    reveal_strlit("elapsed_ms");
    reveal_strlit("elapsed_millis");
    reveal_strlit("elapsed_milliseconds");
    reveal_strlit("elapsed_s");
    reveal_strlit("elapsed_secs");
    reveal_strlit("elapsed_seconds");
    reveal_strlit("elapsed_m");
    reveal_strlit("elapsed_min");
    reveal_strlit("elapsed_minutes");
    reveal_strlit("elapsed_h");
    reveal_strlit("elapsed_hours");
    reveal_strlit("elapsed_d");
    reveal_strlit("elapsed_days");
    reveal_strlit("limit");
    reveal_strlit("limit_ns");
    reveal_strlit("limit_nanos");
    reveal_strlit("limit_nanoseconds");
    reveal_strlit("limit_us");
    reveal_strlit("limit_micros");
    reveal_strlit("limit_microseconds");
    reveal_strlit("limit_ms");
    reveal_strlit("limit_millis");
    reveal_strlit("limit_milliseconds");
    reveal_strlit("limit_s");
    reveal_strlit("limit_secs");
    reveal_strlit("limit_seconds");
    reveal_strlit("limit_m");
    reveal_strlit("limit_min");
    reveal_strlit("limit_minutes");
    reveal_strlit("limit_h");
    reveal_strlit("limit_hours");
    assert("elapsed"@.len() == 7);
    assert("elapsed_ns"@.len() == 10);
    assert("elapsed_nanos"@.len() == 13);
    assert("elapsed_nanoseconds"@.len() == 19);
    assert("elapsed_us"@.len() == 10);
    assert("elapsed_micros"@.len() == 14);
    assert("elapsed_microseconds"@.len() == 20);
    assert("elapsed_ms"@.len() == 10);
    assert("elapsed_millis"@.len() == 14);
    assert("elapsed_milliseconds"@.len() == 20);
    assert("elapsed_s"@.len() == 9);
    assert("elapsed_secs"@.len() == 12);
    assert("elapsed_seconds"@.len() == 15);
    assert("elapsed_m"@.len() == 9);
    assert("elapsed_min"@.len() == 11);
    assert("elapsed_minutes"@.len() == 15);
    assert("elapsed_h"@.len() == 9);
    assert("elapsed_hours"@.len() == 13);
    assert("elapsed_d"@.len() == 9);
    assert("elapsed_days"@.len() == 12);
    assert("limit"@.len() == 5);
    assert("limit_ns"@.len() == 8);
    assert("limit_nanos"@.len() == 11);
    assert("limit_nanoseconds"@.len() == 17);
    assert("limit_us"@.len() == 8);
    assert("limit_micros"@.len() == 12);
    assert("limit_microseconds"@.len() == 18);
    assert("limit_ms"@.len() == 8);
    assert("limit_millis"@.len() == 12);
    assert("limit_milliseconds"@.len() == 18);
    assert("limit_s"@.len() == 7);
    assert("limit_secs"@.len() == 10);
    assert("limit_seconds"@.len() == 13);
    assert("limit_m"@.len() == 7);
    assert("limit_min"@.len() == 9);
    assert("limit_minutes"@.len() == 13);
    assert("limit_h"@.len() == 7);
    assert("limit_hours"@.len() == 11);
    assert("elapsed"@[0] == 'e' && "limit_h"@[0] == 'l');
    assert("limit_h"@ != "elapsed"@);
    assert("limit_s"@[6] == 's' && "limit_h"@[6] == 'h');
    assert("limit_h"@ != "limit_s"@);
    assert("limit_m"@[6] == 'm' && "limit_h"@[6] == 'h');
    assert("limit_h"@ != "limit_m"@);
    assert("elapsed_min"@[0] == 'e' && "limit_hours"@[0] == 'l');
    assert("limit_hours"@ != "elapsed_min"@);
    assert("limit_nanos"@[6] == 'n' && "limit_hours"@[6] == 'h');
    assert("limit_hours"@ != "limit_nanos"@);
}

/// The names of one canonical unit all resolve to its value.
proof fn lemma_bindings_limit_d(ctx: ExecutionContext)
    ensures
        spec_numeric_binding(ctx, "limit_d"@) == Some(ctx.limit_d),
        spec_numeric_binding(ctx, "limit_days"@) == Some(ctx.limit_d),
{
    reveal_strlit("elapsed");
    reveal_strlit("elapsed_ns");
    reveal_strlit("elapsed_nanos");
    reveal_strlit("elapsed_nanoseconds");
    reveal_strlit("elapsed_us");
    reveal_strlit("elapsed_micros");
    reveal_strlit("elapsed_microseconds");
    reveal_strlit("elapsed_ms");
    reveal_strlit("elapsed_millis");
    reveal_strlit("elapsed_milliseconds");
    reveal_strlit("elapsed_s");
    reveal_strlit("elapsed_secs");
    reveal_strlit("elapsed_seconds");
    reveal_strlit("elapsed_m");
    reveal_strlit("elapsed_min");
    reveal_strlit("elapsed_minutes");
    reveal_strlit("elapsed_h");
    reveal_strlit("elapsed_hours");
    reveal_strlit("elapsed_d");
    reveal_strlit("elapsed_days");
    reveal_strlit("limit");
    reveal_strlit("limit_ns");
    reveal_strlit("limit_nanos");
    reveal_strlit("limit_nanoseconds");
    reveal_strlit("limit_us");
    reveal_strlit("limit_micros");
    reveal_strlit("limit_microseconds");
    reveal_strlit("limit_ms");
    reveal_strlit("limit_millis");
    reveal_strlit("limit_milliseconds");
    reveal_strlit("limit_s");
    reveal_strlit("limit_secs");
    reveal_strlit("limit_seconds");
    reveal_strlit("limit_m");
    reveal_strlit("limit_min");
    reveal_strlit("limit_minutes");
    reveal_strlit("limit_h");
    reveal_strlit("limit_hours");
    reveal_strlit("limit_d");
    reveal_strlit("limit_days");
    assert("elapsed"@.len() == 7);
    assert("elapsed_ns"@.len() == 10);
    assert("elapsed_nanos"@.len() == 13);
    assert("elapsed_nanoseconds"@.len() == 19);
    assert("elapsed_us"@.len() == 10);
    assert("elapsed_micros"@.len() == 14);
    assert("elapsed_microseconds"@.len() == 20);
    assert("elapsed_ms"@.len() == 10);
    assert("elapsed_millis"@.len() == 14);
    assert("elapsed_milliseconds"@.len() == 20);
    assert("elapsed_s"@.len() == 9);
    assert("elapsed_secs"@.len() == 12);
    assert("elapsed_seconds"@.len() == 15);
    assert("elapsed_m"@.len() == 9);
    assert("elapsed_min"@.len() == 11);
    assert("elapsed_minutes"@.len() == 15);
    assert("elapsed_h"@.len() == 9);
    assert("elapsed_hours"@.len() == 13);
    assert("elapsed_d"@.len() == 9);
    assert("elapsed_days"@.len() == 12);
    assert("limit"@.len() == 5);
    assert("limit_ns"@.len() == 8);
    assert("limit_nanos"@.len() == 11);
    assert("limit_nanoseconds"@.len() == 17);
    assert("limit_us"@.len() == 8);
    assert("limit_micros"@.len() == 12);
    assert("limit_microseconds"@.len() == 18);
    assert("limit_ms"@.len() == 8);
    assert("limit_millis"@.len() == 12);
    assert("limit_milliseconds"@.len() == 18);
    assert("limit_s"@.len() == 7);
    assert("limit_secs"@.len() == 10);
    assert("limit_seconds"@.len() == 13);
    assert("limit_m"@.len() == 7);
    assert("limit_min"@.len() == 9);
    assert("limit_minutes"@.len() == 13);
    assert("limit_h"@.len() == 7);
    assert("limit_hours"@.len() == 11);
    assert("limit_d"@.len() == 7);
    assert("limit_days"@.len() == 10);
    assert("elapsed"@[0] == 'e' && "limit_d"@[0] == 'l');
    assert("limit_d"@ != "elapsed"@);
    assert("limit_s"@[6] == 's' && "limit_d"@[6] == 'd');
    assert("limit_d"@ != "limit_s"@);
    assert("limit_m"@[6] == 'm' && "limit_d"@[6] == 'd');
    assert("limit_d"@ != "limit_m"@);
    assert("limit_h"@[6] == 'h' && "limit_d"@[6] == 'd');
    assert("limit_d"@ != "limit_h"@);
    assert("elapsed_ns"@[0] == 'e' && "limit_days"@[0] == 'l');
    assert("limit_days"@ != "elapsed_ns"@);
    assert("elapsed_us"@[0] == 'e' && "limit_days"@[0] == 'l');
    assert("limit_days"@ != "elapsed_us"@);
    assert("elapsed_ms"@[0] == 'e' && "limit_days"@[0] == 'l');
    assert("limit_days"@ != "elapsed_ms"@);
    assert("limit_secs"@[6] == 's' && "limit_days"@[6] == 'd');
    assert("limit_days"@ != "limit_secs"@);
}

/// Law: for any context, every alias that shares a canonical unit with
/// another name yields the bit-identical value.
pub proof fn lemma_alias_bindings_agree(ctx: ExecutionContext)
    ensures
        spec_numeric_binding(ctx, "elapsed"@) == spec_numeric_binding(ctx, "elapsed_ns"@),
        spec_numeric_binding(ctx, "elapsed_ns"@) == spec_numeric_binding(ctx, "elapsed_nanos"@),
        spec_numeric_binding(ctx, "elapsed_ns"@) == spec_numeric_binding(
            ctx,
            "elapsed_nanoseconds"@,
        ),
        spec_numeric_binding(ctx, "elapsed_us"@) == spec_numeric_binding(ctx, "elapsed_micros"@),
        spec_numeric_binding(ctx, "elapsed_us"@) == spec_numeric_binding(
            ctx,
            "elapsed_microseconds"@,
        ),
        spec_numeric_binding(ctx, "elapsed_ms"@) == spec_numeric_binding(ctx, "elapsed_millis"@),
        spec_numeric_binding(ctx, "elapsed_ms"@) == spec_numeric_binding(
            ctx,
            "elapsed_milliseconds"@,
        ),
        spec_numeric_binding(ctx, "elapsed_s"@) == spec_numeric_binding(ctx, "elapsed_secs"@),
        spec_numeric_binding(ctx, "elapsed_s"@) == spec_numeric_binding(ctx, "elapsed_seconds"@),
        spec_numeric_binding(ctx, "elapsed_m"@) == spec_numeric_binding(ctx, "elapsed_min"@),
        spec_numeric_binding(ctx, "elapsed_m"@) == spec_numeric_binding(ctx, "elapsed_minutes"@),
        spec_numeric_binding(ctx, "elapsed_h"@) == spec_numeric_binding(ctx, "elapsed_hours"@),
        spec_numeric_binding(ctx, "elapsed_d"@) == spec_numeric_binding(ctx, "elapsed_days"@),
        spec_numeric_binding(ctx, "limit"@) == spec_numeric_binding(ctx, "limit_ns"@),
        spec_numeric_binding(ctx, "limit_ns"@) == spec_numeric_binding(ctx, "limit_nanos"@),
        spec_numeric_binding(ctx, "limit_ns"@) == spec_numeric_binding(ctx, "limit_nanoseconds"@),
        spec_numeric_binding(ctx, "limit_us"@) == spec_numeric_binding(ctx, "limit_micros"@),
        spec_numeric_binding(ctx, "limit_us"@) == spec_numeric_binding(ctx, "limit_microseconds"@),
        spec_numeric_binding(ctx, "limit_ms"@) == spec_numeric_binding(ctx, "limit_millis"@),
        spec_numeric_binding(ctx, "limit_ms"@) == spec_numeric_binding(ctx, "limit_milliseconds"@),
        spec_numeric_binding(ctx, "limit_s"@) == spec_numeric_binding(ctx, "limit_secs"@),
        spec_numeric_binding(ctx, "limit_s"@) == spec_numeric_binding(ctx, "limit_seconds"@),
        spec_numeric_binding(ctx, "limit_m"@) == spec_numeric_binding(ctx, "limit_min"@),
        spec_numeric_binding(ctx, "limit_m"@) == spec_numeric_binding(ctx, "limit_minutes"@),
        spec_numeric_binding(ctx, "limit_h"@) == spec_numeric_binding(ctx, "limit_hours"@),
        spec_numeric_binding(ctx, "limit_d"@) == spec_numeric_binding(ctx, "limit_days"@),
{
    lemma_bindings_elapsed_ns(ctx);
    lemma_bindings_elapsed_us(ctx);
    lemma_bindings_elapsed_ms(ctx);
    lemma_bindings_elapsed_s(ctx);
    lemma_bindings_elapsed_m(ctx);
    lemma_bindings_elapsed_h(ctx);
    lemma_bindings_elapsed_d(ctx);
    lemma_bindings_limit_ns(ctx);
    lemma_bindings_limit_us(ctx);
    lemma_bindings_limit_ms(ctx);
    lemma_bindings_limit_s(ctx);
    lemma_bindings_limit_m(ctx);
    lemma_bindings_limit_h(ctx);
    lemma_bindings_limit_d(ctx);
}

/// The text binding a name denotes.
pub open spec fn spec_text_binding(ctx: ExecutionContext, name: Seq<char>) -> Option<Seq<char>> {
    if name == "module"@ {
        Some(ctx.module@)
    } else if name == "function"@ {
        Some(ctx.function@)
    } else if name == "elapsed_str"@ {
        Some(ctx.elapsed_str@)
    } else if name == "limit_str"@ {
        Some(ctx.limit_str@)
    } else {
        None
    }
}

impl ExecutionContext {
    /// Look a numeric binding up by name.
    pub fn numeric_binding(&self, name: &str) -> (r: Option<u64>)
        ensures
            r == spec_numeric_binding(*self, name@),
    {
        if str_eq(name, "elapsed") || str_eq(name, "elapsed_ns") || str_eq(name, "elapsed_nanos")
            || str_eq(name, "elapsed_nanoseconds") {
            Some(self.elapsed_ns)
        } else if str_eq(name, "elapsed_us") || str_eq(name, "elapsed_micros") || str_eq(
            name,
            "elapsed_microseconds",
        ) {
            Some(self.elapsed_us)
        } else if str_eq(name, "elapsed_ms") || str_eq(name, "elapsed_millis") || str_eq(
            name,
            "elapsed_milliseconds",
        ) {
            Some(self.elapsed_ms)
        } else if str_eq(name, "elapsed_s") || str_eq(name, "elapsed_secs") || str_eq(
            name,
            "elapsed_seconds",
        ) {
            Some(self.elapsed_s)
        } else if str_eq(name, "elapsed_m") || str_eq(name, "elapsed_min") || str_eq(
            name,
            "elapsed_minutes",
        ) {
            Some(self.elapsed_m)
        } else if str_eq(name, "elapsed_h") || str_eq(name, "elapsed_hours") {
            Some(self.elapsed_h)
        } else if str_eq(name, "elapsed_d") || str_eq(name, "elapsed_days") {
            Some(self.elapsed_d)
        } else if str_eq(name, "limit") || str_eq(name, "limit_ns") || str_eq(name, "limit_nanos")
            || str_eq(name, "limit_nanoseconds") {
            Some(self.limit_ns)
        } else if str_eq(name, "limit_us") || str_eq(name, "limit_micros") || str_eq(
            name,
            "limit_microseconds",
        ) {
            Some(self.limit_us)
        } else if str_eq(name, "limit_ms") || str_eq(name, "limit_millis") || str_eq(
            name,
            "limit_milliseconds",
        ) {
            Some(self.limit_ms)
        } else if str_eq(name, "limit_s") || str_eq(name, "limit_secs") || str_eq(
            name,
            "limit_seconds",
        ) {
            Some(self.limit_s)
        } else if str_eq(name, "limit_m") || str_eq(name, "limit_min") || str_eq(
            name,
            "limit_minutes",
        ) {
            Some(self.limit_m)
        } else if str_eq(name, "limit_h") || str_eq(name, "limit_hours") {
            Some(self.limit_h)
        } else if str_eq(name, "limit_d") || str_eq(name, "limit_days") {
            Some(self.limit_d)
        } else {
            None
        }
    }

    /// Look a text binding up by name.
    pub fn text_binding(&self, name: &str) -> (r: Option<&String>)
        ensures
            r matches Some(t) ==> spec_text_binding(*self, name@) == Some(t@),
            r is None ==> spec_text_binding(*self, name@) is None,
    {
        if str_eq(name, "module") {
            Some(&self.module)
        } else if str_eq(name, "function") {
            Some(&self.function)
        } else if str_eq(name, "elapsed_str") {
            Some(&self.elapsed_str)
        } else if str_eq(name, "limit_str") {
            Some(&self.limit_str)
        } else {
            None
        }
    }
}


impl ExecutionContext {
    // The named bindings, one getter per name a handler can read. Aliases of
    // one canonical unit return the very same field.
    /// The raw `elapsed` duration, in nanoseconds.
    pub fn elapsed(&self) -> (r: u64)
        ensures
            r == self.elapsed_ns,
    {
        self.elapsed_ns
    }

    pub fn elapsed_ns(&self) -> (r: u64)
        ensures
            r == self.elapsed_ns,
    {
        self.elapsed_ns
    }

    pub fn elapsed_nanos(&self) -> (r: u64)
        ensures
            r == self.elapsed_ns,
    {
        self.elapsed_ns
    }

    pub fn elapsed_nanoseconds(&self) -> (r: u64)
        ensures
            r == self.elapsed_ns,
    {
        self.elapsed_ns
    }

    pub fn elapsed_us(&self) -> (r: u64)
        ensures
            r == self.elapsed_us,
    {
        self.elapsed_us
    }

    pub fn elapsed_micros(&self) -> (r: u64)
        ensures
            r == self.elapsed_us,
    {
        self.elapsed_us
    }

    pub fn elapsed_microseconds(&self) -> (r: u64)
        ensures
            r == self.elapsed_us,
    {
        self.elapsed_us
    }

    pub fn elapsed_ms(&self) -> (r: u64)
        ensures
            r == self.elapsed_ms,
    {
        self.elapsed_ms
    }

    pub fn elapsed_millis(&self) -> (r: u64)
        ensures
            r == self.elapsed_ms,
    {
        self.elapsed_ms
    }

    pub fn elapsed_milliseconds(&self) -> (r: u64)
        ensures
            r == self.elapsed_ms,
    {
        self.elapsed_ms
    }

    pub fn elapsed_s(&self) -> (r: u64)
        ensures
            r == self.elapsed_s,
    {
        self.elapsed_s
    }

    pub fn elapsed_secs(&self) -> (r: u64)
        ensures
            r == self.elapsed_s,
    {
        self.elapsed_s
    }

    pub fn elapsed_seconds(&self) -> (r: u64)
        ensures
            r == self.elapsed_s,
    {
        self.elapsed_s
    }

    pub fn elapsed_m(&self) -> (r: u64)
        ensures
            r == self.elapsed_m,
    {
        self.elapsed_m
    }

    pub fn elapsed_min(&self) -> (r: u64)
        ensures
            r == self.elapsed_m,
    {
        self.elapsed_m
    }

    pub fn elapsed_minutes(&self) -> (r: u64)
        ensures
            r == self.elapsed_m,
    {
        self.elapsed_m
    }

    pub fn elapsed_h(&self) -> (r: u64)
        ensures
            r == self.elapsed_h,
    {
        self.elapsed_h
    }

    pub fn elapsed_hours(&self) -> (r: u64)
        ensures
            r == self.elapsed_h,
    {
        self.elapsed_h
    }

    pub fn elapsed_d(&self) -> (r: u64)
        ensures
            r == self.elapsed_d,
    {
        self.elapsed_d
    }

    pub fn elapsed_days(&self) -> (r: u64)
        ensures
            r == self.elapsed_d,
    {
        self.elapsed_d
    }

    /// The `elapsed` duration rendered in the context's unit.
    pub fn elapsed_string(&self) -> (r: &String)
        ensures
            r@ == self.elapsed_str@,
    {
        &self.elapsed_str
    }

    /// The raw `limit` duration, in nanoseconds.
    pub fn limit(&self) -> (r: u64)
        ensures
            r == self.limit_ns,
    {
        self.limit_ns
    }

    pub fn limit_ns(&self) -> (r: u64)
        ensures
            r == self.limit_ns,
    {
        self.limit_ns
    }

    pub fn limit_nanos(&self) -> (r: u64)
        ensures
            r == self.limit_ns,
    {
        self.limit_ns
    }

    pub fn limit_nanoseconds(&self) -> (r: u64)
        ensures
            r == self.limit_ns,
    {
        self.limit_ns
    }

    pub fn limit_us(&self) -> (r: u64)
        ensures
            r == self.limit_us,
    {
        self.limit_us
    }

    pub fn limit_micros(&self) -> (r: u64)
        ensures
            r == self.limit_us,
    {
        self.limit_us
    }

    pub fn limit_microseconds(&self) -> (r: u64)
        ensures
            r == self.limit_us,
    {
        self.limit_us
    }

    pub fn limit_ms(&self) -> (r: u64)
        ensures
            r == self.limit_ms,
    {
        self.limit_ms
    }

    pub fn limit_millis(&self) -> (r: u64)
        ensures
            r == self.limit_ms,
    {
        self.limit_ms
    }

    pub fn limit_milliseconds(&self) -> (r: u64)
        ensures
            r == self.limit_ms,
    {
        self.limit_ms
    }

    pub fn limit_s(&self) -> (r: u64)
        ensures
            r == self.limit_s,
    {
        self.limit_s
    }

    pub fn limit_secs(&self) -> (r: u64)
        ensures
            r == self.limit_s,
    {
        self.limit_s
    }

    pub fn limit_seconds(&self) -> (r: u64)
        ensures
            r == self.limit_s,
    {
        self.limit_s
    }

    pub fn limit_m(&self) -> (r: u64)
        ensures
            r == self.limit_m,
    {
        self.limit_m
    }

    pub fn limit_min(&self) -> (r: u64)
        ensures
            r == self.limit_m,
    {
        self.limit_m
    }

    pub fn limit_minutes(&self) -> (r: u64)
        ensures
            r == self.limit_m,
    {
        self.limit_m
    }

    pub fn limit_h(&self) -> (r: u64)
        ensures
            r == self.limit_h,
    {
        self.limit_h
    }

    pub fn limit_hours(&self) -> (r: u64)
        ensures
            r == self.limit_h,
    {
        self.limit_h
    }

    pub fn limit_d(&self) -> (r: u64)
        ensures
            r == self.limit_d,
    {
        self.limit_d
    }

    pub fn limit_days(&self) -> (r: u64)
        ensures
            r == self.limit_d,
    {
        self.limit_d
    }

    /// The `limit` duration rendered in the context's unit.
    pub fn limit_string(&self) -> (r: &String)
        ensures
            r@ == self.limit_str@,
    {
        &self.limit_str
    }

    /// The module path of the instrumented callable.
    pub fn module_name(&self) -> (r: &String)
        ensures
            r@ == self.module@,
    {
        &self.module
    }

    /// The name of the instrumented callable.
    pub fn function_name(&self) -> (r: &String)
        ensures
            r@ == self.function@,
    {
        &self.function
    }
}

/// The default handler's one-line message:
/// `Warning: {module}::{function}: ran for {elapsed_str} (limit: {limit_str})`.
pub open spec fn spec_default_message(ctx: ExecutionContext) -> Seq<char> {
    "Warning: "@ + ctx.module@ + "::"@ + ctx.function@ + ": ran for "@ + ctx.elapsed_str@
        + " (limit: "@ + ctx.limit_str@ + ")"@
}

/// Format the default handler's message for a context.
pub fn default_message(ctx: &ExecutionContext) -> (r: String)
    ensures
        r@ == spec_default_message(*ctx),
{
    let mut r = "Warning: ".to_owned();
    r.append(ctx.module.as_str());
    r.append("::");
    r.append(ctx.function.as_str());
    r.append(": ran for ");
    r.append(ctx.elapsed_str.as_str());
    r.append(" (limit: ");
    r.append(ctx.limit_str.as_str());
    r.append(")");
    proof {
        assert(r@ =~= spec_default_message(*ctx));
    }
    r
}


} // verus!
