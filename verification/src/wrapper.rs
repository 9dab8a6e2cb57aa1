use vstd::prelude::*;

use crate::activation::{spec_active, ActivationMode};
use crate::clock::{monotonic_now, nanos_since};
use crate::context::{default_message, ExecutionContext};
use crate::handler::{handler_accepts, HandlerSpec, Sink};
use crate::threshold::{parse_threshold, spec_parse, MalformedThreshold, ThresholdSpec};
use crate::time_unit::TimeUnit;

verus! {

/// Strict threshold comparison: a call is slow only when it ran for more than
/// the limit; a call that takes exactly the threshold does not trigger.
pub open spec fn spec_exceeds(elapsed_ns: u64, limit_ns: nat) -> bool {
    elapsed_ns > limit_ns
}

/// The instrumentation configuration of one wrapped callable: the parsed
/// threshold, the resolved handler, and the identity strings surfaced to the
/// handler. Built once; never mutated afterwards.
pub struct Instrumentation<H> {
    pub threshold: ThresholdSpec,
    pub handler: HandlerSpec<H>,
    pub module: String,
    pub function: String,
}

impl<H: Fn(&ExecutionContext)> Instrumentation<H> {
    pub open spec fn wf(&self) -> bool {
        &&& self.threshold.wf()
        &&& handler_accepts(self.handler)
    }

    /// Evaluate one successfully completed call: compare the elapsed time to
    /// the threshold in nanosecond resolution, strictly; on a violation build
    /// the complete context and run the resolved handler, the default one
    /// writing its message to the injected sink. Returns whether the handler
    /// ran: exactly when the elapsed time exceeds the limit.
    pub fn observe<S: Sink>(&self, elapsed_ns: u64, sink: &mut S) -> (warned: bool)
        requires
            self.wf(),
        ensures
            warned == spec_exceeds(elapsed_ns, self.threshold.spec_ns()),
    {
        let limit_ns: u64 = self.threshold.to_ns();
        if elapsed_ns <= limit_ns {
            return false;
        }
        let ctx = ExecutionContext::new(
            self.module.clone(),
            self.function.clone(),
            elapsed_ns,
            &self.threshold,
        );
        match &self.handler {
            HandlerSpec::Custom(h) => h(&ctx),
            HandlerSpec::Default => {
                let msg = default_message(&ctx);
                sink.emit(msg.as_str());
            },
        }
        true
    }
}

/// The externally visible artifact: owns the original callable and its
/// instrumentation. Created once when instrumentation is configured; never
/// mutated afterwards, so it is safe to invoke from several threads when the
/// callable itself is.
pub struct WrappedCallable<F, H> {
    pub callable: F,
    pub instr: Instrumentation<H>,
}

impl<F, H: Fn(&ExecutionContext)> WrappedCallable<F, H> {
    pub open spec fn wf(&self) -> bool {
        self.instr.wf()
    }

    /// Invoke the wrapped callable: capture a monotonic start reading, call
    /// the original with the exact argument received, evaluate the threshold
    /// on completion, and hand the original's result back unchanged. The
    /// result is one the original callable itself could have returned on this
    /// argument.
    pub fn invoke<A, R, S: Sink>(&self, arg: A, sink: &mut S) -> (r: R) where F: Fn(A) -> R
        requires
            self.wf(),
            call_requires(self.callable, (arg,)),
        ensures
            call_ensures(self.callable, (arg,), r),
    {
        let start = monotonic_now();
        let r = (self.callable)(arg);
        let elapsed_ns: u64 = nanos_since(&start);
        self.instr.observe(elapsed_ns, sink);
        r
    }

    /// Invoke a fallible wrapped callable: a failure propagates unchanged and
    /// unconditionally skips threshold evaluation and handler invocation,
    /// however long the call ran before failing.
    pub fn invoke_fallible<A, T, E, S: Sink>(&self, arg: A, sink: &mut S) -> (r: Result<
        T,
        E,
    >) where F: Fn(A) -> Result<T, E>
        requires
            self.wf(),
            call_requires(self.callable, (arg,)),
        ensures
            call_ensures(self.callable, (arg,), r),
    {
        let start = monotonic_now();
        let r = (self.callable)(arg);
        if r.is_err() {
            return r;
        }
        let elapsed_ns: u64 = nanos_since(&start);
        self.instr.observe(elapsed_ns, sink);
        r
    }
}

/// What the activation policy yields: either the original callable,
/// completely unmodified, or the instrumented wrapper.
pub enum MaybeInstrumented<F, H> {
    Original(F),
    Instrumented(WrappedCallable<F, H>),
}

impl<F, H: Fn(&ExecutionContext)> MaybeInstrumented<F, H> {
    pub open spec fn wf(&self) -> bool {
        match self {
            MaybeInstrumented::Original(_) => true,
            MaybeInstrumented::Instrumented(w) => w.wf(),
        }
    }

    /// The callable that actually runs on a call, instrumented or not.
    pub open spec fn spec_callable(&self) -> F {
        match self {
            MaybeInstrumented::Original(f) => *f,
            MaybeInstrumented::Instrumented(w) => w.callable,
        }
    }

    /// Invoke whichever the policy produced. An uninstrumented callable is
    /// called directly, with no timing work at all.
    pub fn call<A, R, S: Sink>(&self, arg: A, sink: &mut S) -> (r: R) where F: Fn(A) -> R
        requires
            self.wf(),
            call_requires(self.spec_callable(), (arg,)),
        ensures
            call_ensures(self.spec_callable(), (arg,), r),
    {
        match self {
            MaybeInstrumented::Original(f) => f(arg),
            MaybeInstrumented::Instrumented(w) => w.invoke(arg, sink),
        }
    }

    /// Invoke whichever the policy produced, for a fallible callable.
    pub fn call_fallible<A, T, E, S: Sink>(&self, arg: A, sink: &mut S) -> (r: Result<
        T,
        E,
    >) where F: Fn(A) -> Result<T, E>
        requires
            self.wf(),
            call_requires(self.spec_callable(), (arg,)),
        ensures
            call_ensures(self.spec_callable(), (arg,), r),
    {
        match self {
            MaybeInstrumented::Original(f) => f(arg),
            MaybeInstrumented::Instrumented(w) => w.invoke_fallible(arg, sink),
        }
    }
}

/// The threshold a configuration denotes: the parsed literal, or one
/// millisecond when no literal is supplied.
pub open spec fn spec_threshold_of(threshold: Option<&str>) -> ThresholdSpec {
    match threshold {
        Some(s) => spec_parse(s@)->Ok_0,
        None => ThresholdSpec { magnitude: 1, unit: TimeUnit::Milliseconds },
    }
}

/// Configure instrumentation for one callable: parse the threshold literal
/// (one millisecond when none is supplied), take the resolved handler, and
/// apply the activation policy. A malformed threshold prevents construction
/// outright, whatever the activation mode. When the policy declines, the
/// original callable is returned completely unmodified.
pub fn slow_function_warning<F, H: Fn(&ExecutionContext)>(
    callable: F,
    module: String,
    function: String,
    threshold: Option<&str>,
    handler: HandlerSpec<H>,
    activation: ActivationMode,
    debug_build: bool,
) -> (r: Result<MaybeInstrumented<F, H>, MalformedThreshold>)
    requires
        handler_accepts(handler),
    ensures
        r is Ok <==> (match threshold {
            Some(s) => spec_parse(s@) is Ok,
            None => true,
        }),
        r matches Err(e) ==> threshold matches Some(s) && spec_parse(s@) == Err::<
            ThresholdSpec,
            MalformedThreshold,
        >(e),
        r matches Ok(m) ==> m.wf(),
        r matches Ok(m) ==> (!spec_active(activation, debug_build) ==> (m matches
        MaybeInstrumented::Original(g) && g == callable)),
        r matches Ok(m) ==> (spec_active(activation, debug_build) ==> (m matches
        MaybeInstrumented::Instrumented(w) && w.callable == callable && w.instr.threshold
            == spec_threshold_of(threshold) && w.instr.handler == handler && w.instr.module
            == module && w.instr.function == function)),
{
    let parsed: ThresholdSpec = match threshold {
        Some(s) => {
            match parse_threshold(s) {
                Ok(t) => t,
                Err(e) => {
                    return Err(e);
                },
            }
        },
        None => Default::default(),
    };
    if activation.is_active(debug_build) {
        Ok(
            MaybeInstrumented::Instrumented(
                WrappedCallable {
                    callable,
                    instr: Instrumentation { threshold: parsed, handler, module, function },
                },
            ),
        )
    } else {
        Ok(MaybeInstrumented::Original(callable))
    }
}

/// Law: instrumentation is transparent. If the callable, on this argument,
/// can only return one value, then the result handed back by an instrumented
/// invocation (which always satisfies the callable's own postcondition) is
/// that very value.
pub proof fn lemma_wrapper_transparent<A, R, F: Fn(A) -> R>(f: F, arg: A, r: R, v: R)
    requires
        call_ensures(f, (arg,), r),
        forall|y: R| call_ensures(f, (arg,), y) ==> y == v,
    ensures
        r == v,
{
}

} // verus!
