//! A "slow call" detector: wraps a callable so that, whenever one of its
//! invocations runs longer than a configured threshold, a handler is invoked
//! with a rich, pre-computed timing context. The wrapped callable's own
//! arguments, result and failure behaviour pass through untouched.
//!
//! The pieces, leaves first: [`TimeUnit`] carries the conversion factors and
//! display symbols; [`parse_threshold`] turns a literal such as `10ms` into a
//! [`ThresholdSpec`] or a [`MalformedThreshold`] error; [`ExecutionContext`]
//! holds every named fact a handler may read, all derived from one elapsed
//! and one limit nanosecond count; [`HandlerSpec`] is the handler resolved at
//! configuration time, the default one writing its message to an injected
//! [`Sink`]; [`slow_function_warning`] applies the [`ActivationMode`] policy
//! and builds the [`WrappedCallable`], whose invocation is behaviorally
//! transparent except for the timing and handler step. A custom handler that
//! fails does so after the inner result is computed and before it is handed
//! back; the failure is not suppressed.

mod activation;
mod clock;
mod context;
mod decimal;
mod handler;
mod text;
mod threshold;
mod time_unit;
mod wrapper;

pub use activation::ActivationMode;
pub use context::ExecutionContext;
pub use context::default_message;
pub use decimal::decimal_string;
pub use decimal::render_ns;
pub use handler::HandlerSpec;
pub use handler::Sink;
pub use threshold::MalformedThreshold;
pub use threshold::ThresholdSpec;
pub use threshold::parse_threshold;
pub use time_unit::TimeUnit;
pub use time_unit::convert_ns;
pub use wrapper::Instrumentation;
pub use wrapper::MaybeInstrumented;
pub use wrapper::WrappedCallable;
pub use wrapper::slow_function_warning;
