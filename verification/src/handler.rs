use vstd::prelude::*;

use crate::context::ExecutionContext;

verus! {

/// The destination the default handler writes its one-line message to: a log
/// stream, a file, a test buffer. The sink is an injected capability; nothing
/// is assumed of what emitting does.
pub trait Sink {
    fn emit(&mut self, line: &str);
}

/// The resolved handler of a wrapped callable: either the default handler,
/// which formats the warning message and writes it to the injected sink, or a
/// caller-supplied callback, which receives the execution context. Resolution
/// happens once, at configuration time.
pub enum HandlerSpec<H> {
    Default,
    Custom(H),
}

/// A custom handler must accept every well-formed context.
pub open spec fn handler_accepts<H: Fn(&ExecutionContext)>(h: HandlerSpec<H>) -> bool {
    match h {
        HandlerSpec::Default => true,
        HandlerSpec::Custom(f) => forall|ctx: &ExecutionContext|
            ctx.wf() ==> #[trigger] call_requires(f, (ctx,)),
    }
}

} // verus!
