use vstd::prelude::*;

verus! {

/// When instrumentation exists at all: always, only in a debug build, or only
/// in a release build. Resolved once, at configuration time, from an
/// externally supplied build-mode flag; never re-evaluated per call.
#[derive(Clone, Copy, PartialEq, Eq, Structural, Debug)]
pub enum ActivationMode {
    Always,
    DebugOnly,
    ReleaseOnly,
}

/// Whether a mode instruments under a given build-mode flag.
pub open spec fn spec_active(mode: ActivationMode, debug_build: bool) -> bool {
    match mode {
        ActivationMode::Always => true,
        ActivationMode::DebugOnly => debug_build,
        ActivationMode::ReleaseOnly => !debug_build,
    }
}

impl ActivationMode {
    /// Decide whether to instrument under the given build-mode flag.
    pub fn is_active(&self, debug_build: bool) -> (r: bool)
        ensures
            r == spec_active(*self, debug_build),
    {
        match self {
            ActivationMode::Always => true,
            ActivationMode::DebugOnly => debug_build,
            ActivationMode::ReleaseOnly => !debug_build,
        }
    }
}

} // verus!
