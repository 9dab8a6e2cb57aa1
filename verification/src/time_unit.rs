use vstd::prelude::*;

verus! {

/// A unit of time in which a threshold magnitude or an elapsed duration can
/// be expressed. Every unit has a fixed, non-zero conversion factor to
/// nanoseconds and a display symbol.
#[derive(Clone, Copy, PartialEq, Eq, Structural, Debug)]
pub enum TimeUnit {
    Nanoseconds,
    Microseconds,
    Milliseconds,
    Seconds,
    Minutes,
    Hours,
    Days,
}

/// Conversion factor of a unit to nanoseconds.
pub open spec fn spec_factor_ns(unit: TimeUnit) -> nat {
    match unit {
        TimeUnit::Nanoseconds => 1,
        TimeUnit::Microseconds => 1_000,
        TimeUnit::Milliseconds => 1_000_000,
        TimeUnit::Seconds => 1_000_000_000,
        TimeUnit::Minutes => 60_000_000_000,
        TimeUnit::Hours => 3_600_000_000_000,
        TimeUnit::Days => 86_400_000_000_000,
    }
}

/// A nanosecond count expressed in `unit`, truncating (sub-unit remainders
/// are dropped).
pub open spec fn in_unit(ns: nat, unit: TimeUnit) -> nat {
    ns / spec_factor_ns(unit)
}

/// The display symbol of a unit.
pub open spec fn spec_symbol(unit: TimeUnit) -> Seq<char> {
    match unit {
        TimeUnit::Nanoseconds => "ns"@,
        TimeUnit::Microseconds => "μs"@,
        TimeUnit::Milliseconds => "ms"@,
        TimeUnit::Seconds => "s"@,
        TimeUnit::Minutes => "m"@,
        TimeUnit::Hours => "h"@,
        TimeUnit::Days => "d"@,
    }
}

impl TimeUnit {
    /// The number of nanoseconds in one of this unit.
    pub fn factor_ns(&self) -> (r: u64)
        ensures
            r == spec_factor_ns(*self),
    {
        match self {
            TimeUnit::Nanoseconds => 1,
            TimeUnit::Microseconds => 1_000,
            TimeUnit::Milliseconds => 1_000_000,
            TimeUnit::Seconds => 1_000_000_000,
            TimeUnit::Minutes => 60_000_000_000,
            TimeUnit::Hours => 3_600_000_000_000,
            TimeUnit::Days => 86_400_000_000_000,
        }
    }

    /// The display symbol of this unit.
    pub fn symbol(&self) -> (r: &'static str)
        ensures
            r@ == spec_symbol(*self),
    {
        match self {
            TimeUnit::Nanoseconds => "ns",
            TimeUnit::Microseconds => "μs",
            TimeUnit::Milliseconds => "ms",
            TimeUnit::Seconds => "s",
            TimeUnit::Minutes => "m",
            TimeUnit::Hours => "h",
            TimeUnit::Days => "d",
        }
    }
}

/// Express a nanosecond count in `unit`, truncating.
pub fn convert_ns(ns: u64, unit: TimeUnit) -> (r: u64)
    ensures
        r == in_unit(ns as nat, unit),
{
    let f = unit.factor_ns();
    ns / f
}

} // verus!
