use vstd::prelude::*;
use vstd::string::StrSliceExecFns;

use crate::text::str_eq;
use crate::time_unit::{spec_factor_ns, TimeUnit};

verus! {

/// Why a threshold literal was rejected.
#[derive(Clone, Copy, PartialEq, Eq, Structural, Debug)]
pub enum MalformedThreshold {
    /// The literal does not begin with a decimal integer.
    NotAnInteger,
    /// The magnitude does not fit the 64-bit target width.
    MagnitudeTooLarge,
    /// The unit suffix is not one of the recognized suffixes.
    UnrecognizedSuffix,
    /// The magnitude, converted to nanoseconds, exceeds the 64-bit width.
    LimitTooLarge,
}

/// A parsed threshold: a magnitude and the unit it was written in.
/// Immutable once parsed; converts deterministically to nanoseconds.
#[derive(Clone, Copy, PartialEq, Eq, Structural, Debug)]
pub struct ThresholdSpec {
    pub magnitude: u64,
    pub unit: TimeUnit,
}

impl ThresholdSpec {
    /// The threshold in nanoseconds: `magnitude * factor(unit)`.
    pub open spec fn spec_ns(&self) -> nat {
        self.magnitude as nat * spec_factor_ns(self.unit)
    }

    /// A threshold is well formed when its nanosecond count fits in 64 bits;
    /// parsing only ever produces well-formed thresholds.
    pub open spec fn wf(&self) -> bool {
        self.spec_ns() <= u64::MAX
    }

    /// The threshold in nanoseconds.
    pub fn to_ns(&self) -> (r: u64)
        requires
            self.wf(),
        ensures
            r == self.spec_ns(),
    {
        self.magnitude * self.unit.factor_ns()
    }
}

impl Default for ThresholdSpec {
    /// The universal default threshold when none is configured: one millisecond.
    fn default() -> (r: ThresholdSpec)
        ensures
            r == (ThresholdSpec { magnitude: 1, unit: TimeUnit::Milliseconds }),
            r.wf(),
    {
        ThresholdSpec { magnitude: 1, unit: TimeUnit::Milliseconds }
    }
}

/// Whether a character is a decimal digit.
pub open spec fn is_digit(c: char) -> bool {
    c == '0' || c == '1' || c == '2' || c == '3' || c == '4' || c == '5' || c == '6' || c == '7'
        || c == '8' || c == '9'
}

/// The value of a decimal digit character.
pub open spec fn spec_digit_val(c: char) -> nat {
    if c == '0' {
        0
    } else if c == '1' {
        1
    } else if c == '2' {
        2
    } else if c == '3' {
        3
    } else if c == '4' {
        4
    } else if c == '5' {
        5
    } else if c == '6' {
        6
    } else if c == '7' {
        7
    } else if c == '8' {
        8
    } else {
        9
    }
}

/// Whether a character may appear in the magnitude part of a literal:
/// a digit or an underscore separator.
pub open spec fn is_mag_char(c: char) -> bool {
    is_digit(c) || c == '_'
}

/// The length of the maximal leading run of magnitude characters.
pub open spec fn prefix_len(s: Seq<char>) -> int
    decreases s.len(),
{
    if s.len() == 0 || !is_mag_char(s[0]) {
        0
    } else {
        1 + prefix_len(s.drop_first())
    }
}

/// The numeric value of a run of magnitude characters, underscores ignored.
pub open spec fn magnitude_of(s: Seq<char>) -> nat
    decreases s.len(),
{
    if s.len() == 0 {
        0
    } else if s.last() == '_' {
        magnitude_of(s.drop_last())
    } else {
        magnitude_of(s.drop_last()) * 10 + spec_digit_val(s.last())
    }
}

/// The unit a suffix names; an absent suffix defaults to milliseconds.
pub open spec fn spec_unit_of_suffix(s: Seq<char>) -> Option<TimeUnit> {
    if s == ""@ {
        Some(TimeUnit::Milliseconds)
    } else if s == "ns"@ {
        Some(TimeUnit::Nanoseconds)
    } else if s == "us"@ || s == "μs"@ {
        Some(TimeUnit::Microseconds)
    } else if s == "ms"@ {
        Some(TimeUnit::Milliseconds)
    } else if s == "s"@ {
        Some(TimeUnit::Seconds)
    } else if s == "m"@ {
        Some(TimeUnit::Minutes)
    } else if s == "h"@ {
        Some(TimeUnit::Hours)
    } else if s == "d"@ {
        Some(TimeUnit::Days)
    } else {
        None
    }
}

/// What parsing a threshold literal yields: the magnitude is the leading
/// integer, the rest is the unit suffix. The checks mirror the order in which
/// a reader of the literal meets them: integer shape, 64-bit magnitude,
/// recognized suffix, and a nanosecond count that fits 64 bits.
pub open spec fn spec_parse(s: Seq<char>) -> Result<ThresholdSpec, MalformedThreshold> {
    let p = prefix_len(s);
    if s.len() == 0 || !is_digit(s[0]) {
        Err(MalformedThreshold::NotAnInteger)
    } else if magnitude_of(s.subrange(0, p)) > u64::MAX {
        Err(MalformedThreshold::MagnitudeTooLarge)
    } else {
        match spec_unit_of_suffix(s.subrange(p, s.len() as int)) {
            Option::None => Err(MalformedThreshold::UnrecognizedSuffix),
            Option::Some(unit) => if magnitude_of(s.subrange(0, p)) * spec_factor_ns(unit)
                > u64::MAX {
                Err(MalformedThreshold::LimitTooLarge)
            } else {
                Ok(
                    ThresholdSpec {
                        magnitude: magnitude_of(s.subrange(0, p)) as u64,
                        unit,
                    },
                )
            },
        }
    }
}

/// Law: parsing is deterministic — the result is a function of the literal
/// alone — and a parsed threshold is exactly the leading magnitude paired
/// with the suffix's unit, whose nanosecond count is `magnitude *
/// factor(unit)` and fits 64 bits. A literal whose suffix no unit recognizes
/// never parses.
pub proof fn lemma_parse_exact(s: Seq<char>)
    ensures
        spec_parse(s) matches Ok(t) ==> t.magnitude == magnitude_of(
            s.subrange(0, prefix_len(s)),
        ) && Some(t.unit) == spec_unit_of_suffix(s.subrange(prefix_len(s), s.len() as int))
            && t.spec_ns() == t.magnitude * spec_factor_ns(t.unit) && t.wf(),
        spec_unit_of_suffix(s.subrange(prefix_len(s), s.len() as int)) is None ==> spec_parse(
            s,
        ) is Err,
{
}

/// A scan that stopped at the first non-magnitude character found exactly the
/// maximal leading run.
proof fn lemma_prefix_len_characterization(s: Seq<char>, i: int)
    requires
        0 <= i <= s.len(),
        forall|j: int| 0 <= j < i ==> is_mag_char(s[j]),
        i == s.len() || !is_mag_char(s[i]),
    ensures
        prefix_len(s) == i,
    decreases s.len(),
{
    if s.len() == 0 {
    } else if i == 0 {
    } else {
        lemma_prefix_len_characterization(s.drop_first(), i - 1);
    }
}

/// The magnitude of a longer run is never smaller: appending digits only
/// grows the value.
proof fn lemma_magnitude_monotone(s: Seq<char>, i: int)
    requires
        0 <= i <= s.len(),
    ensures
        magnitude_of(s.subrange(0, i)) <= magnitude_of(s),
    decreases s.len() - i,
{
    if i == s.len() {
        assert(s.subrange(0, i) =~= s);
    } else {
        lemma_magnitude_monotone(s, i + 1);
        let a = s.subrange(0, i);
        let b = s.subrange(0, i + 1);
        assert(b.drop_last() =~= a);
        assert(magnitude_of(a) <= magnitude_of(b));
    }
}

/// The value of a decimal digit character, `None` on any other character.
fn digit_of(c: char) -> (r: Option<u64>)
    ensures
        r matches Some(d) ==> is_digit(c) && d == spec_digit_val(c),
        r is None ==> !is_digit(c),
{
    match c {
        '0' => Some(0),
        '1' => Some(1),
        '2' => Some(2),
        '3' => Some(3),
        '4' => Some(4),
        '5' => Some(5),
        '6' => Some(6),
        '7' => Some(7),
        '8' => Some(8),
        '9' => Some(9),
        _ => None,
    }
}

/// Whether a character may appear in the magnitude part of a literal.
fn mag_char(c: char) -> (r: bool)
    ensures
        r == is_mag_char(c),
{
    match c {
        '0' => true,
        '1' => true,
        '2' => true,
        '3' => true,
        '4' => true,
        '5' => true,
        '6' => true,
        '7' => true,
        '8' => true,
        '9' => true,
        '_' => true,
        _ => false,
    }
}

/// The unit a suffix string names.
fn unit_of_suffix(sfx: &str) -> (r: Option<TimeUnit>)
    ensures
        r == spec_unit_of_suffix(sfx@),
{
    if str_eq(sfx, "") {
        Some(TimeUnit::Milliseconds)
    } else if str_eq(sfx, "ns") {
        Some(TimeUnit::Nanoseconds)
    } else if str_eq(sfx, "us") || str_eq(sfx, "μs") {
        Some(TimeUnit::Microseconds)
    } else if str_eq(sfx, "ms") {
        Some(TimeUnit::Milliseconds)
    } else if str_eq(sfx, "s") {
        Some(TimeUnit::Seconds)
    } else if str_eq(sfx, "m") {
        Some(TimeUnit::Minutes)
    } else if str_eq(sfx, "h") {
        Some(TimeUnit::Hours)
    } else if str_eq(sfx, "d") {
        Some(TimeUnit::Days)
    } else {
        None
    }
}

/// Parse a threshold literal of the form `<integer><optional unit suffix>`,
/// e.g. `10ms`, `2us`, `500`, `1_000ns`. An absent suffix means milliseconds.
/// Underscore separators are permitted after the leading digit. Fails exactly
/// when the literal does not start with a digit, the magnitude or the derived
/// nanosecond count does not fit 64 bits, or the suffix is unrecognized.
pub fn parse_threshold(s: &str) -> (r: Result<ThresholdSpec, MalformedThreshold>)
    ensures
        r == spec_parse(s@),
        r matches Ok(t) ==> t.wf(),
{
    let len = s.unicode_len();
    if len == 0 {
        return Err(MalformedThreshold::NotAnInteger);
    }
    let c0 = s.get_char(0);
    if digit_of(c0).is_none() {
        return Err(MalformedThreshold::NotAnInteger);
    }

    // Find the end of the magnitude: the maximal leading run of digits and
    // underscores.
    let mut p: usize = 0;
    loop
        invariant
            len == s@.len(),
            0 <= p <= len,
            forall|j: int| 0 <= j < p ==> is_mag_char(s@[j]),
        ensures
            0 <= p <= len,
            forall|j: int| 0 <= j < p ==> is_mag_char(s@[j]),
            p == len || !is_mag_char(s@[p as int]),
        decreases len - p,
    {
        if p == len {
            break;
        }
        if !mag_char(s.get_char(p)) {
            break;
        }
        p += 1;
    }
    proof {
        lemma_prefix_len_characterization(s@, p as int);
    }

    // Accumulate the magnitude, rejecting a value that does not fit 64 bits.
    let ghost pre = s@.subrange(0, p as int);
    let mut i: usize = 0;
    let mut val: u64 = 0;
    while i < p
        invariant
            len == s@.len(),
            0 <= i <= p <= len,
            forall|j: int| 0 <= j < p ==> is_mag_char(s@[j]),
            is_digit(s@[0]),
            p == prefix_len(s@),
            pre == s@.subrange(0, p as int),
            val == magnitude_of(s@.subrange(0, i as int)),
        decreases p - i,
    {
        let c = s.get_char(i);
        proof {
            assert(s@.subrange(0, i + 1).drop_last() =~= s@.subrange(0, i as int));
        }
        match digit_of(c) {
            Some(d) => {
                let v10 = match val.checked_mul(10) {
                    Some(v) => v,
                    None => {
                        proof {
                            assert(magnitude_of(s@.subrange(0, i + 1)) > u64::MAX);
                            assert(pre.subrange(0, i + 1) =~= s@.subrange(0, i + 1));
                            lemma_magnitude_monotone(pre, i + 1);
                        }
                        return Err(MalformedThreshold::MagnitudeTooLarge);
                    },
                };
                let v = match v10.checked_add(d) {
                    Some(v) => v,
                    None => {
                        proof {
                            assert(magnitude_of(s@.subrange(0, i + 1)) > u64::MAX);
                            assert(pre.subrange(0, i + 1) =~= s@.subrange(0, i + 1));
                            lemma_magnitude_monotone(pre, i + 1);
                        }
                        return Err(MalformedThreshold::MagnitudeTooLarge);
                    },
                };
                val = v;
            },
            None => {
                proof {
                    assert(s@[i as int] == '_');
                }
            },
        }
        i += 1;
    }
    proof {
        assert(s@.subrange(0, i as int) =~= pre);
    }

    // The rest of the literal is the unit suffix.
    let sfx = s.substring_char(p, len);
    proof {
        assert(sfx@ =~= s@.subrange(p as int, len as int));
    }
    match unit_of_suffix(sfx) {
        None => Err(MalformedThreshold::UnrecognizedSuffix),
        Some(unit) => {
            match val.checked_mul(unit.factor_ns()) {
                None => Err(MalformedThreshold::LimitTooLarge),
                Some(_) => Ok(ThresholdSpec { magnitude: val, unit }),
            }
        },
    }
}

} // verus!

