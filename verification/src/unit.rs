//! Spans of time and the units in which they are shown.

use vstd::prelude::*;
use crate::text::decimal;
use crate::text::decimal_text;

verus! {

/// A span of time in whole nanoseconds, held as whole seconds and the
/// nanoseconds beyond them.
#[derive(Clone, Copy, Debug, PartialEq, Eq)]
pub struct Elapsed {
    secs: u64,
    subsec_nanos: u32,
}

impl View for Elapsed {
    type V = nat;

    /// The whole span in nanoseconds.
    closed spec fn view(&self) -> nat {
        (self.secs * 1_000_000_000 + self.subsec_nanos) as nat
    }
}

impl Elapsed {
    #[verifier::type_invariant]
    closed spec fn within_a_second(self) -> bool {
        self.subsec_nanos < 1_000_000_000
    }

    /// The span of `secs` seconds and `subsec_nanos` nanoseconds, where the
    /// latter are less than a second.
    pub fn new(secs: u64, subsec_nanos: u32) -> (made: Option<Elapsed>)
        ensures
            made is Some <==> subsec_nanos < 1_000_000_000,
            made matches Some(span) ==> span@ == secs * 1_000_000_000 + subsec_nanos,
    {
        if subsec_nanos < 1_000_000_000 {
            Some(Elapsed { secs, subsec_nanos })
        } else {
            None
        }
    }

    /// The whole seconds of the span.
    pub fn as_secs(&self) -> (n: u64)
        ensures
            n == self@ / 1_000_000_000,
    {
        proof {
            use_type_invariant(self);
        }
        self.secs
    }

    /// The nanoseconds beyond the whole seconds.
    pub fn subsec_nanos(&self) -> (n: u32)
        ensures
            n == self@ % 1_000_000_000,
    {
        proof {
            use_type_invariant(self);
        }
        self.subsec_nanos
    }

    /// The whole milliseconds of the span.
    pub fn as_millis(&self) -> (n: u128)
        ensures
            n == self@ / 1_000_000,
    {
        proof {
            use_type_invariant(self);
        }
        let secs: u128 = self.secs as u128;
        let rest: u128 = (self.subsec_nanos / 1_000_000) as u128;
        secs * 1_000 + rest
    }

    /// The whole microseconds of the span.
    pub fn as_micros(&self) -> (n: u128)
        ensures
            n == self@ / 1_000,
    {
        proof {
            use_type_invariant(self);
        }
        let secs: u128 = self.secs as u128;
        let rest: u128 = (self.subsec_nanos / 1_000) as u128;
        secs * 1_000_000 + rest
    }

    /// The span in nanoseconds.
    pub fn as_nanos(&self) -> (n: u128)
        ensures
            n == self@,
    {
        proof {
            use_type_invariant(self);
        }
        let secs: u128 = self.secs as u128;
        let rest: u128 = self.subsec_nanos as u128;
        secs * 1_000_000_000 + rest
    }
}

/// What the standard library writes for a span of `secs` seconds and `nanos`
/// nanoseconds, taken as a floating-point number of seconds and shown with
/// `decimals` digits after the point.
pub uninterp spec fn seconds_text(secs: nat, nanos: nat, decimals: nat) -> Seq<char>;

/// Calls `std::time::Duration::as_secs_f64` and writes the number with
/// `decimals` digits after the point. The contract claims only that the text
/// depends on the three numbers alone; `nanos` stays under a second so that
/// `Duration::new` does not carry.
#[verifier::external_body]
fn seconds_as_text(secs: u64, nanos: u32, decimals: u8) -> (out: String)
    requires
        nanos < 1_000_000_000,
    ensures
        out@ == seconds_text(secs as nat, nanos as nat, decimals as nat),
{
    format!("{:.*}", decimals as usize, std::time::Duration::new(secs, nanos).as_secs_f64())
}

/// The unit in which an elapsed time is shown.
#[derive(Clone, Copy, Debug, PartialEq, Eq, Structural)]
pub enum TimeUnit {
    Seconds,
    Miliseconds,
    Microseconds,
    Nanoseconds,
}

impl Default for TimeUnit {
    fn default() -> (unit: TimeUnit)
        ensures
            unit == TimeUnit::Miliseconds,
    {
        TimeUnit::Miliseconds
    }
}

impl TimeUnit {
    /// The number shown for a span of `nanos` nanoseconds. Seconds are a
    /// floating-point number with six decimals. The other units show the whole
    /// count of the unit, followed by a point and zeros: three for
    /// milliseconds, six for microseconds and nanoseconds.
    pub open spec fn figure(self, nanos: nat) -> Seq<char> {
        match self {
            TimeUnit::Seconds => seconds_text(nanos / 1_000_000_000, nanos % 1_000_000_000, 6),
            TimeUnit::Miliseconds => decimal(nanos / 1_000_000) + ".000"@,
            TimeUnit::Microseconds => decimal(nanos / 1_000) + ".000000"@,
            TimeUnit::Nanoseconds => decimal(nanos) + ".000000"@,
        }
    }

    /// The unit's suffix, with the blank that parts it from the number.
    pub open spec fn suffix(self) -> Seq<char> {
        match self {
            TimeUnit::Seconds => " s"@,
            TimeUnit::Miliseconds => " ms"@,
            TimeUnit::Microseconds => " μs"@,
            TimeUnit::Nanoseconds => " ns"@,
        }
    }

    /// A span of `nanos` nanoseconds as this unit shows it.
    pub open spec fn rendering(self, nanos: nat) -> Seq<char> {
        self.figure(nanos) + self.suffix()
    }

    /// Writes `duration` in this unit: the number, a blank and the suffix.
    pub fn to_string(&self, duration: Elapsed) -> (out: String)
        ensures
            out@ == self.rendering(duration@),
    {
        let figure = match self {
            TimeUnit::Seconds => seconds_as_text(duration.as_secs(), duration.subsec_nanos(), 6),
            TimeUnit::Miliseconds => decimal_text(duration.as_millis()).concat(".000"),
            TimeUnit::Microseconds => decimal_text(duration.as_micros()).concat(".000000"),
            TimeUnit::Nanoseconds => decimal_text(duration.as_nanos()).concat(".000000"),
        };
        let suffix = match self {
            TimeUnit::Seconds => " s",
            TimeUnit::Miliseconds => " ms",
            TimeUnit::Microseconds => " μs",
            TimeUnit::Nanoseconds => " ns",
        };
        figure.concat(suffix)
    }
}

} // verus!
