//! Spans of time, in whole nanoseconds.

use vstd::prelude::*;

verus! {

/// Nanoseconds in a second.
pub const NANOS_PER_SEC: u32 = 1_000_000_000;

/// How the standard library writes a span of `secs` seconds and `nanos` nanoseconds for
/// debugging, such as `120s` or `1.5s`.
pub uninterp spec fn debug_span(secs: u64, nanos: u32) -> Seq<char>;

/// The `Debug` text of `std::time::Duration`, named by [`debug_span`]. The name says
/// that the text depends on the two numbers alone, and nothing else of it.
#[verifier::external_body]
fn format_span(secs: u64, nanos: u32) -> (text: String)
    requires
        nanos < 1_000_000_000,
    ensures
        text@ == debug_span(secs, nanos),
{
    format!("{:?}", std::time::Duration::new(secs, nanos))
}

/// A span of time, or a reading of a clock that only moves forward.
#[derive(Clone, Copy, Debug, PartialEq, Eq)]
pub struct Duration {
    secs: u64,
    nanos: u32,
}

impl View for Duration {
    type V = nat;

    /// The span in nanoseconds.
    closed spec fn view(&self) -> nat {
        (self.secs * 1_000_000_000 + self.nanos) as nat
    }
}

/// The span of `secs` seconds, in nanoseconds.
pub open spec fn seconds(secs: nat) -> nat {
    secs * 1_000_000_000
}

/// The time from `earlier` to `later`, zero when `later` does not come after.
pub open spec fn since(later: nat, earlier: nat) -> nat {
    if later > earlier {
        (later - earlier) as nat
    } else {
        0
    }
}

/// The text for debugging of a span in nanoseconds.
pub open spec fn debug_of(span: nat) -> Seq<char> {
    debug_span((span / 1_000_000_000) as u64, (span % 1_000_000_000) as u32)
}

impl Duration {
    #[verifier::type_invariant]
    spec fn inv(self) -> bool {
        self.nanos < 1_000_000_000
    }

    /// The empty span.
    pub fn zero() -> (d: Duration)
        ensures
            d@ == 0,
    {
        Duration { secs: 0, nanos: 0 }
    }

    /// A span of whole seconds and the nanoseconds beyond them.
    pub fn new(secs: u64, nanos: u32) -> (d: Duration)
        requires
            nanos < NANOS_PER_SEC,
        ensures
            d@ == secs * 1_000_000_000 + nanos,
    {
        Duration { secs, nanos }
    }

    /// A span of whole seconds.
    pub fn from_secs(secs: u64) -> (d: Duration)
        ensures
            d@ == seconds(secs as nat),
    {
        Duration { secs, nanos: 0 }
    }

    /// A span of whole milliseconds.
    pub fn from_millis(millis: u64) -> (d: Duration)
        ensures
            d@ == millis * 1_000_000,
    {
        Duration { secs: millis / 1000, nanos: (millis % 1000) as u32 * 1_000_000 }
    }

    /// The whole seconds of the span.
    pub fn as_secs(&self) -> (secs: u64)
        ensures
            secs == self@ / 1_000_000_000,
    {
        proof {
            use_type_invariant(self);
        }
        self.secs
    }

    /// The nanoseconds beyond the whole seconds of the span.
    pub fn subsec_nanos(&self) -> (nanos: u32)
        ensures
            nanos == self@ % 1_000_000_000,
            nanos < NANOS_PER_SEC,
    {
        proof {
            use_type_invariant(self);
        }
        self.nanos
    }

    /// The time from `earlier` to `self`, zero when `self` does not come after.
    pub fn since(&self, earlier: &Duration) -> (d: Duration)
        ensures
            d@ == since(self@, earlier@),
    {
        proof {
            use_type_invariant(self);
            use_type_invariant(earlier);
        }
        if self.secs < earlier.secs || (self.secs == earlier.secs && self.nanos <= earlier.nanos) {
            Duration { secs: 0, nanos: 0 }
        } else if self.nanos >= earlier.nanos {
            Duration { secs: self.secs - earlier.secs, nanos: self.nanos - earlier.nanos }
        } else {
            Duration {
                secs: self.secs - earlier.secs - 1,
                nanos: 1_000_000_000 - earlier.nanos + self.nanos,
            }
        }
    }

    /// Whether `self` is at least as long as `other`.
    pub fn reaches(&self, other: &Duration) -> (b: bool)
        ensures
            b == (self@ >= other@),
    {
        proof {
            use_type_invariant(self);
            use_type_invariant(other);
        }
        self.secs > other.secs || (self.secs == other.secs && self.nanos >= other.nanos)
    }

    /// The text of the span for debugging, such as `120s`.
    pub fn debug_text(&self) -> (text: String)
        ensures
            text@ == debug_of(self@),
    {
        proof {
            use_type_invariant(self);
        }
        format_span(self.secs, self.nanos)
    }
}

/// The time between two moments is their difference; it is zero when the later does not come
/// after, and times that follow each other add up.
pub proof fn law_time_between_moments(a: nat, b: nat, c: nat)
    ensures
        a <= b ==> since(b, a) == b - a,
        b <= a ==> since(b, a) == 0,
        a <= b <= c ==> since(b, a) + since(c, b) == since(c, a),
        since(a + seconds(b), a) == b * 1_000_000_000,
{
}

/// A span is written by its whole seconds and the nanoseconds beyond them.
pub proof fn law_span_is_written_by_its_parts(secs: u64, nanos: u32)
    requires
        nanos < 1_000_000_000,
    ensures
        debug_of((secs * 1_000_000_000 + nanos) as nat) == debug_span(secs, nanos),
{
    let span = (secs * 1_000_000_000 + nanos) as nat;
    assert(span / 1_000_000_000 == secs && span % 1_000_000_000 == nanos);
}

} // verus!
