//! Lengths of time.

use vstd::prelude::*;
use vstd::string::*;

verus! {

/// Nanoseconds in a second.
pub const NANOS_PER_SEC: u32 = 1_000_000_000;

/// A length of time: whole seconds, and nanoseconds below one second.
#[derive(Debug, Clone, Copy, PartialEq, Eq, Structural)]
pub struct TimeSpan {
    secs: u64,
    nanos: u32,
}

/// How `std::time::Duration` of `secs` seconds and `nanos` nanoseconds prints for debugging.
pub uninterp spec fn duration_debug(secs: u64, nanos: u32) -> Seq<char>;

/// Prints `std::time::Duration::new(secs, nanos)` with its `Debug` form. `Duration::new` carries
/// excess nanoseconds into the seconds and panics where the seconds overflow; below one second of
/// nanoseconds there is nothing to carry. The text depends on the two numbers alone.
#[verifier::external_body]
fn duration_debug_text(secs: u64, nanos: u32) -> (text: String)
    requires
        nanos < 1_000_000_000,
    ensures
        text@ == duration_debug(secs, nanos),
{
    format!("{:?}", std::time::Duration::new(secs, nanos))
}

impl TimeSpan {
    #[verifier::type_invariant]
    spec fn below_one_second(self) -> bool {
        self.nanos < NANOS_PER_SEC
    }

    /// The whole seconds.
    pub closed spec fn spec_secs(self) -> u64 {
        self.secs
    }

    /// The nanoseconds below one second.
    pub closed spec fn spec_nanos(self) -> u32 {
        self.nanos
    }

    /// The length in nanoseconds.
    pub open spec fn as_nanos(self) -> int {
        self.spec_secs() * NANOS_PER_SEC + self.spec_nanos()
    }

    /// The debugging text of the span.
    pub open spec fn text(self) -> Seq<char> {
        duration_debug(self.spec_secs(), self.spec_nanos())
    }

    /// A span of `secs` seconds and `nanos` nanoseconds, where the latter are below one second.
    pub fn from_parts(secs: u64, nanos: u32) -> (span: Option<TimeSpan>)
        ensures
            span is Some <==> nanos < NANOS_PER_SEC,
            span matches Some(s) ==> s.spec_secs() == secs && s.spec_nanos() == nanos,
    {
        if nanos < NANOS_PER_SEC {
            Some(TimeSpan { secs, nanos })
        } else {
            None
        }
    }

    /// A span of `millis` milliseconds.
    pub fn from_millis(millis: u64) -> (span: TimeSpan)
        ensures
            span.as_nanos() == millis * 1_000_000,
            span.spec_nanos() < NANOS_PER_SEC,
    {
        let secs: u64 = millis / 1000;
        let nanos: u32 = ((millis % 1000) * 1_000_000) as u32;
        assert(secs * NANOS_PER_SEC + nanos == millis * 1_000_000);
        TimeSpan { secs, nanos }
    }

    /// The whole seconds.
    pub fn secs(&self) -> (secs: u64)
        ensures
            secs == self.spec_secs(),
    {
        self.secs
    }

    /// The nanoseconds below one second.
    pub fn subsec_nanos(&self) -> (nanos: u32)
        ensures
            nanos == self.spec_nanos(),
            nanos < NANOS_PER_SEC,
    {
        proof {
            use_type_invariant(*self);
        }
        self.nanos
    }

    /// Whether the span is empty.
    pub fn is_zero(&self) -> (zero: bool)
        ensures
            zero == (self.as_nanos() == 0),
    {
        self.secs == 0 && self.nanos == 0
    }

    /// Whether the span is at least as long as `other`.
    pub fn at_least(&self, other: &TimeSpan) -> (res: bool)
        ensures
            res == (self.as_nanos() >= other.as_nanos()),
    {
        proof {
            use_type_invariant(*self);
            use_type_invariant(*other);
        }
        if self.secs != other.secs {
            self.secs > other.secs
        } else {
            self.nanos >= other.nanos
        }
    }

    /// Appends the debugging text of the span.
    pub fn append_debug(&self, out: &mut String)
        ensures
            final(out)@ == old(out)@ + self.text(),
    {
        proof {
            use_type_invariant(*self);
        }
        let text = duration_debug_text(self.secs, self.nanos);
        out.append(text.as_str());
    }
}

/// Spans compare by their length: whole seconds count a thousand million nanoseconds each.
pub proof fn law_spans_compare_by_length(
    a: TimeSpan,
    b: TimeSpan,
    longer: bool,
    zero: bool,
    millis: u64,
    made: TimeSpan,
)
    requires
        call_ensures(TimeSpan::at_least, (&a, &b), longer),
        call_ensures(TimeSpan::is_zero, (&a,), zero),
        call_ensures(TimeSpan::from_millis, (millis,), made),
    ensures
        a.as_nanos() == a.spec_secs() * 1_000_000_000 + a.spec_nanos(),
        longer <==> a.spec_secs() * 1_000_000_000 + a.spec_nanos() >= b.spec_secs() * 1_000_000_000
            + b.spec_nanos(),
        zero <==> a.spec_secs() * 1_000_000_000 + a.spec_nanos() == 0,
        made.spec_secs() * 1_000_000_000 + made.spec_nanos() == millis * 1_000_000,
{
}

/// A span is made of whole seconds and of nanoseconds below one second, and gives them back.
pub proof fn law_spans_give_their_parts_back(
    secs: u64,
    nanos: u32,
    span: Option<TimeSpan>,
    read_secs: u64,
    read_nanos: u32,
)
    requires
        call_ensures(TimeSpan::from_parts, (secs, nanos), span),
        span is Some ==> call_ensures(TimeSpan::secs, (&span->0,), read_secs),
        span is Some ==> call_ensures(TimeSpan::subsec_nanos, (&span->0,), read_nanos),
    ensures
        span is Some <==> nanos < 1_000_000_000,
        span is Some ==> read_secs == secs && read_nanos == nanos,
        span is Some ==> span->0.as_nanos() == secs * 1_000_000_000 + nanos,
{
}

} // verus!
