//! Signed durations and their textual ISO-8601 form.
//!
//! A duration is a whole number of seconds and a sub-second part in
//! nanoseconds whose signs agree. The arithmetic is verified here; printing
//! and parsing are done by `jiff` and are named, not described.

use vstd::prelude::*;

verus! {

pub const NANOS_PER_SEC: i32 = 1_000_000_000;

pub const SECS_PER_MINUTE: i64 = 60;

/// Whether `secs` and `nanos` are the two parts of one signed duration: the
/// sub-second part is less than a second in size and does not point the
/// other way than the seconds.
pub open spec fn balanced(secs: int, nanos: int) -> bool {
    &&& -1_000_000_000 < nanos < 1_000_000_000
    &&& secs > 0 ==> nanos >= 0
    &&& secs < 0 ==> nanos <= 0
}

/// The text that `jiff` prints for the signed duration of `secs` seconds and
/// `nanos` nanoseconds: an ISO-8601 duration such as `PT1H30M`.
pub uninterp spec fn iso_duration_text(secs: i64, nanos: i32) -> Seq<char>;

/// The duration that `jiff` reads out of `text` taken as a span of time in
/// which a day lasts 24 hours, or `None` where `text` is no span or the span
/// has no such duration.
pub uninterp spec fn parsed_duration(text: Seq<char>) -> Option<(i64, i32)>;

/// Prints a duration with `Display` of `jiff::SignedDuration`, built by
/// `jiff::SignedDuration::new`. The parts are balanced, so `new` hands them
/// through unchanged and cannot overflow; the text is the ISO-8601 form that
/// `jiff` defines, which this contract only names.
#[verifier::external_body]
fn print_signed_duration(secs: i64, nanos: i32) -> (text: String)
    requires
        balanced(secs as int, nanos as int),
    ensures
        text@ == iso_duration_text(secs, nanos),
{
    jiff::SignedDuration::new(secs, nanos).to_string()
}

/// Reads a duration with `FromStr` of `jiff::Span` followed by
/// `jiff::Span::to_duration` relative to `SpanRelativeTo::days_are_24_hours`.
/// Either step may fail, and then nothing is returned. A duration that comes
/// back has the parts that `jiff::SignedDuration` reports, which `jiff`
/// documents to agree in sign, the nanoseconds within one second.
#[verifier::external_body]
fn parse_span_duration(text: &str) -> (parts: Option<(i64, i32)>)
    ensures
        parts == parsed_duration(text@),
        parts matches Some((secs, nanos)) ==> balanced(secs as int, nanos as int),
{
    match text.parse::<jiff::Span>() {
        Ok(span) => match span.to_duration(jiff::SpanRelativeTo::days_are_24_hours()) {
            Ok(d) => Some((d.as_secs(), d.subsec_nanos())),
            Err(_) => None,
        },
        Err(_) => None,
    }
}

/// A signed span of time with nanosecond precision.
#[derive(Clone, Copy, Debug, PartialEq, Eq)]
pub struct Duration {
    secs: i64,
    nanos: i32,
}

impl Duration {
    #[verifier::type_invariant]
    spec fn well_formed(self) -> bool {
        balanced(self.secs as int, self.nanos as int)
    }

    /// The whole seconds of the duration.
    pub closed spec fn spec_secs(self) -> i64 {
        self.secs
    }

    /// The sub-second part of the duration, in nanoseconds.
    pub closed spec fn spec_nanos(self) -> i32 {
        self.nanos
    }

    /// The duration with the given parts.
    pub closed spec fn of_parts(secs: i64, nanos: i32) -> Duration {
        Duration { secs, nanos }
    }

    /// A duration is known by its parts.
    pub broadcast proof fn lemma_parts(secs: i64, nanos: i32)
        ensures
            (#[trigger] Self::of_parts(secs, nanos)).spec_secs() == secs,
            Self::of_parts(secs, nanos).spec_nanos() == nanos,
    {
    }

    /// The duration that `text` stands for, where it stands for one.
    pub open spec fn parsed(text: Seq<char>) -> Option<Duration> {
        match parsed_duration(text) {
            Some((secs, nanos)) => Some(Self::of_parts(secs, nanos)),
            None => None,
        }
    }

    /// The length of the duration in nanoseconds.
    pub open spec fn total_nanos(self) -> int {
        self.spec_secs() * 1_000_000_000 + self.spec_nanos()
    }

    /// The duration of no time at all.
    pub fn zero() -> (d: Duration)
        ensures
            d == Self::of_parts(0, 0),
    {
        Duration { secs: 0, nanos: 0 }
    }

    /// The duration with the given parts, where they are balanced.
    pub fn from_parts(secs: i64, nanos: i32) -> (d: Option<Duration>)
        ensures
            d == if balanced(secs as int, nanos as int) {
                Some(Self::of_parts(secs, nanos))
            } else {
                None
            },
    {
        if -NANOS_PER_SEC < nanos && nanos < NANOS_PER_SEC && (secs <= 0 || nanos >= 0) && (secs
            >= 0 || nanos <= 0) {
            Some(Duration { secs, nanos })
        } else {
            None
        }
    }

    /// A whole number of seconds.
    pub fn from_secs(secs: i64) -> (d: Duration)
        ensures
            d == Self::of_parts(secs, 0),
    {
        Duration { secs, nanos: 0 }
    }

    /// A whole number of minutes of 60 seconds each, where the seconds fit.
    pub fn from_mins(mins: i64) -> (d: Option<Duration>)
        ensures
            d == if i64::MIN <= mins * 60 <= i64::MAX {
                Some(Self::of_parts((mins * 60) as i64, 0))
            } else {
                None
            },
    {
        match mins.checked_mul(SECS_PER_MINUTE) {
            Some(secs) => Some(Duration { secs, nanos: 0 }),
            None => None,
        }
    }

    /// The whole seconds of the duration.
    pub fn secs(&self) -> (s: i64)
        ensures
            s == self.spec_secs(),
            balanced(self.spec_secs() as int, self.spec_nanos() as int),
    {
        proof {
            use_type_invariant(self);
        }
        self.secs
    }

    /// The sub-second part of the duration, in nanoseconds.
    pub fn subsec_nanos(&self) -> (n: i32)
        ensures
            n == self.spec_nanos(),
            balanced(self.spec_secs() as int, self.spec_nanos() as int),
    {
        proof {
            use_type_invariant(self);
        }
        self.nanos
    }

    /// The whole minutes in the duration, rounded toward zero.
    pub fn as_mins(&self) -> (m: i64)
        ensures
            self.spec_secs() >= 0 ==> m == self.spec_secs() / 60,
            self.spec_secs() < 0 ==> m == -((-self.spec_secs()) / 60),
    {
        self.secs / SECS_PER_MINUTE
    }

    /// The sum of two durations, where it fits.
    pub fn checked_add(&self, other: &Duration) -> (sum: Option<Duration>)
        ensures
            sum is Some <==> i64::MIN * 1_000_000_000 - 1_000_000_000 < self.total_nanos()
                + other.total_nanos() < (i64::MAX + 1) * 1_000_000_000,
            sum matches Some(d) ==> d.total_nanos() == self.total_nanos() + other.total_nanos(),
    {
        proof {
            use_type_invariant(self);
            use_type_invariant(other);
        }
        // Wide enough for any two durations: the sum is below 2^95 in size.
        let a: i128 = self.secs as i128 * 1_000_000_000 + self.nanos as i128;
        let b: i128 = other.secs as i128 * 1_000_000_000 + other.nanos as i128;
        let total: i128 = a + b;
        let secs: i128 = total / 1_000_000_000;
        let nanos: i128 = total % 1_000_000_000;
        if secs < i64::MIN as i128 || secs > i64::MAX as i128 {
            None
        } else {
            Some(Duration { secs: secs as i64, nanos: nanos as i32 })
        }
    }

    /// The ISO-8601 text of the duration.
    pub fn to_text(&self) -> (text: String)
        ensures
            text@ == iso_duration_text(self.spec_secs(), self.spec_nanos()),
    {
        proof {
            use_type_invariant(self);
        }
        print_signed_duration(self.secs, self.nanos)
    }

    /// Reads a duration from the text of a span of time. The text may be in
    /// any form that `jiff` reads; a day counts as 24 hours.
    pub fn parse(text: &str) -> (d: Option<Duration>)
        ensures
            d == Self::parsed(text@),
    {
        match parse_span_duration(text) {
            Some((secs, nanos)) => Some(Duration { secs, nanos }),
            None => None,
        }
    }
}

} // verus!
