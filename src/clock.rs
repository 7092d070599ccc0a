//! Absolute instants as plain values, and the two calls into `time` that
//! produce them: parsing an ISO 8601 text and reading the clock.
use vstd::prelude::*;

use time::format_description::well_known::Iso8601;
use time::OffsetDateTime;

verus! {

/// Nanoseconds in one second.
pub const NANOS_PER_SECOND: u32 = 1_000_000_000;

/// An absolute instant: whole seconds since the Unix epoch (UTC) and the
/// nanoseconds past that second.
#[derive(Clone, Copy, Debug, PartialEq, Eq, Structural)]
pub struct Timestamp {
    pub unix_seconds: i64,
    pub nanosecond: u32,
}

impl Timestamp {
    /// Well formed: the nanosecond part is below one second.
    pub open spec fn wf(&self) -> bool {
        self.nanosecond < NANOS_PER_SECOND
    }

    /// The instant as nanoseconds since the Unix epoch.
    pub open spec fn total_nanos(&self) -> int {
        self.unix_seconds * NANOS_PER_SECOND + self.nanosecond
    }
}

/// What `time` parses from an ISO 8601 text (with its default configuration):
/// `None` where the text is no such instant, else the instant's Unix seconds
/// and nanosecond.
pub uninterp spec fn iso8601_instant(s: Seq<char>) -> Option<(i64, u32)>;

/// Relies on `time::OffsetDateTime::parse` with `Iso8601::DEFAULT`, followed by
/// `unix_timestamp` and `nanosecond` (documented to lie in `0..1_000_000_000`).
#[verifier::external_body]
fn parse_iso8601(s: &str) -> (r: Option<(i64, u32)>)
    ensures
        r == iso8601_instant(s@),
        r matches Some(p) ==> p.1 < NANOS_PER_SECOND,
{
    match OffsetDateTime::parse(s, &Iso8601::DEFAULT) {
        Ok(t) => Some((t.unix_timestamp(), t.nanosecond())),
        Err(_) => None,
    }
}

/// Relies on `time::OffsetDateTime::now_utc`, followed by `unix_timestamp` and
/// `nanosecond` (documented to lie in `0..1_000_000_000`). The value depends on
/// the clock: nothing else is stated of it.
#[verifier::external_body]
fn now_utc() -> (r: (i64, u32))
    ensures
        r.1 < NANOS_PER_SECOND,
{
    let t = OffsetDateTime::now_utc();
    (t.unix_timestamp(), t.nanosecond())
}

/// The instant that a text names, as this library reads it: the parse of `time`.
pub open spec fn instant_of(s: Seq<char>) -> Option<Timestamp> {
    match iso8601_instant(s) {
        Some(p) => Some(Timestamp { unix_seconds: p.0, nanosecond: p.1 }),
        None => None,
    }
}

/// Signed nanoseconds from `now` until `deadline` (negative once it is past).
pub open spec fn nanos_until(deadline: Timestamp, now: Timestamp) -> int {
    deadline.total_nanos() - now.total_nanos()
}

impl Timestamp {
    /// Builds an instant from Unix seconds and a nanosecond part, refusing a
    /// nanosecond part of one second or more.
    pub fn from_unix(unix_seconds: i64, nanosecond: u32) -> (r: Option<Timestamp>)
        ensures
            r == (if nanosecond < NANOS_PER_SECOND {
                Some(Timestamp { unix_seconds, nanosecond })
            } else {
                None
            }),
    {
        if nanosecond < NANOS_PER_SECOND {
            Some(Timestamp { unix_seconds, nanosecond })
        } else {
            None
        }
    }

    /// Parses an ISO 8601 instant, such as `2030-01-01T00:00:00Z`.
    pub fn parse(s: &str) -> (r: Option<Timestamp>)
        ensures
            r == instant_of(s@),
            r matches Some(t) ==> t.wf(),
    {
        match parse_iso8601(s) {
            Some(p) => Some(Timestamp { unix_seconds: p.0, nanosecond: p.1 }),
            None => None,
        }
    }

    /// The current instant, read from the system clock.
    pub fn now() -> (r: Timestamp)
        ensures
            r.wf(),
    {
        let p = now_utc();
        Timestamp { unix_seconds: p.0, nanosecond: p.1 }
    }

    /// Signed nanoseconds from `now` until `self`; never overflows.
    pub fn nanos_until(&self, now: &Timestamp) -> (r: i128)
        ensures
            r as int == nanos_until(*self, *now),
    {
        let secs: i128 = self.unix_seconds as i128 - now.unix_seconds as i128;
        assert(-0x1_0000_0000_0000_0000 <= secs <= 0x1_0000_0000_0000_0000);
        assert(-0x1_0000_0000_0000_0000 * 1_000_000_000 <= secs * 1_000_000_000
            <= 0x1_0000_0000_0000_0000 * 1_000_000_000) by (nonlinear_arith)
            requires
                -0x1_0000_0000_0000_0000 <= secs <= 0x1_0000_0000_0000_0000,
        ;
        let whole: i128 = secs * (NANOS_PER_SECOND as i128);
        whole + (self.nanosecond as i128) - (now.nanosecond as i128)
    }
}

} // verus!
