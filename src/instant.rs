//! Instants on the UTC time line, as whole seconds since the Unix epoch and a
//! sub-second part, with their RFC 3339 text form and the system clock.
use vstd::prelude::*;

verus! {

/// First second that chrono's `DateTime<Utc>` can hold (-262143-01-01T00:00:00Z).
pub const UTC_MIN_SECS: i64 = -8334601315200;

/// Last second that chrono's `DateTime<Utc>` can hold (+262142-12-31T23:59:59Z).
pub const UTC_MAX_SECS: i64 = 8210266876799;

/// First second written with a four-digit year (0000-01-01T00:00:00Z).
pub const TEXT_MIN_SECS: i64 = -62167219200;

/// Last second written with a four-digit year (9999-12-31T23:59:59Z).
pub const TEXT_MAX_SECS: i64 = 253402300799;

/// A point in UTC time: `secs` since 1970-01-01T00:00:00Z and `nanos` into that
/// second. As in chrono, a leap second is the second whose `secs` ends a minute,
/// with `nanos` from 1_000_000_000 up.
#[derive(Clone, Copy, Debug, PartialEq, Eq, Structural)]
pub struct Instant {
    pub secs: i64,
    pub nanos: u32,
}

/// What the RFC 3339 parser makes of a text: the instant as seconds and
/// nanoseconds, or nothing when the text is not an RFC 3339 date-time.
pub uninterp spec fn rfc3339_instant(s: Seq<char>) -> Option<(i64, u32)>;

/// The RFC 3339 text that chrono writes for an instant given as seconds and
/// nanoseconds.
pub uninterp spec fn rfc3339_text(secs: i64, nanos: u32) -> Seq<char>;

/// The instant that an RFC 3339 text stands for, if it is one.
pub open spec fn parsed_instant(s: Seq<char>) -> Option<Instant> {
    match rfc3339_instant(s) {
        Some(p) => Some(Instant::from_pair(p)),
        None => None,
    }
}

impl Instant {
    /// A value that chrono's `DateTime<Utc>` can hold.
    pub open spec fn wf(self) -> bool {
        &&& UTC_MIN_SECS <= self.secs <= UTC_MAX_SECS
        &&& self.nanos < 2_000_000_000
        &&& (self.nanos >= 1_000_000_000 ==> self.secs % 60 == 59)
    }

    /// The instant falls in the years 0000 to 9999, which RFC 3339 text can carry.
    pub open spec fn in_text_range(self) -> bool {
        TEXT_MIN_SECS <= self.secs <= TEXT_MAX_SECS
    }

    /// `self` comes strictly after `other` on the time line.
    pub open spec fn is_after(self, other: Instant) -> bool {
        self.secs > other.secs || (self.secs == other.secs && self.nanos > other.nanos)
    }

    /// The instant built from a (seconds, nanoseconds) pair.
    pub open spec fn from_pair(p: (i64, u32)) -> Instant {
        Instant { secs: p.0, nanos: p.1 }
    }

    pub fn new(secs: i64, nanos: u32) -> (r: Instant)
        ensures
            r == (Instant { secs, nanos }),
    {
        Instant { secs, nanos }
    }

    /// Whether `self` comes strictly after `other`.
    pub fn later_than(&self, other: &Instant) -> (r: bool)
        ensures
            r == self.is_after(*other),
    {
        self.secs > other.secs || (self.secs == other.secs && self.nanos > other.nanos)
    }

    /// Parses an RFC 3339 date-time; `None` when `s` is not one.
    pub fn parse_rfc3339(s: &str) -> (r: Option<Instant>)
        ensures
            r == parsed_instant(s@),
            r matches Some(t) ==> t.wf(),
            forall|t: Instant|
                t.wf() && t.in_text_range() && s@ == #[trigger] rfc3339_text(t.secs, t.nanos)
                    ==> r == Some(t),
    {
        match parse_pair(s) {
            Some(p) => Some(Instant { secs: p.0, nanos: p.1 }),
            None => None,
        }
    }

    /// The RFC 3339 text of the instant, with every digit of the sub-second
    /// part that is needed and the offset written `+00:00`.
    pub fn to_rfc3339(&self) -> (r: String)
        requires
            self.wf(),
        ensures
            r@ == rfc3339_text(self.secs, self.nanos),
    {
        text_of_pair(self.secs, self.nanos)
    }

    /// The current time of the system clock.
    pub fn now() -> (r: Instant)
        ensures
            r.wf(),
    {
        let p = clock_pair();
        Instant { secs: p.0, nanos: p.1 }
    }
}

/// Relies on `chrono::DateTime::parse_from_rfc3339`, read in UTC by
/// `timestamp` and `timestamp_subsec_nanos`. Every `DateTime<Utc>` is one that
/// `DateTime::from_timestamp` rebuilds from those two numbers, and the parser
/// reads back what `to_rfc3339` writes for a year from 0000 to 9999.
#[verifier::external_body]
fn parse_pair(s: &str) -> (r: Option<(i64, u32)>)
    ensures
        r == rfc3339_instant(s@),
        r matches Some(p) ==> Instant::from_pair(p).wf(),
        forall|secs: i64, nanos: u32|
            (Instant { secs, nanos }).wf() && (Instant { secs, nanos }).in_text_range() && s@
                == #[trigger] rfc3339_text(secs, nanos) ==> r == Some((secs, nanos)),
{
    match chrono::DateTime::parse_from_rfc3339(s) {
        Ok(d) => {
            let u = d.with_timezone(&chrono::Utc);
            Some((u.timestamp(), u.timestamp_subsec_nanos()))
        },
        Err(_) => None,
    }
}

/// Relies on `chrono::DateTime::from_timestamp`, which accepts every value
/// that `Instant::wf` admits, and on `DateTime::to_rfc3339`.
#[verifier::external_body]
fn text_of_pair(secs: i64, nanos: u32) -> (r: String)
    requires
        (Instant { secs, nanos }).wf(),
    ensures
        r@ == rfc3339_text(secs, nanos),
{
    chrono::DateTime::from_timestamp(secs, nanos).unwrap().to_rfc3339()
}

/// Relies on chrono's `From<SystemTime> for DateTime<Utc>`, applied to
/// `SystemTime::now`, which takes times before the Unix epoch too; the
/// `DateTime<Utc>` it returns is read by `timestamp` and
/// `timestamp_subsec_nanos`.
#[verifier::external_body]
fn clock_pair() -> (r: (i64, u32))
    ensures
        Instant::from_pair(r).wf(),
{
    let d = chrono::DateTime::<chrono::Utc>::from(std::time::SystemTime::now());
    (d.timestamp(), d.timestamp_subsec_nanos())
}

} // verus!
