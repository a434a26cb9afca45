//! Dates and instants: what the bot reads with `chrono`, held as plain numbers.
use chrono::Datelike;
use vstd::prelude::*;

verus! {

/// A point in time in UTC: whole seconds since the Unix epoch and the
/// nanoseconds past that second (above a billion during a leap second).
#[derive(Clone, Copy, Debug, PartialEq, Eq, Structural)]
pub struct Instant {
    pub seconds: i64,
    pub nanos: u32,
}

/// Whether `a` comes strictly before `b`, in the order of chrono's `NaiveDateTime`.
pub open spec fn instant_before(a: Instant, b: Instant) -> bool {
    a.seconds < b.seconds || (a.seconds == b.seconds && a.nanos < b.nanos)
}

impl Instant {
    /// Whether this instant comes strictly before `other`.
    pub fn is_before(&self, other: &Instant) -> (r: bool)
        ensures
            r == instant_before(*self, *other),
    {
        self.seconds < other.seconds || (self.seconds == other.seconds && self.nanos < other.nanos)
    }
}

/// What `chrono::NaiveDate::parse_from_str(text, format)` gives: the year, month
/// and day of the date, or the message of the parse error.
pub uninterp spec fn calendar_date(text: Seq<char>, format: Seq<char>) -> Result<(int, int, int), Seq<char>>;

/// The plain view of a date check's outcome.
pub open spec fn date_check_view(r: Result<(i32, u32, u32), String>) -> Result<(int, int, int), Seq<char>> {
    match r {
        Ok(d) => Ok((d.0 as int, d.1 as int, d.2 as int)),
        Err(m) => Err(m@),
    }
}

/// Calls `chrono::NaiveDate::parse_from_str`; the contract claims only that the
/// outcome is the one named `calendar_date` for these two texts, the date taken
/// apart into year, month and day and the error into its message.
#[verifier::external_body]
pub(crate) fn parse_calendar_date(text: &str, format: &str) -> (r: Result<(i32, u32, u32), String>)
    ensures
        date_check_view(r) == calendar_date(text@, format@),
{
    match chrono::NaiveDate::parse_from_str(text, format) {
        Ok(d) => Ok((d.year(), d.month(), d.day())),
        Err(e) => Err(e.to_string()),
    }
}

/// What `chrono::DateTime::parse_from_rfc3339(text)` gives: the instant in UTC as
/// seconds and nanoseconds, or the message of the parse error.
pub uninterp spec fn rfc3339_instant(text: Seq<char>) -> Result<(int, int), Seq<char>>;

/// The plain view of an instant read from text.
pub open spec fn instant_check_view(r: Result<Instant, String>) -> Result<(int, int), Seq<char>> {
    match r {
        Ok(t) => Ok((t.seconds as int, t.nanos as int)),
        Err(m) => Err(m@),
    }
}

/// Calls `chrono::DateTime::parse_from_rfc3339`; the contract claims only that
/// the outcome is the one named `rfc3339_instant` for this text, the time taken
/// as its UTC timestamp and the error as its message.
#[verifier::external_body]
pub(crate) fn parse_rfc3339(text: &str) -> (r: Result<Instant, String>)
    ensures
        instant_check_view(r) == rfc3339_instant(text@),
{
    match chrono::DateTime::parse_from_rfc3339(text) {
        Ok(t) => Ok(Instant { seconds: t.timestamp(), nanos: t.timestamp_subsec_nanos() }),
        Err(e) => Err(e.to_string()),
    }
}

/// Law: `instant_before` is a strict total order: no instant comes before
/// itself, it is transitive, and of two different instants one comes first.
pub proof fn law_instant_order(a: Instant, b: Instant, c: Instant)
    ensures
        !instant_before(a, a),
        instant_before(a, b) && instant_before(b, c) ==> instant_before(a, c),
        a != b ==> (instant_before(a, b) || instant_before(b, a)),
        instant_before(a, b) ==> !instant_before(b, a),
{
}

} // verus!
