//! Calendar days of transactions.

use vstd::prelude::*;

verus! {

/// The first second of the year 1, in seconds since 1970-01-01T00:00:00Z.
pub const DATE_MIN: i64 = -62_135_596_800;

/// The last second of the year 9999, in seconds since 1970-01-01T00:00:00Z.
pub const DATE_MAX: i64 = 253_402_300_799;

/// The UTC calendar day of the instant `secs` seconds after
/// 1970-01-01T00:00:00Z, written as year, month and day with hyphens between
/// them, as chrono writes it.
pub uninterp spec fn utc_day_text(secs: int) -> Seq<char>;

/// Calls chrono's `DateTime::from_timestamp` with no nanoseconds and, on the
/// instant it returns, `DateTime::format` with `%Y-%m-%d`.
///
/// Trusted: the text is a function of `secs` alone, and chrono has an instant
/// for every second of the years 1 to 9999.
#[verifier::external_body]
fn day_text_of(secs: i64) -> (r: Option<String>)
    ensures
        r matches Some(s) ==> s@ == utc_day_text(secs as int),
        DATE_MIN <= secs <= DATE_MAX ==> r is Some,
{
    match chrono::DateTime::from_timestamp(secs, 0) {
        Some(t) => Some(t.format("%Y-%m-%d").to_string()),
        None => None,
    }
}

/// An instant of the years 1 to 9999, in whole seconds.
#[derive(Clone, Copy, Debug)]
pub struct StatementDate {
    secs: i64,
}

impl StatementDate {
    #[verifier::type_invariant]
    spec fn inv(self) -> bool {
        DATE_MIN <= self.secs <= DATE_MAX
    }

    /// The instant, in seconds since 1970-01-01T00:00:00Z.
    pub closed spec fn secs(self) -> int {
        self.secs as int
    }

    /// The instant `secs` seconds after 1970-01-01T00:00:00Z, or `None` where
    /// that is outside the years 1 to 9999.
    pub fn from_timestamp(secs: i64) -> (r: Option<StatementDate>)
        ensures
            r is Some <==> DATE_MIN <= secs <= DATE_MAX,
            r matches Some(d) ==> d.secs() == secs,
    {
        if DATE_MIN <= secs && secs <= DATE_MAX {
            Some(StatementDate { secs })
        } else {
            None
        }
    }

    /// The instant, in seconds since 1970-01-01T00:00:00Z.
    pub fn timestamp(&self) -> (r: i64)
        ensures
            r == self.secs(),
            DATE_MIN <= r <= DATE_MAX,
    {
        proof {
            use_type_invariant(self);
        }
        self.secs
    }

    /// The calendar day of the instant, as `YYYY-MM-DD`.
    pub fn day_text(&self) -> (r: String)
        ensures
            r@ == utc_day_text(self.secs()),
    {
        proof {
            use_type_invariant(self);
        }
        match day_text_of(self.secs) {
            Some(s) => s,
            None => vstd::pervasive::unreached(),
        }
    }
}

/// The day text of the timestamp `secs`, or `None` where it is outside the
/// years 1 to 9999.
pub fn day_text(secs: i64) -> (r: Option<String>)
    ensures
        r is Some <==> DATE_MIN <= secs <= DATE_MAX,
        r matches Some(s) ==> s@ == utc_day_text(secs as int),
{
    match StatementDate::from_timestamp(secs) {
        Some(d) => Some(d.day_text()),
        None => None,
    }
}

} // verus!
