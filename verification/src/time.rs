//! Points in time as the records hold them: a calendar date and a time of
//! day without a time zone, kept as plain numbers and written out by the
//! calendar of the `chrono` crate.

use vstd::pervasive::unreached;
use vstd::prelude::*;

verus! {

/// What `chrono` writes for the date and time that lie `secs` seconds and
/// `nanos` nanoseconds after 1970-01-01 00:00:00, as `NaiveDateTime`
/// displays it (`2016-11-15 07:39:24`, with the fraction of the second where
/// there is one); `None` where `chrono` has no such date and time.
pub uninterp spec fn naive_text(secs: int, nanos: int) -> Option<Seq<char>>;

/// Whether a point in time lies in the years 1 to 9999 and on no leap
/// second: from 0001-01-01 00:00:00 to the last nanosecond of 9999-12-31.
pub open spec fn in_four_digit_years(secs: int, nanos: int) -> bool {
    -62_135_596_800 <= secs <= 253_402_300_799 && 0 <= nanos < 1_000_000_000
}

/// Calls `chrono::DateTime::from_timestamp` and displays the `NaiveDateTime`
/// of the result. Trusted: the text is what the contract names
/// `naive_text`, and there is none exactly where `from_timestamp` returns
/// `None` (seconds out of the calendar's range, or nanoseconds that no
/// second holds). `chrono` has every date from the year 262144 BCE to the
/// year 262142 and takes any nanosecond below a thousand million, so it has
/// every point in time of the years 1 to 9999.
#[verifier::external_body]
fn write_naive(secs: i64, nanos: u32) -> (text: Option<String>)
    ensures
        match text {
            Some(t) => naive_text(secs as int, nanos as int) == Some(t@),
            None => naive_text(secs as int, nanos as int) is None,
        },
        in_four_digit_years(secs as int, nanos as int) ==> text is Some,
{
    match chrono::DateTime::from_timestamp(secs, nanos) {
        Some(at) => Some(at.naive_utc().to_string()),
        None => None,
    }
}

/// A date and time of day without a time zone: seconds since 1970-01-01
/// 00:00:00, and nanoseconds since the last whole second. Every value is one
/// that the calendar can write out.
#[derive(Clone, Copy, Debug, PartialEq, Eq)]
pub struct Timestamp {
    secs: i64,
    nanos: u32,
}

impl Timestamp {
    #[verifier::type_invariant]
    spec fn written(self) -> bool {
        naive_text(self.secs as int, self.nanos as int) is Some
    }

    /// Seconds since 1970-01-01 00:00:00.
    pub closed spec fn spec_secs(self) -> i64 {
        self.secs
    }

    /// Nanoseconds since the last whole second.
    pub closed spec fn spec_nanos(self) -> u32 {
        self.nanos
    }

    /// The date and time as text.
    pub open spec fn spec_text(self) -> Seq<char> {
        naive_text(self.spec_secs() as int, self.spec_nanos() as int).unwrap()
    }

    /// The point in time `secs` seconds and `nanos` nanoseconds after
    /// 1970-01-01 00:00:00, if the calendar has it. It has every point in
    /// time of the years 1 to 9999.
    pub fn new(secs: i64, nanos: u32) -> (at: Option<Timestamp>)
        ensures
            at is Some <==> naive_text(secs as int, nanos as int) is Some,
            at matches Some(t) ==> t.spec_secs() == secs && t.spec_nanos() == nanos,
            in_four_digit_years(secs as int, nanos as int) ==> at is Some,
    {
        match write_naive(secs, nanos) {
            Some(_) => Some(Timestamp { secs, nanos }),
            None => None,
        }
    }

    /// Seconds since 1970-01-01 00:00:00.
    pub fn secs(&self) -> (secs: i64)
        ensures
            secs == self.spec_secs(),
    {
        self.secs
    }

    /// Nanoseconds since the last whole second.
    pub fn nanos(&self) -> (nanos: u32)
        ensures
            nanos == self.spec_nanos(),
    {
        self.nanos
    }

    /// The date and time as text, such as `2016-11-15 07:39:24`.
    pub fn text(&self) -> (text: String)
        ensures
            text@ == self.spec_text(),
    {
        proof {
            use_type_invariant(self);
        }
        match write_naive(self.secs, self.nanos) {
            Some(text) => text,
            None => unreached(),
        }
    }
}

} // verus!
