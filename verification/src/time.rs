//! Instants of time as the service stores them: whole seconds since the Unix
//! epoch and the nanoseconds past that second. Reading and writing their text
//! is chrono's work; this module holds the calls and what they promise.

use vstd::prelude::*;
use chrono::{DateTime, FixedOffset, Utc};

verus! {

/// The instant that `DateTime::parse_from_rfc3339` reads from a text, as its
/// Unix seconds and sub-second nanoseconds; `None` where it reports an error.
pub uninterp spec fn rfc3339_instant(text: Seq<char>) -> Option<(i64, u32)>;

/// The instant that `str::parse::<DateTime<Utc>>` reads from a text (a relaxed
/// RFC 3339 form); `None` where it reports an error.
pub uninterp spec fn utc_text_instant(text: Seq<char>) -> Option<(i64, u32)>;

/// The text that `DateTime::to_rfc3339` writes for the UTC instant with these
/// Unix seconds and nanoseconds; `None` where `DateTime::from_timestamp` has no
/// such instant.
pub uninterp spec fn rfc3339_text(secs: i64, nanos: u32) -> Option<Seq<char>>;

/// The Unix seconds of the instants in the years 0 to 9999: the instants whose
/// RFC 3339 text has a four-digit year.
pub open spec fn in_rfc3339_years(secs: i64) -> bool {
    -62167219200 <= secs <= 253402300799
}

/// The text that `DateTime<Utc>`'s `Display` (as `to_string`) writes for the
/// instant with these Unix seconds and nanoseconds.
pub uninterp spec fn utc_display_text(secs: i64, nanos: u32) -> Seq<char>;

/// An instant that chrono can write as RFC 3339 text.
pub open spec fn printable(t: (i64, u32)) -> bool {
    rfc3339_text(t.0, t.1) is Some
}

/// Calls `DateTime::parse_from_rfc3339` and keeps the instant it read.
/// Claims: the result is the named `rfc3339_instant` of the text, and an instant
/// read from a text can be rebuilt by `DateTime::from_timestamp` (chrono
/// documents that `from_timestamp` round-trips `timestamp` and
/// `timestamp_subsec_nanos`), so it is printable.
#[verifier::external_body]
fn chrono_parse_rfc3339(text: &str) -> (res: Option<(i64, u32)>)
    ensures
        res == rfc3339_instant(text@),
        res matches Some(t) ==> printable(t),
{
    match DateTime::parse_from_rfc3339(text) {
        Ok(d) => Some((d.timestamp(), d.timestamp_subsec_nanos())),
        Err(_) => None,
    }
}

/// Calls `str::parse::<DateTime<Utc>>` and keeps the instant it read.
/// Claims: the result is the named `utc_text_instant` of the text, and it is
/// printable, for the same reason as above.
#[verifier::external_body]
fn chrono_parse_utc(text: &str) -> (res: Option<(i64, u32)>)
    ensures
        res == utc_text_instant(text@),
        res matches Some(t) ==> printable(t),
{
    match text.parse::<DateTime<Utc>>() {
        Ok(d) => Some((d.timestamp(), d.timestamp_subsec_nanos())),
        Err(_) => None,
    }
}

/// Calls `DateTime::to_rfc3339` on the instant that `DateTime::from_timestamp`
/// builds from the two numbers. Claims: the result is the named `rfc3339_text`;
/// and, for an instant in the years 0 to 9999, `DateTime::parse_from_rfc3339`
/// reads that very instant back from the text. chrono writes such an instant
/// with a four-digit year, a leap second as second 60, the exact non-zero
/// fraction and the offset `+00:00`, and its RFC 3339 parser reads each of
/// these back (second 60 as 59 plus a second of nanoseconds).
#[verifier::external_body]
fn chrono_rfc3339_text(secs: i64, nanos: u32) -> (res: Option<String>)
    ensures
        match res {
            Some(s) => {
                &&& rfc3339_text(secs, nanos) == Some(s@)
                &&& in_rfc3339_years(secs) ==> rfc3339_instant(s@) == Some((secs, nanos))
            },
            None => rfc3339_text(secs, nanos) is None,
        },
{
    match DateTime::from_timestamp(secs, nanos) {
        Some(d) => Some(d.to_rfc3339()),
        None => None,
    }
}

/// Calls `DateTime::<FixedOffset>::default()`, which chrono documents as the
/// Unix epoch, 1970-01-01 00:00:00 UTC. Claims: its seconds and nanoseconds are
/// zero, and, being an instant that chrono built, it is printable.
#[verifier::external_body]
fn chrono_default_instant() -> (res: (i64, u32))
    ensures
        res == (0i64, 0u32),
        printable(res),
{
    let d = DateTime::<FixedOffset>::default();
    (d.timestamp(), d.timestamp_subsec_nanos())
}

/// Calls `Utc::now()` and writes it with `to_string`. Claims only that the text
/// is how `Display` writes some instant; which instant is the clock's.
#[verifier::external_body]
pub(crate) fn current_time_text() -> (res: String)
    ensures
        exists|secs: i64, nanos: u32| res@ == utc_display_text(secs, nanos),
{
    Utc::now().to_string()
}

/// A UTC instant: Unix seconds and the nanoseconds past them (which exceed a
/// second only on a leap second). Every value is one that chrono can write.
#[derive(Clone, Copy, Debug, PartialEq, Eq, Structural)]
pub struct Timestamp {
    secs: i64,
    nanos: u32,
}

impl View for Timestamp {
    type V = (i64, u32);

    closed spec fn view(&self) -> (i64, u32) {
        (self.secs, self.nanos)
    }
}

impl Timestamp {
    #[verifier::type_invariant]
    spec fn is_printable(self) -> bool {
        printable((self.secs, self.nanos))
    }

    /// Reads an RFC 3339 text, as `DateTime::parse_from_rfc3339` does.
    pub fn parse_rfc3339(text: &str) -> (res: Option<Timestamp>)
        ensures
            match res {
                Some(t) => rfc3339_instant(text@) == Some(t@),
                None => rfc3339_instant(text@) is None,
            },
    {
        match chrono_parse_rfc3339(text) {
            Some(t) => Some(Timestamp { secs: t.0, nanos: t.1 }),
            None => None,
        }
    }

    /// Reads a text as `str::parse::<DateTime<Utc>>` does.
    pub fn parse_utc(text: &str) -> (res: Option<Timestamp>)
        ensures
            match res {
                Some(t) => utc_text_instant(text@) == Some(t@),
                None => utc_text_instant(text@) is None,
            },
    {
        match chrono_parse_utc(text) {
            Some(t) => Some(Timestamp { secs: t.0, nanos: t.1 }),
            None => None,
        }
    }

    /// The Unix epoch, which is also chrono's default date and time.
    pub fn unix_epoch() -> (res: Timestamp)
        ensures
            res@ == (0i64, 0u32),
    {
        let t = chrono_default_instant();
        Timestamp { secs: t.0, nanos: t.1 }
    }

    /// Writes the instant as `DateTime::to_rfc3339` does. An instant in the
    /// years 0 to 9999 is read back from the text by `parse_rfc3339`.
    pub fn to_rfc3339(&self) -> (res: String)
        ensures
            rfc3339_text(self@.0, self@.1) == Some(res@),
            in_rfc3339_years(self@.0) ==> rfc3339_instant(res@) == Some(self@),
    {
        proof {
            use_type_invariant(self);
        }
        match chrono_rfc3339_text(self.secs, self.nanos) {
            Some(s) => s,
            None => {
                proof {
                    assert(false);
                }
                String::new()
            },
        }
    }

    /// Unix seconds.
    pub fn seconds(&self) -> (res: i64)
        ensures
            res == self@.0,
    {
        self.secs
    }

    /// Nanoseconds past the second.
    pub fn subsec_nanos(&self) -> (res: u32)
        ensures
            res == self@.1,
    {
        self.nanos
    }
}

} // verus!
