//! Timestamps as microseconds since the Unix epoch (UTC), and their text forms.

use vstd::prelude::*;

verus! {

/// Earliest instant `chrono::DateTime<Utc>` holds (-262143-01-01T00:00:00Z), in microseconds.
pub const EARLIEST_MICROS: i64 = -8334601228800000000i64;

/// Latest instant `chrono::DateTime<Utc>` holds (+262142-12-31T23:59:59.999999Z), in microseconds.
pub const LATEST_MICROS: i64 = 8210266876799999999i64;

/// `us` names an instant that a `chrono::DateTime<Utc>` can hold.
pub open spec fn representable(us: int) -> bool {
    EARLIEST_MICROS <= us <= LATEST_MICROS
}

/// Whether `us` names an instant that the time formatting accepts.
pub fn is_representable(us: i64) -> (r: bool)
    ensures
        r == representable(us as int),
{
    EARLIEST_MICROS <= us && us <= LATEST_MICROS
}

/// RFC 3339 text of the instant `us`, whole seconds, `Z` suffix
/// (`DateTime::to_rfc3339_opts(SecondsFormat::Secs, true)`).
pub uninterp spec fn rfc3339_seconds_text(us: i64) -> Seq<char>;

/// Long English date of the instant `us`, as `format("%A, %B %-d, %Y")` writes it.
pub uninterp spec fn long_date_text(us: i64) -> Seq<char>;

/// Writes the instant `us` in RFC 3339 with whole seconds and a `Z` suffix, through
/// `chrono::DateTime::from_timestamp_micros` and `DateTime::to_rfc3339_opts(Secs, true)`.
/// The text is a function of the instant alone; its digits are not stated here.
#[verifier::external_body]
pub fn rfc3339_seconds(us: i64) -> (r: String)
    requires
        representable(us as int),
    ensures
        r@ == rfc3339_seconds_text(us),
{
    chrono::DateTime::from_timestamp_micros(us).unwrap().to_rfc3339_opts(
        chrono::SecondsFormat::Secs,
        true,
    )
}

/// Writes the calendar day of the instant `us` as "Weekday, Month D, YYYY", through
/// `chrono::DateTime::format("%A, %B %-d, %Y")`. The text is a function of the instant alone.
#[verifier::external_body]
pub fn long_date(us: i64) -> (r: String)
    requires
        representable(us as int),
    ensures
        r@ == long_date_text(us),
{
    chrono::DateTime::from_timestamp_micros(us).unwrap().format("%A, %B %-d, %Y").to_string()
}

/// The current time (`chrono::Utc::now`), in microseconds. Every `DateTime<Utc>` lies in the
/// representable range; which instant comes back depends on the clock. The call fails
/// (panics) only when the system clock is set before 1970; no argument can cause it.
#[verifier::external_body]
pub fn now_micros() -> (r: i64)
    ensures
        representable(r as int),
{
    chrono::Utc::now().timestamp_micros()
}

} // verus!
