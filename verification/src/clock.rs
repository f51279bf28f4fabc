//! Time, read and formatted through chrono.

use vstd::prelude::*;

verus! {

/// An ASCII decimal digit.
pub open spec fn is_digit(c: char) -> bool {
    '0' <= c && c <= '9'
}

/// A year as chrono's `%Y` writes one from 1970 on: four digits, or for a
/// year past 9999 a `+` followed by its digits.
pub open spec fn year_text(y: Seq<char>) -> bool {
    &&& y.len() >= 4
    &&& forall|i: int| 0 <= i < y.len() ==> (is_digit(#[trigger] y[i]) || (i == 0 && y[i] == '+'))
}

/// Whether the characters of `s` from `from` up to `to` are digits.
pub open spec fn digits_between(s: Seq<char>, from: int, to: int) -> bool {
    forall|i: int| from <= i < to ==> is_digit(#[trigger] s[i])
}

/// A date written `%Y-%m-%d`.
pub open spec fn utc_date_text(s: Seq<char>) -> bool {
    let n = s.len() as int;
    &&& n >= 10
    &&& year_text(s.subrange(0, n - 6))
    &&& s[n - 6] == '-'
    &&& digits_between(s, n - 5, n - 3)
    &&& s[n - 3] == '-'
    &&& digits_between(s, n - 2, n)
}

/// A time written `%Y%m%d%H%M%S%f`: the year, then ten digits of month,
/// day, hour, minute and second, then nine digits of nanoseconds.
pub open spec fn compact_time_text(s: Seq<char>) -> bool {
    let n = s.len() as int;
    &&& n >= 23
    &&& year_text(s.subrange(0, n - 19))
    &&& digits_between(s, n - 19, n)
}

/// The fraction of a second that chrono's RFC 3339 text carries: none, or
/// a dot and three, six or nine digits.
pub open spec fn fraction_text(f: Seq<char>) -> bool {
    f.len() == 0 || (f[0] == '.' && (f.len() == 4 || f.len() == 7 || f.len() == 10) && digits_between(
        f,
        1,
        f.len() as int,
    ))
}

/// The part `-MM-DDTHH:MM:SS` of an RFC 3339 text, starting at `k`.
pub open spec fn clock_part_at(s: Seq<char>, k: int) -> bool {
    &&& s[k] == '-'
    &&& digits_between(s, k + 1, k + 3)
    &&& s[k + 3] == '-'
    &&& digits_between(s, k + 4, k + 6)
    &&& s[k + 6] == 'T'
    &&& digits_between(s, k + 7, k + 9)
    &&& s[k + 9] == ':'
    &&& digits_between(s, k + 10, k + 12)
    &&& s[k + 12] == ':'
    &&& digits_between(s, k + 13, k + 15)
}

/// A UTC time as `DateTime::to_rfc3339` writes it: the year, then
/// `-MM-DDTHH:MM:SS`, an optional fraction, and `+00:00`.
pub open spec fn rfc3339_utc_text(s: Seq<char>) -> bool {
    exists|k: int|
        #![trigger year_text(s.subrange(0, k))]
        4 <= k && k + 21 <= s.len() && year_text(s.subrange(0, k)) && clock_part_at(s, k)
            && fraction_text(s.subrange(k + 15, s.len() - 6)) && s.subrange(s.len() - 6, s.len() as int)
            == "+00:00"@
}

/// Reads the system clock with `std::time::SystemTime::now` and its
/// `duration_since(UNIX_EPOCH)`: the whole seconds and the nanoseconds
/// since the Unix epoch, or `None` when the clock reads earlier than the
/// epoch. Which time it reads depends on the machine; `Duration`'s
/// nanoseconds are always below one second.
#[verifier::external_body]
fn read_clock() -> (r: Option<(u64, u32)>)
    ensures
        r matches Some((_, n)) ==> n < 1_000_000_000,
{
    match std::time::SystemTime::now().duration_since(std::time::UNIX_EPOCH) {
        Ok(d) => Some((d.as_secs(), d.subsec_nanos())),
        Err(_) => None,
    }
}

/// Whether `chrono::DateTime::from_timestamp` accepts the seconds and
/// nanoseconds: they name a time within chrono's range of dates.
pub uninterp spec fn timestamp_in_range(secs: int, nanos: int) -> bool;

/// The last second of the year 9999, well within chrono's range.
pub open spec fn year_9999_end() -> int {
    253402300799
}

/// Formats a time since the Unix epoch with
/// `chrono::DateTime::from_timestamp` and `DateTime::to_rfc3339`: `None`
/// exactly where `from_timestamp` refuses it, which it does for no time up
/// to the end of the year 9999 with nanoseconds below one second; text in
/// the shape `to_rfc3339` writes for a time from 1970 on otherwise.
#[verifier::external_body]
fn rfc3339_of(secs: u64, nanos: u32) -> (r: Option<String>)
    ensures
        r is Some <==> timestamp_in_range(secs as int, nanos as int),
        secs <= year_9999_end() && nanos < 1_000_000_000 ==> r is Some,
        r matches Some(t) ==> rfc3339_utc_text(t@) && t@.len() >= 25,
{
    let secs = i64::try_from(secs).ok()?;
    chrono::DateTime::from_timestamp(secs, nanos).map(|t| t.to_rfc3339())
}

/// Formats a time since the Unix epoch with
/// `chrono::DateTime::from_timestamp` and `DateTime::format` with
/// `%Y%m%d%H%M%S%f`: `None` exactly where `from_timestamp` refuses it;
/// otherwise a year followed by nineteen digits.
#[verifier::external_body]
fn compact_of(secs: u64, nanos: u32) -> (r: Option<String>)
    ensures
        r is Some <==> timestamp_in_range(secs as int, nanos as int),
        secs <= year_9999_end() && nanos < 1_000_000_000 ==> r is Some,
        r matches Some(t) ==> compact_time_text(t@),
{
    let secs = i64::try_from(secs).ok()?;
    chrono::DateTime::from_timestamp(secs, nanos).map(|t| t.format("%Y%m%d%H%M%S%f").to_string())
}

/// Formats the date of a time since the Unix epoch with
/// `chrono::DateTime::from_timestamp` and `DateTime::format` with
/// `%Y-%m-%d`: `None` exactly where `from_timestamp` refuses it;
/// otherwise a year, a dash, two digits, a dash and two digits.
#[verifier::external_body]
fn date_of(secs: u64, nanos: u32) -> (r: Option<String>)
    ensures
        r is Some <==> timestamp_in_range(secs as int, nanos as int),
        secs <= year_9999_end() && nanos < 1_000_000_000 ==> r is Some,
        r matches Some(t) ==> utc_date_text(t@),
{
    let secs = i64::try_from(secs).ok()?;
    chrono::DateTime::from_timestamp(secs, nanos).map(|t| t.format("%Y-%m-%d").to_string())
}

/// The current UTC time in RFC 3339 form, or `None` where the clock reads
/// earlier than 1970 or past chrono's range of dates.
pub(crate) fn utc_now_rfc3339() -> (r: Option<String>)
    ensures
        r matches Some(t) ==> rfc3339_utc_text(t@) && t@.len() >= 25,
{
    match read_clock() {
        Some((secs, nanos)) => rfc3339_of(secs, nanos),
        None => None,
    }
}

/// The current UTC time as `%Y%m%d%H%M%S%f`, used as a transaction id, or
/// `None` where the clock reads earlier than 1970 or past chrono's range.
pub(crate) fn utc_now_compact() -> (r: Option<String>)
    ensures
        r matches Some(t) ==> compact_time_text(t@),
{
    match read_clock() {
        Some((secs, nanos)) => compact_of(secs, nanos),
        None => None,
    }
}

/// The current UTC date as `%Y-%m-%d`, or `None` where the clock reads
/// earlier than 1970 or past chrono's range.
pub(crate) fn utc_today() -> (r: Option<String>)
    ensures
        r matches Some(t) ==> utc_date_text(t@),
{
    match read_clock() {
        Some((secs, nanos)) => date_of(secs, nanos),
        None => None,
    }
}

/// The text of a Unix time in seconds as chrono formats it with
/// `%Y-%m-%d %H:%M:%S` in UTC; a time chrono cannot represent reads as
/// the Unix epoch.
pub uninterp spec fn utc_time_text(secs: int) -> Seq<char>;

/// Formats a Unix time in seconds with `chrono::DateTime::from_timestamp`
/// and `DateTime::format("%Y-%m-%d %H:%M:%S")`, falling back to
/// `DateTime::UNIX_EPOCH` where `from_timestamp` gives `None`. The
/// contract names the text and states nothing more of it.
#[verifier::external_body]
pub(crate) fn format_utc_time(secs: i64) -> (r: String)
    ensures
        r@ == utc_time_text(secs as int),
{
    let t = chrono::DateTime::from_timestamp(secs, 0).unwrap_or(chrono::DateTime::UNIX_EPOCH);
    t.format("%Y-%m-%d %H:%M:%S").to_string()
}

} // verus!
