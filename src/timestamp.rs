//! Points in time, and the form in which a deletion date is recorded.
use vstd::prelude::*;

verus! {

/// Nanoseconds in one second.
pub const NANOS_PER_SEC: i64 = 1_000_000_000;

/// The RFC 3339 text of the instant `nanos` nanoseconds after the Unix epoch,
/// in UTC, with six digits of fractional seconds and the offset written
/// `+00:00`.
pub uninterp spec fn rfc3339_micros_utc(nanos: i64) -> Seq<char>;

/// Relies on chrono's `DateTime::<Utc>::from_timestamp_nanos`, which accepts
/// every `i64`, and `DateTime::to_rfc3339_opts` with `SecondsFormat::Micros`
/// and `use_z` false: the text depends on the instant alone.
#[verifier::external_body]
fn format_rfc3339_micros(nanos: i64) -> (r: String)
    ensures
        r@ == rfc3339_micros_utc(nanos),
{
    chrono::DateTime::<chrono::Utc>::from_timestamp_nanos(nanos).to_rfc3339_opts(
        chrono::SecondsFormat::Micros,
        false,
    )
}

/// An instant, as a count of nanoseconds since the Unix epoch
/// (1970-01-01T00:00:00Z). It carries no time zone.
#[derive(Clone, Copy, Debug, PartialEq, Eq, Structural)]
pub struct Timestamp {
    nanos: i64,
}

impl Timestamp {
    /// Nanoseconds since the Unix epoch.
    pub closed spec fn unix_nanos(self) -> i64 {
        self.nanos
    }

    /// The instant `nanos` nanoseconds after the Unix epoch.
    pub fn from_unix_nanos(nanos: i64) -> (r: Timestamp)
        ensures
            r.unix_nanos() == nanos,
    {
        Timestamp { nanos }
    }

    /// The instant `secs` seconds and `subsec_nanos` nanoseconds after the
    /// Unix epoch; `None` when `subsec_nanos` is a second or more, or when the
    /// instant lies outside what an `i64` count of nanoseconds holds.
    pub fn from_unix(secs: i64, subsec_nanos: u32) -> (r: Option<Timestamp>)
        ensures
            r matches Some(t) ==> subsec_nanos < NANOS_PER_SEC && t.unix_nanos() == secs
                * NANOS_PER_SEC + subsec_nanos,
            r is None ==> subsec_nanos >= NANOS_PER_SEC || secs * NANOS_PER_SEC
                + subsec_nanos < i64::MIN || secs * NANOS_PER_SEC + subsec_nanos > i64::MAX,
    {
        if subsec_nanos as i64 >= NANOS_PER_SEC {
            return None;
        }
        assert(i64::MIN * NANOS_PER_SEC <= secs * NANOS_PER_SEC <= i64::MAX * NANOS_PER_SEC)
            by (nonlinear_arith)
            requires
                i64::MIN <= secs <= i64::MAX,
                NANOS_PER_SEC == 1_000_000_000,
        ;
        let total: i128 = secs as i128 * NANOS_PER_SEC as i128 + subsec_nanos as i128;
        if total < i64::MIN as i128 || total > i64::MAX as i128 {
            None
        } else {
            Some(Timestamp { nanos: total as i64 })
        }
    }

    /// Nanoseconds since the Unix epoch.
    pub fn as_unix_nanos(&self) -> (r: i64)
        ensures
            r == self.unix_nanos(),
    {
        self.nanos
    }

    /// The deletion date recorded for this instant: RFC 3339 in UTC with
    /// microseconds, such as `2004-08-31T22:32:08.000000+00:00`.
    pub fn deletion_date(&self) -> (r: String)
        ensures
            r@ == rfc3339_micros_utc(self.unix_nanos()),
    {
        format_rfc3339_micros(self.nanos)
    }
}

} // verus!
