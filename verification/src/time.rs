//! Points in time and their ISO-8601 text.
use vstd::prelude::*;

verus! {

/// Seconds since the Unix epoch of the first instant of January 1 of the year -262143
/// (proleptic Gregorian calendar), the earliest instant that `chrono` represents.
pub const EARLIEST_SECS: i64 = -8334601228800;

/// Seconds since the Unix epoch of the last second of December 31, 262142 CE,
/// the latest second that `chrono` represents.
pub const LATEST_SECS: i64 = 8210266876799;

/// A point in time: whole seconds since the Unix epoch (negative before it) and
/// the nanoseconds into the second.
#[derive(Clone, Copy, Debug, PartialEq, Eq)]
pub struct UnixTime {
    secs: i64,
    nanos: u32,
}

pub open spec fn representable(secs: int, nanos: int) -> bool {
    EARLIEST_SECS <= secs <= LATEST_SECS && 0 <= nanos < 1_000_000_000
}

impl UnixTime {
    #[verifier::type_invariant]
    spec fn in_range(self) -> bool {
        representable(self.secs as int, self.nanos as int)
    }

    pub closed spec fn spec_secs(self) -> i64 {
        self.secs
    }

    pub closed spec fn spec_nanos(self) -> u32 {
        self.nanos
    }

    /// The point in time, or `None` when it cannot be represented.
    pub fn new(secs: i64, nanos: u32) -> (time: Option<Self>)
        ensures
            time is Some <==> representable(secs as int, nanos as int),
            time matches Some(t) ==> t.spec_secs() == secs && t.spec_nanos() == nanos,
    {
        if EARLIEST_SECS <= secs && secs <= LATEST_SECS && nanos < 1_000_000_000 {
            Some(UnixTime { secs, nanos })
        } else {
            None
        }
    }

    pub fn secs(&self) -> (secs: i64)
        ensures
            secs == self.spec_secs(),
    {
        self.secs
    }

    pub fn nanos(&self) -> (nanos: u32)
        ensures
            nanos == self.spec_nanos(),
    {
        self.nanos
    }

    /// The time as ISO-8601 UTC text with milliseconds, such as `2020-01-01T00:00:00.000Z`.
    pub fn to_iso8601(&self) -> (text: String)
        ensures
            text@ == utc_millis_text(self.spec_secs() as int, self.spec_nanos() as int),
            text@.len() > 0 && text@.last() == 'Z',
    {
        proof {
            use_type_invariant(self);
        }
        format_utc_millis(self.secs, self.nanos)
    }
}

/// The text `chrono` gives for a point in time under the format `%Y-%m-%dT%H:%M:%S%.3fZ`.
pub uninterp spec fn utc_millis_text(secs: int, nanos: int) -> Seq<char>;

/// Calls `chrono::DateTime::<Utc>::from_timestamp` and formats the result with
/// `%Y-%m-%dT%H:%M:%S%.3fZ`.
///
/// Claimed: the text is a function of the point in time alone; being built from that
/// format, it ends with `Z`. The calendar arithmetic is not stated.
#[verifier::external_body]
fn format_utc_millis(secs: i64, nanos: u32) -> (text: String)
    requires
        representable(secs as int, nanos as int),
    ensures
        text@ == utc_millis_text(secs as int, nanos as int),
        text@.len() > 0 && text@.last() == 'Z',
{
    chrono::DateTime::<chrono::Utc>::from_timestamp(secs, nanos).unwrap().format(
        "%Y-%m-%dT%H:%M:%S%.3fZ",
    ).to_string()
}

/// Calls `chrono::Utc::now` and formats the result with `%Y-%m-%dT%H:%M:%S%.3fZ`.
///
/// Claimed of every outcome: the text ends with `Z`. Which instant it shows depends on
/// the clock and is not stated.
#[verifier::external_body]
pub(crate) fn now_iso8601() -> (text: String)
    ensures
        text@.len() > 0 && text@.last() == 'Z',
{
    chrono::Utc::now().format("%Y-%m-%dT%H:%M:%S%.3fZ").to_string()
}

} // verus!
