use vstd::prelude::*;

verus! {

/// An instant in UTC: whole seconds since 1970-01-01T00:00:00Z and the
/// nanoseconds past that second (from 1_000_000_000 on during a leap second).
#[derive(Debug, Clone, Copy, PartialEq, Eq)]
pub struct Timestamp {
    pub secs: i64,
    pub nanos: u32,
}

/// A MongoDB date: milliseconds since 1970-01-01T00:00:00Z.
#[derive(Debug, Clone, Copy, PartialEq, Eq)]
pub struct BsonDateTime {
    pub millis: i64,
}

/// The first second that a UTC date-time can hold.
pub const MIN_UTC_SECS: i64 = -8334601228800;

/// The last second that a UTC date-time can hold.
pub const MAX_UTC_SECS: i64 = 8210266876799;

/// The first millisecond that a UTC date-time can hold.
pub const MIN_UTC_MILLIS: i64 = -8334601228800000;

/// The last millisecond that a UTC date-time can hold.
pub const MAX_UTC_MILLIS: i64 = 8210266876799999;

impl Timestamp {
    /// The instant lies in the range of UTC date-times.
    pub open spec fn wf(self) -> bool {
        &&& MIN_UTC_SECS <= self.secs <= MAX_UTC_SECS
        &&& self.nanos < 2_000_000_000
    }
}

/// The milliseconds since the epoch of `t`, the part below a millisecond
/// dropped.
pub open spec fn millis_of(t: Timestamp) -> int {
    t.secs * 1000 + t.nanos / 1_000_000
}

/// The instant that a MongoDB date stands for; dates outside the range of
/// UTC date-times become its first or last instant.
pub open spec fn instant_of_millis(millis: i64) -> Timestamp {
    if millis < MIN_UTC_MILLIS {
        Timestamp { secs: MIN_UTC_SECS, nanos: 0 }
    } else if millis > MAX_UTC_MILLIS {
        Timestamp { secs: MAX_UTC_SECS, nanos: 999_999_999 }
    } else {
        Timestamp { secs: (millis / 1000) as i64, nanos: ((millis % 1000) * 1_000_000) as u32 }
    }
}

/// The MongoDB date of `t`, as `bson::DateTime::from_chrono` computes it:
/// `t` truncated to milliseconds.
pub fn to_bson_date_time(t: Timestamp) -> (r: BsonDateTime)
    requires
        t.wf(),
    ensures
        r.millis == millis_of(t),
{
    BsonDateTime { millis: t.secs * 1000 + (t.nanos / 1_000_000) as i64 }
}

/// The instant of a MongoDB date, as `bson::DateTime::to_chrono` computes it.
pub fn to_timestamp(d: BsonDateTime) -> (r: Timestamp)
    ensures
        r == instant_of_millis(d.millis),
        r.wf(),
{
    if d.millis < MIN_UTC_MILLIS {
        Timestamp { secs: MIN_UTC_SECS, nanos: 0 }
    } else if d.millis > MAX_UTC_MILLIS {
        Timestamp { secs: MAX_UTC_SECS, nanos: 999_999_999 }
    } else {
        let shifted: u64 = (d.millis - MIN_UTC_MILLIS) as u64;
        let secs: i64 = (shifted / 1000) as i64 + MIN_UTC_SECS;
        let nanos: u32 = ((shifted % 1000) as u32) * 1_000_000;
        proof {
            let m = d.millis as int;
            let s = shifted as int;
            assert(s == m - MIN_UTC_MILLIS);
            assert(MIN_UTC_MILLIS == MIN_UTC_SECS * 1000);
            assert(s / 1000 + MIN_UTC_SECS == m / 1000 && s % 1000 == m % 1000) by (nonlinear_arith)
                requires
                    s == m + 8334601228800000,
            ;
        }
        Timestamp { secs, nanos }
    }
}

/// Every MongoDB date in the range of UTC date-times comes back unchanged
/// from its instant: `millis_of(instant_of_millis(m)) == m`.
pub proof fn lemma_millis_round_trip(millis: i64)
    requires
        MIN_UTC_MILLIS <= millis <= MAX_UTC_MILLIS,
    ensures
        instant_of_millis(millis).wf(),
        millis_of(instant_of_millis(millis)) == millis,
{
    let m = millis as int;
    assert(m == (m / 1000) * 1000 + m % 1000) by (nonlinear_arith);
    assert(((m % 1000) * 1_000_000) / 1_000_000 == m % 1000) by (nonlinear_arith);
}

/// An instant stored as a MongoDB date and read back keeps its seconds and
/// loses the part below a millisecond (outside a leap second).
pub proof fn lemma_instant_round_trip(t: Timestamp)
    requires
        t.wf(),
        t.nanos < 1_000_000_000,
    ensures
        MIN_UTC_MILLIS <= millis_of(t) <= MAX_UTC_MILLIS,
        instant_of_millis(millis_of(t) as i64) == (Timestamp {
            secs: t.secs,
            nanos: (t.nanos - t.nanos % 1_000_000) as u32,
        }),
{
    let s = t.secs as int;
    let q = (t.nanos / 1_000_000) as int;
    assert(0 <= q < 1000);
    let m = s * 1000 + q;
    assert(m / 1000 == s && m % 1000 == q) by (nonlinear_arith)
        requires
            m == s * 1000 + q,
            0 <= q < 1000,
    ;
    assert(q * 1_000_000 == t.nanos - t.nanos % 1_000_000);
}

/// The instant written in `text` as an RFC 3339 date-time, as seconds and
/// nanoseconds in UTC; `None` when `text` is not one.
pub uninterp spec fn rfc3339_instant(text: Seq<char>) -> Option<(i64, u32)>;

/// Reads an RFC 3339 date-time.
///
/// Trusted: calls `chrono::DateTime::parse_from_rfc3339`, whose result is
/// named `rfc3339_instant`; a date-time it returns lies in the range of
/// UTC date-times, with fewer than 2_000_000_000 nanoseconds.
#[verifier::external_body]
pub(crate) fn parse_rfc3339(text: &str) -> (r: Option<Timestamp>)
    ensures
        r == (match rfc3339_instant(text@) {
            Some((secs, nanos)) => Some(Timestamp { secs, nanos }),
            None => None,
        }),
        r matches Some(t) ==> t.wf(),
{
    match chrono::DateTime::parse_from_rfc3339(text) {
        Ok(dt) => Some(Timestamp { secs: dt.timestamp(), nanos: dt.timestamp_subsec_nanos() }),
        Err(_) => None,
    }
}

} // verus!
