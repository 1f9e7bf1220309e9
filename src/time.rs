use vstd::prelude::*;

verus! {

/// Whether chrono can represent the UTC instant `secs` seconds and `nanos`
/// nanoseconds after the Unix epoch.
pub uninterp spec fn utc_representable(secs: i64, nanos: u32) -> bool;

/// Seconds on either side of the Unix epoch within which every instant lies
/// inside chrono's years -262143 to 262143 (about 253,500 years each way).
pub const SAFE_SECS: i64 = 8_000_000_000_000;

/// A nanosecond part that chrono accepts with the given seconds: under a
/// billion, or under two billion for a leap second, which only the last
/// second of a minute may hold.
pub open spec fn valid_nanos(secs: i64, nanos: u32) -> bool {
    nanos < 1_000_000_000 || (nanos < 2_000_000_000 && secs as int % 60 == 59)
}

/// Relies on chrono's `DateTime::<Utc>::from_timestamp`, which returns `None`
/// exactly for the seconds and nanoseconds that it cannot represent: a
/// nanosecond part that `NaiveTime::from_num_seconds_from_midnight_opt`
/// refuses, or a day outside chrono's years -262143 to 262143.
#[verifier::external_body]
fn chrono_accepts(secs: i64, nanos: u32) -> (r: bool)
    ensures
        r == utc_representable(secs, nanos),
        r ==> valid_nanos(secs, nanos),
        -SAFE_SECS <= secs <= SAFE_SECS && valid_nanos(secs, nanos) ==> r,
{
    chrono::DateTime::<chrono::Utc>::from_timestamp(secs, nanos).is_some()
}

/// An instant in UTC, as seconds and nanoseconds after the Unix epoch; a
/// nanosecond part of a billion or more stands for a leap second.
#[derive(Clone, Copy, Debug, PartialEq, Eq, Structural)]
pub struct Timestamp {
    secs: i64,
    nanos: u32,
}

impl Timestamp {
    #[verifier::type_invariant]
    spec fn representable(&self) -> bool {
        utc_representable(self.secs, self.nanos) && valid_nanos(self.secs, self.nanos)
    }

    /// The seconds part, as a spec value.
    pub closed spec fn spec_secs(&self) -> i64 {
        self.secs
    }

    /// The nanoseconds part, as a spec value.
    pub closed spec fn spec_nanos(&self) -> u32 {
        self.nanos
    }

    /// Every timestamp is an instant that chrono can represent; reading
    /// either part of one makes this known.
    pub open spec fn wf(&self) -> bool {
        utc_representable(self.spec_secs(), self.spec_nanos())
    }

    /// The instant `secs` seconds and `nanos` nanoseconds after the Unix
    /// epoch, or `None` where it lies outside chrono's range.
    pub fn from_unix(secs: i64, nanos: u32) -> (r: Option<Timestamp>)
        ensures
            r is Some <==> utc_representable(secs, nanos),
            r is Some ==> r->0.spec_secs() == secs && r->0.spec_nanos() == nanos && r->0.wf(),
            r is Some ==> valid_nanos(secs, nanos),
            -SAFE_SECS <= secs <= SAFE_SECS && valid_nanos(secs, nanos) ==> r is Some,
    {
        if chrono_accepts(secs, nanos) {
            Some(Timestamp { secs, nanos })
        } else {
            None
        }
    }

    /// Seconds after the Unix epoch.
    pub fn secs(&self) -> (r: i64)
        ensures
            r == self.spec_secs(),
            self.wf(),
            valid_nanos(self.spec_secs(), self.spec_nanos()),
    {
        proof {
            use_type_invariant(self);
        }
        self.secs
    }

    /// Nanoseconds past the second.
    pub fn nanos(&self) -> (r: u32)
        ensures
            r == self.spec_nanos(),
            self.wf(),
            valid_nanos(self.spec_secs(), self.spec_nanos()),
    {
        proof {
            use_type_invariant(self);
        }
        self.nanos
    }
}

} // verus!
