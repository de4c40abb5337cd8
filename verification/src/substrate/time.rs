//! Wall-clock timestamps and process-local monotonic instants.
use vstd::prelude::*;

verus! {

/// The earliest instant chrono represents, in milliseconds since the Unix
/// epoch: the first millisecond of year -262143.
pub const CHRONO_MIN_MILLIS: i64 = -8_334_601_228_800_000;

/// The latest instant chrono represents, in milliseconds since the Unix
/// epoch: the last millisecond of year 262142.
pub const CHRONO_MAX_MILLIS: i64 = 8_210_266_876_799_999;

/// Whether chrono can represent the UTC instant `millis` milliseconds after
/// the Unix epoch: its dates run from January 1 of year -262143 to December
/// 31 of year 262142.
pub open spec fn chrono_millis_representable(millis: i64) -> bool {
    CHRONO_MIN_MILLIS <= millis <= CHRONO_MAX_MILLIS
}

/// Calls `chrono::Utc::now` and reads back its seconds since the epoch and
/// its sub-second nanoseconds. The source builds the value from
/// `SystemTime::now().duration_since(UNIX_EPOCH)`, so the seconds are not
/// negative and the nanoseconds are below one second. The value is a
/// `DateTime`, and chrono documents that its `timestamp_millis` round-trips
/// through `from_timestamp_millis`, so its milliseconds name an instant
/// chrono can represent. Which instant comes back depends on the clock and
/// is not stated.
#[verifier::external_body]
fn utc_now_parts() -> (r: (i64, u32))
    ensures
        0 <= r.0 <= 9_000_000_000_000_000,
        r.1 < 1_000_000_000,
        chrono_millis_representable((r.0 * 1000 + r.1 / 1_000_000) as i64),
{
    let now = chrono::Utc::now();
    (now.timestamp(), now.timestamp_subsec_nanos())
}

/// Calls `chrono::DateTime::<Utc>::from_timestamp_millis` and reads back the
/// seconds and sub-second nanoseconds. By its source the call splits
/// `millis` by Euclidean division into seconds and milliseconds, and returns
/// `None` exactly when that instant lies outside chrono's range.
#[verifier::external_body]
fn utc_parts_from_millis(millis: i64) -> (r: Option<(i64, u32)>)
    ensures
        r is Some <==> chrono_millis_representable(millis),
        r matches Some(p) ==> p.0 == millis / 1000 && p.1 == (millis % 1000) * 1_000_000,
{
    match chrono::DateTime::<chrono::Utc>::from_timestamp_millis(millis) {
        Some(d) => Some((d.timestamp(), d.timestamp_subsec_nanos())),
        None => None,
    }
}

/// What holds of every reading of the wall clock: it lies at or after the
/// Unix epoch and chrono can represent it.
pub open spec fn is_clock_reading(t: Timestamp) -> bool {
    t.spec_secs() >= 0 && chrono_millis_representable(t.spec_millis() as i64)
}

/// A wall-clock UTC instant: whole seconds since the Unix epoch plus
/// sub-second nanoseconds. Ordered by seconds, then nanoseconds.
#[derive(Debug, Clone, Copy, PartialEq, Eq, PartialOrd, Ord, Hash, Structural)]
pub struct Timestamp {
    secs: i64,
    nanos: u32,
}

impl Timestamp {
    /// Whole seconds since the epoch (specification view).
    pub closed spec fn spec_secs(self) -> i64 {
        self.secs
    }

    /// Sub-second nanoseconds (specification view).
    pub closed spec fn spec_nanos(self) -> u32 {
        self.nanos
    }

    /// Milliseconds since the epoch, as chrono's `timestamp_millis` counts
    /// them: seconds times a thousand plus whole sub-second milliseconds.
    pub open spec fn spec_millis(self) -> int {
        self.spec_secs() * 1000 + self.spec_nanos() / 1_000_000
    }

    #[verifier::type_invariant]
    closed spec fn in_range(self) -> bool {
        &&& self.nanos < 1_000_000_000
        &&& i64::MIN <= self.spec_millis() <= i64::MAX
    }

    /// Capture the current wall-clock time: an instant at or after the
    /// epoch that chrono can represent, so reading it back through
    /// milliseconds succeeds.
    pub fn now() -> (r: Self)
        ensures
            r.spec_secs() >= 0,
            chrono_millis_representable(r.spec_millis() as i64),
            is_clock_reading(r),
    {
        let (secs, nanos) = utc_now_parts();
        Timestamp { secs, nanos }
    }

    /// Construct from milliseconds since the Unix epoch; `None` when chrono
    /// cannot represent that instant.
    pub fn from_millis_utc(millis: i64) -> (r: Option<Self>)
        ensures
            r is Some <==> chrono_millis_representable(millis),
            r matches Some(t) ==> t.spec_millis() == millis,
    {
        match utc_parts_from_millis(millis) {
            Some((secs, nanos)) => {
                assert(nanos / 1_000_000 == millis % 1000);
                Some(Timestamp { secs, nanos })
            },
            None => None,
        }
    }

    /// Rebuild a timestamp from whole seconds since the epoch and
    /// sub-second nanoseconds; `None` when the nanoseconds reach a full
    /// second or the instant's milliseconds do not fit in an `i64`.
    pub fn from_unix_parts(secs: i64, nanos: u32) -> (r: Option<Self>)
        ensures
            r is Some <==> (nanos < 1_000_000_000 && i64::MIN <= secs * 1000 + nanos / 1_000_000
                <= i64::MAX),
            r matches Some(t) ==> t.spec_secs() == secs && t.spec_nanos() == nanos,
    {
        if nanos >= 1_000_000_000 {
            return None;
        }
        let wide: i128 = (secs as i128) * 1000 + (nanos / 1_000_000) as i128;
        if wide < i64::MIN as i128 || wide > i64::MAX as i128 {
            return None;
        }
        Some(Timestamp { secs, nanos })
    }

    /// Whole seconds since the Unix epoch.
    pub fn unix_secs(self) -> (r: i64)
        ensures
            r == self.spec_secs(),
    {
        self.secs
    }

    /// Sub-second nanoseconds, below one second.
    pub fn subsec_nanos(self) -> (r: u32)
        ensures
            r == self.spec_nanos(),
            r < 1_000_000_000,
    {
        proof {
            use_type_invariant(&self);
        }
        self.nanos
    }

    /// Milliseconds since the Unix epoch.
    pub fn as_millis_utc(self) -> (r: i64)
        ensures
            r == self.spec_millis(),
    {
        proof {
            use_type_invariant(&self);
        }
        let wide: i128 = (self.secs as i128) * 1000 + (self.nanos / 1_000_000) as i128;
        wide as i64
    }
}

/// Reading a timestamp back in milliseconds gives exactly the milliseconds
/// it was built from.
pub proof fn lemma_millis_round_trip(millis: i64, t: Timestamp)
    requires
        t.spec_secs() == millis / 1000,
        t.spec_nanos() == (millis % 1000) * 1_000_000,
    ensures
        t.spec_millis() == millis,
{
}

#[verifier::external_type_specification]
#[verifier::external_body]
pub struct ExInstant(std::time::Instant);

/// Calls `std::time::Instant::now`. Which instant comes back depends on the
/// clock; nothing is stated of it.
#[verifier::external_body]
fn instant_now() -> (r: std::time::Instant) {
    std::time::Instant::now()
}

/// The span `std::time::Instant::saturating_duration_since` computes from
/// `earlier` to `later` (zero when `earlier` is the later one).
pub uninterp spec fn saturating_elapsed(later: std::time::Instant, earlier: std::time::Instant) -> std::time::Duration;

/// Calls `std::time::Instant::saturating_duration_since`, whose result
/// depends on the two instants alone.
#[verifier::external_body]
fn instant_saturating_since(later: std::time::Instant, earlier: std::time::Instant) -> (r:
    std::time::Duration)
    ensures
        r == saturating_elapsed(later, earlier),
{
    later.saturating_duration_since(earlier)
}

/// A process-local monotonic instant. Its epoch is the process start, so it
/// never crosses a process boundary.
#[derive(Debug, Clone, Copy, PartialEq, Eq, PartialOrd, Ord)]
pub struct Monotonic(std::time::Instant);

impl Monotonic {
    /// The wrapped instant (specification view).
    pub closed spec fn instant(self) -> std::time::Instant {
        self.0
    }

    /// Capture the current monotonic instant.
    pub fn now() -> Self {
        Monotonic(instant_now())
    }

    /// Duration since `earlier`, zero when `earlier` is in the future.
    pub fn since(self, earlier: Self) -> (r: std::time::Duration)
        ensures
            r == saturating_elapsed(self.instant(), earlier.instant()),
    {
        instant_saturating_since(self.0, earlier.0)
    }

    /// The inner `Instant`.
    pub fn into_inner(self) -> (r: std::time::Instant)
        ensures
            r == self.instant(),
    {
        self.0
    }
}

} // verus!
