use vstd::prelude::*;

verus! {

/// Nanoseconds in one second.
pub const NANOS_PER_SEC: u32 = 1_000_000_000;

/// Seconds in one day.
pub const SECS_PER_DAY: i64 = 86_400;

/// An instant on the UTC time line held as chrono holds it: whole seconds
/// since the Unix epoch and a fraction of a second in nanoseconds. The
/// fraction reaches one second or more only inside a leap second.
#[derive(Debug, Clone, Copy, PartialEq, Eq, Structural)]
pub struct UnixTime {
    pub secs: i64,
    pub nanos: u32,
}

impl UnixTime {
    /// An instant that is not inside a leap second.
    pub open spec fn is_regular(self) -> bool {
        self.nanos < NANOS_PER_SEC
    }
}

/// Position of an instant within its UTC day, in whole seconds.
pub open spec fn spec_seconds_of_day(secs: int) -> int {
    secs % (SECS_PER_DAY as int)
}

/// Signed time from `earlier` to `later` in nanoseconds, counted as chrono
/// subtracts two UTC date-times: the whole seconds, the fractions, and one
/// second more (less) where the earlier (later) instant sits in a leap second
/// and the two times of day are apart.
pub open spec fn elapsed_nanos(later: UnixTime, earlier: UnixTime) -> int {
    let sod_later = spec_seconds_of_day(later.secs as int);
    let sod_earlier = spec_seconds_of_day(earlier.secs as int);
    let leap = if sod_later > sod_earlier && earlier.nanos >= NANOS_PER_SEC {
        1int
    } else if sod_later < sod_earlier && later.nanos >= NANOS_PER_SEC {
        -1int
    } else {
        0int
    };
    (later.secs - earlier.secs + leap) * (NANOS_PER_SEC as int) + later.nanos - earlier.nanos
}

/// Time from `a` to `b` is the negation of time from `b` to `a`, and an
/// instant is no time away from itself.
pub proof fn lemma_elapsed_antisymmetric(a: UnixTime, b: UnixTime)
    ensures
        elapsed_nanos(a, b) == -elapsed_nanos(b, a),
        elapsed_nanos(a, a) == 0,
{
}

/// Between two instants outside leap seconds, the time is the difference
/// of their seconds and of their nanoseconds, whatever their distance: no
/// wrap at a day or any other period.
pub proof fn lemma_elapsed_between_regular_instants(later: UnixTime, earlier: UnixTime)
    requires
        later.is_regular(),
        earlier.is_regular(),
    ensures
        elapsed_nanos(later, earlier) == (later.secs - earlier.secs) * 1_000_000_000 + later.nanos
            - earlier.nanos,
{
}

/// Position of an instant within its UTC day, in whole seconds.
pub fn seconds_of_day(secs: i64) -> (res: i64)
    ensures
        res == spec_seconds_of_day(secs as int),
        0 <= res < SECS_PER_DAY,
{
    let r = secs % SECS_PER_DAY;
    if r < 0 {
        r + SECS_PER_DAY
    } else {
        r
    }
}

/// Signed time from `earlier` to `later` in nanoseconds.
pub fn elapsed_nanos_between(later: UnixTime, earlier: UnixTime) -> (res: i128)
    ensures
        res == elapsed_nanos(later, earlier),
{
    let sod_later = seconds_of_day(later.secs);
    let sod_earlier = seconds_of_day(earlier.secs);
    let leap: i128 = if sod_later > sod_earlier && earlier.nanos >= NANOS_PER_SEC {
        1
    } else if sod_later < sod_earlier && later.nanos >= NANOS_PER_SEC {
        -1
    } else {
        0
    };
    let secs: i128 = later.secs as i128 - earlier.secs as i128 + leap;
    assert(-0x1_0000_0000_0000_0001 <= secs <= 0x1_0000_0000_0000_0001);
    assert(secs * 1_000_000_000 <= 0x1_0000_0000_0000_0001 * 1_000_000_000) by (nonlinear_arith)
        requires
            secs <= 0x1_0000_0000_0000_0001,
    ;
    assert(secs * 1_000_000_000 >= -0x1_0000_0000_0000_0001 * 1_000_000_000) by (nonlinear_arith)
        requires
            secs >= -0x1_0000_0000_0000_0001,
    ;
    secs * 1_000_000_000 + later.nanos as i128 - earlier.nanos as i128
}

/// `std::time::SystemTime`, an instant of the system clock, carried through
/// unopened.
#[verifier::external_type_specification]
#[verifier::external_body]
pub struct ExSystemTime(std::time::SystemTime);

/// Reads the system clock with `std::time::SystemTime::now`. The instant
/// depends on the clock; nothing is stated of it.
#[verifier::external_body]
fn system_now() -> (now: std::time::SystemTime) {
    std::time::SystemTime::now()
}

/// Time since the Unix epoch of a clock instant, through
/// `SystemTime::duration_since(UNIX_EPOCH)`, as whole seconds
/// (`Duration::as_secs`) and the nanoseconds beyond them
/// (`Duration::subsec_nanos`, always below one second); `None` where the
/// instant lies before the epoch (the call's error). The instant is opaque
/// here, so which seconds come back is left unsaid.
#[verifier::external_body]
fn since_unix_epoch(instant: &std::time::SystemTime) -> (res: Option<(u64, u32)>)
    ensures
        res matches Some((_, nanos)) ==> nanos < NANOS_PER_SEC,
{
    match instant.duration_since(std::time::UNIX_EPOCH) {
        Ok(elapsed) => Some((elapsed.as_secs(), elapsed.subsec_nanos())),
        Err(_) => None,
    }
}

/// The UTC instant that lies `since` after the Unix epoch (whole seconds and
/// nanoseconds); `None` where there is no such offset (the clock read before
/// the epoch) or its seconds pass `i64::MAX`.
pub fn unix_time_from_epoch_offset(since: Option<(u64, u32)>) -> (res: Option<UnixTime>)
    ensures
        res == match since {
            Some((secs, nanos)) => if secs <= i64::MAX {
                Some(UnixTime { secs: secs as i64, nanos })
            } else {
                None
            },
            None => None,
        },
{
    match since {
        Some((secs, nanos)) => {
            if secs <= 0x7fff_ffff_ffff_ffff {
                Some(UnixTime { secs: secs as i64, nanos })
            } else {
                None
            }
        },
        None => None,
    }
}

/// The current UTC instant by the system clock; `None` where the clock reads
/// a time before the Unix epoch or too far past it for an `i64` of seconds.
pub fn utc_now() -> (now: Option<UnixTime>)
    ensures
        now matches Some(t) ==> t.secs >= 0 && t.is_regular(),
{
    let instant = system_now();
    unix_time_from_epoch_offset(since_unix_epoch(&instant))
}

} // verus!
