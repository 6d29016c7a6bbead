//! The wall clock, read in nanoseconds since the Unix epoch.
use std::time::{SystemTime, SystemTimeError};
use vstd::prelude::*;

verus! {

/// Why no usable time stamp could be taken.
#[derive(Clone, Copy, Debug, PartialEq, Eq, Structural)]
pub enum ClockError {
    /// The clock stands before the Unix epoch.
    BeforeEpoch,
    /// The nanoseconds since the Unix epoch do not fit in 64 bits.
    OutOfRange,
    /// The clock stands before a time stamp that was taken earlier.
    WentBackwards,
}

/// `std::time::SystemTime`, carried from one call to the next.
#[verifier::external_type_specification]
#[verifier::external_body]
pub struct ExSystemTime(std::time::SystemTime);

/// `std::time::SystemTimeError`, carried from one call to the next.
#[verifier::external_type_specification]
#[verifier::external_body]
pub struct ExSystemTimeError(std::time::SystemTimeError);

/// Calls `std::time::SystemTime::now`. The result depends on the machine's clock alone, so nothing
/// is claimed of it.
#[verifier::external_body]
fn system_time_now() -> SystemTime {
    SystemTime::now()
}

/// A time span since the Unix epoch, as `std::time::Duration` holds it.
#[derive(Clone, Copy, Debug, PartialEq, Eq, Structural)]
pub struct SinceEpoch {
    /// The whole seconds.
    pub secs: u64,
    /// The nanoseconds beyond them.
    pub subsec_nanos: u32,
}

impl SinceEpoch {
    /// There is less than a second beyond the whole seconds.
    pub open spec fn well_formed(self) -> bool {
        self.subsec_nanos < 1_000_000_000
    }

    /// All of the time span, in nanoseconds.
    pub open spec fn nanos(self) -> int {
        self.secs * 1_000_000_000 + self.subsec_nanos
    }

    /// All of the time span, in nanoseconds.
    pub fn as_nanos(&self) -> (nanos: u128)
        ensures
            nanos == self.nanos(),
    {
        self.secs as u128 * 1_000_000_000 + self.subsec_nanos as u128
    }
}

/// Calls `std::time::SystemTime::duration_since` with the Unix epoch, and takes the duration as its
/// whole seconds and the nanoseconds beyond them. Claimed: the latter make up less than a second. A
/// point in time is opaque here, so it is left unsaid which duration belongs to which.
#[verifier::external_body]
fn duration_since_epoch(time: &SystemTime) -> (since: Result<SinceEpoch, SystemTimeError>)
    ensures
        since is Ok ==> since->Ok_0.well_formed(),
{
    let since = time.duration_since(SystemTime::UNIX_EPOCH)?;
    Ok(SinceEpoch { secs: since.as_secs(), subsec_nanos: since.subsec_nanos() })
}

/// The time stamp for the time that has passed since the Unix epoch, `None` standing for a clock
/// that has not reached it.
pub open spec fn timestamp_of(elapsed: Option<SinceEpoch>) -> Result<u64, ClockError> {
    match elapsed {
        None => Err(ClockError::BeforeEpoch),
        Some(since) => if since.nanos() <= u64::MAX {
            Ok(since.nanos() as u64)
        } else {
            Err(ClockError::OutOfRange)
        },
    }
}

/// Turns the time that has passed since the Unix epoch into a time stamp.
pub fn timestamp(elapsed: Option<SinceEpoch>) -> (stamp: Result<u64, ClockError>)
    ensures
        stamp == timestamp_of(elapsed),
{
    match elapsed {
        None => Err(ClockError::BeforeEpoch),
        Some(since) => {
            let nanos: u128 = since.as_nanos();
            if nanos <= u64::MAX as u128 {
                Ok(nanos as u64)
            } else {
                Err(ClockError::OutOfRange)
            }
        },
    }
}

/// Whether the clock of this machine was read, and the time stamp for what it showed is the given
/// one. Only a call of `unix_time_now` shows this of a time stamp.
pub closed spec fn clock_shows(stamp: Result<u64, ClockError>) -> bool {
    exists|time: SystemTime, since: Result<SinceEpoch, SystemTimeError>|
        {
            &&& call_ensures(system_time_now, (), time)
            &&& #[trigger] call_ensures(duration_since_epoch, (&time,), since)
            &&& stamp == timestamp_of(
                match since {
                    Ok(since) => Some(since),
                    Err(_) => None,
                },
            )
        }
}

/// The nanoseconds since the Unix epoch, as the clock of this machine has them.
pub fn unix_time_now() -> (stamp: Result<u64, ClockError>)
    ensures
        clock_shows(stamp),
        exists|elapsed: Option<SinceEpoch>|
            {
                &&& elapsed matches Some(since) ==> since.well_formed()
                &&& stamp == #[trigger] timestamp_of(elapsed)
            },
{
    let now = system_time_now();
    let since = duration_since_epoch(&now);
    assert(call_ensures(duration_since_epoch, (&now,), since));
    match since {
        Ok(since) => timestamp(Some(since)),
        Err(_) => timestamp(None),
    }
}

/// A time stamp as it counts where none older than `not_before` can be used.
pub open spec fn not_older(stamp: Result<u64, ClockError>, not_before: u64) -> Result<
    u64,
    ClockError,
> {
    match stamp {
        Ok(now) => if not_before <= now {
            Ok(now)
        } else {
            Err(ClockError::WentBackwards)
        },
        Err(error) => Err(error),
    }
}

/// Hands a time stamp on unless it is older than `not_before`.
pub fn require_not_older(stamp: Result<u64, ClockError>, not_before: u64) -> (checked: Result<
    u64,
    ClockError,
>)
    ensures
        checked == not_older(stamp, not_before),
{
    match stamp {
        Ok(now) => if not_before <= now {
            Ok(now)
        } else {
            Err(ClockError::WentBackwards)
        },
        Err(error) => Err(error),
    }
}

/// Whether the clock of this machine was read, and the time stamp is the one that it gave.
pub open spec fn clock_time(now: u64) -> bool {
    clock_shows(Ok(now))
}

/// Whether the clock of this machine was read, and what it showed is no time stamp.
pub open spec fn clock_failed(error: ClockError) -> bool {
    error != ClockError::WentBackwards && clock_shows(Err(error))
}

/// Whether the clock of this machine was read, and what it showed is no time stamp, or an older one
/// than `not_before`.
pub open spec fn clock_failed_from(error: ClockError, not_before: u64) -> bool {
    if error == ClockError::WentBackwards {
        exists|now: u64| #[trigger] clock_time(now) && now < not_before
    } else {
        clock_failed(error)
    }
}

/// The nanoseconds since the Unix epoch, as the clock of this machine has them, unless they are
/// fewer than `not_before`.
pub fn unix_time_from(not_before: u64) -> (stamp: Result<u64, ClockError>)
    ensures
        match stamp {
            Ok(now) => clock_time(now) && not_before <= now,
            Err(error) => clock_failed_from(error, not_before),
        },
        exists|elapsed: Option<SinceEpoch>|
            {
                &&& elapsed matches Some(since) ==> since.well_formed()
                &&& stamp == not_older(#[trigger] timestamp_of(elapsed), not_before)
            },
{
    let reading = unix_time_now();
    proof {
        if reading is Ok {
            assert(clock_time(reading->Ok_0));
        }
    }
    require_not_older(reading, not_before)
}

/// A time span is counted in nanoseconds: none is none, a nanosecond more is one more, and a second
/// more is a thousand million more.
pub proof fn law_time_is_counted_in_nanoseconds(since: SinceEpoch, secs: u64, subsec_nanos: u32)
    ensures
        (SinceEpoch { secs: 0, subsec_nanos: 0 }).nanos() == 0,
        (SinceEpoch { subsec_nanos, ..since }).nanos() - since.nanos() == subsec_nanos
            - since.subsec_nanos,
        (SinceEpoch { secs, ..since }).nanos() - since.nanos() == 1_000_000_000 * (secs
            - since.secs),
{
}

/// A time span gives a time stamp if and only if its nanoseconds fit in 64 bits, and those are the
/// time stamp. A clock that stands before the epoch gives none.
pub proof fn law_time_stamp_is_the_nanoseconds(elapsed: Option<SinceEpoch>)
    ensures
        match elapsed {
            Some(since) => match timestamp_of(elapsed) {
                Ok(stamp) => stamp == since.secs * 1_000_000_000 + since.subsec_nanos,
                Err(error) => {
                    &&& error == ClockError::OutOfRange
                    &&& since.secs * 1_000_000_000 + since.subsec_nanos > u64::MAX
                },
            },
            None => timestamp_of(elapsed) == Err::<u64, ClockError>(ClockError::BeforeEpoch),
        },
{
}

/// A time stamp counts as it is unless it is older than it may be.
pub proof fn law_older_time_stamp_does_not_count(stamp: u64, error: ClockError, not_before: u64)
    ensures
        stamp >= not_before ==> not_older(Ok(stamp), not_before) == Ok::<u64, ClockError>(stamp),
        stamp < not_before ==> not_older(Ok(stamp), not_before) == Err::<u64, ClockError>(
            ClockError::WentBackwards,
        ),
        not_older(Err(error), not_before) == Err::<u64, ClockError>(error),
{
}

/// What the clock shows is the time since the epoch that was read for a point in time, which was
/// itself the current one when it was taken: in nanoseconds, or a failure where it is before the
/// epoch or does not fit.
proof fn law_clock_is_read(stamp: Result<u64, ClockError>)
    requires
        clock_shows(stamp),
    ensures
        exists|time: SystemTime, since: Result<SinceEpoch, SystemTimeError>|
            {
                &&& call_ensures(system_time_now, (), time)
                &&& #[trigger] call_ensures(duration_since_epoch, (&time,), since)
                &&& match (since, stamp) {
                    (Ok(since), Ok(stamp)) => stamp == since.secs * 1_000_000_000
                        + since.subsec_nanos,
                    (Ok(since), Err(error)) => error == ClockError::OutOfRange && since.secs
                        * 1_000_000_000 + since.subsec_nanos > u64::MAX,
                    (Err(_), Ok(_)) => false,
                    (Err(_), Err(error)) => error == ClockError::BeforeEpoch,
                }
            },
{
    let (time, since) = choose|time: SystemTime, since: Result<SinceEpoch, SystemTimeError>|
        {
            &&& call_ensures(system_time_now, (), time)
            &&& #[trigger] call_ensures(duration_since_epoch, (&time,), since)
            &&& stamp == timestamp_of(
                match since {
                    Ok(since) => Some(since),
                    Err(_) => None,
                },
            )
        };
    assert(call_ensures(duration_since_epoch, (&time,), since));
}

/// A time stamp that is taken is one that the clock shows; where none older than a given one can be
/// used, it is not older.
pub proof fn law_time_stamps_are_readings(
    stamp: Result<u64, ClockError>,
    not_before: u64,
    later: Result<u64, ClockError>,
)
    requires
        call_ensures(unix_time_now, (), stamp),
        call_ensures(unix_time_from, (not_before,), later),
    ensures
        clock_shows(stamp),
        match later {
            Ok(now) => clock_shows(Ok(now)) && not_before <= now,
            Err(ClockError::WentBackwards) => exists|now: u64|
                #[trigger] clock_time(now) && now < not_before,
            Err(error) => clock_shows(Err(error)),
        },
{
}

} // verus!
