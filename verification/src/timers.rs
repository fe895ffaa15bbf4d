//! When the next sweeps are due, and the wall clock they are measured by.

use vstd::prelude::*;

verus! {

/// A bound on what the wall clock can show, in seconds before or after the
/// Unix epoch: two to the power of 45, which is more than a million years.
pub const CLOCK_LIMIT: i64 = 35_184_372_088_832;

/// `time` is a time that the wall clock can show.
pub open spec fn is_clock_reading(time: int) -> bool {
    -CLOCK_LIMIT < time < CLOCK_LIMIT
}

/// Seconds from the start of a store to its first sweep of memory: an hour.
pub const FIRST_MEMORY_SWEEP: i64 = 3_600;

/// Seconds from the start of a store to its first sweep of the backend: six
/// hours.
pub const FIRST_DATABASE_SWEEP: i64 = 21_600;

/// The wall clock now, in whole seconds since the Unix epoch. Calls
/// `time::OffsetDateTime::now_utc` and takes the reading's `unix_timestamp`.
/// Nothing is claimed of the reading but a bound: `time` keeps no date
/// beyond the years -999,999 to 999,999 (-9999 to 9999 unless its
/// `large-dates` feature is on), each of at most 366 days of 86,400 seconds,
/// so every reading lies less than `CLOCK_LIMIT` seconds from the epoch.
#[verifier::external_body]
pub(crate) fn unix_now() -> (now: i64)
    ensures
        is_clock_reading(now as int),
{
    time::OffsetDateTime::now_utc().unix_timestamp()
}

/// The times from which on the next sweep of memory and the next sweep of
/// the backend are due, in seconds since the Unix epoch.
#[derive(Clone, Copy, Debug)]
pub struct SessionTimers {
    /// From this time on a sweep of the records in memory is due.
    pub last_expiry_sweep: i64,
    /// From this time on a sweep of the backend is due.
    pub last_database_expiry_sweep: i64,
}

impl SessionTimers {
    /// The timers of a store that starts at `now`: the first sweep of memory
    /// an hour later, the first sweep of the backend six hours later.
    pub fn starting_at(now: i64) -> (timers: Self)
        requires
            now + FIRST_DATABASE_SWEEP <= i64::MAX,
        ensures
            timers.last_expiry_sweep == now + FIRST_MEMORY_SWEEP,
            timers.last_database_expiry_sweep == now + FIRST_DATABASE_SWEEP,
    {
        SessionTimers {
            last_expiry_sweep: now + FIRST_MEMORY_SWEEP,
            last_database_expiry_sweep: now + FIRST_DATABASE_SWEEP,
        }
    }

    /// A sweep of memory is due at `now`.
    pub open spec fn spec_memory_sweep_due(&self, now: i64) -> bool {
        self.last_expiry_sweep <= now
    }

    /// Whether a sweep of memory is due at `now`.
    #[verifier::when_used_as_spec(spec_memory_sweep_due)]
    pub fn memory_sweep_due(&self, now: i64) -> (due: bool)
        ensures
            due == self.spec_memory_sweep_due(now),
    {
        self.last_expiry_sweep <= now
    }

    /// A sweep of the backend is due at `now`.
    pub open spec fn spec_database_sweep_due(&self, now: i64) -> bool {
        self.last_database_expiry_sweep <= now
    }

    /// Whether a sweep of the backend is due at `now`.
    #[verifier::when_used_as_spec(spec_database_sweep_due)]
    pub fn database_sweep_due(&self, now: i64) -> (due: bool)
        ensures
            due == self.spec_database_sweep_due(now),
    {
        self.last_database_expiry_sweep <= now
    }

    /// The timers after a sweep of memory at `now`: the next one is due
    /// `interval` seconds later.
    pub open spec fn after_memory_sweep(self, now: i64, interval: u32) -> SessionTimers {
        SessionTimers { last_expiry_sweep: (now + interval) as i64, ..self }
    }

    /// The timers after a sweep of the backend at `now`: the next one is due
    /// `interval` seconds later.
    pub open spec fn after_database_sweep(self, now: i64, interval: u32) -> SessionTimers {
        SessionTimers { last_database_expiry_sweep: (now + interval) as i64, ..self }
    }

    /// Notes that memory was swept at `now`.
    pub fn memory_swept(&mut self, now: i64, interval: u32)
        requires
            now + interval <= i64::MAX,
        ensures
            *final(self) == old(self).after_memory_sweep(now, interval),
    {
        self.last_expiry_sweep = now + interval as i64;
    }

    /// Notes that the backend was swept at `now`.
    pub fn database_swept(&mut self, now: i64, interval: u32)
        requires
            now + interval <= i64::MAX,
        ensures
            *final(self) == old(self).after_database_sweep(now, interval),
    {
        self.last_database_expiry_sweep = now + interval as i64;
    }
}

} // verus!
