//! The debounce cell: the time of the most recent accepted trigger or
//! completed run, in whole seconds.

use vstd::prelude::*;

verus! {

/// Seconds that must lie between two accepted triggers.
pub const WINDOW: i64 = 2;

/// Whether a trigger at time `now` is admitted when the cell holds `prev`.
///
/// A trigger is denied exactly when `prev` is later than `now - WINDOW`.
pub open spec fn admits(prev: int, now: int) -> bool {
    !(prev > now - WINDOW)
}

/// Reads the system clock with `std::time::SystemTime::elapsed` on the
/// Unix epoch: the whole seconds that have passed since the epoch, `None`
/// where the clock stands before it. Nothing is claimed of the reading,
/// which differs from call to call.
#[verifier::external_body]
fn clock_seconds() -> (reading: Option<u64>)
{
    match std::time::UNIX_EPOCH.elapsed() {
        Ok(passed) => Some(passed.as_secs()),
        Err(_) => None,
    }
}

/// The present time of the system clock in whole seconds; the clock may be
/// set back between two readings. It is meant for comparisons only.
pub fn current() -> (now: i64)
    ensures
        exists|reading: Option<u64>| now == timestamp_of(reading),
        0 <= now,
{
    timestamp(clock_seconds())
}

/// The timestamp that stands for a reading of the clock: the seconds since
/// the epoch, held at the largest timestamp where they exceed it, and zero
/// for a clock that stands before the epoch.
pub open spec fn timestamp_of(reading: Option<u64>) -> int {
    match reading {
        Some(seconds) => if seconds <= i64::MAX {
            seconds as int
        } else {
            i64::MAX as int
        },
        None => 0,
    }
}

/// Turns a reading of the clock into a timestamp.
pub fn timestamp(reading: Option<u64>) -> (now: i64)
    ensures
        now == timestamp_of(reading),
{
    match reading {
        Some(seconds) => if seconds <= 9223372036854775807u64 {
            seconds as i64
        } else {
            i64::MAX
        },
        None => 0,
    }
}

/// The last-trigger timestamp.
pub struct TimeLock {
    stamp: i64,
}

impl View for TimeLock {
    type V = int;

    closed spec fn view(&self) -> int {
        self.stamp as int
    }
}

impl TimeLock {
    /// A cell that has seen no trigger yet; it holds time zero.
    pub fn new() -> (lock: TimeLock)
        ensures
            lock@ == 0,
    {
        TimeLock { stamp: 0 }
    }

    /// The stored timestamp.
    pub fn read(&self) -> (stamp: i64)
        ensures
            stamp == self@,
    {
        self.stamp
    }

    /// Overwrites the stored timestamp with `now`.
    pub fn update(&mut self, now: i64)
        ensures
            final(self)@ == now,
    {
        self.stamp = now;
    }

    /// Overwrites the stored timestamp with the present time and returns
    /// the reading that was stored.
    pub fn update_now(&mut self) -> (now: i64)
        ensures
            final(self)@ == now,
            0 <= now,
            exists|reading: Option<u64>| now == timestamp_of(reading),
    {
        let now: i64 = current();
        self.update(now);
        now
    }

    /// Whether a trigger at time `now` would be admitted. The comparison is
    /// made over the integers, so no reading of the clock is out of range.
    pub fn admits(&self, now: i64) -> (admitted: bool)
        ensures
            admitted == admits(self@, now as int),
    {
        if now < i64::MIN + WINDOW {
            false
        } else {
            let justnow: i64 = now - WINDOW;
            !(self.stamp > justnow)
        }
    }
}

/// What the cell holds after a trigger request at time `now`: the time of
/// the request where it is admitted, and what it held before where it is
/// denied.
pub open spec fn after_request(prev: int, now: int) -> int {
    if admits(prev, now) {
        now
    } else {
        prev
    }
}

/// Admission is a function of the time that has passed since the cell was
/// stamped: with the cell stamped at `stamped`, a request at `now` is
/// admitted exactly when at least `WINDOW` seconds lie between the two.
pub proof fn lemma_admission_by_elapsed_time(stamped: int, now: int)
    ensures
        admits(stamped, now) <==> now - stamped >= WINDOW,
{
}

/// Of two requests, the first of them accepted, the second is denied when
/// less than `WINDOW` seconds after the first and accepted otherwise; a
/// denied request leaves the cell at the time of the first.
pub proof fn lemma_second_request(prev: int, first: int, second: int)
    requires
        admits(prev, first),
    ensures
        second - first < WINDOW ==> !admits(after_request(prev, first), second),
        second - first >= WINDOW ==> admits(after_request(prev, first), second),
        second - first < WINDOW ==> after_request(after_request(prev, first), second) == first,
        second - first >= WINDOW ==> after_request(after_request(prev, first), second) == second,
{
}

} // verus!
