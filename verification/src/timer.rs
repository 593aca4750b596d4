//! The periodic-inform schedule: a fixed-rate timer that emits one
//! `PeriodicInform` trigger every interval.  Fixed-rate means each fire
//! time is the previous fire time plus the interval, so ticks do not drift
//! with downstream processing time.  The waiting itself happens outside
//! this core; callers hand in the current time and receive the due trigger,
//! if any.

use vstd::prelude::*;

use crate::arbitrator::Trigger;

verus! {

/// The schedule of the periodic-inform timer.  Times are in the caller's
/// clock units (for example seconds since startup).
#[derive(Debug)]
pub struct PeriodicTimer {
    /// The fixed interval between fire times; positive.
    pub interval: u64,
    /// The next scheduled fire time.
    pub next_fire: u64,
}

/// The fire time after `at`, one interval later, saturating at the end of
/// the clock's range.
pub open spec fn fire_after(at: u64, interval: u64) -> u64 {
    if at + interval <= u64::MAX {
        (at + interval) as u64
    } else {
        u64::MAX
    }
}

impl PeriodicTimer {
    pub open spec fn wf(self) -> bool {
        self.interval > 0
    }

    /// A timer started at `now`: its first fire time is one interval from
    /// now.
    pub fn new(interval: u64, now: u64) -> (r: PeriodicTimer)
        requires
            interval > 0,
        ensures
            r.wf(),
            r.interval == interval,
            r.next_fire == fire_after(now, interval),
    {
        let next_fire = if now <= u64::MAX - interval {
            now + interval
        } else {
            u64::MAX
        };
        PeriodicTimer { interval, next_fire }
    }

    /// Emit the periodic-inform trigger when its scheduled time has come,
    /// advancing the schedule by exactly one interval from the scheduled
    /// time, not from `now`.  Before the scheduled time, nothing is emitted
    /// and nothing changes.
    pub fn poll_tick(&mut self, now: u64) -> (r: Option<Trigger>)
        requires
            old(self).wf(),
        ensures
            final(self).wf(),
            final(self).interval == old(self).interval,
            now < old(self).next_fire ==> r is None && *final(self) == *old(self),
            now >= old(self).next_fire ==> r == Some(
                Trigger::PeriodicInform { scheduled_at: old(self).next_fire },
            ) && final(self).next_fire == fire_after(old(self).next_fire, old(self).interval),
    {
        if now >= self.next_fire {
            let scheduled_at = self.next_fire;
            self.next_fire = if scheduled_at <= u64::MAX - self.interval {
                scheduled_at + self.interval
            } else {
                u64::MAX
            };
            Some(Trigger::PeriodicInform { scheduled_at })
        } else {
            None
        }
    }
}

} // verus!
