use vstd::prelude::*;

verus! {

/// Ticks that separate `start` from `now` on a counter that wraps at 2^64.
pub open spec fn elapsed(start: u64, now: u64) -> int {
    if now >= start {
        now - start
    } else {
        now + 0x1_0000_0000_0000_0000int - start
    }
}

/// Why an alarm refused to be scheduled.
#[derive(Debug, Clone, Copy, PartialEq, Eq, Structural)]
pub enum AlarmError {
    /// The alarm is still counting down towards an earlier deadline.
    AlreadyArmed,
}

/// A one-shot countdown measured on the monotonic tick counter.
///
/// The alarm never reads the clock itself: every operation is handed the
/// current tick count, so its whole behaviour is a function of the ticks it
/// has been shown.
#[derive(Debug, Clone, Copy, PartialEq, Eq, Structural)]
pub struct Alarm {
    pub armed: bool,
    pub start: u64,
    pub countdown: u64,
}

impl Alarm {
    /// Whether the alarm counts as fired at tick `now`. An alarm that was
    /// never armed, or has been cleared, reports fired.
    pub open spec fn fired_at(self, now: u64) -> bool {
        !self.armed || elapsed(self.start, now) >= self.countdown
    }

    /// The alarm that has never been scheduled.
    pub open spec fn new_spec() -> Alarm {
        Alarm { armed: false, start: 0, countdown: 0 }
    }

    /// An alarm that has never been scheduled.
    pub fn new() -> (r: Alarm)
        ensures
            r == Alarm::new_spec(),
    {
        Alarm { armed: false, start: 0, countdown: 0 }
    }

    /// Ticks passed since the alarm was last armed, wrapping with the counter.
    pub fn elapsed_since_start(&self, now: u64) -> (r: u64)
        ensures
            r == elapsed(self.start, now),
    {
        now.wrapping_sub(self.start)
    }

    /// Non-blocking poll: has the deadline been reached at tick `now`?
    pub fn finished(&self, now: u64) -> (r: bool)
        ensures
            r == self.fired_at(now),
    {
        !self.armed || self.elapsed_since_start(now) >= self.countdown
    }

    /// Arms the alarm to fire `countdown` ticks after `now`. Refused while an
    /// earlier deadline is still pending, in which case nothing changes.
    pub fn schedule(&mut self, now: u64, countdown: u64) -> (r: Result<(), AlarmError>)
        ensures
            old(self).fired_at(now) <==> r is Ok,
            r is Ok ==> *final(self) == (Alarm { armed: true, start: now, countdown }),
            r is Err ==> *final(self) == *old(self) && r == Err::<(), AlarmError>(
                AlarmError::AlreadyArmed,
            ),
    {
        if self.finished(now) {
            self.armed = true;
            self.start = now;
            self.countdown = countdown;
            Ok(())
        } else {
            Err(AlarmError::AlreadyArmed)
        }
    }

    /// Acknowledges a firing: the alarm is disarmed until scheduled again.
    pub fn clear(&mut self)
        ensures
            *final(self) == (Alarm { armed: false, ..*old(self) }),
    {
        self.armed = false;
    }
}

} // verus!
