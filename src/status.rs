use vstd::prelude::*;
use crate::alarm::{Alarm, elapsed};

verus! {

/// Heartbeat period in ticks (250 ms on a 1 µs counter).
pub const STATUS_PERIOD: u64 = 250_000;

/// The liveness indicator: an output level and the alarm that paces it.
#[derive(Debug, Clone, Copy, PartialEq, Eq, Structural)]
pub struct StatusPin {
    pub led_on: bool,
    pub alarm: Alarm,
}

/// What one loop iteration does to the indicator at tick `now`: once the
/// alarm has fired it is rescheduled for one more period and the output
/// flips; otherwise nothing changes.
pub open spec fn status_step(p: StatusPin, now: u64) -> StatusPin {
    if p.alarm.fired_at(now) {
        StatusPin {
            led_on: !p.led_on,
            alarm: Alarm { armed: true, start: now, countdown: STATUS_PERIOD },
        }
    } else {
        p
    }
}

/// The indicator after one loop iteration at each tick of `times`, in order.
pub open spec fn status_run(p: StatusPin, times: Seq<u64>) -> StatusPin
    decreases times.len(),
{
    if times.len() == 0 {
        p
    } else {
        status_run(status_step(p, times[0]), times.drop_first())
    }
}

/// How many of the loop iterations at the ticks of `times` flip the output.
pub open spec fn toggle_count(p: StatusPin, times: Seq<u64>) -> nat
    decreases times.len(),
{
    if times.len() == 0 {
        0
    } else {
        (if p.alarm.fired_at(times[0]) {
            1nat
        } else {
            0nat
        }) + toggle_count(status_step(p, times[0]), times.drop_first())
    }
}

impl StatusPin {
    /// An indicator with its output low and its alarm not yet scheduled, so
    /// the first iteration toggles it and starts the heartbeat.
    pub fn new() -> (r: StatusPin)
        ensures
            !r.led_on,
            !r.alarm.armed,
    {
        StatusPin { led_on: false, alarm: Alarm::new() }
    }

    /// One loop iteration at tick `now`. Returns whether the output flipped;
    /// the caller then drives the pin to `led_on`.
    pub fn in_loop(&mut self, now: u64) -> (toggled: bool)
        ensures
            *final(self) == status_step(*old(self), now),
            toggled == old(self).alarm.fired_at(now),
    {
        if self.alarm.finished(now) {
            let _ = self.alarm.schedule(now, STATUS_PERIOD);
            self.led_on = !self.led_on;
            true
        } else {
            false
        }
    }
}

/// Between two firings the indicator is left alone: after the iteration at
/// `t0` that flips it, any number of further iterations within one period
/// change nothing, so it flips exactly once per elapsed period.
pub proof fn lemma_one_toggle_per_period(p: StatusPin, t0: u64, later: Seq<u64>)
    requires
        p.alarm.fired_at(t0),
        forall|i: int| 0 <= i < later.len() ==> elapsed(t0, #[trigger] later[i]) < STATUS_PERIOD,
    ensures
        status_step(p, t0).led_on == !p.led_on,
        status_run(status_step(p, t0), later) == status_step(p, t0),
    decreases later.len(),
{
    if later.len() > 0 {
        let q = status_step(p, t0);
        assert(elapsed(t0, later[0]) < STATUS_PERIOD);
        assert(status_step(q, later[0]) == q);
        let rest = later.drop_first();
        assert forall|i: int| 0 <= i < rest.len() implies elapsed(t0, #[trigger] rest[i])
            < STATUS_PERIOD by {
            assert(rest[i] == later[i + 1]);
        }
        lemma_one_toggle_per_period(p, t0, rest);
    }
}

/// Iterations that stay within the period started by the flip at `t0` flip
/// nothing more.
proof fn lemma_no_toggle_within_period(p: StatusPin, t0: u64, later: Seq<u64>)
    requires
        p.alarm == (Alarm { armed: true, start: t0, countdown: STATUS_PERIOD }),
        forall|i: int| 0 <= i < later.len() ==> elapsed(t0, #[trigger] later[i]) < STATUS_PERIOD,
    ensures
        toggle_count(p, later) == 0,
    decreases later.len(),
{
    if later.len() > 0 {
        assert(elapsed(t0, later[0]) < STATUS_PERIOD);
        let rest = later.drop_first();
        assert forall|i: int| 0 <= i < rest.len() implies elapsed(t0, #[trigger] rest[i])
            < STATUS_PERIOD by {
            assert(rest[i] == later[i + 1]);
        }
        lemma_no_toggle_within_period(p, t0, rest);
    }
}

/// Over the iteration at `t0` that finds the alarm fired, followed by any
/// number of iterations within the next period, the output flips exactly
/// once.
pub proof fn lemma_exactly_one_toggle_per_period(p: StatusPin, t0: u64, later: Seq<u64>)
    requires
        p.alarm.fired_at(t0),
        forall|i: int| 0 <= i < later.len() ==> elapsed(t0, #[trigger] later[i]) < STATUS_PERIOD,
    ensures
        toggle_count(p, seq![t0] + later) == 1,
        status_run(p, seq![t0] + later).led_on == !p.led_on,
{
    let all = seq![t0] + later;
    assert(all[0] == t0);
    assert(all.drop_first() =~= later);
    lemma_no_toggle_within_period(status_step(p, t0), t0, later);
    lemma_one_toggle_per_period(p, t0, later);
}

} // verus!
