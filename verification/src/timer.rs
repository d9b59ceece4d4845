//! The frame clock: a one-shot timer over whole nanoseconds.

use vstd::prelude::*;

verus! {

/// Nanoseconds in one second.
pub const NANOS_PER_SECOND: u64 = 1_000_000_000;

/// How long one animation frame stays on screen at `fps` frames per second:
/// the least whole number of nanoseconds that is not shorter than `1 / fps`
/// seconds. A rate of zero stands for one frame per second, the pace of an
/// animator that was never given a rate.
pub open spec fn frame_period(fps: u8) -> u64 {
    if fps == 0 {
        NANOS_PER_SECOND
    } else {
        ((NANOS_PER_SECOND + fps - 1) / (fps as int)) as u64
    }
}

/// A frame period is the least duration that covers `1 / fps` seconds: it lies
/// between one 255th of a second and a whole second, `fps` periods make up at
/// least a second, and one nanosecond less would fall short.
pub proof fn lemma_frame_period_covers_one_frame(fps: u8)
    requires
        fps > 0,
    ensures
        0 < frame_period(fps) <= NANOS_PER_SECOND,
        frame_period(fps) * fps >= NANOS_PER_SECOND,
        (frame_period(fps) - 1) * fps < NANOS_PER_SECOND,
{
    let n: int = NANOS_PER_SECOND as int;
    let f: int = fps as int;
    let q: int = (n + f - 1) / f;
    assert(q * f <= n + f - 1 < (q + 1) * f) by (nonlinear_arith)
        requires
            f > 0,
            q == (n + f - 1) / f,
    ;
    assert(q >= 1 && q <= n) by (nonlinear_arith)
        requires
            f >= 1,
            n >= 1,
            q * f <= n + f - 1 < (q + 1) * f,
    ;
    assert((q - 1) * f < n) by (nonlinear_arith)
        requires
            q * f <= n + f - 1,
    ;
    assert(q * f >= n) by (nonlinear_arith)
        requires
            n + f - 1 < (q + 1) * f,
    ;
}

/// Every frame period is longer than nothing and no longer than a second.
pub proof fn lemma_frame_period_positive(fps: u8)
    ensures
        0 < frame_period(fps) <= NANOS_PER_SECOND,
{
    if fps > 0 {
        lemma_frame_period_covers_one_frame(fps);
    }
}

/// A timer that runs once: it counts elapsed time up to its period, reports
/// the tick on which it gets there, and then stands still.
#[derive(Clone, Copy, Debug, PartialEq, Eq)]
pub struct FrameTimer {
    /// The time the timer runs for.
    pub period_nanos: u64,
    /// The time counted so far, never more than the period.
    pub elapsed_nanos: u64,
}

impl FrameTimer {
    /// The timer has a period, and has not counted past it.
    pub open spec fn wf(self) -> bool {
        0 < self.period_nanos && self.elapsed_nanos <= self.period_nanos
    }

    /// The timer has run its whole period.
    pub open spec fn is_finished(self) -> bool {
        self.elapsed_nanos >= self.period_nanos
    }

    /// Whether a tick of `delta_nanos` takes a running timer to its period.
    pub open spec fn fires(self, delta_nanos: u64) -> bool {
        !self.is_finished() && self.elapsed_nanos + delta_nanos >= self.period_nanos
    }

    /// The timer after a tick of `delta_nanos`: a finished timer stays as it
    /// is, a running one counts on and stops at its period.
    pub open spec fn after_tick(self, delta_nanos: u64) -> FrameTimer {
        if self.is_finished() {
            self
        } else if self.elapsed_nanos + delta_nanos >= self.period_nanos {
            FrameTimer { period_nanos: self.period_nanos, elapsed_nanos: self.period_nanos }
        } else {
            FrameTimer {
                period_nanos: self.period_nanos,
                elapsed_nanos: (self.elapsed_nanos + delta_nanos) as u64,
            }
        }
    }

    /// A fresh timer for one frame at `fps` frames per second.
    pub open spec fn fresh(fps: u8) -> FrameTimer {
        FrameTimer { period_nanos: frame_period(fps), elapsed_nanos: 0 }
    }

    /// A timer that has counted nothing yet and runs for one frame at `fps`
    /// frames per second.
    pub fn from_fps(fps: u8) -> (timer: FrameTimer)
        ensures
            timer == FrameTimer::fresh(fps),
            timer.wf(),
            !timer.is_finished(),
    {
        let period_nanos: u64 = if fps == 0 {
            NANOS_PER_SECOND
        } else {
            (NANOS_PER_SECOND + (fps as u64) - 1) / (fps as u64)
        };
        proof {
            if fps > 0 {
                lemma_frame_period_covers_one_frame(fps);
            }
        }
        FrameTimer { period_nanos, elapsed_nanos: 0 }
    }

    /// Whether the timer has run its whole period.
    pub fn finished(&self) -> (done: bool)
        ensures
            done == self.is_finished(),
    {
        self.elapsed_nanos >= self.period_nanos
    }

    /// Counts `delta_nanos` more and says whether the timer finished on this
    /// very tick.
    pub fn tick(&mut self, delta_nanos: u64) -> (just_finished: bool)
        requires
            old(self).wf(),
        ensures
            final(self).wf(),
            *final(self) == old(self).after_tick(delta_nanos),
            just_finished == old(self).fires(delta_nanos),
    {
        if self.elapsed_nanos >= self.period_nanos {
            return false;
        }
        if delta_nanos >= self.period_nanos - self.elapsed_nanos {
            self.elapsed_nanos = self.period_nanos;
            true
        } else {
            self.elapsed_nanos = self.elapsed_nanos + delta_nanos;
            false
        }
    }
}

} // verus!
