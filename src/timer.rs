//! A countdown timer driven by elapsed-time deltas, in the manner of a game
//! engine's frame timer: one-shot timers stay finished, repeating timers wrap.
use vstd::prelude::*;

verus! {

/// What a [`Timer`] holds, as mathematical values.
pub struct TimerView {
    pub duration: nat,
    pub elapsed: nat,
    pub repeating: bool,
    pub finished: bool,
    pub just_finished: bool,
}

/// The state of a timer after `delta` more milliseconds have passed.
pub open spec fn tick_view(v: TimerView, delta: nat) -> TimerView {
    if v.repeating {
        let total = v.elapsed + delta;
        if total >= v.duration {
            TimerView {
                elapsed: total % v.duration,
                finished: true,
                just_finished: true,
                ..v
            }
        } else {
            TimerView { elapsed: total, finished: false, just_finished: false, ..v }
        }
    } else if v.finished {
        TimerView { just_finished: false, ..v }
    } else if v.elapsed + delta >= v.duration {
        TimerView { elapsed: v.duration, finished: true, just_finished: true, ..v }
    } else {
        TimerView { elapsed: v.elapsed + delta, finished: false, just_finished: false, ..v }
    }
}

/// The state of a timer that was just created or reset.
pub open spec fn fresh_view(duration: nat, repeating: bool) -> TimerView {
    TimerView { duration, elapsed: 0, repeating, finished: false, just_finished: false }
}

/// A timer of a fixed duration, in milliseconds.
#[derive(Clone, Copy, Debug)]
pub struct Timer {
    duration_ms: u64,
    elapsed_ms: u64,
    repeating: bool,
    finished: bool,
    just_finished: bool,
}

impl View for Timer {
    type V = TimerView;

    closed spec fn view(&self) -> TimerView {
        TimerView {
            duration: self.duration_ms as nat,
            elapsed: self.elapsed_ms as nat,
            repeating: self.repeating,
            finished: self.finished,
            just_finished: self.just_finished,
        }
    }
}

impl Timer {
    #[verifier::type_invariant]
    spec fn inv(self) -> bool {
        &&& self.duration_ms > 0
        &&& self.elapsed_ms <= self.duration_ms
        &&& self.repeating ==> self.elapsed_ms < self.duration_ms
        &&& !self.repeating ==> (self.finished <==> self.elapsed_ms == self.duration_ms)
        &&& self.just_finished ==> self.finished
    }

    /// A timer of `duration_ms` that has not started counting.
    pub fn new(duration_ms: u64, repeating: bool) -> (t: Timer)
        requires
            duration_ms > 0,
        ensures
            t@ == fresh_view(duration_ms as nat, repeating),
    {
        Timer { duration_ms, elapsed_ms: 0, repeating, finished: false, just_finished: false }
    }

    /// Advances the timer by `delta_ms`.
    pub fn tick(&mut self, delta_ms: u64)
        ensures
            final(self)@ == tick_view(old(self)@, delta_ms as nat),
    {
        proof {
            use_type_invariant(&*self);
        }
        let d = self.duration_ms;
        let left = d - self.elapsed_ms;
        if self.repeating {
            if delta_ms >= left {
                proof {
                    let total = self.elapsed_ms + delta_ms;
                    assert(total == d + (delta_ms - left));
                    assert(total % (d as int) == (delta_ms - left) % (d as int)) by {
                        vstd::arithmetic::div_mod::lemma_mod_add_multiples_vanish(
                            (delta_ms - left) as int,
                            d as int,
                        );
                    }
                }
                *self = Timer {
                    duration_ms: d,
                    elapsed_ms: (delta_ms - left) % d,
                    repeating: true,
                    finished: true,
                    just_finished: true,
                };
            } else {
                *self = Timer {
                    duration_ms: d,
                    elapsed_ms: self.elapsed_ms + delta_ms,
                    repeating: true,
                    finished: false,
                    just_finished: false,
                };
            }
        } else if self.finished {
            *self = Timer { duration_ms: d, elapsed_ms: d, repeating: false, finished: true, just_finished: false };
        } else if delta_ms >= left {
            *self = Timer { duration_ms: d, elapsed_ms: d, repeating: false, finished: true, just_finished: true };
        } else {
            *self = Timer {
                duration_ms: d,
                elapsed_ms: self.elapsed_ms + delta_ms,
                repeating: false,
                finished: false,
                just_finished: false,
            };
        }
    }

    /// Starts the timer over from zero.
    pub fn reset(&mut self)
        ensures
            final(self)@ == fresh_view(old(self)@.duration, old(self)@.repeating),
    {
        proof {
            use_type_invariant(&*self);
        }
        *self = Timer {
            duration_ms: self.duration_ms,
            elapsed_ms: 0,
            repeating: self.repeating,
            finished: false,
            just_finished: false,
        };
    }

    /// Whether the timer has reached its duration (for a repeating timer: in the
    /// last tick).
    pub fn finished(&self) -> (r: bool)
        ensures
            r == self@.finished,
    {
        self.finished
    }

    /// The time counted so far.
    pub fn elapsed_ms(&self) -> (r: u64)
        ensures
            r == self@.elapsed,
    {
        self.elapsed_ms
    }

    /// The timer's duration.
    pub fn duration_ms(&self) -> (r: u64)
        ensures
            r == self@.duration,
    {
        self.duration_ms
    }

    /// Whether the last tick made the timer reach its duration.
    pub fn just_finished(&self) -> (r: bool)
        ensures
            r == self@.just_finished,
    {
        self.just_finished
    }
}

} // verus!
