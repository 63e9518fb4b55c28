//! A single-shot or looping countdown, driven by per-frame deltas.
//!
//! The timer gates periodic effects: the caller advances it with `tick` once
//! per frame and asks `is_triggered` *before* the next `tick`, because a tick
//! taken while the timer is at or past its duration resets the elapsed time
//! (and, for a single-shot timer, deactivates it) instead of adding the delta.

use vstd::prelude::*;

verus! {

/// A countdown over whole milliseconds.
///
/// `elapsed_ms` never exceeds `duration_ms + u32::MAX`: a tick adds its delta
/// only while `elapsed_ms` is still below `duration_ms` (see [`Timer::wf`]).
pub struct Timer {
    /// Whether `tick` advances the elapsed time.
    pub is_active: bool,
    /// When set, reaching the duration rearms the timer instead of
    /// deactivating it.
    pub is_loop: bool,
    /// Milliseconds accumulated since the last reset.
    pub elapsed_ms: u64,
    /// The trigger threshold in milliseconds.
    pub duration_ms: u32,
}

impl Timer {
    /// The bound on `elapsed_ms` that every operation preserves: the elapsed
    /// time is at most one (32-bit) delta beyond the duration.
    pub open spec fn wf(self) -> bool {
        self.elapsed_ms <= self.duration_ms + u32::MAX
    }

    /// Whether the timer has reached its duration.
    pub open spec fn spec_triggered(self) -> bool {
        self.elapsed_ms >= self.duration_ms
    }

    /// What one `tick` does: an inactive timer stands still; a triggered one
    /// rearms (and a one-shot one deactivates) without taking the delta; any
    /// other accumulates the delta.
    pub open spec fn spec_ticked(self, delta_ms: int) -> Timer {
        if !self.is_active {
            self
        } else if self.spec_triggered() {
            Timer { is_active: self.is_loop, elapsed_ms: 0, ..self }
        } else {
            Timer { elapsed_ms: (self.elapsed_ms + delta_ms) as u64, ..self }
        }
    }

    /// An inactive, non-looping timer with the given duration and no elapsed
    /// time.
    pub fn new(duration_ms: u32) -> (r: Timer)
        ensures
            r.wf(),
            !r.is_active,
            !r.is_loop,
            r.elapsed_ms == 0,
            r.duration_ms == duration_ms,
    {
        Timer { is_active: false, is_loop: false, elapsed_ms: 0, duration_ms }
    }

    /// Start (or keep) the timer running; nothing else changes.
    pub fn play(&mut self)
        ensures
            *final(self) == (Timer { is_active: true, ..*old(self) }),
    {
        self.is_active = true;
    }

    /// Halt the timer and discard the elapsed time.
    pub fn stop(&mut self)
        ensures
            *final(self) == (Timer { is_active: false, elapsed_ms: 0, ..*old(self) }),
    {
        self.is_active = false;
        self.elapsed_ms = 0;
    }

    /// Advance the timer by `delta_ms`.
    ///
    /// Inactive timers ignore the call. A tick taken at or past the duration
    /// resets the elapsed time to zero — consuming the trigger `is_triggered`
    /// reported — and deactivates a non-looping timer; the delta of that call
    /// is not added. Otherwise the delta is added in full.
    pub fn tick(&mut self, delta_ms: u32)
        requires
            old(self).wf(),
        ensures
            final(self).wf(),
            *final(self) == old(self).spec_ticked(delta_ms as int),
    {
        if !self.is_active {
            return;
        }
        if self.elapsed_ms >= self.duration_ms as u64 {
            if !self.is_loop {
                self.is_active = false;
            }
            self.elapsed_ms = 0;
            return;
        }
        self.elapsed_ms = self.elapsed_ms + delta_ms as u64;
    }

    /// Whether the timer has reached its duration. Only valid until the next
    /// `tick`, which clears the condition it reports.
    pub fn is_triggered(&self) -> (r: bool)
        ensures
            r == self.spec_triggered(),
    {
        self.elapsed_ms >= self.duration_ms as u64
    }
}

} // verus!
