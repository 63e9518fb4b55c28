//! The tweening engine: a scalar advanced from an initial value toward a
//! target value over a fixed duration, with pause/play/stop/restart/seek.
//!
//! Progress along the tween is a first-class field, measured in parts per
//! million ([`PROGRESS_UNIT`] is the whole): seeking and reading the
//! percentage are exact, and the current value is derived from the progress
//! by integer interpolation instead of being accumulated, so repeated ticks
//! and loops cannot drift. A tick converts its delta to progress with one
//! rounded-down division; deltas smaller than a millionth of the duration
//! are therefore lost to that resolution.
//!
//! The contracts all speak of [`AnimState`], the mathematical state of a
//! tween, and of the transition functions [`anim_play`], [`anim_stop`],
//! [`anim_seek`], [`anim_tick`] and their companions over it.

use vstd::arithmetic::div_mod::{
    lemma_div_pos_is_pos, lemma_multiply_divide_le, lemma_multiply_divide_lt,
};
use vstd::arithmetic::mul::lemma_mul_inequality;
use vstd::prelude::*;

verus! {

/// Tween progress is measured in parts per million: this many parts mean the
/// tween stands at its target.
pub const PROGRESS_UNIT: u32 = 1000000;

/// A request to seek outside the `[0, PROGRESS_UNIT]` range; the tween is
/// left untouched.
#[derive(Clone, Copy, PartialEq, Eq, Structural, Debug)]
pub struct RangeError;

/// The state of a tween, as the contracts speak of it.
pub struct AnimState {
    pub initial: int,
    pub target: int,
    pub duration_ms: int,
    pub progress_ppm: int,
    pub playing: bool,
    pub looping: bool,
}

/// The progress is a valid fraction and the duration is a length.
pub open spec fn anim_wf(s: AnimState) -> bool {
    &&& 0 <= s.progress_ppm <= PROGRESS_UNIT
    &&& 0 <= s.duration_ms
}

/// The value `p` parts per million of the way from `initial` to `target`,
/// with the interpolated offset rounded toward `initial`.
pub open spec fn lerp(initial: int, target: int, p: int) -> int {
    if target >= initial {
        initial + ((target - initial) * p) / (PROGRESS_UNIT as int)
    } else {
        initial - ((initial - target) * p) / (PROGRESS_UNIT as int)
    }
}

/// The value the tween stands at: derived from the progress, never cached.
pub open spec fn anim_current(s: AnimState) -> int {
    lerp(s.initial, s.target, s.progress_ppm)
}

/// `play` starts the tween only when there is still a gap to close;
/// attempting to play a finished tween leaves it parked (an advisory,
/// non-fatal outcome the caller can observe on `playing`).
pub open spec fn anim_play(s: AnimState) -> AnimState {
    AnimState { playing: anim_current(s) != s.target, ..s }
}

/// `pause` halts the tween where it stands.
pub open spec fn anim_pause(s: AnimState) -> AnimState {
    AnimState { playing: false, ..s }
}

/// `stop` halts the tween and winds it back to the initial value.
pub open spec fn anim_stop(s: AnimState) -> AnimState {
    AnimState { playing: false, progress_ppm: 0, ..s }
}

/// `restart` is `stop` followed by `play`.
pub open spec fn anim_restart(s: AnimState) -> AnimState {
    anim_play(anim_stop(s))
}

/// `seek` puts the tween exactly `p` parts per million of the way in.
pub open spec fn anim_seek(s: AnimState, p: int) -> AnimState {
    AnimState { progress_ppm: p, ..s }
}

/// One frame of `delta_ms` milliseconds: a paused tween and one without a
/// duration stand still; otherwise the delta becomes progress (rounded down),
/// an overshoot is clamped to the end, and a looping tween then restarts from
/// its initial value.
pub open spec fn anim_tick(s: AnimState, delta_ms: int) -> AnimState {
    if s.duration_ms == 0 || !s.playing {
        s
    } else {
        let p = s.progress_ppm + (delta_ms * PROGRESS_UNIT) / s.duration_ms;
        if p >= PROGRESS_UNIT {
            let done = anim_seek(s, PROGRESS_UNIT as int);
            if s.looping {
                anim_restart(done)
            } else {
                done
            }
        } else {
            anim_seek(s, p)
        }
    }
}

/// The interpolated value stays between the endpoints; it starts at
/// `initial`, reaches `target` exactly at full progress, and not before
/// (unless the endpoints coincide).
pub proof fn lemma_lerp_bounds(initial: int, target: int, p: int)
    requires
        0 <= p <= PROGRESS_UNIT,
    ensures
        initial <= target ==> initial <= lerp(initial, target, p) <= target,
        target <= initial ==> target <= lerp(initial, target, p) <= initial,
        lerp(initial, target, 0) == initial,
        p == PROGRESS_UNIT ==> lerp(initial, target, p) == target,
        (lerp(initial, target, p) == target) <==> (p == PROGRESS_UNIT || initial == target),
{
    let u = PROGRESS_UNIT as int;
    let d = if target >= initial {
        target - initial
    } else {
        initial - target
    };
    vstd::arithmetic::mul::lemma_mul_nonnegative(d, p);
    lemma_div_pos_is_pos(d * p, u);
    lemma_mul_inequality(p, u, d);
    vstd::arithmetic::mul::lemma_mul_is_commutative(d, p);
    vstd::arithmetic::mul::lemma_mul_is_commutative(u, d);
    lemma_multiply_divide_le(d * p, u, d);
    vstd::arithmetic::div_mod::lemma_div_multiples_vanish(d, u);
    vstd::arithmetic::mul::lemma_mul_basics_2(d);
    vstd::arithmetic::div_mod::lemma_div_of0(u);
    if p < u && d > 0 {
        vstd::arithmetic::mul::lemma_mul_strict_inequality(p, u, d);
        lemma_multiply_divide_lt(d * p, u, d);
    }
}

/// Seeking to a fraction and then reading the percentage gives that fraction
/// back exactly, whenever the tween has a gap to measure.
pub proof fn lemma_seek_then_percentage(s: AnimState, p: int)
    requires
        anim_wf(s),
        0 <= p <= PROGRESS_UNIT,
        s.initial != s.target,
    ensures
        anim_seek(s, p).progress_ppm == p,
{
}

/// Stopping halts the tween and winds it back to its initial value, whatever
/// state it was in.
pub proof fn lemma_stop_resets(s: AnimState)
    ensures
        !anim_stop(s).playing,
        anim_current(anim_stop(s)) == s.initial,
{
    lemma_lerp_bounds(s.initial, s.target, 0);
}

/// Restarting is exactly stopping followed by playing; a tween whose initial
/// and target values coincide never resumes playing.
pub proof fn lemma_restart_is_stop_then_play(s: AnimState)
    ensures
        anim_restart(s) == anim_play(anim_stop(s)),
        s.initial == s.target ==> !anim_restart(s).playing,
{
    lemma_lerp_bounds(s.initial, s.target, 0);
}

/// A tick that reaches or passes full progress clamps the tween to its
/// target. A looping tween then restarts: it stands at its initial value
/// again and resumes playing (unless the endpoints coincide). A one-shot
/// tween parks at the target, and no later tick moves it.
pub proof fn lemma_tick_past_end(s: AnimState, delta_ms: int, later_delta_ms: int)
    requires
        anim_wf(s),
        s.playing,
        s.duration_ms > 0,
        0 <= delta_ms,
        0 <= later_delta_ms,
        s.progress_ppm + (delta_ms * PROGRESS_UNIT) / s.duration_ms >= PROGRESS_UNIT,
    ensures
        s.looping ==> anim_current(anim_tick(s, delta_ms)) == s.initial && anim_tick(
            s,
            delta_ms,
        ).playing == (s.initial != s.target),
        !s.looping ==> anim_current(anim_tick(s, delta_ms)) == s.target && anim_current(
            anim_tick(anim_tick(s, delta_ms), later_delta_ms),
        ) == s.target,
{
    lemma_lerp_bounds(s.initial, s.target, 0);
    lemma_lerp_bounds(s.initial, s.target, PROGRESS_UNIT as int);
    if !s.looping {
        lemma_div_pos_is_pos(later_delta_ms * PROGRESS_UNIT, s.duration_ms);
    }
}

/// The tweening trait: anything that carries an [`AnimState`] and steps it by
/// the transition functions above.
pub trait AnimatedValue: Sized {
    /// The tween state the contracts speak of.
    spec fn av(&self) -> AnimState;

    /// Given the increase in time, move the current value a bit towards the
    /// target.
    fn tick(&mut self, delta_ms: u32) -> (r: Result<(), RangeError>)
        requires
            anim_wf(old(self).av()),
        ensures
            final(self).av() == anim_tick(old(self).av(), delta_ms as int),
            anim_wf(final(self).av()),
            r is Ok,
    ;

    fn pause(&mut self)
        ensures
            final(self).av() == anim_pause(old(self).av()),
    ;

    fn play(&mut self)
        requires
            anim_wf(old(self).av()),
        ensures
            final(self).av() == anim_play(old(self).av()),
    ;

    fn stop(&mut self)
        ensures
            final(self).av() == anim_stop(old(self).av()),
    ;

    fn restart(&mut self)
        requires
            anim_wf(old(self).av()),
        ensures
            final(self).av() == anim_restart(old(self).av()),
    ;

    /// The fraction of the way from the initial to the target value, in parts
    /// per million.
    fn percentage(&self) -> (r: u32)
        ensures
            r as int == self.av().progress_ppm,
    ;

    /// Put the tween `p_ppm` parts per million of the way in; a request
    /// outside `[0, PROGRESS_UNIT]` is rejected and changes nothing.
    fn seek(&mut self, p_ppm: i64) -> (r: Result<(), RangeError>)
        ensures
            (r is Ok) <==> 0 <= p_ppm <= PROGRESS_UNIT,
            r is Ok ==> final(self).av() == anim_seek(old(self).av(), p_ppm as int),
            r is Err ==> final(self).av() == old(self).av(),
    ;
}

/// A tween over 32-bit scalar values.
pub struct AnimatedNumber {
    pub target_value: i32,
    pub initial_value: i32,
    /// Duration in milliseconds.
    pub duration_ms: u32,
    /// How far along the tween stands, in parts per million.
    pub progress_ppm: u32,
    pub is_playing: bool,
    pub is_loop: bool,
}

impl AnimatedNumber {
    pub open spec fn wf(self) -> bool {
        anim_wf(self.av())
    }

    /// A stopped, non-looping tween at its initial value.
    pub fn new(initial_value: i32, target_value: i32, duration_ms: u32) -> (r: AnimatedNumber)
        ensures
            r.wf(),
            r.av() == (AnimState {
                initial: initial_value as int,
                target: target_value as int,
                duration_ms: duration_ms as int,
                progress_ppm: 0,
                playing: false,
                looping: false,
            }),
    {
        AnimatedNumber {
            target_value,
            initial_value,
            duration_ms,
            progress_ppm: 0,
            is_playing: false,
            is_loop: false,
        }
    }

    /// The value the tween stands at, interpolated from the progress.
    pub fn current_value(&self) -> (r: i32)
        requires
            self.wf(),
        ensures
            r as int == anim_current(self.av()),
    {
        proof {
            lemma_lerp_bounds(
                self.initial_value as int,
                self.target_value as int,
                self.progress_ppm as int,
            );
        }
        if self.target_value >= self.initial_value {
            let diff = self.target_value as i64 - self.initial_value as i64;
            let off = diff * self.progress_ppm as i64 / PROGRESS_UNIT as i64;
            (self.initial_value as i64 + off) as i32
        } else {
            let diff = self.initial_value as i64 - self.target_value as i64;
            let off = diff * self.progress_ppm as i64 / PROGRESS_UNIT as i64;
            (self.initial_value as i64 - off) as i32
        }
    }
}

impl AnimatedValue for AnimatedNumber {
    open spec fn av(&self) -> AnimState {
        AnimState {
            initial: self.initial_value as int,
            target: self.target_value as int,
            duration_ms: self.duration_ms as int,
            progress_ppm: self.progress_ppm as int,
            playing: self.is_playing,
            looping: self.is_loop,
        }
    }

    fn tick(&mut self, delta_ms: u32) -> (r: Result<(), RangeError>) {
        if self.duration_ms == 0 || !self.is_playing {
            return Ok(());
        }
        proof {
            lemma_mul_inequality(delta_ms as int, u32::MAX as int, PROGRESS_UNIT as int);
        }
        let added: u64 = (delta_ms as u64) * (PROGRESS_UNIT as u64) / (self.duration_ms as u64);
        let p: u64 = self.progress_ppm as u64 + added;
        if p >= PROGRESS_UNIT as u64 {
            self.progress_ppm = PROGRESS_UNIT;
            if self.is_loop {
                self.restart();
            }
        } else {
            self.progress_ppm = p as u32;
        }
        Ok(())
    }

    fn pause(&mut self) {
        self.is_playing = false;
    }

    fn play(&mut self) {
        let cur = self.current_value();
        self.is_playing = cur != self.target_value;
    }

    fn stop(&mut self) {
        self.is_playing = false;
        self.progress_ppm = 0;
    }

    fn restart(&mut self) {
        self.stop();
        self.play();
    }

    fn percentage(&self) -> (r: u32) {
        self.progress_ppm
    }

    fn seek(&mut self, p_ppm: i64) -> (r: Result<(), RangeError>) {
        if p_ppm < 0 || p_ppm > PROGRESS_UNIT as i64 {
            return Err(RangeError);
        }
        self.progress_ppm = p_ppm as u32;
        Ok(())
    }
}

} // verus!
