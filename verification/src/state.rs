//! The ephemeral state of one animation run and its per-tick decisions.
//!
//! The caller owns the clocks and the terminal; every decision of a tick —
//! rotating the pattern, sampling the rate, tracking the observed extremes,
//! rendering, bouncing the head and pacing the next frame — is made here
//! from plain values.

use crate::pattern::{
    next_pattern, sample_rate, sample_spec, should_rotate, AnimationPattern, WINDOW_CAP_MS,
};
use crate::render::frame_bytes;
use crate::{KnightRiderAnimator, RATE_CAP, RATE_UNSET};
use vstd::arithmetic::div_mod::{lemma_div_is_ordered, lemma_fundamental_div_mod_converse};
use vstd::prelude::*;

verus! {

/// The mutable state of one animation run: the head's position and travel
/// direction, the observed rate extremes and the active pattern. The two
/// clocks of a run stay with the caller.
#[derive(Debug, Clone, Copy, PartialEq, Eq, Structural)]
pub struct RunState {
    /// Index of the head cell, always inside the bar.
    pub position: usize,
    /// Direction of travel: `1` rightward, `-1` leftward.
    pub direction: i32,
    /// Smallest rate observed so far; `RATE_UNSET` before the first sample.
    pub min_rate: u64,
    /// Largest rate observed so far; 0 before the first sample.
    pub max_rate: u64,
    /// The waveform pattern currently active.
    pub pattern: AnimationPattern,
}

/// One observation step: the minimum and maximum fold the new rate in,
/// everything else stays.
pub open spec fn observe_spec(s: RunState, rate: u64) -> RunState {
    RunState {
        min_rate: if rate < s.min_rate {
            rate
        } else {
            s.min_rate
        },
        max_rate: if rate > s.max_rate {
            rate
        } else {
            s.max_rate
        },
        ..s
    }
}

/// The state after observing a whole sequence of rate samples in order.
pub open spec fn observed_state(s0: RunState, samples: Seq<u64>) -> RunState
    decreases samples.len(),
{
    if samples.len() == 0 {
        s0
    } else {
        observe_spec(observed_state(s0, samples.drop_last()), samples.last())
    }
}

/// Where the head stands after one move: one step in the direction of
/// travel, held inside the bar at both ends.
pub open spec fn advanced_position(position: int, direction: int, led_count: int) -> int {
    if direction > 0 {
        if position + 1 < led_count {
            position + 1
        } else {
            led_count - 1
        }
    } else {
        if position >= 1 {
            position - 1
        } else {
            0
        }
    }
}

/// The direction after the bounce rule: leftward once the head has reached
/// the right end, rightward once it has reached the left end, else
/// unchanged. The right end wins when the bar is a single cell.
pub open spec fn bounced_direction(new_position: int, direction: int, led_count: int) -> int {
    if new_position >= led_count - 1 {
        -1
    } else if new_position == 0 {
        1
    } else {
        direction
    }
}

/// The extra inter-frame delay in milliseconds: 80 scaled by how far the
/// rate has fallen below the configured maximum, clamped to the maximum,
/// rounded to the nearest millisecond with halves rounding up.
pub open spec fn delay_extra_ms(rate: int, max: int) -> int {
    let clamped = if rate > max {
        max
    } else {
        rate
    };
    (160 * (max - clamped) + max) / (2 * max)
}

impl RunState {
    /// The state at the start of a run: the head at the left end moving
    /// rightward, no sample observed yet, the sine pattern active.
    pub fn init() -> (s: Self)
        ensures
            s.position == 0,
            s.direction == 1,
            s.min_rate == RATE_UNSET,
            s.max_rate == 0,
            s.pattern == AnimationPattern::Sine,
    {
        Self {
            position: 0,
            direction: 1,
            min_rate: RATE_UNSET,
            max_rate: 0,
            pattern: AnimationPattern::Sine,
        }
    }

    /// Folds a new rate sample into the observed minimum and maximum.
    pub fn observe_rate(&mut self, rate: u64)
        ensures
            *final(self) == observe_spec(*old(self), rate),
            final(self).min_rate <= rate && rate <= final(self).max_rate,
            final(self).min_rate <= old(self).min_rate,
            final(self).max_rate >= old(self).max_rate,
    {
        if rate < self.min_rate {
            self.min_rate = rate;
        }
        if rate > self.max_rate {
            self.max_rate = rate;
        }
    }

    /// Rotates the active pattern to the next one in the fixed order. The
    /// caller resets the pattern-local clock alongside.
    pub fn rotate_pattern(&mut self)
        ensures
            final(self).pattern == next_pattern(old(self).pattern),
            final(self).position == old(self).position,
            final(self).direction == old(self).direction,
            final(self).min_rate == old(self).min_rate,
            final(self).max_rate == old(self).max_rate,
    {
        self.pattern = self.pattern.next();
    }

    /// Moves the head one step and applies the bounce rule.
    pub fn advance(&mut self, led_count: usize)
        requires
            led_count >= 1,
            old(self).position < led_count,
        ensures
            final(self).position == advanced_position(
                old(self).position as int,
                old(self).direction as int,
                led_count as int,
            ),
            final(self).direction == bounced_direction(
                final(self).position as int,
                old(self).direction as int,
                led_count as int,
            ),
            final(self).position < led_count,
            final(self).min_rate == old(self).min_rate,
            final(self).max_rate == old(self).max_rate,
            final(self).pattern == old(self).pattern,
    {
        if self.direction > 0 {
            if self.position + 1 < led_count {
                self.position = self.position + 1;
            } else {
                self.position = led_count - 1;
            }
        } else {
            if self.position >= 1 {
                self.position = self.position - 1;
            } else {
                self.position = 0;
            }
        }
        if self.position >= led_count - 1 {
            self.direction = -1;
        } else if self.position == 0 {
            self.direction = 1;
        }
    }
}

/// Computes the delay before the next frame: the base speed plus the
/// adaptive extra that slows the animation as the rate drops.
pub fn frame_delay_ms(base_speed_ms: u64, rate: u64, max_rate_value: u64) -> (delay: u64)
    requires
        1 <= max_rate_value <= RATE_CAP,
        rate <= RATE_CAP,
        base_speed_ms + 80 <= u64::MAX,
    ensures
        delay == base_speed_ms + delay_extra_ms(rate as int, max_rate_value as int),
        base_speed_ms <= delay <= base_speed_ms + 80,
{
    let clamped = if rate > max_rate_value {
        max_rate_value
    } else {
        rate
    };
    let num = 160 * (max_rate_value - clamped) + max_rate_value;
    let den = 2 * max_rate_value;
    proof {
        let m = max_rate_value as int;
        lemma_fundamental_div_mod_converse(161 * m, 2 * m, 80, m);
        lemma_div_is_ordered(num as int, 161 * m, 2 * m);
    }
    let extra = num / den;
    base_speed_ms + extra
}

/// After any non-empty run of observations, the tracked minimum is at or
/// below every sample seen and the tracked maximum at or above it.
pub proof fn lemma_min_max_track(s0: RunState, samples: Seq<u64>, i: int)
    requires
        0 <= i < samples.len(),
    ensures
        observed_state(s0, samples).min_rate <= samples[i],
        observed_state(s0, samples).max_rate >= samples[i],
    decreases samples.len(),
{
    if i < samples.len() - 1 {
        lemma_min_max_track(s0, samples.drop_last(), i);
    }
}

/// The direction flips to `-1` exactly on reaching the right end and to
/// `1` exactly on reaching the left end; any flip is one of those two.
pub proof fn lemma_direction_flips(position: int, direction: int, led_count: int)
    requires
        led_count >= 1,
        0 <= position < led_count,
        direction == 1 || direction == -1,
    ensures
        advanced_position(position, direction, led_count) >= led_count - 1 ==> bounced_direction(
            advanced_position(position, direction, led_count),
            direction,
            led_count,
        ) == -1,
        advanced_position(position, direction, led_count) == 0 && advanced_position(
            position,
            direction,
            led_count,
        ) < led_count - 1 ==> bounced_direction(
            advanced_position(position, direction, led_count),
            direction,
            led_count,
        ) == 1,
        bounced_direction(advanced_position(position, direction, led_count), direction, led_count)
            != direction ==> (direction == 1 && advanced_position(position, direction, led_count)
            >= led_count - 1) || (direction == -1 && advanced_position(
            position,
            direction,
            led_count,
        ) == 0),
{
}

/// On a single-cell bar the head never moves.
pub proof fn lemma_single_led_fixed(direction: int)
    ensures
        advanced_position(0, direction, 1) == 0,
{
}

/// The rate one tick samples: from the freshly rotated pattern with the
/// pattern clock at zero when a window has elapsed, else from the active
/// pattern at the current pattern clock.
pub open spec fn tick_rate(
    pattern: AnimationPattern,
    max: int,
    sin_slow: int,
    sin_fast: int,
    pattern_elapsed_ms: int,
    window_ms: int,
) -> int {
    if pattern_elapsed_ms >= window_ms {
        sample_spec(next_pattern(pattern), max, sin_slow, sin_fast, 0, window_ms)
    } else {
        sample_spec(pattern, max, sin_slow, sin_fast, pattern_elapsed_ms, window_ms)
    }
}

impl KnightRiderAnimator {
    /// Runs the decisions of one animation tick: rotates the pattern when
    /// its window has elapsed, samples the rate, folds it into the observed
    /// extremes, renders the frame, moves the head and paces the next
    /// frame. Returns the frame bytes, the delay in milliseconds before the
    /// next tick, and whether the pattern rotated (the caller then resets
    /// the pattern clock and may announce the new pattern).
    pub fn tick(
        &self,
        state: &mut RunState,
        sin_slow_milli: i64,
        sin_fast_milli: i64,
        pattern_elapsed_ms: u64,
        window_ms: u64,
        base_speed_ms: u64,
        max_rate_value: u64,
    ) -> (r: (Vec<u8>, u64, bool))
        requires
            self.led_count >= 1,
            old(state).position < self.led_count,
            old(state).max_rate <= RATE_CAP,
            -1000 <= sin_slow_milli <= 1000,
            -1000 <= sin_fast_milli <= 1000,
            1 <= window_ms <= WINDOW_CAP_MS,
            1 <= max_rate_value <= RATE_CAP,
            base_speed_ms + 80 <= u64::MAX,
        ensures
            r.2 == (pattern_elapsed_ms >= window_ms),
            final(state).pattern == if r.2 {
                next_pattern(old(state).pattern)
            } else {
                old(state).pattern
            },
            final(state).min_rate == observe_spec(
                *old(state),
                tick_rate(
                    old(state).pattern,
                    max_rate_value as int,
                    sin_slow_milli as int,
                    sin_fast_milli as int,
                    pattern_elapsed_ms as int,
                    window_ms as int,
                ) as u64,
            ).min_rate,
            final(state).max_rate == observe_spec(
                *old(state),
                tick_rate(
                    old(state).pattern,
                    max_rate_value as int,
                    sin_slow_milli as int,
                    sin_fast_milli as int,
                    pattern_elapsed_ms as int,
                    window_ms as int,
                ) as u64,
            ).max_rate,
            r.0@ == frame_bytes(
                self.led_count as int,
                old(state).position as int,
                old(state).direction as int,
                tick_rate(
                    old(state).pattern,
                    max_rate_value as int,
                    sin_slow_milli as int,
                    sin_fast_milli as int,
                    pattern_elapsed_ms as int,
                    window_ms as int,
                ),
                final(state).min_rate as int,
                final(state).max_rate as int,
                self.show_metrics,
            ),
            final(state).position == advanced_position(
                old(state).position as int,
                old(state).direction as int,
                self.led_count as int,
            ),
            final(state).direction == bounced_direction(
                final(state).position as int,
                old(state).direction as int,
                self.led_count as int,
            ),
            final(state).position < self.led_count,
            final(state).max_rate <= RATE_CAP,
            r.1 == base_speed_ms + delay_extra_ms(
                tick_rate(
                    old(state).pattern,
                    max_rate_value as int,
                    sin_slow_milli as int,
                    sin_fast_milli as int,
                    pattern_elapsed_ms as int,
                    window_ms as int,
                ),
                max_rate_value as int,
            ),
    {
        let rotated = should_rotate(pattern_elapsed_ms, window_ms);
        if rotated {
            state.rotate_pattern();
        }
        let effective_elapsed_ms: u64 = if rotated {
            0
        } else {
            pattern_elapsed_ms
        };
        let rate = sample_rate(
            state.pattern,
            max_rate_value,
            sin_slow_milli,
            sin_fast_milli,
            effective_elapsed_ms,
            window_ms,
        );
        state.observe_rate(rate);
        let bytes = self.draw_frame(
            state.position,
            state.direction,
            rate,
            state.min_rate,
            state.max_rate,
        );
        state.advance(self.led_count);
        let delay = frame_delay_ms(base_speed_ms, rate, max_rate_value);
        (bytes, delay, rotated)
    }
}

} // verus!
