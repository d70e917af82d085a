//! The synthetic waveform patterns that drive the simulated throughput rate.
//!
//! Rates are whole messages per second. The two sine inputs are supplied by
//! the caller as thousandths in `-1000..=1000`: the slow one stands for
//! `sin(0.2 * elapsed)` and the fast one for `sin(2.0 * elapsed)`, with
//! `elapsed` the seconds since the run started. The pattern-local clock and
//! the window length come in as milliseconds.

use crate::RATE_CAP;
use vstd::arithmetic::div_mod::{
    lemma_div_by_multiple, lemma_div_is_ordered, lemma_div_multiples_vanish,
};
use vstd::prelude::*;

verus! {

/// Scale of the caller-supplied sine inputs: 1000 stands for 1.0.
pub const SINE_SCALE: i64 = 1000;

/// Length of one pattern window in milliseconds: the active pattern rotates
/// every five seconds.
pub const PATTERN_WINDOW_MS: u64 = 5000;

/// Largest pattern window the sampling arithmetic accepts, in milliseconds.
pub const WINDOW_CAP_MS: u64 = 1_000_000;

/// Animation pattern options for varying the data visualization.
#[derive(Debug, Clone, Copy, PartialEq, Eq, Structural)]
pub enum AnimationPattern {
    /// Sine wave: smooth oscillation between min and max.
    Sine,
    /// Sawtooth wave: linear ramp up, instant drop.
    Sawtooth,
    /// Square wave: alternates between high and low values.
    Square,
    /// Pulse wave: occasional spikes.
    Pulse,
}

/// The pattern after `p` in the fixed rotation order, wrapping.
pub open spec fn next_pattern(p: AnimationPattern) -> AnimationPattern {
    match p {
        AnimationPattern::Sine => AnimationPattern::Sawtooth,
        AnimationPattern::Sawtooth => AnimationPattern::Square,
        AnimationPattern::Square => AnimationPattern::Pulse,
        AnimationPattern::Pulse => AnimationPattern::Sine,
    }
}

/// Sine rate: half the maximum, offset by half the maximum scaled with the
/// slow sine input.
pub open spec fn sine_rate(max: int, sin_slow: int) -> int {
    let half = max / 2;
    if sin_slow >= 0 {
        half + (half * sin_slow) / 1000
    } else {
        half - (half * (-sin_slow)) / 1000
    }
}

/// Sawtooth rate: a linear ramp from 0 toward the maximum across one
/// pattern window, resetting with the window.
pub open spec fn sawtooth_rate(max: int, pattern_elapsed_ms: int, window_ms: int) -> int {
    ((pattern_elapsed_ms % window_ms) * max) / window_ms
}

/// Square rate: the maximum while the slow sine is non-negative, a tenth of
/// it otherwise.
pub open spec fn square_rate(max: int, sin_slow: int) -> int {
    if sin_slow >= 0 {
        max
    } else {
        max / 10
    }
}

/// Pulse rate: a brief spike to the maximum while the fast sine exceeds
/// 9/10, a fifth of the maximum as baseline.
pub open spec fn pulse_rate(max: int, sin_fast: int) -> int {
    if sin_fast > 900 {
        max
    } else {
        max / 5
    }
}

/// The rate sampled from the active pattern.
pub open spec fn sample_spec(
    pattern: AnimationPattern,
    max: int,
    sin_slow: int,
    sin_fast: int,
    pattern_elapsed_ms: int,
    window_ms: int,
) -> int {
    match pattern {
        AnimationPattern::Sine => sine_rate(max, sin_slow),
        AnimationPattern::Sawtooth => sawtooth_rate(max, pattern_elapsed_ms, window_ms),
        AnimationPattern::Square => square_rate(max, sin_slow),
        AnimationPattern::Pulse => pulse_rate(max, sin_fast),
    }
}

impl AnimationPattern {
    /// The pattern after this one in the fixed rotation order, wrapping:
    /// Sine, Sawtooth, Square, Pulse, then Sine again.
    pub fn next(self) -> (r: Self)
        ensures
            r == next_pattern(self),
    {
        match self {
            AnimationPattern::Sine => AnimationPattern::Sawtooth,
            AnimationPattern::Sawtooth => AnimationPattern::Square,
            AnimationPattern::Square => AnimationPattern::Pulse,
            AnimationPattern::Pulse => AnimationPattern::Sine,
        }
    }
}

/// The active pattern rotates exactly when a full window has elapsed on the
/// pattern-local clock.
pub fn should_rotate(pattern_elapsed_ms: u64, window_ms: u64) -> (r: bool)
    ensures
        r == (pattern_elapsed_ms >= window_ms),
{
    pattern_elapsed_ms >= window_ms
}

/// Samples the rate of the active pattern. The result never exceeds the
/// configured maximum.
pub fn sample_rate(
    pattern: AnimationPattern,
    max_rate_value: u64,
    sin_slow_milli: i64,
    sin_fast_milli: i64,
    pattern_elapsed_ms: u64,
    window_ms: u64,
) -> (rate: u64)
    requires
        max_rate_value <= RATE_CAP,
        -1000 <= sin_slow_milli <= 1000,
        -1000 <= sin_fast_milli <= 1000,
        1 <= window_ms <= WINDOW_CAP_MS,
    ensures
        rate == sample_spec(
            pattern,
            max_rate_value as int,
            sin_slow_milli as int,
            sin_fast_milli as int,
            pattern_elapsed_ms as int,
            window_ms as int,
        ),
        rate <= max_rate_value,
{
    match pattern {
        AnimationPattern::Sine => {
            let half = max_rate_value / 2;
            if sin_slow_milli >= 0 {
                let s = sin_slow_milli as u64;
                proof {
                    assert(half * s <= half * 1000) by (nonlinear_arith)
                        requires
                            s <= 1000,
                            0 <= half,
                    ;
                    lemma_div_is_ordered(half * s, half * 1000, 1000);
                    lemma_div_by_multiple(half as int, 1000);
                }
                let swing = (half * s) / 1000;
                half + swing
            } else {
                let s = (-sin_slow_milli) as u64;
                proof {
                    assert(half * s <= half * 1000) by (nonlinear_arith)
                        requires
                            s <= 1000,
                            0 <= half,
                    ;
                    lemma_div_is_ordered(half * s, half * 1000, 1000);
                    lemma_div_by_multiple(half as int, 1000);
                }
                let swing = (half * s) / 1000;
                half - swing
            }
        },
        AnimationPattern::Sawtooth => {
            let ramp = pattern_elapsed_ms % window_ms;
            proof {
                assert(ramp * max_rate_value <= 1_000_000_000_000_000_000) by (nonlinear_arith)
                    requires
                        ramp < window_ms,
                        window_ms <= 1_000_000,
                        max_rate_value <= 1_000_000_000_000,
                        0 <= ramp,
                        0 <= max_rate_value,
                ;
                assert(ramp * max_rate_value <= window_ms * max_rate_value) by (nonlinear_arith)
                    requires
                        ramp < window_ms,
                        0 <= max_rate_value,
                ;
                lemma_div_is_ordered(
                    ramp * max_rate_value,
                    window_ms * max_rate_value,
                    window_ms as int,
                );
                lemma_div_multiples_vanish(max_rate_value as int, window_ms as int);
            }
            let scaled = ramp * max_rate_value;
            scaled / window_ms
        },
        AnimationPattern::Square => {
            if sin_slow_milli >= 0 {
                max_rate_value
            } else {
                max_rate_value / 10
            }
        },
        AnimationPattern::Pulse => {
            if sin_fast_milli > 900 {
                max_rate_value
            } else {
                max_rate_value / 5
            }
        },
    }
}

/// The rotation order of the patterns: Sine to Sawtooth to Square to Pulse
/// and back to Sine, so four rotations return any pattern to itself.
pub proof fn lemma_pattern_cycle(p: AnimationPattern)
    ensures
        next_pattern(AnimationPattern::Sine) == AnimationPattern::Sawtooth,
        next_pattern(AnimationPattern::Sawtooth) == AnimationPattern::Square,
        next_pattern(AnimationPattern::Square) == AnimationPattern::Pulse,
        next_pattern(AnimationPattern::Pulse) == AnimationPattern::Sine,
        next_pattern(next_pattern(next_pattern(next_pattern(p)))) == p,
{
}

} // verus!
