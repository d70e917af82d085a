//! A Knight Rider style LED animation for terminal output.
//!
//! The library computes every frame of a classic "scanning" effect: a bright
//! head cell that bounces across a fixed-width bar, followed by a fading
//! trail, optionally annotated with throughput metrics. Rates are carried as
//! whole messages per second in `u64`; the caller owns the clock, the
//! simulated sine inputs and the terminal, and feeds plain values in.

use vstd::prelude::*;

pub mod frame;
pub mod pattern;
pub mod render;
pub mod state;

pub use pattern::AnimationPattern;
pub use state::RunState;

verus! {

/// Sentinel held by `min_rate` before the first rate sample is observed;
/// a minimum that still holds it is shown as 0, never as a real value.
pub const RATE_UNSET: u64 = u64::MAX;

/// Largest rate value the library accepts, in messages per second.
///
/// A generous machine limit that keeps every product in the dimming and
/// pacing arithmetic inside `u64`.
pub const RATE_CAP: u64 = 1_000_000_000_000;

/// Animator for creating Knight Rider style LED animations in the terminal.
///
/// The animator holds the immutable configuration of one run: how many LED
/// cells the bar has and whether frames carry a metrics suffix.
#[derive(Clone)]
pub struct KnightRiderAnimator {
    /// Number of LEDs in the animation bar.
    pub led_count: usize,
    /// Whether to show throughput rate information with the animation.
    pub show_metrics: bool,
}

impl KnightRiderAnimator {
    /// Creates a new animator with default settings: a 50 cell bar with
    /// metrics shown.
    pub fn new() -> (r: Self)
        ensures
            r.led_count == 50,
            r.show_metrics,
    {
        Self { led_count: 50, show_metrics: true }
    }

    /// Creates a new animator with a custom LED count; metrics are shown.
    pub fn with_leds(led_count: usize) -> (r: Self)
        requires
            led_count >= 1,
        ensures
            r.led_count == led_count,
            r.show_metrics,
    {
        Self { led_count, show_metrics: true }
    }

    /// Sets whether to show metrics alongside the animation.
    pub fn show_metrics(self, show: bool) -> (r: Self)
        ensures
            r.led_count == self.led_count,
            r.show_metrics == show,
    {
        Self { show_metrics: show, ..self }
    }
}

impl Default for KnightRiderAnimator {
    /// The default animator equals `KnightRiderAnimator::new()`.
    fn default() -> (r: Self)
        ensures
            r.led_count == 50,
            r.show_metrics,
    {
        Self::new()
    }
}

} // verus!
