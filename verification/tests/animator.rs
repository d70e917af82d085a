use kitt_throbbler::frame::{compute_frame_cells, Cell};
use kitt_throbbler::pattern::{sample_rate, should_rotate};
use kitt_throbbler::state::frame_delay_ms;
use kitt_throbbler::{AnimationPattern, KnightRiderAnimator, RunState};

const BRIGHT_RED: &str = "\x1b[38;5;196m";
const RED: &str = "\x1b[38;5;160m";
const DIM_RED_1: &str = "\x1b[38;5;124m";
const DIM_RED_2: &str = "\x1b[38;5;88m";
const DIM_RED_3: &str = "\x1b[38;5;52m";
const EXTRA_DIM_RED: &str = "\x1b[38;5;52;2m";
const RESET: &str = "\x1b[0m";

fn block(color: &str) -> String {
    format!("{}█{}", color, RESET)
}

fn frame_text(animator: &KnightRiderAnimator, position: usize, direction: i32, rate: u64, min_rate: u64, max_rate: u64) -> String {
    String::from_utf8(animator.draw_frame(position, direction, rate, min_rate, max_rate)).unwrap()
}

#[test]
fn test_create_animator() {
    let animator = KnightRiderAnimator::new();
    assert_eq!(animator.led_count, 50);
    assert_eq!(animator.show_metrics, true);

    let custom_animator = KnightRiderAnimator::with_leds(30);
    assert_eq!(custom_animator.led_count, 30);

    let no_metrics = KnightRiderAnimator::new().show_metrics(false);
    assert_eq!(no_metrics.show_metrics, false);
}

#[test]
fn test_frame_has_exactly_led_count_cells() {
    for led_count in [1usize, 2, 12, 50] {
        let cells = compute_frame_cells(led_count, led_count / 2, 1, 100, 150);
        assert_eq!(cells.len(), led_count);
        let cells = compute_frame_cells(led_count, led_count - 1, -1, 0, 0);
        assert_eq!(cells.len(), led_count);
    }
}

#[test]
fn test_head_keeps_its_cell() {
    // In the middle of the bar no trail offset lands on the head's index.
    let cells = compute_frame_cells(50, 25, 1, 150, 150);
    assert_eq!(cells[25], Cell::Lit(0));
    let cells = compute_frame_cells(50, 25, -1, 150, 150);
    assert_eq!(cells[25], Cell::Lit(0));
    // At the bar ends the clamped trail offsets would land on the head's
    // index; they are skipped, so the undimmed head survives there too.
    let cells = compute_frame_cells(3, 0, 1, 150, 150);
    assert_eq!(cells[0], Cell::Lit(0));
    assert_eq!(cells[1], Cell::Blank);
    assert_eq!(cells[2], Cell::Blank);
    let cells = compute_frame_cells(3, 2, -1, 150, 150);
    assert_eq!(cells[2], Cell::Lit(0));
    assert_eq!(cells[1], Cell::Blank);
    // A dimmed head is re-written last, still at its own cell.
    let cells = compute_frame_cells(50, 0, 1, 10, 150);
    assert_eq!(cells[0], Cell::Lit(2));
}

#[test]
fn test_out_of_range_position_draws_no_head() {
    // Moving right from beyond the bar: only the trail cells that fall
    // inside are drawn; clamped offsets collide on cell 0 and the dimmest
    // wins there.
    let cells = compute_frame_cells(5, 7, 1, 150, 150);
    assert_eq!(cells.len(), 5);
    assert_eq!(cells[4], Cell::Lit(1));
    assert_eq!(cells[3], Cell::Lit(1));
    assert_eq!(cells[2], Cell::Lit(2));
    assert_eq!(cells[1], Cell::Lit(2));
    assert_eq!(cells[0], Cell::Lit(5));
    // Moving left from beyond the bar: every offset clamps to the right
    // end, so one dimmest cell remains.
    let cells = compute_frame_cells(5, 10, -1, 150, 150);
    assert_eq!(cells.len(), 5);
    assert_eq!(cells[4], Cell::Lit(5));
    for index in 0..4 {
        assert_eq!(cells[index], Cell::Blank);
    }
}

#[test]
fn test_trail_fades_with_distance() {
    let cells = compute_frame_cells(50, 40, 1, 150, 150);
    let mut previous_level: u8 = 0;
    for offset in 1usize..=11 {
        match cells[40 - offset] {
            Cell::Lit(level) => {
                assert!(level >= previous_level);
                previous_level = level;
            },
            Cell::Blank => panic!("trail cell is blank"),
        }
    }
    assert_eq!(cells[40 - 11], Cell::Lit(5));
    assert_eq!(cells[40 - 12], Cell::Blank);
}

#[test]
fn test_head_dimming_tiers() {
    // At or above half of the maximum the head keeps the brightest tier.
    let cells = compute_frame_cells(50, 25, 1, 100, 150);
    assert_eq!(cells[25], Cell::Lit(0));
    // Between 3/10 and 5/10 of the maximum it drops one tier.
    let cells = compute_frame_cells(50, 25, 1, 60, 150);
    assert_eq!(cells[25], Cell::Lit(1));
    // Below 3/10 of the maximum it drops two tiers.
    let cells = compute_frame_cells(50, 25, 1, 30, 150);
    assert_eq!(cells[25], Cell::Lit(2));
    // With no maximum observed yet nothing is dimmed.
    let cells = compute_frame_cells(50, 25, 1, 0, 0);
    assert_eq!(cells[25], Cell::Lit(0));
}

#[test]
fn test_trail_extends_opposite_travel() {
    let rightward = compute_frame_cells(50, 25, 1, 150, 150);
    assert_eq!(rightward[24], Cell::Lit(0));
    assert_eq!(rightward[26], Cell::Blank);
    let leftward = compute_frame_cells(50, 25, -1, 150, 150);
    assert_eq!(leftward[26], Cell::Lit(0));
    assert_eq!(leftward[24], Cell::Blank);
}

#[test]
fn test_bounce_at_both_ends() {
    let mut state = RunState::init();
    assert_eq!(state.position, 0);
    assert_eq!(state.direction, 1);
    // Walk right along a 3 cell bar: the direction flips on reaching the
    // right end, and flips back on reaching the left end.
    state.advance(3);
    assert_eq!((state.position, state.direction), (1, 1));
    state.advance(3);
    assert_eq!((state.position, state.direction), (2, -1));
    state.advance(3);
    assert_eq!((state.position, state.direction), (1, -1));
    state.advance(3);
    assert_eq!((state.position, state.direction), (0, 1));
}

#[test]
fn test_single_led_never_moves() {
    let mut state = RunState::init();
    for _ in 0..5 {
        state.advance(1);
        assert_eq!(state.position, 0);
    }
}

#[test]
fn test_min_max_track_samples() {
    let mut state = RunState::init();
    assert_eq!(state.min_rate, u64::MAX);
    assert_eq!(state.max_rate, 0);
    for rate in [100u64, 50, 150] {
        state.observe_rate(rate);
    }
    assert_eq!(state.min_rate, 50);
    assert_eq!(state.max_rate, 150);
    for rate in [100u64, 50, 150] {
        assert!(state.min_rate <= rate && rate <= state.max_rate);
    }
}

#[test]
fn test_unset_min_shown_as_zero() {
    let animator = KnightRiderAnimator::with_leds(5);
    let text = frame_text(&animator, 2, 1, 100, u64::MAX, 150);
    assert!(text.ends_with(" 100 msg/s (min: 0, max: 150)      "));
}

#[test]
fn test_pattern_rotation_cycle() {
    assert_eq!(AnimationPattern::Sine.next(), AnimationPattern::Sawtooth);
    assert_eq!(AnimationPattern::Sawtooth.next(), AnimationPattern::Square);
    assert_eq!(AnimationPattern::Square.next(), AnimationPattern::Pulse);
    assert_eq!(AnimationPattern::Pulse.next(), AnimationPattern::Sine);
    let mut pattern = AnimationPattern::Sine;
    for _ in 0..4 {
        pattern = pattern.next();
    }
    assert_eq!(pattern, AnimationPattern::Sine);
}

#[test]
fn test_rotation_exactly_at_window() {
    assert!(!should_rotate(4999, 5000));
    assert!(should_rotate(5000, 5000));
    assert!(should_rotate(5001, 5000));
}

#[test]
fn test_sawtooth_ramp_and_reset() {
    // At 99.9% of the window the ramp is near the maximum; right after the
    // reset it is back near zero.
    let near_end = sample_rate(AnimationPattern::Sawtooth, 10000, 0, 0, 4995, 5000);
    assert_eq!(near_end, 9990);
    let after_reset = sample_rate(AnimationPattern::Sawtooth, 10000, 0, 0, 0, 5000);
    assert_eq!(after_reset, 0);
    // The ramp also wraps past a full window.
    let wrapped = sample_rate(AnimationPattern::Sawtooth, 10000, 0, 0, 7500, 5000);
    assert_eq!(wrapped, 5000);
}

#[test]
fn test_square_follows_sine_sign() {
    // At elapsed 0 the slow sine is 0, which counts as non-negative.
    let elapsed: f64 = 0.0;
    let sin_slow: i64 = ((elapsed * 0.2).sin() * 1000.0).round() as i64;
    assert_eq!(sample_rate(AnimationPattern::Square, 10000, sin_slow, 0, 0, 5000), 10000);
    // At elapsed 20 s the slow sine (sin 4.0) has crossed below zero.
    let elapsed: f64 = 20.0;
    let sin_slow: i64 = ((elapsed * 0.2).sin() * 1000.0).round() as i64;
    assert!(sin_slow < 0);
    assert_eq!(sample_rate(AnimationPattern::Square, 10000, sin_slow, 0, 0, 5000), 1000);
}

#[test]
fn test_sine_oscillation() {
    assert_eq!(sample_rate(AnimationPattern::Sine, 10000, 1000, 0, 0, 5000), 10000);
    assert_eq!(sample_rate(AnimationPattern::Sine, 10000, 0, 0, 0, 5000), 5000);
    assert_eq!(sample_rate(AnimationPattern::Sine, 10000, -1000, 0, 0, 5000), 0);
    assert_eq!(sample_rate(AnimationPattern::Sine, 10000, 500, 0, 0, 5000), 7500);
}

#[test]
fn test_pulse_spikes() {
    assert_eq!(sample_rate(AnimationPattern::Pulse, 10000, 0, 950, 0, 5000), 10000);
    assert_eq!(sample_rate(AnimationPattern::Pulse, 10000, 0, 900, 0, 5000), 2000);
    assert_eq!(sample_rate(AnimationPattern::Pulse, 10000, 0, -200, 0, 5000), 2000);
}

#[test]
fn test_adaptive_delay() {
    // Rate at the maximum: no extra delay. Rate at zero: the full 80 ms.
    assert_eq!(frame_delay_ms(20, 150, 150), 20);
    assert_eq!(frame_delay_ms(20, 0, 150), 100);
    // 80 * (1 - 100/150) rounds to 27.
    assert_eq!(frame_delay_ms(20, 100, 150), 47);
    // A rate above the maximum clamps to no extra delay.
    assert_eq!(frame_delay_ms(20, 200, 150), 20);
}

#[test]
fn test_render_scenario() {
    let animator = KnightRiderAnimator::new();
    let text = frame_text(&animator, 25, 1, 100, 50, 150);

    let mut expected = String::from("\r[");
    expected.push_str(&" ".repeat(14));
    expected.push_str(&block(EXTRA_DIM_RED));
    expected.push_str(&block(DIM_RED_3).repeat(2));
    expected.push_str(&block(DIM_RED_2).repeat(2));
    expected.push_str(&block(DIM_RED_1).repeat(2));
    expected.push_str(&block(RED).repeat(2));
    expected.push_str(&block(BRIGHT_RED).repeat(2));
    // The head: 100 < 0.7 * 150 dims it, but 100/150 is at least 0.5, so it
    // keeps the brightest tier.
    expected.push_str(&block(BRIGHT_RED));
    expected.push_str(&" ".repeat(24));
    expected.push_str("] 100 msg/s (min: 50, max: 150)      ");
    assert_eq!(text, expected);
}

#[test]
fn test_render_without_metrics() {
    let animator = KnightRiderAnimator::with_leds(3).show_metrics(false);
    let text = frame_text(&animator, 2, 1, 150, 150, 150);
    // Offsets 1 and 2 land on cells 1 and 0; the farther offsets clamp to
    // cell 0 and the last, dimmest one wins there.
    let expected = format!("\r[{}{}{}]", block(EXTRA_DIM_RED), block(BRIGHT_RED), block(BRIGHT_RED));
    assert_eq!(text, expected);
}

#[test]
fn test_tick_plain_step() {
    let animator = KnightRiderAnimator::new();
    let mut state = RunState::init();
    let (bytes, delay_ms, rotated) = animator.tick(&mut state, 0, 0, 0, 5000, 20, 10000);
    assert!(!rotated);
    // The sine pattern at sine input 0 yields half the maximum.
    assert_eq!(state.min_rate, 5000);
    assert_eq!(state.max_rate, 5000);
    assert_eq!(state.pattern, AnimationPattern::Sine);
    assert_eq!((state.position, state.direction), (1, 1));
    // Extra delay: 80 * (1 - 5000/10000) rounds to 40.
    assert_eq!(delay_ms, 60);
    assert!(!bytes.is_empty());
}

#[test]
fn test_tick_rotates_at_window() {
    let animator = KnightRiderAnimator::new();
    let mut state = RunState::init();
    let (_bytes, _delay_ms, rotated) = animator.tick(&mut state, 0, 0, 5000, 5000, 20, 10000);
    assert!(rotated);
    assert_eq!(state.pattern, AnimationPattern::Sawtooth);
    // The freshly rotated sawtooth starts its ramp at zero.
    assert_eq!(state.min_rate, 0);
    assert_eq!(state.max_rate, 0);
}
