use puppet_editor::animation::{AnimatedNumber, AnimatedValue, PROGRESS_UNIT};

fn tween(initial: i32, target: i32, duration_ms: u32) -> AnimatedNumber {
    AnimatedNumber::new(initial, target, duration_ms)
}

#[test]
fn seek_then_percentage_is_identity() {
    let mut a = tween(0, 100, 1000);
    for p in [0i64, 1, 250_000, 500_000, 999_999, 1_000_000] {
        assert!(a.seek(p).is_ok());
        assert_eq!(a.percentage() as i64, p);
    }
}

#[test]
fn seek_then_percentage_descending_tween() {
    let mut a = tween(100, 0, 1000);
    assert!(a.seek(750_000).is_ok());
    assert_eq!(a.percentage(), 750_000);
    assert_eq!(a.current_value(), 25);
}

#[test]
fn seek_out_of_range_fails_and_changes_nothing() {
    let mut a = tween(0, 100, 1000);
    assert!(a.seek(300_000).is_ok());
    let before = a.current_value();

    assert!(a.seek(-1).is_err());
    assert_eq!(a.current_value(), before);
    assert_eq!(a.percentage(), 300_000);

    assert!(a.seek(PROGRESS_UNIT as i64 + 1).is_err());
    assert_eq!(a.current_value(), before);
    assert_eq!(a.percentage(), 300_000);
}

#[test]
fn seek_interpolates_exactly() {
    let mut a = tween(0, 100, 1000);
    assert!(a.seek(500_000).is_ok());
    assert_eq!(a.current_value(), 50);

    // the interpolated offset rounds toward the initial value
    let mut b = tween(10, 11, 1000);
    assert!(b.seek(500_000).is_ok());
    assert_eq!(b.current_value(), 10);
    assert!(b.seek(1_000_000).is_ok());
    assert_eq!(b.current_value(), 11);

    let mut c = tween(0, -100, 1000);
    assert!(c.seek(250_000).is_ok());
    assert_eq!(c.current_value(), -25);
}

#[test]
fn stop_resets_to_initial_from_any_state() {
    let mut a = tween(7, 207, 1000);
    a.play();
    assert!(a.is_playing);
    assert!(a.tick(400).is_ok());
    assert_ne!(a.current_value(), 7);

    a.stop();
    assert!(!a.is_playing);
    assert_eq!(a.current_value(), 7);

    // stopping a stopped tween holds too
    a.stop();
    assert!(!a.is_playing);
    assert_eq!(a.current_value(), 7);
}

#[test]
fn restart_equals_stop_then_play() {
    let mut a = tween(0, 100, 1000);
    a.play();
    assert!(a.tick(300).is_ok());
    let mut b = AnimatedNumber {
        target_value: a.target_value,
        initial_value: a.initial_value,
        duration_ms: a.duration_ms,
        progress_ppm: a.progress_ppm,
        is_playing: a.is_playing,
        is_loop: a.is_loop,
    };

    a.restart();
    b.stop();
    b.play();

    assert_eq!(a.current_value(), b.current_value());
    assert_eq!(a.is_playing, b.is_playing);
    assert_eq!(a.percentage(), b.percentage());
}

#[test]
fn restart_of_zero_length_tween_never_plays() {
    let mut a = tween(42, 42, 1000);
    a.restart();
    assert!(!a.is_playing);
    assert_eq!(a.current_value(), 42);
}

#[test]
fn play_on_finished_tween_is_a_no_op() {
    let mut a = tween(0, 100, 1000);
    assert!(a.seek(PROGRESS_UNIT as i64).is_ok());
    a.play();
    assert!(!a.is_playing);
}

#[test]
fn tick_advances_by_elapsed_fraction() {
    let mut a = tween(0, 100, 1000);
    a.play();
    assert!(a.is_playing);
    assert!(a.tick(100).is_ok());
    assert_eq!(a.percentage(), 100_000);
    assert_eq!(a.current_value(), 10);
    assert!(a.tick(150).is_ok());
    assert_eq!(a.percentage(), 250_000);
    assert_eq!(a.current_value(), 25);
}

#[test]
fn tick_past_end_looping_restarts_from_initial() {
    let mut a = tween(0, 100, 1000);
    a.is_loop = true;
    a.play();
    assert!(a.tick(1500).is_ok());
    assert_eq!(a.current_value(), 0);
    assert!(a.is_playing);
    assert_eq!(a.percentage(), 0);
}

#[test]
fn tick_past_end_one_shot_clamps_at_target() {
    let mut a = tween(0, 100, 1000);
    a.play();
    assert!(a.tick(1500).is_ok());
    assert_eq!(a.current_value(), 100);
    assert_eq!(a.percentage(), PROGRESS_UNIT);

    // no further movement on subsequent ticks
    assert!(a.tick(700).is_ok());
    assert_eq!(a.current_value(), 100);
    assert!(a.tick(1).is_ok());
    assert_eq!(a.current_value(), 100);
}

#[test]
fn tick_without_duration_or_while_paused_stands_still() {
    let mut a = tween(0, 100, 0);
    a.play();
    assert!(a.tick(500).is_ok());
    assert_eq!(a.current_value(), 0);

    let mut b = tween(0, 100, 1000);
    assert!(b.tick(500).is_ok());
    assert_eq!(b.current_value(), 0);

    b.play();
    assert!(b.tick(200).is_ok());
    b.pause();
    assert!(!b.is_playing);
    let held = b.current_value();
    assert!(b.tick(500).is_ok());
    assert_eq!(b.current_value(), held);
}
