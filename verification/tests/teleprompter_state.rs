use teleprompter::font::FontFamily;
use teleprompter::teleprompter::TeleprompterState;
use teleprompter::teleprompter::{
    DEFAULT_SPEED, DEFAULT_TRANSPARENCY, MAX_FRAME_MICROS, MAX_SPEED, MIN_SPEED,
    REDUCED_TRANSPARENCY, SPEED_STEP,
};

fn fresh() -> TeleprompterState {
    TeleprompterState::new(String::from("Hello, world.\nSecond line."))
}

#[test]
fn font_family_labels() {
    assert_eq!(FontFamily::SansSerif.as_str(), "Sans Serif");
    assert_eq!(FontFamily::Serif.as_str(), "Serif");
    assert_eq!(FontFamily::Monospace.as_str(), "Monospace");
}

#[test]
fn new_state_has_defaults() {
    let tp = fresh();
    assert_eq!(tp.text(), "Hello, world.\nSecond line.");
    assert_eq!(tp.scroll_position(), 0);
    assert_eq!(tp.speed(), 50_000);
    assert_eq!(tp.speed(), DEFAULT_SPEED);
    assert!(!tp.paused());
    assert_eq!(tp.transparency(), 950);
    assert_eq!(tp.font_family(), FontFamily::SansSerif);
    assert_eq!(tp.frame_count(), 0);
    assert_eq!(tp.background_opacity(), 50);
}

#[test]
fn increase_speed_steps_and_saturates() {
    let mut tp = fresh();
    tp.increase_speed();
    assert_eq!(tp.speed(), 60_000);
    for _ in 0..30 {
        tp.increase_speed();
    }
    assert_eq!(tp.speed(), MAX_SPEED);
    tp.set_speed(195_000);
    tp.increase_speed();
    assert_eq!(tp.speed(), 200_000);
}

#[test]
fn decrease_speed_steps_and_saturates() {
    let mut tp = fresh();
    tp.decrease_speed();
    assert_eq!(tp.speed(), 40_000);
    for _ in 0..30 {
        tp.decrease_speed();
    }
    assert_eq!(tp.speed(), MIN_SPEED);
    tp.set_speed(15_000);
    tp.decrease_speed();
    assert_eq!(tp.speed(), 10_000);
}

#[test]
fn speed_step_round_trip() {
    let mut tp = fresh();
    tp.set_speed(123_000);
    tp.increase_speed();
    tp.decrease_speed();
    assert_eq!(tp.speed(), 123_000);
    tp.decrease_speed();
    tp.increase_speed();
    assert_eq!(tp.speed(), 123_000);
    tp.set_speed(MAX_SPEED - SPEED_STEP / 2);
    tp.increase_speed();
    tp.decrease_speed();
    assert_eq!(tp.speed(), MAX_SPEED - SPEED_STEP);
}

#[test]
fn toggle_transparency_switches_between_two_levels() {
    let mut tp = fresh();
    tp.toggle_transparency();
    assert_eq!(tp.transparency(), REDUCED_TRANSPARENCY);
    assert_eq!(tp.background_opacity(), 700);
    tp.toggle_transparency();
    assert_eq!(tp.transparency(), DEFAULT_TRANSPARENCY);
    tp.set_transparency(500);
    tp.toggle_transparency();
    assert_eq!(tp.transparency(), 950);
    tp.set_transparency(501);
    tp.toggle_transparency();
    assert_eq!(tp.transparency(), 300);
    tp.set_transparency(0);
    assert_eq!(tp.background_opacity(), 1000);
    tp.toggle_transparency();
    assert_eq!(tp.transparency(), 950);
}

#[test]
fn toggle_pause_twice_restores() {
    let mut tp = fresh();
    tp.toggle_pause();
    assert!(tp.paused());
    tp.toggle_pause();
    assert!(!tp.paused());
}

#[test]
fn update_at_scrolls_by_speed_times_time() {
    let mut tp = fresh();
    // 50 px/s for 20 ms is 1 px.
    tp.update_at(20_000);
    assert_eq!(tp.scroll_position(), 1_000_000_000);
    assert_eq!(tp.frame_count(), 1);
    tp.update_at(20_000);
    assert_eq!(tp.scroll_position(), 1_000_000_000);
    assert_eq!(tp.frame_count(), 2);
    tp.update_at(60_000);
    assert_eq!(tp.scroll_position(), 3_000_000_000);
    // a reading earlier than the last one counts as no time
    tp.update_at(10_000);
    assert_eq!(tp.scroll_position(), 3_000_000_000);
    assert_eq!(tp.frame_count(), 4);
}

#[test]
fn update_at_caps_long_frames() {
    let mut tp = fresh();
    tp.update_at(5_000_000);
    // at most 0.1 s: 50 px/s gives 5 px.
    assert_eq!(tp.scroll_position(), 5_000_000_000);
    let mut other = fresh();
    other.update_at(MAX_FRAME_MICROS as u128);
    assert_eq!(other.scroll_position(), tp.scroll_position());
    let mut huge = fresh();
    huge.update_at(u128::MAX);
    assert_eq!(huge.scroll_position(), 5_000_000_000);
}

#[test]
fn update_at_while_paused_holds() {
    let mut tp = fresh();
    tp.update_at(10_000);
    tp.toggle_pause_at(10_000);
    let before = tp.scroll_position();
    tp.update_at(90_000);
    assert_eq!(tp.scroll_position(), before);
    assert_eq!(tp.frame_count(), 1);
}

#[test]
fn paused_time_is_not_counted() {
    let mut tp = fresh();
    tp.toggle_pause_at(0);
    tp.update_at(3_000_000);
    tp.update_at(7_000_000);
    // resume after ten seconds paused
    tp.toggle_pause_at(10_000_000);
    tp.update_at(10_040_000);
    // only the 40 ms since resuming count: 2 px at 50 px/s
    assert_eq!(tp.scroll_position(), 2_000_000_000);
    assert_eq!(tp.frame_count(), 1);
}

#[test]
fn update_moves_forward_and_counts_frames() {
    let mut tp = fresh();
    tp.update();
    assert_eq!(tp.frame_count(), 1);
    let after_one = tp.scroll_position();
    // no more than 0.1 s at 50 px/s
    assert!(after_one <= 5_000_000_000);
    tp.update();
    assert_eq!(tp.frame_count(), 2);
    assert!(tp.scroll_position() >= after_one);
    assert!(tp.clock_micros() < 60_000_000);
}

#[test]
fn update_while_paused_holds() {
    let mut tp = fresh();
    tp.update_at(40_000);
    tp.toggle_pause();
    assert!(tp.paused());
    tp.update();
    tp.update();
    assert_eq!(tp.scroll_position(), 2_000_000_000);
    assert_eq!(tp.frame_count(), 1);
    tp.toggle_pause();
    assert!(!tp.paused());
}

#[test]
fn reset_rewinds_and_resumes() {
    let mut tp = fresh();
    tp.increase_speed();
    tp.toggle_transparency();
    tp.update_at(100_000);
    tp.toggle_pause_at(100_000);
    tp.reset();
    assert_eq!(tp.scroll_position(), 0);
    assert!(!tp.paused());
    assert_eq!(tp.speed(), 60_000);
    assert_eq!(tp.transparency(), 300);
    tp.reset();
    assert_eq!(tp.scroll_position(), 0);
    assert!(!tp.paused());
}

#[test]
fn setters_change_one_field() {
    let mut tp = fresh();
    tp.set_font_family(FontFamily::Monospace);
    assert_eq!(tp.font_family(), FontFamily::Monospace);
    tp.set_speed(MIN_SPEED);
    assert_eq!(tp.speed(), 10_000);
    tp.set_transparency(1000);
    assert_eq!(tp.transparency(), 1000);
    assert_eq!(tp.background_opacity(), 0);
    assert_eq!(tp.text(), "Hello, world.\nSecond line.");
}
