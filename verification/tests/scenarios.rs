//! End-to-end scenarios: stop semantics, completion notifications, waiting
//! countdowns, and the width the fill policy maintains.

use text_animator::animator::{TextAnimationState, TextSimpleAnimator};

#[test]
fn stop_is_idempotent() {
    let mut a = TextSimpleAnimator::new("Hello", 1000).with_wait_until_finish(500_000);
    a.advance(1_000_000, false);
    a.stop();
    let once = (a.state, a.text.clone(), a.speed, a.fill_spaces);
    let out_once = a.advance(123, false);
    a.stop();
    a.stop();
    let twice = (a.state, a.text.clone(), a.speed, a.fill_spaces);
    let out_twice = a.advance(123, false);
    assert_eq!(once, twice);
    assert_eq!(out_once.finished, out_twice.finished);
    assert_eq!(out_once.display, out_twice.display);
    assert_eq!(a.state, TextAnimationState::Stopped);
}

#[test]
fn stop_never_notifies() {
    let mut a = TextSimpleAnimator::new("Hi", 2000).with_wait_until_finish(500_000);
    a.advance(300_000, false);
    a.stop();
    for _ in 0..10 {
        let out = a.advance(u64::MAX, false);
        assert!(!out.finished);
        assert!(out.display.is_none());
        assert!(a.is_stopped());
    }
}

#[test]
fn stop_resets_the_reveal_timer() {
    let mut a = TextSimpleAnimator::new("Hello", 1000);
    a.advance(3_000_000, false);
    a.stop();
    a.play();
    let out = a.advance(1_000_000, false);
    assert_eq!(out.display.as_deref(), Some("H"));
}

#[test]
fn a_natural_completion_after_a_stop_still_notifies() {
    let mut a = TextSimpleAnimator::new("Hi", 2000);
    a.stop();
    a.play();
    let out = a.advance(1_000_000, false);
    assert!(out.finished);
}

#[test]
fn waiting_counts_down_then_plays_with_the_leftover() {
    let mut a = TextSimpleAnimator::new("abcdef", 10_000);
    a.play_with_wait_before(2_000_000);
    let out = a.advance(1_500_000, false);
    assert_eq!(a.state, TextAnimationState::Waiting(500_000));
    assert_eq!(out.display.as_deref(), Some(""));
    assert!(!out.finished);
    // 0.6 s: the countdown ends after 0.5 s and the leftover 0.1 s reveals
    // one code point at 10 per second, in this same frame.
    let out = a.advance(600_000, false);
    assert!(a.is_playing());
    assert_eq!(out.display.as_deref(), Some("a"));
}

#[test]
fn waiting_with_zero_left_transitions_on_the_same_frame() {
    let mut a = TextSimpleAnimator::new("ab", 1000);
    a.play_with_wait_before(0);
    let out = a.advance(1_500_000, false);
    assert!(a.is_playing());
    assert_eq!(out.display.as_deref(), Some("a"));
}

#[test]
fn a_delta_past_the_countdown_and_the_reveal_completes_at_once() {
    let mut a = TextSimpleAnimator::new("Hi", 2000);
    a.play_with_wait_before(500_000);
    let out = a.advance(2_000_000, false);
    assert!(out.finished);
    assert!(a.is_stopped());
    assert_eq!(out.display.as_deref(), Some("Hi"));
}

#[test]
fn deferred_completion_notifies_exactly_once_after_the_delay() {
    // "Hi" at 2 code points per second: duration 1 s; finish delay 0.5 s.
    let mut a = TextSimpleAnimator::new("Hi", 2000).with_wait_until_finish(500_000);
    let out = a.advance(1_000_000, false);
    assert!(a.is_stopped());
    assert!(!out.finished);
    assert_eq!(out.display.as_deref(), Some("Hi"));
    let out = a.advance(400_000, false);
    assert!(!out.finished);
    let out = a.advance(100_000, false);
    assert!(out.finished);
    // Cleared: no second notification, ever.
    let out = a.advance(10_000_000, false);
    assert!(!out.finished);
}

#[test]
fn play_clears_a_pending_completion_notification() {
    let mut a = TextSimpleAnimator::new("Hi", 2000).with_wait_until_finish(500_000);
    a.advance(1_000_000, false);
    a.play();
    // The old countdown is gone; only the new reveal's own completion fires.
    let out = a.advance(100_000, false);
    assert!(!out.finished);
    assert_eq!(out.display.as_deref(), Some(""));
}

#[test]
fn pause_clears_a_pending_completion_notification() {
    let mut a = TextSimpleAnimator::new("Hi", 2000).with_wait_until_finish(500_000);
    a.advance(1_000_000, false);
    a.pause();
    let out = a.advance(10_000_000, false);
    assert!(!out.finished);
}

#[test]
fn fill_width_is_constant_across_a_whole_run() {
    let width = "日本語abc".chars().count();
    let mut a = TextSimpleAnimator::new("日本語abc", 3000)
        .with_fill_spaces(true)
        .with_fill_spaces_char("_");
    a.play_with_wait_before(300_000);
    let mut micros: u64 = 0;
    while micros < 3_000_000 {
        let out = a.advance(100_000, false);
        if let Some(s) = out.display {
            assert_eq!(s.chars().count(), width);
        }
        micros += 100_000;
    }
    assert!(a.is_stopped());
}

#[test]
fn paused_display_and_progress_survive_any_delta() {
    let mut a = TextSimpleAnimator::new("Hello", 1000);
    let out = a.advance(2_000_000, false);
    assert_eq!(out.display.as_deref(), Some("He"));
    a.pause();
    for _ in 0..5 {
        let out = a.advance(u64::MAX, false);
        assert!(out.display.is_none());
        assert!(!out.finished);
    }
    a.resume();
    let out = a.advance(0, false);
    assert_eq!(out.display.as_deref(), Some("He"));
}
