//! The frame cycle and the latched input snapshot.

use processing::constants::{CursorType, MouseButton, KEY_SPACE};
use processing::input::InputEvent;
use processing::Screen;

fn fresh() -> Screen {
    Screen::new(100, 100, false, false, false)
}

#[test]
fn three_completed_frames_count_three() {
    let mut s = fresh();
    assert_eq!(s.frame_count(), 0);
    let evs: Vec<InputEvent> = Vec::new();
    s.complete_frame(&evs);
    s.complete_frame(&evs);
    s.complete_frame(&evs);
    assert_eq!(s.frame_count(), 3);
}

#[test]
fn latching_keeps_only_the_last_event_of_each_kind() {
    let mut s = fresh();
    let evs = vec![
        InputEvent::KeyPressed(65),
        InputEvent::CursorMoved(10, 20),
        InputEvent::KeyPressed(KEY_SPACE),
        InputEvent::MousePressed(MouseButton::Left),
        InputEvent::CursorMoved(30, 40),
        InputEvent::MousePressed(MouseButton::Right),
        InputEvent::MouseReleased(MouseButton::Left),
    ];
    s.complete_frame(&evs);
    assert!(s.key_press(KEY_SPACE));
    assert!(!s.key_press(65));
    assert!(s.mouse_press(MouseButton::Right));
    assert!(!s.mouse_press(MouseButton::Left));
    assert!(s.mouse_release(MouseButton::Left));
    assert_eq!(s.mouse_x(), 30);
    assert_eq!(s.mouse_y(), 40);
}

#[test]
fn an_empty_batch_clears_the_snapshot() {
    let mut s = fresh();
    s.poll_events(&vec![InputEvent::KeyPressed(1), InputEvent::CursorMoved(5, 6)]);
    assert!(s.key_press(1));
    s.poll_events(&Vec::new());
    assert!(!s.key_press(1));
    assert_eq!(s.mouse_x(), -100);
    assert_eq!(s.mouse_y(), -100);
}

#[test]
fn poll_events_does_not_count_a_frame() {
    let mut s = fresh();
    s.poll_events(&vec![InputEvent::KeyPressed(2)]);
    assert_eq!(s.frame_count(), 0);
    assert!(s.key_press(2));
}

#[test]
fn focused_scans_the_batch() {
    let s = fresh();
    assert!(!s.focused(&vec![InputEvent::KeyPressed(1), InputEvent::Other]));
    assert!(s.focused(&vec![InputEvent::KeyPressed(1), InputEvent::Focused]));
}

#[test]
fn cursor_state_is_recorded() {
    let mut s = fresh();
    assert_eq!(s.current_cursor(), CursorType::Default);
    assert!(s.cursor(CursorType::Hand).is_ok());
    assert_eq!(s.current_cursor(), CursorType::Hand);
    assert!(s.reset_cursor().is_ok());
    assert_eq!(s.current_cursor(), CursorType::Default);
}

#[test]
fn frame_rate_and_sizes_are_recorded() {
    let mut s = Screen::new(640, 480, false, false, true);
    assert_eq!(s.width(), 640);
    assert_eq!(s.height(), 480);
    assert_eq!(s.get_frame_rate(), 60);
    s.set_frame_rate(144);
    assert_eq!(s.get_frame_rate(), 144);
    assert_eq!(s.framebuffer_width(), 640);
    s.set_framebuffer_size(1280, 960);
    assert_eq!(s.framebuffer_width(), 1280);
    assert_eq!(s.framebuffer_height(), 960);
}

#[test]
fn headless_screens_share_the_state_machine() {
    let mut s = Screen::new_headless(64, 64, true);
    let evs: Vec<InputEvent> = Vec::new();
    s.complete_frame(&evs);
    assert_eq!(s.frame_count(), 1);
}
