//! The fill/stroke color state machine.

use processing::constants::ColorMode;
use processing::shapes::rect::Rect;
use processing::Screen;

fn fresh() -> Screen {
    Screen::new(100, 100, false, false, false)
}

#[test]
fn fill_off_then_fill_re_enables_with_new_color() {
    let mut s = fresh();
    s.fill_off();
    // fill is off: the rect's fill pass would be skipped
    assert_eq!(s.draw(&Rect::new(&s, &vec![0], &vec![0], &vec![0], &vec![1], &vec![1])).len(), 1);
    s.fill(&vec![13107], &vec![26214], &vec![39321], &vec![65536]);
    let r = Rect::new(&s, &vec![0], &vec![0], &vec![0], &vec![1], &vec![1]);
    assert_eq!(r.fill_buffer[0].color.r, 13107);
    assert_eq!(r.fill_buffer[0].color.g, 26214);
    assert_eq!(r.fill_buffer[0].color.b, 39321);
    assert_eq!(s.draw(&r).len(), 2);
}

#[test]
fn fill_off_alone_keeps_the_old_color() {
    let mut s = fresh();
    s.fill(&vec![13107], &vec![0], &vec![0], &vec![65536]);
    s.fill_off();
    s.fill_on();
    let r = Rect::new(&s, &vec![0], &vec![0], &vec![0], &vec![1], &vec![1]);
    assert_eq!(r.fill_buffer[0].color.r, 13107);
}

#[test]
fn stroke_off_then_stroke_re_enables_with_new_color() {
    let mut s = fresh();
    s.stroke_off();
    s.stroke(&vec![65536], &vec![32768], &vec![0], &vec![65536]);
    let r = Rect::new(&s, &vec![0], &vec![0], &vec![0], &vec![1], &vec![1]);
    assert_eq!(r.stroke_buffer[0].color.r, 65536);
    assert_eq!(r.stroke_buffer[0].color.g, 32768);
    assert_eq!(s.draw(&r).len(), 2);
}

#[test]
fn colors_are_stored_verbatim_in_either_mode() {
    // the HSB path is a recorded stub: tuples are stored unconverted
    let mut s = fresh();
    s.color_mode(ColorMode::Hsb);
    s.fill(&vec![11111], &vec![22222], &vec![33333], &vec![44444]);
    let r = Rect::new(&s, &vec![0], &vec![0], &vec![0], &vec![1], &vec![1]);
    assert_eq!(r.fill_buffer[0].color.r, 11111);
    assert_eq!(r.fill_buffer[0].color.g, 22222);
    assert_eq!(r.fill_buffer[0].color.b, 33333);
    assert_eq!(r.fill_buffer[0].color.a, 44444);
}

#[test]
fn defaults_are_white_fill_black_stroke() {
    let s = fresh();
    let r = Rect::new(&s, &vec![0], &vec![0], &vec![0], &vec![1], &vec![1]);
    assert_eq!(r.fill_buffer[0].color.r, 65536);
    assert_eq!(r.fill_buffer[0].color.a, 65536);
    assert_eq!(r.stroke_buffer[0].color.r, 0);
    assert_eq!(r.stroke_buffer[0].color.a, 65536);
}
