//! The latched input snapshot.
//!
//! Input arrives as a batch of events polled by the windowing
//! collaborator since the previous frame. Latching overwrites, never
//! accumulates: only the last event of each kind in a batch is visible
//! afterward, and a batch without an event of some kind clears that slot.

use vstd::prelude::*;

use crate::constants::MouseButton;
use crate::Screen;

verus! {

/// One windowing event, reduced to what the input snapshot reads.
#[derive(Clone, Copy, Debug, PartialEq, Eq, Structural)]
pub enum InputEvent {
    /// A key went down, by key code.
    KeyPressed(u32),
    /// A mouse button went down.
    MousePressed(MouseButton),
    /// A mouse button came up.
    MouseReleased(MouseButton),
    /// The cursor moved to the given position, in pixels.
    CursorMoved(i32, i32),
    /// The window gained focus.
    Focused,
    /// The user asked the window to close.
    CloseRequested,
    /// Anything else.
    Other,
}

/// The cursor position a batch without any cursor movement leaves behind.
pub open spec fn default_mouse_pos() -> (i32, i32) {
    (-100i32, -100i32)
}

/// The last key pressed in the batch, if any.
pub open spec fn latched_key(events: Seq<InputEvent>) -> Option<u32>
    decreases events.len(),
{
    if events.len() == 0 {
        None
    } else {
        match events.last() {
            InputEvent::KeyPressed(k) => Some(k),
            _ => latched_key(events.drop_last()),
        }
    }
}

/// The last mouse button pressed in the batch, if any.
pub open spec fn latched_mouse_press(events: Seq<InputEvent>) -> Option<MouseButton>
    decreases events.len(),
{
    if events.len() == 0 {
        None
    } else {
        match events.last() {
            InputEvent::MousePressed(b) => Some(b),
            _ => latched_mouse_press(events.drop_last()),
        }
    }
}

/// The last mouse button released in the batch, if any.
pub open spec fn latched_mouse_release(events: Seq<InputEvent>) -> Option<MouseButton>
    decreases events.len(),
{
    if events.len() == 0 {
        None
    } else {
        match events.last() {
            InputEvent::MouseReleased(b) => Some(b),
            _ => latched_mouse_release(events.drop_last()),
        }
    }
}

/// The last cursor position in the batch, or the default position when
/// the cursor did not move.
pub open spec fn latched_mouse_pos(events: Seq<InputEvent>) -> (i32, i32)
    decreases events.len(),
{
    if events.len() == 0 {
        default_mouse_pos()
    } else {
        match events.last() {
            InputEvent::CursorMoved(x, y) => (x, y),
            _ => latched_mouse_pos(events.drop_last()),
        }
    }
}

/// `post` carries exactly the snapshot latched from `events`, and every
/// other part of `pre` is untouched.
pub open spec fn screen_after_latch(pre: Screen, events: Seq<InputEvent>) -> Screen {
    Screen {
        keypressed: latched_key(events),
        mousepressed: latched_mouse_press(events),
        mousereleased: latched_mouse_release(events),
        mousepos: latched_mouse_pos(events),
        ..pre
    }
}

impl Screen {
    /// Overwrite the latched input snapshot from a batch of events, in
    /// batch order: afterward each slot holds the last event of its kind,
    /// or nothing when the batch had none.
    pub fn poll_events(&mut self, events: &Vec<InputEvent>)
        ensures
            *final(self) == screen_after_latch(*old(self), events@),
    {
        let mut kp: Option<u32> = None;
        let mut mp: Option<MouseButton> = None;
        let mut mr: Option<MouseButton> = None;
        let mut mpos: (i32, i32) = (-100, -100);
        let n: usize = events.len();
        let mut i: usize = 0;
        while i < n
            invariant
                n == events@.len(),
                0 <= i <= n,
                kp == latched_key(events@.take(i as int)),
                mp == latched_mouse_press(events@.take(i as int)),
                mr == latched_mouse_release(events@.take(i as int)),
                ({
                    let p = latched_mouse_pos(events@.take(i as int));
                    mpos.0 == p.0 && mpos.1 == p.1
                }),
            decreases n - i,
        {
            proof {
                assert(events@.take(i + 1) =~= events@.take(i as int).push(events@[i as int]));
                assert(events@.take(i + 1).drop_last() =~= events@.take(i as int));
            }
            match events[i] {
                InputEvent::KeyPressed(k) => {
                    kp = Some(k);
                },
                InputEvent::MousePressed(b) => {
                    mp = Some(b);
                },
                InputEvent::MouseReleased(b) => {
                    mr = Some(b);
                },
                InputEvent::CursorMoved(x, y) => {
                    mpos = (x, y);
                },
                _ => {},
            }
            i = i + 1;
        }
        proof {
            assert(events@.take(n as int) =~= events@);
        }
        self.keypressed = kp;
        self.mousepressed = mp;
        self.mousereleased = mr;
        self.mousepos = mpos;
    }

    /// Whether the given key was the last one pressed before the previous
    /// frame ended.
    pub fn key_press(&self, button: u32) -> (r: bool)
        ensures
            r == (self.keypressed == Some(button)),
    {
        match self.keypressed {
            Some(k) => k == button,
            None => false,
        }
    }

    /// Whether the given mouse button was the last one pressed before the
    /// previous frame ended.
    pub fn mouse_press(&self, button: MouseButton) -> (r: bool)
        ensures
            r == (self.mousepressed == Some(button)),
    {
        match self.mousepressed {
            Some(b) => b == button,
            None => false,
        }
    }

    /// Whether the given mouse button was the last one released before
    /// the previous frame ended.
    pub fn mouse_release(&self, button: MouseButton) -> (r: bool)
        ensures
            r == (self.mousereleased == Some(button)),
    {
        match self.mousereleased {
            Some(b) => b == button,
            None => false,
        }
    }

    /// The latched cursor x position, in pixels.
    pub fn mouse_x(&self) -> (r: i32)
        ensures
            r == self.mousepos.0,
    {
        self.mousepos.0
    }

    /// The latched cursor y position, in pixels.
    pub fn mouse_y(&self) -> (r: i32)
        ensures
            r == self.mousepos.1,
    {
        self.mousepos.1
    }
}

} // verus!
