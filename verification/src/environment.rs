//! Screen environment state: sizes, frame counter and rate, cursor icon,
//! focus, and smoothing.
//!
//! The calls that only touch the window (showing or hiding the cursor,
//! querying the OS) live with the windowing collaborator; what is
//! recorded here is the state those calls are driven by.

use vstd::prelude::*;

use crate::constants::CursorType;
use crate::errors::ProcessingErr;
use crate::input::InputEvent;
use crate::rendering::DrawParams;
use crate::Screen;

verus! {

impl Screen {
    /// Return the cursor icon to the default arrow. The windowing
    /// collaborator applies `curr_cursor` to the window; this never
    /// fails.
    pub fn reset_cursor(&mut self) -> (r: Result<(), ProcessingErr>)
        ensures
            r is Ok,
            *final(self) == (Screen { curr_cursor: CursorType::Default, ..*old(self) }),
    {
        self.curr_cursor = CursorType::Default;
        Ok(())
    }

    /// Record the cursor icon to show. The windowing collaborator applies
    /// `curr_cursor` to the window; this never fails.
    pub fn cursor(&mut self, cursor_type: CursorType) -> (r: Result<(), ProcessingErr>)
        ensures
            r is Ok,
            *final(self) == (Screen { curr_cursor: cursor_type, ..*old(self) }),
    {
        self.curr_cursor = cursor_type;
        Ok(())
    }

    /// The cursor icon the window is to show.
    pub fn current_cursor(&self) -> (r: CursorType)
        ensures
            r == self.curr_cursor,
    {
        self.curr_cursor
    }

    /// Whether a batch of polled events says the window gained focus.
    pub fn focused(&self, events: &Vec<InputEvent>) -> (r: bool)
        ensures
            r == exists|i: int| 0 <= i < events@.len() && events@[i] is Focused,
    {
        let n: usize = events.len();
        let mut i: usize = 0;
        while i < n
            invariant
                n == events@.len(),
                0 <= i <= n,
                forall|j: int| 0 <= j < i ==> !(events@[j] is Focused),
            decreases n - i,
        {
            match events[i] {
                InputEvent::Focused => {
                    return true;
                },
                _ => {},
            }
            i = i + 1;
        }
        false
    }

    /// How many frames have been revealed so far.
    pub fn frame_count(&self) -> (r: isize)
        ensures
            r == self.frame_count,
    {
        self.frame_count
    }

    /// The recorded frame rate.
    pub fn get_frame_rate(&self) -> (r: isize)
        ensures
            r == self.frame_rate,
    {
        self.frame_rate
    }

    /// Record a new frame rate.
    pub fn set_frame_rate(&mut self, f_rate: isize)
        ensures
            *final(self) == (Screen { frame_rate: f_rate, ..*old(self) }),
    {
        self.frame_rate = f_rate;
    }

    /// The logical height of the screen.
    pub fn height(&self) -> (r: u32)
        ensures
            r == self.height,
    {
        self.height
    }

    /// The logical width of the screen.
    pub fn width(&self) -> (r: u32)
        ensures
            r == self.width,
    {
        self.width
    }

    /// Draw without antialiasing, so individual pixels stand out.
    pub fn no_smooth(&mut self)
        ensures
            *final(self) == (Screen {
                draw_params: (DrawParams { smooth: false, ..old(self).draw_params }),
                ..*old(self)
            }),
    {
        self.draw_params.smooth = false;
    }

    /// Draw with antialiasing for a smoother appearance.
    pub fn smooth(&mut self)
        ensures
            *final(self) == (Screen {
                draw_params: (DrawParams { smooth: true, ..old(self).draw_params }),
                ..*old(self)
            }),
    {
        self.draw_params.smooth = true;
    }

    /// The render parameters draw calls currently carry.
    pub fn current_draw_params(&self) -> (r: DrawParams)
        ensures
            r == self.draw_params,
    {
        self.draw_params
    }

    /// The framebuffer pixel width the model was last told.
    pub fn framebuffer_width(&self) -> (r: u32)
        ensures
            r == self.fb_width,
    {
        self.fb_width
    }

    /// The framebuffer pixel height the model was last told.
    pub fn framebuffer_height(&self) -> (r: u32)
        ensures
            r == self.fb_height,
    {
        self.fb_height
    }
}

} // verus!
