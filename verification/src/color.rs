//! Fill, stroke and background color state.
//!
//! Color tuples are Q16.16 channels stored verbatim whatever the color
//! mode: interpreting HSB tuples is a recorded, unimplemented placeholder.
//! Assigning a color through `fill` or `stroke` also re-enables the
//! respective drawing path: switching a path off with `fill_off` or
//! `stroke_off` is sticky only until the next color assignment.

use vstd::prelude::*;

use crate::constants::ColorMode;
use crate::{same_screen_except_fill, same_screen_except_stroke, Screen};

verus! {

/// The tuples (r[i], g[i], b[i], a[i]) laid out flat, four channels per
/// tuple, as the color state stores them.
pub open spec fn interleave_rgba(r: Seq<i32>, g: Seq<i32>, b: Seq<i32>, a: Seq<i32>) -> Seq<i32> {
    Seq::new(
        r.len() * 4,
        |i: int|
            if i % 4 == 0 {
                r[i / 4]
            } else if i % 4 == 1 {
                g[i / 4]
            } else if i % 4 == 2 {
                b[i / 4]
            } else {
                a[i / 4]
            },
    )
}

/// Law: turning the fill path off and then assigning a fill color leaves
/// fill enabled with exactly the new color, while turning it off alone
/// leaves the old color untouched. Stated over the contracts of
/// `fill_off` and `fill`: `fill_off` changes only the flag, and `fill`
/// both sets the flag and replaces the stored channels.
pub proof fn lemma_fill_stickiness(
    s0: Screen,
    s1: Screen,
    s2: Screen,
    r: Seq<i32>,
    g: Seq<i32>,
    b: Seq<i32>,
    a: Seq<i32>,
)
    requires
        // what fill_off ensures of s0 -> s1
        !s1.fill_stuff,
        s1.fill_col@ == s0.fill_col@,
        // what fill ensures of s1 -> s2
        s2.fill_stuff,
        s2.fill_col@ == interleave_rgba(r, g, b, a),
    ensures
        s2.fill_stuff,
        s2.fill_col@ == interleave_rgba(r, g, b, a),
        s1.fill_col@ == s0.fill_col@,
{
}

/// Build the flat channel vector for the given tuples.
fn build_color_vec(r: &Vec<i32>, g: &Vec<i32>, b: &Vec<i32>, a: &Vec<i32>) -> (out: Vec<i32>)
    requires
        g@.len() == r@.len(),
        b@.len() == r@.len(),
        a@.len() == r@.len(),
    ensures
        out@ == interleave_rgba(r@, g@, b@, a@),
{
    let n: usize = r.len();
    let mut out: Vec<i32> = Vec::new();
    let mut x: usize = 0;
    while x < n
        invariant
            n == r@.len(),
            g@.len() == n,
            b@.len() == n,
            a@.len() == n,
            0 <= x <= n,
            out@.len() == 4 * x,
            forall|i: int|
                0 <= i < 4 * x ==> out@[i] == interleave_rgba(r@, g@, b@, a@)[i],
        decreases n - x,
    {
        out.push(r[x]);
        out.push(g[x]);
        out.push(b[x]);
        out.push(a[x]);
        x = x + 1;
    }
    proof {
        assert(out@ =~= interleave_rgba(r@, g@, b@, a@));
    }
    out
}

impl Screen {
    /// Set the interior color used for shapes built from now on, one RGBA
    /// tuple per channel slice entry, and re-enable the fill path. The
    /// channel values are stored verbatim in either color mode.
    pub fn fill(&mut self, r: &Vec<i32>, g: &Vec<i32>, b: &Vec<i32>, a: &Vec<i32>)
        requires
            g@.len() == r@.len(),
            b@.len() == r@.len(),
            a@.len() == r@.len(),
        ensures
            final(self).fill_stuff,
            final(self).fill_col@ == interleave_rgba(r@, g@, b@, a@),
            same_screen_except_fill(*final(self), *old(self)),
    {
        if self.fill_stuff == false {
            self.fill_stuff = true;
        }
        self.fill_col = build_color_vec(r, g, b, a);
    }

    /// Disable the fill path: shapes drawn from now on show only their
    /// outline. The stored fill color is untouched.
    pub fn fill_off(&mut self)
        ensures
            *final(self) == (Screen { fill_stuff: false, ..*old(self) }),
    {
        self.fill_stuff = false;
    }

    /// Disable the stroke path: shapes drawn from now on show only their
    /// interior. The stored stroke color is untouched.
    pub fn stroke_off(&mut self)
        ensures
            *final(self) == (Screen { stroke_stuff: false, ..*old(self) }),
    {
        self.stroke_stuff = false;
    }

    /// Re-enable the fill path.
    pub fn fill_on(&mut self)
        ensures
            *final(self) == (Screen { fill_stuff: true, ..*old(self) }),
    {
        self.fill_stuff = true;
    }

    /// Re-enable the stroke path.
    pub fn stroke_on(&mut self)
        ensures
            *final(self) == (Screen { stroke_stuff: true, ..*old(self) }),
    {
        self.stroke_stuff = true;
    }

    /// Set the outline color used for shapes built from now on, one RGBA
    /// tuple per channel slice entry, and re-enable the stroke path. The
    /// channel values are stored verbatim in either color mode.
    pub fn stroke(&mut self, r: &Vec<i32>, g: &Vec<i32>, b: &Vec<i32>, a: &Vec<i32>)
        requires
            g@.len() == r@.len(),
            b@.len() == r@.len(),
            a@.len() == r@.len(),
        ensures
            final(self).stroke_stuff,
            final(self).stroke_col@ == interleave_rgba(r@, g@, b@, a@),
            same_screen_except_stroke(*final(self), *old(self)),
    {
        if self.stroke_stuff == false {
            self.stroke_stuff = true;
        }
        self.stroke_col = build_color_vec(r, g, b, a);
    }

    /// Record how later color tuples are to be read. The stored channel
    /// values are unaffected.
    pub fn color_mode(&mut self, mode: ColorMode)
        ensures
            *final(self) == (Screen { c_mode: mode, ..*old(self) }),
    {
        self.c_mode = mode;
    }
}

} // verus!
