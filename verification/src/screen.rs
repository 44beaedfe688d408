//! The screen aggregate: construction, the frame cycle, the blit
//! geometry, and user-shader registration.
//!
//! A screen draws into an offscreen framebuffer; revealing a frame blits
//! that framebuffer to the visible surface, presents it, polls input and
//! increments the frame counter. The windowing and GPU halves of that
//! cycle live with the collaborators; what is here is the state step:
//! latching the polled events and counting the frame.

use vstd::prelude::*;

use crate::constants::{AnchorMode, ColorMode, CursorType};
use crate::input::{screen_after_latch, InputEvent};
use crate::matrix::{mat4_identity_spec, Mat4};
use crate::rendering::{initial_draw_params, spec_initial_draw_params};
use crate::shaders::{ShaderInfo, UniformValue};
use crate::{same_screen_except_shader_state, GLmatStruct, Screen};

verus! {

/// One vertex of the fixed full-screen quad that blits the offscreen
/// framebuffer to the window.
#[derive(Clone, Copy, Debug, PartialEq, Eq, Structural)]
pub struct DFBFDVertex {
    pub x: i32,
    pub y: i32,
    pub tex_u: i32,
    pub tex_v: i32,
}

/// The aspect ratio a w-by-h framebuffer has, as a Q16.16 value: width
/// over height, truncated.
pub open spec fn spec_aspect_of(w: int, h: int) -> int
    recommends
        h > 0,
{
    crate::fixed_point::fx_clamp((w * 65536) / h)
}

/// The aspect ratio on raw sizes.
pub(crate) fn aspect_of(w: u32, h: u32) -> (r: i32)
    requires
        h > 0,
    ensures
        r as int == spec_aspect_of(w as int, h as int),
{
    let q: u64 = (w as u64 * 65536) / (h as u64);
    if q > 2147483647u64 {
        i32::MAX
    } else {
        q as i32
    }
}

/// Everything a freshly constructed screen promises: identity transform
/// with an empty stack, white fill over black stroke (both enabled), no
/// tint, the reserved shader bank, default modes and cursor, zero frames
/// revealed, no latched input, and the given geometry flags.
pub open spec fn spec_fresh_screen(
    s: Screen,
    width: u32,
    height: u32,
    fullscreen: bool,
    preserve_aspect_ratio: bool,
    vsync: bool,
    headless: bool,
) -> bool {
    &&& s.matrices.curr_matrix == mat4_identity_spec()
    &&& s.matrices.matrix_stack@ == Seq::<Mat4>::empty()
    &&& s.bg_col@ == seq![52429i32, 52429i32, 52429i32, 52429i32]
    &&& s.fill_stuff
    &&& s.fill_col@ == seq![65536i32, 65536i32, 65536i32, 65536i32]
    &&& s.stroke_stuff
    &&& s.stroke_col@ == seq![0i32, 0i32, 0i32, 65536i32]
    &&& !s.tint_stuff
    &&& s.tint_col@ == seq![65536i32, 65536i32, 65536i32, 65536i32]
    &&& s.shader_count == 4
    &&& !s.draw_texture
    &&& s.aspect_ratio as int == spec_aspect_of(width as int, height as int)
    &&& s.preserve_aspect_ratio == preserve_aspect_ratio
    &&& s.fb_width == width
    &&& s.fb_height == height
    &&& s.stroke_weight == 65536
    &&& s.width == width
    &&& s.height == height
    &&& s.left == -65536
    &&& s.right == 65536
    &&& s.top == 65536
    &&& s.bottom == -65536
    &&& s.c_mode == ColorMode::Rgb
    &&& s.ellipse_mode == AnchorMode::Center
    &&& s.rect_mode == AnchorMode::Corner
    &&& s.shape_mode == AnchorMode::Corner
    &&& s.image_mode == AnchorMode::Corner
    &&& s.frame_rate == 60
    &&& s.frame_count == 0
    &&& s.curr_shader == 0
    &&& s.curr_cursor == CursorType::Default
    &&& s.alternate_shader == 1048576
    &&& !s.using_alternate_shader
    &&& s.uniforms is None
    &&& s.texture_list is None
    &&& s.draw_params == spec_initial_draw_params()
    &&& !s.drew_points
    &&& s.keypressed is None
    &&& s.mousepressed is None
    &&& s.mousereleased is None
    &&& s.mousepos == (-100i32, -100i32)
    &&& s.fullscreen == fullscreen
    &&& s.vsync == vsync
    &&& s.headless == headless
}

/// The frame counter after `n` further revealed frames.
pub open spec fn spec_frames_after(c: int, n: nat) -> int
    decreases n,
{
    if n == 0 {
        c
    } else {
        spec_frames_after(c, (n - 1) as nat) + 1
    }
}

/// Law: revealing `n` frames advances the frame counter by exactly `n` —
/// each completed frame adds one, and nothing else touches the counter.
pub proof fn lemma_frame_counter_advances(c: int, n: nat)
    ensures
        spec_frames_after(c, n) == c + n,
    decreases n,
{
    if n > 0 {
        lemma_frame_counter_advances(c, (n - 1) as nat);
    }
}

/// Build one fresh screen state.
fn fresh_screen(
    width: u32,
    height: u32,
    fullscreen: bool,
    preserve_aspect_ratio: bool,
    vsync: bool,
    headless: bool,
) -> (s: Screen)
    requires
        height > 0,
    ensures
        spec_fresh_screen(s, width, height, fullscreen, preserve_aspect_ratio, vsync, headless),
{
    let mut bg: Vec<i32> = Vec::new();
    bg.push(52429);
    bg.push(52429);
    bg.push(52429);
    bg.push(52429);
    let mut fill: Vec<i32> = Vec::new();
    fill.push(65536);
    fill.push(65536);
    fill.push(65536);
    fill.push(65536);
    let mut stroke: Vec<i32> = Vec::new();
    stroke.push(0);
    stroke.push(0);
    stroke.push(0);
    stroke.push(65536);
    let mut tint: Vec<i32> = Vec::new();
    tint.push(65536);
    tint.push(65536);
    tint.push(65536);
    tint.push(65536);
    proof {
        assert(bg@ =~= seq![52429i32, 52429i32, 52429i32, 52429i32]);
        assert(fill@ =~= seq![65536i32, 65536i32, 65536i32, 65536i32]);
        assert(stroke@ =~= seq![0i32, 0i32, 0i32, 65536i32]);
        assert(tint@ =~= seq![65536i32, 65536i32, 65536i32, 65536i32]);
    }
    let s = Screen {
        matrices: GLmatStruct { curr_matrix: Mat4::identity(), matrix_stack: Vec::new() },
        bg_col: bg,
        fill_stuff: true,
        fill_col: fill,
        stroke_stuff: true,
        stroke_col: stroke,
        tint_stuff: false,
        tint_col: tint,
        shader_count: 4,
        draw_texture: false,
        aspect_ratio: aspect_of(width, height),
        preserve_aspect_ratio,
        fb_width: width,
        fb_height: height,
        stroke_weight: 65536,
        width,
        height,
        left: -65536,
        right: 65536,
        top: 65536,
        bottom: -65536,
        c_mode: ColorMode::Rgb,
        ellipse_mode: AnchorMode::Center,
        rect_mode: AnchorMode::Corner,
        shape_mode: AnchorMode::Corner,
        image_mode: AnchorMode::Corner,
        frame_rate: 60,
        frame_count: 0,
        curr_shader: 0,
        curr_cursor: CursorType::Default,
        alternate_shader: 1048576,
        using_alternate_shader: false,
        uniforms: None,
        texture_list: None,
        draw_params: initial_draw_params(),
        drew_points: false,
        keypressed: None,
        mousepressed: None,
        mousereleased: None,
        mousepos: (-100, -100),
        fullscreen,
        vsync,
        headless,
    };
    s
}

impl Screen {
    /// The state of a new windowed screen of the given logical size. The
    /// windowing collaborator opens the window and rendering context,
    /// then corrects the framebuffer size through
    /// `set_framebuffer_size` if the OS scaled it.
    pub fn new(
        width: u32,
        height: u32,
        fullscreen: bool,
        preserve_aspect_ratio: bool,
        vsync: bool,
    ) -> (s: Screen)
        requires
            height > 0,
        ensures
            spec_fresh_screen(s, width, height, fullscreen, preserve_aspect_ratio, vsync, false),
    {
        fresh_screen(width, height, fullscreen, preserve_aspect_ratio, vsync, false)
    }

    /// The state of a new headless screen of the given size: no window
    /// ever shows, so fullscreen and vsync do not apply.
    pub fn new_headless(width: u32, height: u32, preserve_aspect_ratio: bool) -> (s: Screen)
        requires
            height > 0,
        ensures
            spec_fresh_screen(s, width, height, false, preserve_aspect_ratio, false, true),
    {
        fresh_screen(width, height, false, preserve_aspect_ratio, false, true)
    }

    /// Record the true framebuffer pixel size, which may differ from the
    /// logical window size under OS scaling; the offscreen framebuffer
    /// must be kept at exactly this size.
    pub fn set_framebuffer_size(&mut self, w: u32, h: u32)
        ensures
            *final(self) == (Screen { fb_width: w, fb_height: h, ..*old(self) }),
    {
        self.fb_width = w;
        self.fb_height = h;
    }

    /// The state step of revealing one frame: latch the input events the
    /// windowing collaborator polled since the previous frame (the last
    /// event of each kind wins; empty slots are cleared) and count the
    /// frame. The collaborator performs the blit, present and poll
    /// around this, in that order.
    pub fn complete_frame(&mut self, events: &Vec<InputEvent>)
        requires
            old(self).frame_count < isize::MAX,
        ensures
            *final(self) == (Screen {
                frame_count: (old(self).frame_count + 1) as isize,
                ..screen_after_latch(*old(self), events@)
            }),
    {
        self.poll_events(events);
        self.frame_count = self.frame_count + 1;
    }

    /// Append a freshly compiled user program to the shader bank and
    /// hand back its shader information, seeded with the current
    /// transform matrix under the fixed uniform name.
    pub fn register_frag_shader(&mut self) -> (r: ShaderInfo)
        requires
            old(self).shader_count < usize::MAX,
        ensures
            final(self).shader_count == old(self).shader_count + 1,
            same_screen_except_shader_state(*final(self), *old(self)),
            final(self).curr_shader == old(self).curr_shader,
            final(self).alternate_shader == old(self).alternate_shader,
            final(self).using_alternate_shader == old(self).using_alternate_shader,
            final(self).uniforms == old(self).uniforms,
            final(self).texture_list == old(self).texture_list,
            r.shader_idx == old(self).shader_count,
            r.uniforms@.len() == 1,
            r.uniforms@[0].0@ == "MVP"@,
            r.uniforms@[0].1 == UniformValue::Matrix(old(self).matrices.curr_matrix),
            r.texture_list@ == Seq::<(String, u32)>::empty(),
    {
        let idx = self.shader_count;
        self.shader_count = self.shader_count + 1;
        let mut uniforms: Vec<(String, UniformValue)> = Vec::new();
        uniforms.push(("MVP".to_owned(), UniformValue::Matrix(self.matrices.curr_matrix)));
        ShaderInfo { shader_idx: idx, uniforms, texture_list: Vec::new() }
    }

    /// How many programs the shader bank holds, the built-ins included.
    pub fn shader_bank_len(&self) -> (r: usize)
        ensures
            r == self.shader_count,
    {
        self.shader_count
    }
}

/// The four corners of the full-screen blit quad, spanning the whole
/// clip space with the matching texture corners.
pub fn blit_quad_vertices() -> (r: Vec<DFBFDVertex>)
    ensures
        r@ == seq![
            (DFBFDVertex { x: -65536i32, y: -65536i32, tex_u: 0i32, tex_v: 0i32 }),
            (DFBFDVertex { x: 65536i32, y: -65536i32, tex_u: 65536i32, tex_v: 0i32 }),
            (DFBFDVertex { x: 65536i32, y: 65536i32, tex_u: 65536i32, tex_v: 65536i32 }),
            (DFBFDVertex { x: -65536i32, y: 65536i32, tex_u: 0i32, tex_v: 65536i32 }),
        ],
{
    let mut v: Vec<DFBFDVertex> = Vec::new();
    v.push(DFBFDVertex { x: -65536, y: -65536, tex_u: 0, tex_v: 0 });
    v.push(DFBFDVertex { x: 65536, y: -65536, tex_u: 65536, tex_v: 0 });
    v.push(DFBFDVertex { x: 65536, y: 65536, tex_u: 65536, tex_v: 65536 });
    v.push(DFBFDVertex { x: -65536, y: 65536, tex_u: 0, tex_v: 65536 });
    proof {
        assert(v@ =~= seq![
            (DFBFDVertex { x: -65536i32, y: -65536i32, tex_u: 0i32, tex_v: 0i32 }),
            (DFBFDVertex { x: 65536i32, y: -65536i32, tex_u: 65536i32, tex_v: 0i32 }),
            (DFBFDVertex { x: 65536i32, y: 65536i32, tex_u: 65536i32, tex_v: 65536i32 }),
            (DFBFDVertex { x: -65536i32, y: 65536i32, tex_u: 0i32, tex_v: 65536i32 }),
        ]);
    }
    v
}

/// The two triangles of the full-screen blit quad.
pub fn blit_quad_indices() -> (r: Vec<u16>)
    ensures
        r@ == seq![0u16, 1u16, 2u16, 0u16, 2u16, 3u16],
{
    let mut v: Vec<u16> = Vec::new();
    v.push(0);
    v.push(1);
    v.push(2);
    v.push(0);
    v.push(2);
    v.push(3);
    proof {
        assert(v@ =~= seq![0u16, 1u16, 2u16, 0u16, 2u16, 3u16]);
    }
    v
}

} // verus!
