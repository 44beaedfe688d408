//! A retained-mode drawing layer in the style of Processing: shape
//! tessellation, a transformation-matrix stack, fill/stroke color state,
//! shader dispatch and a double-buffered frame cycle, all modeled over
//! exact Q16.16 fixed-point arithmetic and verified with Verus.
//!
//! The windowing and GPU collaborators stay outside this crate: callers
//! hand in plain values (framebuffer sizes, polled input events) and take
//! back plain values (vertex data, draw plans) that the collaborators
//! execute.

pub mod color;
pub mod constants;
pub mod environment;
pub mod errors;
pub mod fixed_point;
pub mod framebuffers;
pub mod input;
pub mod matrix;
pub mod rendering;
pub mod screen;
pub mod shaders;
pub mod shapes;
pub mod transform;

use vstd::prelude::*;

use crate::constants::{AnchorMode, ColorMode, CursorType, MouseButton};
use crate::matrix::Mat4;
use crate::rendering::DrawParams;
use crate::shaders::UniformValue;

verus! {

/// The current model-view-projection matrix together with the stack of
/// matrices saved by `pushMatrix`. A fresh screen starts with the identity
/// current matrix and an empty stack; popping an empty stack yields the
/// identity rather than erroring.
pub struct GLmatStruct {
    /// The matrix every draw call is issued under.
    pub curr_matrix: Mat4,
    pub matrix_stack: Vec<Mat4>,
}

impl GLmatStruct {
    /// How many matrices `pushMatrix` has saved and `popMatrix` has not
    /// yet consumed.
    pub fn stack_len(&self) -> (n: usize)
        ensures
            n == self.matrix_stack@.len(),
    {
        self.matrix_stack.len()
    }
}

/// The aggregate root: render state, transform stack, shader selection,
/// frame counter and the latched input snapshot. The GPU resources that
/// accompany it (window, offscreen framebuffer, compiled programs) are
/// owned by the collaborator that executes this model's decisions.
pub struct Screen {
    /// The transformation-matrix state.
    pub matrices: GLmatStruct,
    pub bg_col: Vec<i32>,
    pub fill_stuff: bool,
    pub fill_col: Vec<i32>,
    pub stroke_stuff: bool,
    pub stroke_col: Vec<i32>,
    pub tint_stuff: bool,
    pub tint_col: Vec<i32>,
    pub shader_count: usize,
    pub draw_texture: bool,
    pub aspect_ratio: i32,
    pub preserve_aspect_ratio: bool,
    pub fb_width: u32,
    pub fb_height: u32,
    pub stroke_weight: i32,
    pub width: u32,
    pub height: u32,
    pub left: i32,
    pub right: i32,
    pub top: i32,
    pub bottom: i32,
    pub c_mode: ColorMode,
    pub ellipse_mode: AnchorMode,
    pub rect_mode: AnchorMode,
    pub shape_mode: AnchorMode,
    pub image_mode: AnchorMode,
    pub frame_rate: isize,
    pub frame_count: isize,
    pub curr_shader: usize,
    pub curr_cursor: CursorType,
    pub alternate_shader: usize,
    pub using_alternate_shader: bool,
    pub uniforms: Option<Vec<(String, UniformValue)>>,
    pub texture_list: Option<Vec<(String, u32)>>,
    pub draw_params: DrawParams,
    pub drew_points: bool,
    pub keypressed: Option<u32>,
    pub mousepressed: Option<MouseButton>,
    pub mousereleased: Option<MouseButton>,
    pub mousepos: (i32, i32),
    pub fullscreen: bool,
    pub vsync: bool,
    pub headless: bool,
}

/// `post` differs from `pre` at most in the matrix state.
pub open spec fn same_screen_except_matrices(post: Screen, pre: Screen) -> bool {
    post == (Screen { matrices: post.matrices, ..pre })
}

/// `post` differs from `pre` at most in the fill flag and fill color.
pub open spec fn same_screen_except_fill(post: Screen, pre: Screen) -> bool {
    post == (Screen { fill_stuff: post.fill_stuff, fill_col: post.fill_col, ..pre })
}

/// `post` differs from `pre` at most in the stroke flag and stroke color.
pub open spec fn same_screen_except_stroke(post: Screen, pre: Screen) -> bool {
    post == (Screen { stroke_stuff: post.stroke_stuff, stroke_col: post.stroke_col, ..pre })
}

/// `post` differs from `pre` at most in the custom-shader dispatch state.
pub open spec fn same_screen_except_shader_state(post: Screen, pre: Screen) -> bool {
    post == (Screen {
        shader_count: post.shader_count,
        curr_shader: post.curr_shader,
        alternate_shader: post.alternate_shader,
        using_alternate_shader: post.using_alternate_shader,
        uniforms: post.uniforms,
        texture_list: post.texture_list,
        ..pre
    })
}

} // verus!
