//! Drawing onto a caller-supplied framebuffer.
//!
//! These dispatches target a texture-backed framebuffer the caller owns
//! (useful for post-processing) rather than the screen's own offscreen
//! target. They always use the built-in programs with a default uniform
//! set — the ambient custom-shader state does not apply — and fixed
//! render parameters.

use vstd::prelude::*;

use crate::rendering::{Blend, BlendingFunction, DepthTest, DrawParams};
use crate::constants::BlendMode;
use crate::shaders::clone_uniform_pairs;
use crate::shapes::draw::{
    default_uniforms, spec_default_uniforms, spec_dispatch_len, spec_mould_command, DrawCommand,
    WhichBuffer,
};
use crate::shapes::mould::Mould;
use crate::shapes::{IndexType, Shape};
use crate::Screen;

verus! {

/// The fixed render parameters for draws onto a caller-supplied
/// framebuffer: no depth write under an overwrite test, no
/// multisampling, no smoothing, no blending, unit point and line width.
pub open spec fn spec_framebuffer_draw_params() -> DrawParams {
    DrawParams {
        point_size: 65536,
        line_width: 65536,
        depth_write: false,
        depth_test: DepthTest::Overwrite,
        multisampling: false,
        smooth: false,
        blend: Blend {
            color: BlendingFunction::AlwaysReplace,
            alpha: BlendingFunction::AlwaysReplace,
            constant_value: crate::rendering::spec_blend_ones(),
        },
    }
}

/// The wholly default render parameters a mould framebuffer draw uses:
/// like the framebuffer parameters, but with multisampling on.
pub open spec fn spec_default_draw_params() -> DrawParams {
    DrawParams { multisampling: true, ..spec_framebuffer_draw_params() }
}

/// What one framebuffer draw command must be: the built-in textured or
/// untextured program under a default uniform set and the fixed
/// framebuffer render parameters.
pub open spec fn spec_framebuffer_command(
    s: Screen,
    tex: Option<u32>,
    buffer: WhichBuffer,
    cmd: DrawCommand,
) -> bool {
    &&& cmd.buffer == buffer
    &&& cmd.program as int == (if tex is Some {
        1int
    } else {
        0
    })
    &&& cmd.use_shape_texture == (tex is Some)
    &&& cmd.params == spec_framebuffer_draw_params()
    &&& spec_default_uniforms(cmd.uniforms@, s.matrices.curr_matrix, tex)
    &&& cmd.textures@ == Seq::<(String, u32)>::empty()
}

/// The exec mirror of `spec_framebuffer_draw_params`.
fn framebuffer_draw_params() -> (r: DrawParams)
    ensures
        r == spec_framebuffer_draw_params(),
{
    DrawParams {
        point_size: 65536,
        line_width: 65536,
        depth_write: false,
        depth_test: DepthTest::Overwrite,
        multisampling: false,
        smooth: false,
        blend: crate::rendering::blend_of_mode(BlendMode::Replace),
    }
}

impl Screen {
    /// Turn a shape into draw commands against a caller-supplied
    /// framebuffer: always the built-in programs with a default uniform
    /// set and the fixed framebuffer parameters — the ambient
    /// custom-shader state does not apply here.
    pub fn draw_onto_framebuffer<S: Shape>(&self, shape: &S) -> (r: Vec<DrawCommand>)
        ensures
            r@.len() == spec_dispatch_len(*self, shape.spec_stroke_indices() is NoBuffer),
            self.fill_stuff ==> spec_framebuffer_command(
                *self,
                shape.spec_texture(),
                WhichBuffer::Fill,
                r@[0],
            ),
            self.stroke_stuff && shape.spec_stroke_indices() is NoBuffer
                ==> spec_framebuffer_command(
                *self,
                shape.spec_texture(),
                WhichBuffer::Stroke,
                r@[r@.len() - 1],
            ),
    {
        let tex = shape.get_texture();
        let params = framebuffer_draw_params();
        let mut out: Vec<DrawCommand> = Vec::new();
        if self.fill_stuff {
            out.push(DrawCommand {
                buffer: WhichBuffer::Fill,
                program: if tex.is_some() {
                    1
                } else {
                    0
                },
                uniforms: default_uniforms(&self.matrices.curr_matrix, tex),
                textures: Vec::new(),
                use_shape_texture: tex.is_some(),
                params,
            });
        }
        if self.stroke_stuff {
            match shape.stroke_indices() {
                IndexType::NoBuffer { ind: _ } => {
                    out.push(DrawCommand {
                        buffer: WhichBuffer::Stroke,
                        program: if tex.is_some() {
                            1
                        } else {
                            0
                        },
                        uniforms: default_uniforms(&self.matrices.curr_matrix, tex),
                        textures: Vec::new(),
                        use_shape_texture: tex.is_some(),
                        params,
                    });
                },
                IndexType::Buffer { ind: _ } => {},
            }
        }
        out
    }

    /// Turn a mould into draw commands against a caller-supplied
    /// framebuffer, with the mould's program and uniforms under wholly
    /// default render parameters.
    pub fn draw_mould_onto_framebuffer<S: Shape>(&self, mould: &Mould<S>) -> (r: Vec<
        DrawCommand,
    >)
        ensures
            r@.len() == spec_dispatch_len(*self, mould.shape.spec_stroke_indices() is NoBuffer),
            self.fill_stuff ==> spec_mould_command(
                (Screen { draw_params: spec_default_draw_params(), ..*self }),
                mould.shader,
                WhichBuffer::Fill,
                r@[0],
            ),
            self.stroke_stuff && mould.shape.spec_stroke_indices() is NoBuffer
                ==> spec_mould_command(
                (Screen { draw_params: spec_default_draw_params(), ..*self }),
                mould.shader,
                WhichBuffer::Stroke,
                r@[r@.len() - 1],
            ),
    {
        let params = DrawParams { multisampling: true, ..framebuffer_draw_params() };
        let shader = mould.get_shader();
        let mut out: Vec<DrawCommand> = Vec::new();
        if self.fill_stuff {
            out.push(DrawCommand {
                buffer: WhichBuffer::Fill,
                program: shader.get_idx(),
                uniforms: clone_uniform_pairs(shader.get_uniforms()),
                textures: Vec::new(),
                use_shape_texture: false,
                params,
            });
        }
        if self.stroke_stuff {
            match mould.get_shape().stroke_indices() {
                IndexType::NoBuffer { ind: _ } => {
                    out.push(DrawCommand {
                        buffer: WhichBuffer::Stroke,
                        program: shader.get_idx(),
                        uniforms: clone_uniform_pairs(shader.get_uniforms()),
                        textures: Vec::new(),
                        use_shape_texture: false,
                        params,
                    });
                },
                IndexType::Buffer { ind: _ } => {},
            }
        }
        out
    }
}

} // verus!
