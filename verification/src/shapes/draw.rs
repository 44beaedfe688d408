//! Draw dispatch.
//!
//! Drawing a shape becomes one or two draw commands against the
//! offscreen framebuffer: a fill pass when the fill path is on, then a
//! stroke pass when the stroke path is on (strokes are only ever drawn
//! through a primitive rule, never an index list). The program is chosen
//! by the dispatch state: the active custom shader if one is set,
//! otherwise the built-in textured or untextured program by whether the
//! shape carries a texture. Every default uniform set carries the current
//! transform matrix under the fixed name.

use vstd::prelude::*;

use crate::matrix::Mat4;
use crate::rendering::DrawParams;
use crate::constants::AnchorMode;
use crate::shaders::{clone_texture_pairs, clone_uniform_pairs, ShaderInfo, UniformValue};
use crate::shapes::mould::Mould;
use crate::shapes::{IndexType, Shape};
use crate::Screen;

verus! {

/// Which of a shape's two vertex buffers a command draws.
#[derive(Clone, Copy, Debug, PartialEq, Eq, Structural)]
pub enum WhichBuffer {
    Fill,
    Stroke,
}

/// One draw call for the GPU collaborator to issue: which of the shape's
/// buffers, with which program of the bank, under which uniforms and
/// extra texture bindings, with which render parameters. When
/// `use_shape_texture` holds, the shape's own texture is the value bound
/// under the uniform name `tex` in the uniform set.
pub struct DrawCommand {
    pub buffer: WhichBuffer,
    pub program: usize,
    pub uniforms: Vec<(String, UniformValue)>,
    pub textures: Vec<(String, u32)>,
    pub use_shape_texture: bool,
    pub params: DrawParams,
}

/// The default uniform set: the shape's texture under `tex` when it has
/// one, and always the current transform matrix under `MVP`, last.
pub open spec fn spec_default_uniforms(
    u: Seq<(String, UniformValue)>,
    m: Mat4,
    tex: Option<u32>,
) -> bool {
    if tex is Some {
        &&& u.len() == 2
        &&& u[0].0@ == "tex"@
        &&& u[0].1 == UniformValue::Texture(tex->0)
        &&& u[1].0@ == "MVP"@
        &&& u[1].1 == UniformValue::Matrix(m)
    } else {
        &&& u.len() == 1
        &&& u[0].0@ == "MVP"@
        &&& u[0].1 == UniformValue::Matrix(m)
    }
}

/// The program slot a shape draw dispatches to: the active custom
/// shader, else the textured or untextured built-in.
pub open spec fn spec_dispatch_program(s: Screen, tex: Option<u32>) -> int {
    if s.using_alternate_shader {
        s.curr_shader as int
    } else if tex is Some {
        1
    } else {
        0
    }
}

/// What one dispatched draw command must be for screen state `s` and a
/// shape carrying texture `tex`.
pub open spec fn spec_dispatch_command(
    s: Screen,
    tex: Option<u32>,
    buffer: WhichBuffer,
    cmd: DrawCommand,
) -> bool {
    &&& cmd.buffer == buffer
    &&& cmd.program as int == spec_dispatch_program(s, tex)
    &&& cmd.use_shape_texture == (tex is Some)
    &&& cmd.params == s.draw_params
    &&& if s.using_alternate_shader && s.uniforms is Some {
        cmd.uniforms@ == s.uniforms->0@
    } else {
        spec_default_uniforms(cmd.uniforms@, s.matrices.curr_matrix, tex)
    }
    &&& if s.using_alternate_shader && s.texture_list is Some {
        cmd.textures@ == s.texture_list->0@
    } else {
        cmd.textures@ == Seq::<(String, u32)>::empty()
    }
}

/// How many commands a dispatch yields: a fill pass when fill is on, a
/// stroke pass when stroke is on and the stroke rule is a primitive.
pub open spec fn spec_dispatch_len(s: Screen, stroke_is_primitive: bool) -> int {
    (if s.fill_stuff {
        1int
    } else {
        0
    }) + (if s.stroke_stuff && stroke_is_primitive {
        1int
    } else {
        0
    })
}

/// The uniform set and texture bindings one dispatch uses.
fn dispatch_bindings(
    s: &Screen,
    tex: Option<u32>,
) -> (r: (Vec<(String, UniformValue)>, Vec<(String, u32)>))
    ensures
        if s.using_alternate_shader && s.uniforms is Some {
            r.0@ == s.uniforms->0@
        } else {
            spec_default_uniforms(r.0@, s.matrices.curr_matrix, tex)
        },
        if s.using_alternate_shader && s.texture_list is Some {
            r.1@ == s.texture_list->0@
        } else {
            r.1@ == Seq::<(String, u32)>::empty()
        },
{
    let uniforms: Vec<(String, UniformValue)> = if s.using_alternate_shader {
        match &s.uniforms {
            Some(u) => clone_uniform_pairs(u),
            None => default_uniforms(&s.matrices.curr_matrix, tex),
        }
    } else {
        default_uniforms(&s.matrices.curr_matrix, tex)
    };
    let textures: Vec<(String, u32)> = if s.using_alternate_shader {
        match &s.texture_list {
            Some(t) => clone_texture_pairs(t),
            None => Vec::new(),
        }
    } else {
        Vec::new()
    };
    (uniforms, textures)
}

/// Build the default uniform set for the given matrix and texture.
pub(crate) fn default_uniforms(m: &Mat4, tex: Option<u32>) -> (r: Vec<(String, UniformValue)>)
    ensures
        spec_default_uniforms(r@, *m, tex),
{
    let mut u: Vec<(String, UniformValue)> = Vec::new();
    match tex {
        Some(t) => {
            u.push(("tex".to_owned(), UniformValue::Texture(t)));
        },
        None => {},
    }
    u.push(("MVP".to_owned(), UniformValue::Matrix(*m)));
    u
}

impl Screen {
    /// Turn a shape into the draw commands of this frame: a fill pass
    /// when the fill path is on, then a stroke pass when the stroke path
    /// is on and the shape's stroke rule is a primitive. The screen state
    /// is only read; the GPU collaborator issues the commands in order.
    pub fn draw<S: Shape>(&self, shape: &S) -> (r: Vec<DrawCommand>)
        ensures
            r@.len() == spec_dispatch_len(
                *self,
                shape.spec_stroke_indices() is NoBuffer,
            ),
            self.fill_stuff ==> spec_dispatch_command(
                *self,
                shape.spec_texture(),
                WhichBuffer::Fill,
                r@[0],
            ),
            self.stroke_stuff && shape.spec_stroke_indices() is NoBuffer
                ==> spec_dispatch_command(
                *self,
                shape.spec_texture(),
                WhichBuffer::Stroke,
                r@[r@.len() - 1],
            ),
    {
        let tex = shape.get_texture();
        let mut out: Vec<DrawCommand> = Vec::new();
        if self.fill_stuff {
            let (uniforms, textures) = dispatch_bindings(self, tex);
            let prog: usize = if self.using_alternate_shader {
                self.curr_shader
            } else if tex.is_some() {
                1
            } else {
                0
            };
            out.push(DrawCommand {
                buffer: WhichBuffer::Fill,
                program: prog,
                uniforms,
                textures,
                use_shape_texture: tex.is_some(),
                params: self.draw_params,
            });
        }
        if self.stroke_stuff {
            match shape.stroke_indices() {
                IndexType::NoBuffer { ind: _ } => {
                    let (uniforms, textures) = dispatch_bindings(self, tex);
                    let prog: usize = if self.using_alternate_shader {
                        self.curr_shader
                    } else if tex.is_some() {
                        1
                    } else {
                        0
                    };
                    out.push(DrawCommand {
                        buffer: WhichBuffer::Stroke,
                        program: prog,
                        uniforms,
                        textures,
                        use_shape_texture: tex.is_some(),
                        params: self.draw_params,
                    });
                },
                IndexType::Buffer { ind: _ } => {},
            }
        }
        out
    }

    /// Turn a mould into draw commands: like `draw`, but with the
    /// mould's own program and uniform snapshot, leaving the ambient
    /// dispatch state out of it entirely.
    pub fn draw_mould<S: Shape>(&self, mould: &Mould<S>) -> (r: Vec<DrawCommand>)
        ensures
            r@.len() == spec_dispatch_len(
                *self,
                mould.shape.spec_stroke_indices() is NoBuffer,
            ),
            self.fill_stuff ==> spec_mould_command(
                *self,
                mould.shader,
                WhichBuffer::Fill,
                r@[0],
            ),
            self.stroke_stuff && mould.shape.spec_stroke_indices() is NoBuffer
                ==> spec_mould_command(
                *self,
                mould.shader,
                WhichBuffer::Stroke,
                r@[r@.len() - 1],
            ),
    {
        let shader: &ShaderInfo = mould.get_shader();
        let mut out: Vec<DrawCommand> = Vec::new();
        if self.fill_stuff {
            out.push(DrawCommand {
                buffer: WhichBuffer::Fill,
                program: shader.get_idx(),
                uniforms: clone_uniform_pairs(shader.get_uniforms()),
                textures: Vec::new(),
                use_shape_texture: false,
                params: self.draw_params,
            });
        }
        if self.stroke_stuff {
            match mould.get_shape().stroke_indices() {
                IndexType::NoBuffer { ind: _ } => {
                    out.push(DrawCommand {
                        buffer: WhichBuffer::Stroke,
                        program: shader.get_idx(),
                        uniforms: clone_uniform_pairs(shader.get_uniforms()),
                        textures: Vec::new(),
                        use_shape_texture: false,
                        params: self.draw_params,
                    });
                },
                IndexType::Buffer { ind: _ } => {},
            }
        }
        out
    }

    /// Record the width used for points and lines from now on.
    pub fn stroke_weight(&mut self, new_weight: i32)
        ensures
            *final(self) == (Screen {
                draw_params: (DrawParams {
                    point_size: new_weight,
                    line_width: new_weight,
                    ..old(self).draw_params
                }),
                ..*old(self)
            }),
    {
        self.draw_params.point_size = new_weight;
        self.draw_params.line_width = new_weight;
    }

    /// Record the anchor mode for ellipses and arcs built from now on.
    pub fn ellipse_mode(&mut self, mode: AnchorMode)
        ensures
            *final(self) == (Screen { ellipse_mode: mode, ..*old(self) }),
    {
        self.ellipse_mode = mode;
    }

    /// Record the anchor mode for rectangles built from now on.
    pub fn rect_mode(&mut self, mode: AnchorMode)
        ensures
            *final(self) == (Screen { rect_mode: mode, ..*old(self) }),
    {
        self.rect_mode = mode;
    }

    /// Record the anchor mode for general shapes built from now on.
    pub fn shape_mode(&mut self, mode: AnchorMode)
        ensures
            *final(self) == (Screen { shape_mode: mode, ..*old(self) }),
    {
        self.shape_mode = mode;
    }

    /// Record the anchor mode for images drawn from now on.
    pub fn image_mode(&mut self, mode: AnchorMode)
        ensures
            *final(self) == (Screen { image_mode: mode, ..*old(self) }),
    {
        self.image_mode = mode;
    }

    /// Stop applying tint to drawn images.
    pub fn no_tint(&mut self)
        ensures
            *final(self) == (Screen { tint_stuff: false, ..*old(self) }),
    {
        self.tint_stuff = false;
    }
}

/// What one mould draw command must be: the mould's program and uniform
/// snapshot under the screen's current render parameters, with no shape
/// texture and no extra bindings.
pub open spec fn spec_mould_command(
    s: Screen,
    shader: ShaderInfo,
    buffer: WhichBuffer,
    cmd: DrawCommand,
) -> bool {
    &&& cmd.buffer == buffer
    &&& cmd.program == shader.shader_idx
    &&& cmd.uniforms@ == shader.uniforms@
    &&& cmd.textures@ == Seq::<(String, u32)>::empty()
    &&& !cmd.use_shape_texture
    &&& cmd.params == s.draw_params
}

} // verus!
