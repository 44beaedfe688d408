//! Quadrilaterals.
//!
//! A quad is given by its four corners outright. Corners keep a supplied
//! nonzero z; a zero z falls back to the per-instance depth offset. Fill
//! uses the fixed two-triangle index pattern, stroke a line loop.

use vstd::prelude::*;

use crate::errors::ProcessingErr;
use crate::fixed_point::fx_add_spec;
use crate::shapes::{
    build_quad_indices, copy_vertices, correct_x, correct_y, load_colors, spec_blank_color,
    spec_correct_x, spec_correct_y, spec_load_colors, spec_quad_indices, spec_z_bias, z_bias,
    IndexType, PrimitiveType, Rgba, Shape, ShapeVertex, INSTANCE_LIMIT,
};
use crate::Screen;

verus! {

/// The z a quad corner lands at: the supplied z when nonzero, else the
/// per-instance depth offset.
pub open spec fn spec_quad_z(z: int, c: int) -> int {
    if z == 0 {
        spec_z_bias(c)
    } else {
        z
    }
}

/// Corner `k` (0 to 3) of batch instance `c` of a quad, aspect-corrected,
/// with the texture square's matching corner.
pub open spec fn spec_quad_vertex(
    pa: bool,
    ar: int,
    x: int,
    y: int,
    z: int,
    c: int,
    k: int,
) -> ShapeVertex {
    ShapeVertex {
        x: spec_correct_x(pa, ar, x) as i32,
        y: spec_correct_y(pa, ar, y) as i32,
        z: spec_quad_z(z, c) as i32,
        color: spec_blank_color(),
        tex_u: if k == 1 || k == 2 {
            65536
        } else {
            0
        },
        tex_v: if k == 2 || k == 3 {
            65536
        } else {
            0
        },
    }
}

/// The uncolored vertex list of a batch of quads: four supplied corners
/// per instance, in instance order.
pub open spec fn spec_quad_vertices(
    pa: bool,
    ar: int,
    x1: Seq<i32>,
    y1: Seq<i32>,
    z1: Seq<i32>,
    x2: Seq<i32>,
    y2: Seq<i32>,
    z2: Seq<i32>,
    x3: Seq<i32>,
    y3: Seq<i32>,
    z3: Seq<i32>,
    x4: Seq<i32>,
    y4: Seq<i32>,
    z4: Seq<i32>,
) -> Seq<ShapeVertex> {
    Seq::new(
        (4 * x1.len()) as nat,
        |i: int|
            ({
                let c = i / 4;
                let k = i % 4;
                if k == 0 {
                    spec_quad_vertex(pa, ar, x1[c] as int, y1[c] as int, z1[c] as int, c, 0)
                } else if k == 1 {
                    spec_quad_vertex(pa, ar, x2[c] as int, y2[c] as int, z2[c] as int, c, 1)
                } else if k == 2 {
                    spec_quad_vertex(pa, ar, x3[c] as int, y3[c] as int, z3[c] as int, c, 2)
                } else {
                    spec_quad_vertex(pa, ar, x4[c] as int, y4[c] as int, z4[c] as int, c, 3)
                }
            }),
    )
}

/// A quadrilateral, tessellated and colored, ready for upload.
pub struct Quad {
    pub fill_buffer: Vec<ShapeVertex>,
    pub stroke_buffer: Vec<ShapeVertex>,
    pub fill_index_buffer: IndexType,
    pub stroke_index_buffer: IndexType,
    pub texture: Option<u32>,
}

impl Shape for Quad {
    open spec fn spec_fill_buffer(&self) -> Seq<ShapeVertex> {
        self.fill_buffer@
    }

    open spec fn spec_stroke_buffer(&self) -> Seq<ShapeVertex> {
        self.stroke_buffer@
    }

    open spec fn spec_fill_indices(&self) -> &IndexType {
        &self.fill_index_buffer
    }

    open spec fn spec_stroke_indices(&self) -> &IndexType {
        &self.stroke_index_buffer
    }

    open spec fn spec_texture(&self) -> Option<u32> {
        self.texture
    }

    fn fill_buffer(&self) -> (r: &Vec<ShapeVertex>) {
        &self.fill_buffer
    }

    fn stroke_buffer(&self) -> (r: &Vec<ShapeVertex>) {
        &self.stroke_buffer
    }

    fn fill_indices(&self) -> (r: &IndexType) {
        &self.fill_index_buffer
    }

    fn stroke_indices(&self) -> (r: &IndexType) {
        &self.stroke_index_buffer
    }

    fn get_texture(&self) -> (r: Option<u32>) {
        self.texture
    }
}

impl Quad {
    /// Tessellate a batch of quads against the current screen state: the
    /// four supplied corners per instance, aspect-corrected, two
    /// triangles by the fixed index pattern, a line-loop stroke, and the
    /// current fill and stroke colors stamped on. Tessellation itself
    /// cannot fail; the result is always `Ok`.
    pub fn new(
        screen: &Screen,
        x1i: &Vec<i32>,
        y1i: &Vec<i32>,
        z1i: &Vec<i32>,
        x2i: &Vec<i32>,
        y2i: &Vec<i32>,
        z2i: &Vec<i32>,
        x3i: &Vec<i32>,
        y3i: &Vec<i32>,
        z3i: &Vec<i32>,
        x4i: &Vec<i32>,
        y4i: &Vec<i32>,
        z4i: &Vec<i32>,
    ) -> (r: Result<Quad, ProcessingErr>)
        requires
            y1i@.len() == x1i@.len(),
            z1i@.len() == x1i@.len(),
            x2i@.len() == x1i@.len(),
            y2i@.len() == x1i@.len(),
            z2i@.len() == x1i@.len(),
            x3i@.len() == x1i@.len(),
            y3i@.len() == x1i@.len(),
            z3i@.len() == x1i@.len(),
            x4i@.len() == x1i@.len(),
            y4i@.len() == x1i@.len(),
            z4i@.len() == x1i@.len(),
            x1i@.len() <= INSTANCE_LIMIT,
        ensures
            r matches Ok(q) && {
                &&& q.fill_buffer@ == spec_load_colors(
                    spec_quad_vertices(
                        screen.preserve_aspect_ratio,
                        screen.aspect_ratio as int,
                        x1i@, y1i@, z1i@, x2i@, y2i@, z2i@, x3i@, y3i@, z3i@, x4i@, y4i@, z4i@,
                    ),
                    screen.fill_col@,
                )
                &&& q.stroke_buffer@ == spec_load_colors(
                    spec_quad_vertices(
                        screen.preserve_aspect_ratio,
                        screen.aspect_ratio as int,
                        x1i@, y1i@, z1i@, x2i@, y2i@, z2i@, x3i@, y3i@, z3i@, x4i@, y4i@, z4i@,
                    ),
                    screen.stroke_col@,
                )
                &&& q.fill_index_buffer matches IndexType::Buffer { ind } && ind@
                    == spec_quad_indices(x1i@.len() as int)
                &&& q.stroke_index_buffer matches IndexType::NoBuffer {
                    ind: PrimitiveType::LineLoop,
                }
                &&& q.texture is None
            },
    {
        let pa = screen.preserve_aspect_ratio;
        let ar = screen.aspect_ratio;
        let n: usize = x1i.len();
        let ghost gspec = spec_quad_vertices(
            pa,
            ar as int,
            x1i@, y1i@, z1i@, x2i@, y2i@, z2i@, x3i@, y3i@, z3i@, x4i@, y4i@, z4i@,
        );
        let mut shape: Vec<ShapeVertex> = Vec::new();
        let mut c: usize = 0;
        while c < n
            invariant
                n == x1i@.len(),
                y1i@.len() == n,
                z1i@.len() == n,
                x2i@.len() == n,
                y2i@.len() == n,
                z2i@.len() == n,
                x3i@.len() == n,
                y3i@.len() == n,
                z3i@.len() == n,
                x4i@.len() == n,
                y4i@.len() == n,
                z4i@.len() == n,
                n <= INSTANCE_LIMIT,
                0 <= c <= n,
                gspec == spec_quad_vertices(
                    pa,
                    ar as int,
                    x1i@, y1i@, z1i@, x2i@, y2i@, z2i@, x3i@, y3i@, z3i@, x4i@, y4i@, z4i@,
                ),
                shape@.len() == 4 * c,
                forall|i: int| 0 <= i < 4 * c ==> shape@[i] == gspec[i],
            decreases n - c,
        {
            let zb = z_bias(c);
            let blank = Rgba { r: 0, g: 0, b: 0, a: 0 };
            let qz1: i32 = if z1i[c] == 0 {
                zb
            } else {
                z1i[c]
            };
            let qz2: i32 = if z2i[c] == 0 {
                zb
            } else {
                z2i[c]
            };
            let qz3: i32 = if z3i[c] == 0 {
                zb
            } else {
                z3i[c]
            };
            let qz4: i32 = if z4i[c] == 0 {
                zb
            } else {
                z4i[c]
            };
            shape.push(ShapeVertex {
                x: correct_x(pa, ar, x1i[c]),
                y: correct_y(pa, ar, y1i[c]),
                z: qz1,
                color: blank,
                tex_u: 0,
                tex_v: 0,
            });
            shape.push(ShapeVertex {
                x: correct_x(pa, ar, x2i[c]),
                y: correct_y(pa, ar, y2i[c]),
                z: qz2,
                color: blank,
                tex_u: 65536,
                tex_v: 0,
            });
            shape.push(ShapeVertex {
                x: correct_x(pa, ar, x3i[c]),
                y: correct_y(pa, ar, y3i[c]),
                z: qz3,
                color: blank,
                tex_u: 65536,
                tex_v: 65536,
            });
            shape.push(ShapeVertex {
                x: correct_x(pa, ar, x4i[c]),
                y: correct_y(pa, ar, y4i[c]),
                z: qz4,
                color: blank,
                tex_u: 0,
                tex_v: 65536,
            });
            proof {
                assert forall|i: int| 0 <= i < 4 * (c + 1) implies shape@[i] == gspec[i] by {
                    if i >= 4 * c {
                        assert(i / 4 == c as int) by (nonlinear_arith)
                            requires
                                4 * c <= i < 4 * (c + 1),
                        ;
                        assert(i % 4 == i - 4 * (c as int)) by (nonlinear_arith)
                            requires
                                4 * c <= i < 4 * (c + 1),
                        ;
                    }
                }
            }
            c = c + 1;
        }
        proof {
            assert(shape@ =~= gspec);
        }
        let mut stroke_vec = copy_vertices(&shape);
        let mut fill_vec = shape;
        load_colors(&mut fill_vec, &screen.fill_col);
        load_colors(&mut stroke_vec, &screen.stroke_col);
        let ind = build_quad_indices(n);
        Ok(Quad {
            fill_buffer: fill_vec,
            stroke_buffer: stroke_vec,
            fill_index_buffer: IndexType::Buffer { ind },
            stroke_index_buffer: IndexType::NoBuffer { ind: PrimitiveType::LineLoop },
            texture: None,
        })
    }

    /// Attach a texture handle, so the textured program draws the quad
    /// with it.
    pub fn attach_texture(&mut self, tex: u32)
        ensures
            *final(self) == (Quad { texture: Some(tex), ..*old(self) }),
    {
        self.texture = Some(tex);
    }
}

} // verus!
