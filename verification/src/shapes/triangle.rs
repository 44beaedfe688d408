//! Triangles.
//!
//! A triangle is its three supplied points: one triangle drawn directly,
//! no index list, with a line-loop stroke over the same points.

use vstd::prelude::*;

use crate::shapes::{
    copy_vertices, correct_x, correct_y, load_colors, spec_blank_color, spec_correct_x,
    spec_correct_y, spec_load_colors, spec_z_bias, z_bias, IndexType, PrimitiveType, Rgba, Shape,
    ShapeVertex, INSTANCE_LIMIT,
};
use crate::Screen;

verus! {

/// Point `k` (0 to 2) of batch instance `c` of a triangle,
/// aspect-corrected, at the per-instance depth offset.
pub open spec fn spec_triangle_vertex(
    pa: bool,
    ar: int,
    x: int,
    y: int,
    c: int,
    k: int,
) -> ShapeVertex {
    ShapeVertex {
        x: spec_correct_x(pa, ar, x) as i32,
        y: spec_correct_y(pa, ar, y) as i32,
        z: spec_z_bias(c) as i32,
        color: spec_blank_color(),
        tex_u: if k == 0 {
            0
        } else {
            65536
        },
        tex_v: if k == 2 {
            65536
        } else {
            0
        },
    }
}

/// The uncolored vertex list of a batch of triangles: three supplied
/// points per instance, in instance order.
pub open spec fn spec_triangle_vertices(
    pa: bool,
    ar: int,
    x1: Seq<i32>,
    y1: Seq<i32>,
    x2: Seq<i32>,
    y2: Seq<i32>,
    x3: Seq<i32>,
    y3: Seq<i32>,
) -> Seq<ShapeVertex> {
    Seq::new(
        (3 * x1.len()) as nat,
        |i: int|
            ({
                let c = i / 3;
                let k = i % 3;
                if k == 0 {
                    spec_triangle_vertex(pa, ar, x1[c] as int, y1[c] as int, c, 0)
                } else if k == 1 {
                    spec_triangle_vertex(pa, ar, x2[c] as int, y2[c] as int, c, 1)
                } else {
                    spec_triangle_vertex(pa, ar, x3[c] as int, y3[c] as int, c, 2)
                }
            }),
    )
}

/// A triangle, tessellated and colored, ready for upload.
pub struct Triangle {
    pub fill_buffer: Vec<ShapeVertex>,
    pub stroke_buffer: Vec<ShapeVertex>,
    pub fill_index_buffer: IndexType,
    pub stroke_index_buffer: IndexType,
}

impl Shape for Triangle {
    open spec fn spec_fill_buffer(&self) -> Seq<ShapeVertex> {
        self.fill_buffer@
    }

    open spec fn spec_stroke_buffer(&self) -> Seq<ShapeVertex> {
        self.stroke_buffer@
    }

    open spec fn spec_fill_indices(&self) -> &IndexType {
        &self.fill_index_buffer
    }

    open spec fn spec_stroke_indices(&self) -> &IndexType {
        &self.stroke_index_buffer
    }

    open spec fn spec_texture(&self) -> Option<u32> {
        None
    }

    fn fill_buffer(&self) -> (r: &Vec<ShapeVertex>) {
        &self.fill_buffer
    }

    fn stroke_buffer(&self) -> (r: &Vec<ShapeVertex>) {
        &self.stroke_buffer
    }

    fn fill_indices(&self) -> (r: &IndexType) {
        &self.fill_index_buffer
    }

    fn stroke_indices(&self) -> (r: &IndexType) {
        &self.stroke_index_buffer
    }

    fn get_texture(&self) -> (r: Option<u32>) {
        None
    }
}

impl Triangle {
    /// Tessellate a batch of triangles against the current screen state:
    /// the three supplied points per instance, aspect-corrected, drawn as
    /// a plain triangle list with a line-loop stroke, and the current
    /// fill and stroke colors stamped on. The z-parameter slices are
    /// accepted and ignored; triangles lie at the
    /// per-instance depth offset.
    pub fn new(
        screen: &Screen,
        x1i: &Vec<i32>,
        y1i: &Vec<i32>,
        z1i: &Vec<i32>,
        x2i: &Vec<i32>,
        y2i: &Vec<i32>,
        z2i: &Vec<i32>,
        x3i: &Vec<i32>,
        y3i: &Vec<i32>,
        z3i: &Vec<i32>,
    ) -> (r: Triangle)
        requires
            y1i@.len() == x1i@.len(),
            x2i@.len() == x1i@.len(),
            y2i@.len() == x1i@.len(),
            x3i@.len() == x1i@.len(),
            y3i@.len() == x1i@.len(),
            x1i@.len() <= INSTANCE_LIMIT,
        ensures
            r.fill_buffer@ == spec_load_colors(
                spec_triangle_vertices(
                    screen.preserve_aspect_ratio,
                    screen.aspect_ratio as int,
                    x1i@, y1i@, x2i@, y2i@, x3i@, y3i@,
                ),
                screen.fill_col@,
            ),
            r.stroke_buffer@ == spec_load_colors(
                spec_triangle_vertices(
                    screen.preserve_aspect_ratio,
                    screen.aspect_ratio as int,
                    x1i@, y1i@, x2i@, y2i@, x3i@, y3i@,
                ),
                screen.stroke_col@,
            ),
            r.fill_index_buffer matches IndexType::NoBuffer { ind: PrimitiveType::TrianglesList },
            r.stroke_index_buffer matches IndexType::NoBuffer { ind: PrimitiveType::LineLoop },
    {
        let _ = z1i;
        let _ = z2i;
        let _ = z3i;
        let pa = screen.preserve_aspect_ratio;
        let ar = screen.aspect_ratio;
        let n: usize = x1i.len();
        let ghost gspec = spec_triangle_vertices(pa, ar as int, x1i@, y1i@, x2i@, y2i@, x3i@, y3i@);
        let mut shape: Vec<ShapeVertex> = Vec::new();
        let mut c: usize = 0;
        while c < n
            invariant
                n == x1i@.len(),
                y1i@.len() == n,
                x2i@.len() == n,
                y2i@.len() == n,
                x3i@.len() == n,
                y3i@.len() == n,
                n <= INSTANCE_LIMIT,
                0 <= c <= n,
                gspec == spec_triangle_vertices(pa, ar as int, x1i@, y1i@, x2i@, y2i@, x3i@, y3i@),
                shape@.len() == 3 * c,
                forall|i: int| 0 <= i < 3 * c ==> shape@[i] == gspec[i],
            decreases n - c,
        {
            let zb = z_bias(c);
            let blank = Rgba { r: 0, g: 0, b: 0, a: 0 };
            shape.push(ShapeVertex {
                x: correct_x(pa, ar, x1i[c]),
                y: correct_y(pa, ar, y1i[c]),
                z: zb,
                color: blank,
                tex_u: 0,
                tex_v: 0,
            });
            shape.push(ShapeVertex {
                x: correct_x(pa, ar, x2i[c]),
                y: correct_y(pa, ar, y2i[c]),
                z: zb,
                color: blank,
                tex_u: 65536,
                tex_v: 0,
            });
            shape.push(ShapeVertex {
                x: correct_x(pa, ar, x3i[c]),
                y: correct_y(pa, ar, y3i[c]),
                z: zb,
                color: blank,
                tex_u: 65536,
                tex_v: 65536,
            });
            proof {
                assert forall|i: int| 0 <= i < 3 * (c + 1) implies shape@[i] == gspec[i] by {
                    if i >= 3 * c {
                        assert(i / 3 == c as int) by (nonlinear_arith)
                            requires
                                3 * c <= i < 3 * (c + 1),
                        ;
                        assert(i % 3 == i - 3 * (c as int)) by (nonlinear_arith)
                            requires
                                3 * c <= i < 3 * (c + 1),
                        ;
                    }
                }
            }
            c = c + 1;
        }
        proof {
            assert(shape@ =~= gspec);
        }
        let mut stroke_vec = copy_vertices(&shape);
        let mut fill_vec = shape;
        load_colors(&mut fill_vec, &screen.fill_col);
        load_colors(&mut stroke_vec, &screen.stroke_col);
        Triangle {
            fill_buffer: fill_vec,
            stroke_buffer: stroke_vec,
            fill_index_buffer: IndexType::NoBuffer { ind: PrimitiveType::TrianglesList },
            stroke_index_buffer: IndexType::NoBuffer { ind: PrimitiveType::LineLoop },
        }
    }
}

} // verus!
