//! Lines.
//!
//! A line is two endpoints per instance, drawn with the lines primitive.
//! Fill is never meaningful for a line: with the stroke path disabled the
//! shape degenerates to empty buffers, and both buffers otherwise carry
//! the stroke color.

use vstd::prelude::*;

use crate::errors::ProcessingErr;
use crate::shapes::{
    copy_vertices, correct_x, correct_y, load_colors, spec_blank_color, spec_correct_x,
    spec_correct_y, spec_load_colors, spec_z_bias, z_bias, IndexType, PrimitiveType, Rgba, Shape,
    ShapeVertex, INSTANCE_LIMIT,
};
use crate::Screen;

verus! {

/// Endpoint `k` (0 or 1) of batch instance `c` of a line,
/// aspect-corrected, at the per-instance depth offset.
pub open spec fn spec_line_vertex(pa: bool, ar: int, x: int, y: int, c: int) -> ShapeVertex {
    ShapeVertex {
        x: spec_correct_x(pa, ar, x) as i32,
        y: spec_correct_y(pa, ar, y) as i32,
        z: spec_z_bias(c) as i32,
        color: spec_blank_color(),
        tex_u: 0,
        tex_v: 0,
    }
}

/// The uncolored vertex list of a batch of lines: two supplied endpoints
/// per instance, in instance order.
pub open spec fn spec_line_vertices(
    pa: bool,
    ar: int,
    x1: Seq<i32>,
    y1: Seq<i32>,
    x2: Seq<i32>,
    y2: Seq<i32>,
) -> Seq<ShapeVertex> {
    Seq::new(
        (2 * x1.len()) as nat,
        |i: int|
            ({
                let c = i / 2;
                if i % 2 == 0 {
                    spec_line_vertex(pa, ar, x1[c] as int, y1[c] as int, c)
                } else {
                    spec_line_vertex(pa, ar, x2[c] as int, y2[c] as int, c)
                }
            }),
    )
}

/// A line batch, tessellated and colored, ready for upload.
pub struct Line {
    pub fill_buffer: Vec<ShapeVertex>,
    pub stroke_buffer: Vec<ShapeVertex>,
    pub fill_index_buffer: IndexType,
    pub stroke_index_buffer: IndexType,
}

impl Shape for Line {
    open spec fn spec_fill_buffer(&self) -> Seq<ShapeVertex> {
        self.fill_buffer@
    }

    open spec fn spec_stroke_buffer(&self) -> Seq<ShapeVertex> {
        self.stroke_buffer@
    }

    open spec fn spec_fill_indices(&self) -> &IndexType {
        &self.fill_index_buffer
    }

    open spec fn spec_stroke_indices(&self) -> &IndexType {
        &self.stroke_index_buffer
    }

    open spec fn spec_texture(&self) -> Option<u32> {
        None
    }

    fn fill_buffer(&self) -> (r: &Vec<ShapeVertex>) {
        &self.fill_buffer
    }

    fn stroke_buffer(&self) -> (r: &Vec<ShapeVertex>) {
        &self.stroke_buffer
    }

    fn fill_indices(&self) -> (r: &IndexType) {
        &self.fill_index_buffer
    }

    fn stroke_indices(&self) -> (r: &IndexType) {
        &self.stroke_index_buffer
    }

    fn get_texture(&self) -> (r: Option<u32>) {
        None
    }
}

impl Line {
    /// Tessellate a batch of lines against the current screen state: two
    /// aspect-corrected endpoints per instance stamped with the stroke
    /// color, or empty buffers when the stroke path is off. Tessellation
    /// itself cannot fail; the result is always `Ok`. The z-parameter
    /// slices are accepted and ignored; lines lie at the
    /// per-instance depth offset.
    pub fn new(
        screen: &Screen,
        x1i: &Vec<i32>,
        y1i: &Vec<i32>,
        z1i: &Vec<i32>,
        x2i: &Vec<i32>,
        y2i: &Vec<i32>,
        z2i: &Vec<i32>,
    ) -> (r: Result<Line, ProcessingErr>)
        requires
            y1i@.len() == x1i@.len(),
            x2i@.len() == x1i@.len(),
            y2i@.len() == x1i@.len(),
            x1i@.len() <= INSTANCE_LIMIT,
        ensures
            r matches Ok(l) && {
                &&& screen.stroke_stuff ==> l.fill_buffer@ == spec_load_colors(
                    spec_line_vertices(
                        screen.preserve_aspect_ratio,
                        screen.aspect_ratio as int,
                        x1i@, y1i@, x2i@, y2i@,
                    ),
                    screen.stroke_col@,
                )
                &&& screen.stroke_stuff ==> l.stroke_buffer@ == l.fill_buffer@
                &&& !screen.stroke_stuff ==> l.fill_buffer@.len() == 0
                &&& !screen.stroke_stuff ==> l.stroke_buffer@.len() == 0
                &&& l.fill_index_buffer matches IndexType::NoBuffer {
                    ind: PrimitiveType::LinesList,
                }
                &&& l.stroke_index_buffer matches IndexType::NoBuffer {
                    ind: PrimitiveType::LinesList,
                }
            },
    {
        let _ = z1i;
        let _ = z2i;
        if !screen.stroke_stuff {
            return Ok(Line {
                fill_buffer: Vec::new(),
                stroke_buffer: Vec::new(),
                fill_index_buffer: IndexType::NoBuffer { ind: PrimitiveType::LinesList },
                stroke_index_buffer: IndexType::NoBuffer { ind: PrimitiveType::LinesList },
            });
        }
        let pa = screen.preserve_aspect_ratio;
        let ar = screen.aspect_ratio;
        let n: usize = x1i.len();
        let ghost gspec = spec_line_vertices(pa, ar as int, x1i@, y1i@, x2i@, y2i@);
        let mut shape: Vec<ShapeVertex> = Vec::new();
        let mut c: usize = 0;
        while c < n
            invariant
                n == x1i@.len(),
                y1i@.len() == n,
                x2i@.len() == n,
                y2i@.len() == n,
                n <= INSTANCE_LIMIT,
                0 <= c <= n,
                gspec == spec_line_vertices(pa, ar as int, x1i@, y1i@, x2i@, y2i@),
                shape@.len() == 2 * c,
                forall|i: int| 0 <= i < 2 * c ==> shape@[i] == gspec[i],
            decreases n - c,
        {
            let zb = z_bias(c);
            let blank = Rgba { r: 0, g: 0, b: 0, a: 0 };
            shape.push(ShapeVertex {
                x: correct_x(pa, ar, x1i[c]),
                y: correct_y(pa, ar, y1i[c]),
                z: zb,
                color: blank,
                tex_u: 0,
                tex_v: 0,
            });
            shape.push(ShapeVertex {
                x: correct_x(pa, ar, x2i[c]),
                y: correct_y(pa, ar, y2i[c]),
                z: zb,
                color: blank,
                tex_u: 0,
                tex_v: 0,
            });
            proof {
                assert forall|i: int| 0 <= i < 2 * (c + 1) implies shape@[i] == gspec[i] by {
                    if i >= 2 * c {
                        assert(i / 2 == c as int) by (nonlinear_arith)
                            requires
                                2 * c <= i < 2 * (c + 1),
                        ;
                        assert(i % 2 == i - 2 * (c as int)) by (nonlinear_arith)
                            requires
                                2 * c <= i < 2 * (c + 1),
                        ;
                    }
                }
            }
            c = c + 1;
        }
        proof {
            assert(shape@ =~= gspec);
        }
        let mut fill_vec = shape;
        load_colors(&mut fill_vec, &screen.stroke_col);
        let stroke_vec = copy_vertices(&fill_vec);
        Ok(Line {
            fill_buffer: fill_vec,
            stroke_buffer: stroke_vec,
            fill_index_buffer: IndexType::NoBuffer { ind: PrimitiveType::LinesList },
            stroke_index_buffer: IndexType::NoBuffer { ind: PrimitiveType::LinesList },
        })
    }
}

} // verus!
