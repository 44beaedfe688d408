//! Points.
//!
//! A point is one vertex per instance, drawn with the points primitive;
//! points have no fill, so with the stroke path disabled the shape
//! degenerates to empty buffers.

use vstd::prelude::*;

use crate::shapes::{
    copy_vertices, correct_x, correct_y, load_colors, spec_blank_color, spec_correct_x,
    spec_correct_y, spec_load_colors, spec_z_bias, z_bias, IndexType, PrimitiveType, Rgba, Shape,
    ShapeVertex, INSTANCE_LIMIT,
};
use crate::Screen;

verus! {

/// Batch instance `c` of a point, aspect-corrected, at the per-instance
/// depth offset.
pub open spec fn spec_point_vertex(pa: bool, ar: int, x: int, y: int, c: int) -> ShapeVertex {
    ShapeVertex {
        x: spec_correct_x(pa, ar, x) as i32,
        y: spec_correct_y(pa, ar, y) as i32,
        z: spec_z_bias(c) as i32,
        color: spec_blank_color(),
        tex_u: 0,
        tex_v: 0,
    }
}

/// The uncolored vertex list of a batch of points, in instance order.
pub open spec fn spec_point_vertices(
    pa: bool,
    ar: int,
    xs: Seq<i32>,
    ys: Seq<i32>,
) -> Seq<ShapeVertex> {
    Seq::new(xs.len(), |i: int| spec_point_vertex(pa, ar, xs[i] as int, ys[i] as int, i))
}

/// A point batch, tessellated and colored, ready for upload.
pub struct Point {
    pub fill_buffer: Vec<ShapeVertex>,
    pub stroke_buffer: Vec<ShapeVertex>,
    pub fill_index_buffer: IndexType,
    pub stroke_index_buffer: IndexType,
}

impl Shape for Point {
    open spec fn spec_fill_buffer(&self) -> Seq<ShapeVertex> {
        self.fill_buffer@
    }

    open spec fn spec_stroke_buffer(&self) -> Seq<ShapeVertex> {
        self.stroke_buffer@
    }

    open spec fn spec_fill_indices(&self) -> &IndexType {
        &self.fill_index_buffer
    }

    open spec fn spec_stroke_indices(&self) -> &IndexType {
        &self.stroke_index_buffer
    }

    open spec fn spec_texture(&self) -> Option<u32> {
        None
    }

    fn fill_buffer(&self) -> (r: &Vec<ShapeVertex>) {
        &self.fill_buffer
    }

    fn stroke_buffer(&self) -> (r: &Vec<ShapeVertex>) {
        &self.stroke_buffer
    }

    fn fill_indices(&self) -> (r: &IndexType) {
        &self.fill_index_buffer
    }

    fn stroke_indices(&self) -> (r: &IndexType) {
        &self.stroke_index_buffer
    }

    fn get_texture(&self) -> (r: Option<u32>) {
        None
    }
}

impl Point {
    /// Tessellate a batch of points against the current screen state: one
    /// aspect-corrected vertex per instance stamped with the stroke
    /// color, or empty buffers when the stroke path is off. The screen is
    /// only read; the z-parameter slice is accepted and ignored, and
    /// points lie at the per-instance depth offset.
    pub fn new(screen: &mut Screen, xi: &Vec<i32>, yi: &Vec<i32>, zi: &Vec<i32>) -> (r: Point)
        requires
            yi@.len() == xi@.len(),
            xi@.len() <= INSTANCE_LIMIT,
        ensures
            *final(screen) == *old(screen),
            old(screen).stroke_stuff ==> r.fill_buffer@ == spec_load_colors(
                spec_point_vertices(
                    old(screen).preserve_aspect_ratio,
                    old(screen).aspect_ratio as int,
                    xi@,
                    yi@,
                ),
                old(screen).stroke_col@,
            ),
            old(screen).stroke_stuff ==> r.stroke_buffer@ == r.fill_buffer@,
            !old(screen).stroke_stuff ==> r.fill_buffer@.len() == 0,
            !old(screen).stroke_stuff ==> r.stroke_buffer@.len() == 0,
            r.fill_index_buffer matches IndexType::NoBuffer { ind: PrimitiveType::Points },
            r.stroke_index_buffer matches IndexType::NoBuffer { ind: PrimitiveType::Points },
    {
        let _ = zi;
        if !screen.stroke_stuff {
            return Point {
                fill_buffer: Vec::new(),
                stroke_buffer: Vec::new(),
                fill_index_buffer: IndexType::NoBuffer { ind: PrimitiveType::Points },
                stroke_index_buffer: IndexType::NoBuffer { ind: PrimitiveType::Points },
            };
        }
        let pa = screen.preserve_aspect_ratio;
        let ar = screen.aspect_ratio;
        let n: usize = xi.len();
        let ghost gspec = spec_point_vertices(pa, ar as int, xi@, yi@);
        let mut shape: Vec<ShapeVertex> = Vec::new();
        let mut c: usize = 0;
        while c < n
            invariant
                n == xi@.len(),
                yi@.len() == n,
                n <= INSTANCE_LIMIT,
                0 <= c <= n,
                gspec == spec_point_vertices(pa, ar as int, xi@, yi@),
                shape@.len() == c,
                forall|i: int| 0 <= i < c ==> shape@[i] == gspec[i],
            decreases n - c,
        {
            let zb = z_bias(c);
            let blank = Rgba { r: 0, g: 0, b: 0, a: 0 };
            shape.push(ShapeVertex {
                x: correct_x(pa, ar, xi[c]),
                y: correct_y(pa, ar, yi[c]),
                z: zb,
                color: blank,
                tex_u: 0,
                tex_v: 0,
            });
            c = c + 1;
        }
        proof {
            assert(shape@ =~= gspec);
        }
        let mut fill_vec = shape;
        load_colors(&mut fill_vec, &screen.stroke_col);
        let stroke_vec = copy_vertices(&fill_vec);
        Point {
            fill_buffer: fill_vec,
            stroke_buffer: stroke_vec,
            fill_index_buffer: IndexType::NoBuffer { ind: PrimitiveType::Points },
            stroke_index_buffer: IndexType::NoBuffer { ind: PrimitiveType::Points },
        }
    }
}

} // verus!
