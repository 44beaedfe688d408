//! Arcs.
//!
//! An arc traces part of an ellipse's contour from a caller-supplied
//! start angle to a stop angle (both in radians). Fill is a triangle fan
//! out of the center; since the contour is open, the stroke is a line
//! strip rather than a loop.

use vstd::prelude::*;

use crate::constants::AnchorMode;
use crate::errors::ProcessingErr;
use crate::fixed_point::{
    fx_add, fx_add_spec, fx_cos, fx_cos_raw, fx_div, fx_from_int, fx_from_int_spec, fx_mul,
    fx_mul_spec, fx_sin, fx_sin_raw, fx_sub, fx_sub_spec, FX_UNIT,
};
use crate::shapes::ellipse::{spec_ellipse_extent_h, spec_ellipse_extent_w, spec_slice_step};
use crate::shapes::{
    copy_vertex_range, copy_vertices, correct_x, correct_y, load_colors, spec_blank_color,
    spec_correct_x, spec_correct_y, spec_load_colors, spec_z_bias, z_bias, IndexType,
    PrimitiveType, Rgba, Shape, ShapeVertex, INSTANCE_LIMIT,
};
use crate::Screen;

verus! {

/// The angle of perimeter point `k` of an arc from `start` to `stop`:
/// `k` parameter steps along the difference.
pub open spec fn spec_arc_angle(start: int, stop: int, k: int) -> int {
    fx_add_spec(
        start,
        fx_mul_spec(fx_mul_spec(fx_sub_spec(stop, start), fx_from_int_spec(k)), spec_slice_step()),
    )
}

/// Vertex `j` of batch instance `c` of an arc: the center for `j == 0`,
/// otherwise contour point `j - 1` at its angle between start and stop.
pub open spec fn spec_arc_vertex(
    pa: bool,
    ar: int,
    mode: AnchorMode,
    xc: int,
    yc: int,
    w: int,
    h: int,
    start: int,
    stop: int,
    c: int,
    j: int,
) -> ShapeVertex {
    let cx = spec_correct_x(pa, ar, xc);
    let cy = spec_correct_y(pa, ar, yc);
    if j == 0 {
        ShapeVertex {
            x: cx as i32,
            y: cy as i32,
            z: spec_z_bias(c) as i32,
            color: spec_blank_color(),
            tex_u: 0,
            tex_v: 0,
        }
    } else {
        let hw = spec_ellipse_extent_w(pa, ar, mode, w);
        let hh = spec_ellipse_extent_h(pa, ar, mode, h);
        ShapeVertex {
            x: fx_add_spec(fx_mul_spec(fx_cos(spec_arc_angle(start, stop, j - 1)), hw), cx) as i32,
            y: fx_add_spec(fx_mul_spec(fx_sin(spec_arc_angle(start, stop, j - 1)), hh), cy) as i32,
            z: spec_z_bias(c) as i32,
            color: spec_blank_color(),
            tex_u: 0,
            tex_v: 0,
        }
    }
}

/// The uncolored vertex list of a batch of arcs: 202 vertices per
/// instance, in instance order.
pub open spec fn spec_arc_vertices(
    pa: bool,
    ar: int,
    mode: AnchorMode,
    xs: Seq<i32>,
    ys: Seq<i32>,
    ws: Seq<i32>,
    hs: Seq<i32>,
    starts: Seq<i32>,
    stops: Seq<i32>,
) -> Seq<ShapeVertex> {
    Seq::new(
        (202 * xs.len()) as nat,
        |i: int|
            spec_arc_vertex(
                pa,
                ar,
                mode,
                xs[i / 202] as int,
                ys[i / 202] as int,
                ws[i / 202] as int,
                hs[i / 202] as int,
                starts[i / 202] as int,
                stops[i / 202] as int,
                i / 202,
                i % 202,
            ),
    )
}

/// An arc batch, tessellated and colored, ready for upload.
pub struct Arc {
    pub fill_buffer: Vec<ShapeVertex>,
    pub stroke_buffer: Vec<ShapeVertex>,
    pub fill_index_buffer: IndexType,
    pub stroke_index_buffer: IndexType,
}

impl Shape for Arc {
    open spec fn spec_fill_buffer(&self) -> Seq<ShapeVertex> {
        self.fill_buffer@
    }

    open spec fn spec_stroke_buffer(&self) -> Seq<ShapeVertex> {
        self.stroke_buffer@
    }

    open spec fn spec_fill_indices(&self) -> &IndexType {
        &self.fill_index_buffer
    }

    open spec fn spec_stroke_indices(&self) -> &IndexType {
        &self.stroke_index_buffer
    }

    open spec fn spec_texture(&self) -> Option<u32> {
        None
    }

    fn fill_buffer(&self) -> (r: &Vec<ShapeVertex>) {
        &self.fill_buffer
    }

    fn stroke_buffer(&self) -> (r: &Vec<ShapeVertex>) {
        &self.stroke_buffer
    }

    fn fill_indices(&self) -> (r: &IndexType) {
        &self.fill_index_buffer
    }

    fn stroke_indices(&self) -> (r: &IndexType) {
        &self.stroke_index_buffer
    }

    fn get_texture(&self) -> (r: Option<u32>) {
        None
    }
}

impl Arc {
    /// Tessellate a batch of arcs against the current screen state: per
    /// instance the aspect-corrected center followed by 201 contour
    /// points between the instance's start and stop angles, a
    /// triangle-fan fill, a line-strip stroke without the center and the
    /// final vertex, and the current fill and stroke colors stamped on.
    /// Tessellation itself cannot fail; the result is always `Ok`. The
    /// z-parameter slice is accepted and ignored; arcs lie at
    /// the per-instance depth offset.
    pub fn new(
        screen: &Screen,
        xci: &Vec<i32>,
        yci: &Vec<i32>,
        zci: &Vec<i32>,
        wi: &Vec<i32>,
        hi: &Vec<i32>,
        starti: &Vec<i32>,
        stopi: &Vec<i32>,
    ) -> (r: Result<Arc, ProcessingErr>)
        requires
            yci@.len() == xci@.len(),
            wi@.len() == xci@.len(),
            hi@.len() == xci@.len(),
            starti@.len() == xci@.len(),
            stopi@.len() == xci@.len(),
            1 <= xci@.len() <= INSTANCE_LIMIT,
        ensures
            r matches Ok(e) && {
                &&& e.fill_buffer@ == spec_load_colors(
                    spec_arc_vertices(
                        screen.preserve_aspect_ratio,
                        screen.aspect_ratio as int,
                        screen.ellipse_mode,
                        xci@, yci@, wi@, hi@, starti@, stopi@,
                    ),
                    screen.fill_col@,
                )
                &&& e.stroke_buffer@ == spec_load_colors(
                    spec_arc_vertices(
                        screen.preserve_aspect_ratio,
                        screen.aspect_ratio as int,
                        screen.ellipse_mode,
                        xci@, yci@, wi@, hi@, starti@, stopi@,
                    ),
                    screen.stroke_col@,
                ).subrange(1, 202 * xci@.len() - 1)
                &&& e.fill_index_buffer matches IndexType::NoBuffer {
                    ind: PrimitiveType::TriangleFan,
                }
                &&& e.stroke_index_buffer matches IndexType::NoBuffer {
                    ind: PrimitiveType::LineStrip,
                }
            },
    {
        let _ = zci;
        let pa = screen.preserve_aspect_ratio;
        let ar = screen.aspect_ratio;
        let mode = screen.ellipse_mode;
        let n: usize = xci.len();
        let ghost gspec = spec_arc_vertices(
            pa,
            ar as int,
            mode,
            xci@, yci@, wi@, hi@, starti@, stopi@,
        );
        let step: i32 = fx_div(FX_UNIT, fx_from_int(201));
        let mut shape: Vec<ShapeVertex> = Vec::new();
        let mut c: usize = 0;
        while c < n
            invariant
                n == xci@.len(),
                yci@.len() == n,
                wi@.len() == n,
                hi@.len() == n,
                starti@.len() == n,
                stopi@.len() == n,
                1 <= n <= INSTANCE_LIMIT,
                0 <= c <= n,
                gspec == spec_arc_vertices(pa, ar as int, mode, xci@, yci@, wi@, hi@, starti@, stopi@),
                step as int == spec_slice_step(),
                shape@.len() == 202 * c,
                forall|i: int| 0 <= i < 202 * c ==> shape@[i] == gspec[i],
            decreases n - c,
        {
            let zb = z_bias(c);
            let blank = Rgba { r: 0, g: 0, b: 0, a: 0 };
            let cx = correct_x(pa, ar, xci[c]);
            let cy = correct_y(pa, ar, yci[c]);
            let cw = correct_x(pa, ar, wi[c]);
            let ch = correct_y(pa, ar, hi[c]);
            let hw: i32 = if mode == AnchorMode::Center {
                fx_mul(cw, 32768)
            } else {
                cw
            };
            let hh: i32 = if mode == AnchorMode::Center {
                fx_mul(ch, 32768)
            } else {
                ch
            };
            let start: i32 = starti[c];
            let diff: i32 = fx_sub(stopi[c], start);
            let mut j: usize = 0;
            while j < 202
                invariant
                    n == xci@.len(),
                    yci@.len() == n,
                    wi@.len() == n,
                    hi@.len() == n,
                    starti@.len() == n,
                    stopi@.len() == n,
                    1 <= n <= INSTANCE_LIMIT,
                    0 <= c < n,
                    0 <= j <= 202,
                    gspec == spec_arc_vertices(pa, ar as int, mode, xci@, yci@, wi@, hi@, starti@, stopi@),
                    step as int == spec_slice_step(),
                    zb as int == spec_z_bias(c as int),
                    blank == spec_blank_color(),
                    cx as int == spec_correct_x(pa, ar as int, xci@[c as int] as int),
                    cy as int == spec_correct_y(pa, ar as int, yci@[c as int] as int),
                    hw as int == spec_ellipse_extent_w(pa, ar as int, mode, wi@[c as int] as int),
                    hh as int == spec_ellipse_extent_h(pa, ar as int, mode, hi@[c as int] as int),
                    start == starti@[c as int],
                    diff as int == fx_sub_spec(stopi@[c as int] as int, starti@[c as int] as int),
                    shape@.len() == 202 * c + j,
                    forall|i: int| 0 <= i < 202 * c + j ==> shape@[i] == gspec[i],
                decreases 202 - j,
            {
                let v: ShapeVertex = if j == 0 {
                    ShapeVertex { x: cx, y: cy, z: zb, color: blank, tex_u: 0, tex_v: 0 }
                } else {
                    let ang: i32 = fx_add(start, fx_mul(fx_mul(diff, fx_from_int((j - 1) as i32)), step));
                    proof {
                        assert(ang as int == spec_arc_angle(
                            starti@[c as int] as int,
                            stopi@[c as int] as int,
                            j - 1,
                        ));
                    }
                    ShapeVertex {
                        x: fx_add(fx_mul(fx_cos_raw(ang), hw), cx),
                        y: fx_add(fx_mul(fx_sin_raw(ang), hh), cy),
                        z: zb,
                        color: blank,
                        tex_u: 0,
                        tex_v: 0,
                    }
                };
                shape.push(v);
                proof {
                    let i = 202 * (c as int) + j;
                    assert(i / 202 == c as int) by (nonlinear_arith)
                        requires
                            i == 202 * (c as int) + j,
                            0 <= j < 202,
                    ;
                    assert(i % 202 == j as int) by (nonlinear_arith)
                        requires
                            i == 202 * (c as int) + j,
                            0 <= j < 202,
                    ;
                    assert(i < 202 * n) by (nonlinear_arith)
                        requires
                            i == 202 * (c as int) + j,
                            0 <= j < 202,
                            c < n,
                    ;
                    assert(shape@[i] == gspec[i]);
                }
                j = j + 1;
            }
            proof {
                assert(202 * (c as int) + 202 == 202 * (c as int + 1));
            }
            c = c + 1;
        }
        proof {
            assert(shape@ =~= gspec);
        }
        let mut stroke_full = copy_vertices(&shape);
        let mut fill_vec = shape;
        load_colors(&mut fill_vec, &screen.fill_col);
        load_colors(&mut stroke_full, &screen.stroke_col);
        let full_len: usize = stroke_full.len();
        let stroke_vec = copy_vertex_range(&stroke_full, 1, full_len - 1);
        Ok(Arc {
            fill_buffer: fill_vec,
            stroke_buffer: stroke_vec,
            fill_index_buffer: IndexType::NoBuffer { ind: PrimitiveType::TriangleFan },
            stroke_index_buffer: IndexType::NoBuffer { ind: PrimitiveType::LineStrip },
        })
    }
}

} // verus!
