//! Ellipses.
//!
//! The perimeter is parameterized with a fixed slice count: each batch
//! instance contributes one center vertex followed by 201 perimeter
//! points (200 segments plus the wrap) at angles stepping from zero
//! towards two pi. Fill is a triangle fan out of the center; the stroke
//! is a line loop over the perimeter alone, dropping the first (center)
//! and last vertex of the batch.

use vstd::prelude::*;

use crate::constants::AnchorMode;
use crate::errors::ProcessingErr;
use crate::fixed_point::{
    fx_add, fx_add_spec, fx_cos, fx_cos_raw, fx_div, fx_div_spec, fx_from_int, fx_from_int_spec,
    fx_mul, fx_mul_spec, fx_sin, fx_sin_raw, FX_TWO_PI, FX_UNIT,
};
use crate::shapes::{
    copy_vertex_range, copy_vertices, correct_x, correct_y, load_colors, spec_blank_color,
    spec_correct_x, spec_correct_y, spec_load_colors, spec_z_bias, z_bias, IndexType,
    PrimitiveType, Rgba, Shape, ShapeVertex, INSTANCE_LIMIT,
};
use crate::Screen;

verus! {

/// How many vertices one ellipse instance holds: the center plus 201
/// perimeter points.
pub const ELLIPSE_SLICES: usize = 202;

/// The parameter step between neighboring perimeter points: one 201st of
/// the parameter range, in fixed point.
pub open spec fn spec_slice_step() -> int {
    fx_div_spec(65536, fx_from_int_spec(201))
}

/// The angle of perimeter point `k` of an ellipse: `k` steps along the
/// full turn.
pub open spec fn spec_ellipse_angle(k: int) -> int {
    fx_mul_spec(fx_mul_spec(411775, fx_from_int_spec(k)), spec_slice_step())
}

/// An ellipse's x-extent: the aspect-corrected width, halved in `Center`
/// mode. The `Corner`, `Corners` and `Radius` modes are recorded
/// placeholders with no numeric effect.
pub open spec fn spec_ellipse_extent_w(pa: bool, ar: int, mode: AnchorMode, w: int) -> int {
    let cw = spec_correct_x(pa, ar, w);
    if mode is Center {
        fx_mul_spec(cw, 32768)
    } else {
        cw
    }
}

/// An ellipse's y-extent, like `spec_ellipse_extent_w`.
pub open spec fn spec_ellipse_extent_h(pa: bool, ar: int, mode: AnchorMode, h: int) -> int {
    let ch = spec_correct_y(pa, ar, h);
    if mode is Center {
        fx_mul_spec(ch, 32768)
    } else {
        ch
    }
}

/// Vertex `j` of batch instance `c` of an ellipse: the center for
/// `j == 0`, otherwise perimeter point `j - 1` — the center displaced by
/// the extents scaled with the cosine and sine of the point's angle.
pub open spec fn spec_ellipse_vertex(
    pa: bool,
    ar: int,
    mode: AnchorMode,
    xc: int,
    yc: int,
    w: int,
    h: int,
    c: int,
    j: int,
) -> ShapeVertex {
    let cx = spec_correct_x(pa, ar, xc);
    let cy = spec_correct_y(pa, ar, yc);
    if j == 0 {
        ShapeVertex {
            x: cx as i32,
            y: cy as i32,
            z: spec_z_bias(c) as i32,
            color: spec_blank_color(),
            tex_u: 0,
            tex_v: 0,
        }
    } else {
        let hw = spec_ellipse_extent_w(pa, ar, mode, w);
        let hh = spec_ellipse_extent_h(pa, ar, mode, h);
        ShapeVertex {
            x: fx_add_spec(fx_mul_spec(fx_cos(spec_ellipse_angle(j - 1)), hw), cx) as i32,
            y: fx_add_spec(fx_mul_spec(fx_sin(spec_ellipse_angle(j - 1)), hh), cy) as i32,
            z: spec_z_bias(c) as i32,
            color: spec_blank_color(),
            tex_u: 0,
            tex_v: 0,
        }
    }
}

/// The uncolored vertex list of a batch of ellipses: 202 vertices per
/// instance, in instance order.
pub open spec fn spec_ellipse_vertices(
    pa: bool,
    ar: int,
    mode: AnchorMode,
    xs: Seq<i32>,
    ys: Seq<i32>,
    ws: Seq<i32>,
    hs: Seq<i32>,
) -> Seq<ShapeVertex> {
    Seq::new(
        (202 * xs.len()) as nat,
        |i: int|
            spec_ellipse_vertex(
                pa,
                ar,
                mode,
                xs[i / 202] as int,
                ys[i / 202] as int,
                ws[i / 202] as int,
                hs[i / 202] as int,
                i / 202,
                i % 202,
            ),
    )
}

/// Law: tessellation is deterministic — any two vertex lists that meet
/// the tessellation contract for the same parameters and screen state
/// are identical.
pub proof fn lemma_tessellation_deterministic(
    v1: Seq<ShapeVertex>,
    v2: Seq<ShapeVertex>,
    pa: bool,
    ar: int,
    mode: AnchorMode,
    xs: Seq<i32>,
    ys: Seq<i32>,
    ws: Seq<i32>,
    hs: Seq<i32>,
    col: Seq<i32>,
)
    requires
        v1 == spec_load_colors(spec_ellipse_vertices(pa, ar, mode, xs, ys, ws, hs), col),
        v2 == spec_load_colors(spec_ellipse_vertices(pa, ar, mode, xs, ys, ws, hs), col),
    ensures
        v1 == v2,
{
}

/// An ellipse batch, tessellated and colored, ready for upload.
pub struct Ellipse {
    pub fill_buffer: Vec<ShapeVertex>,
    pub stroke_buffer: Vec<ShapeVertex>,
    pub fill_index_buffer: IndexType,
    pub stroke_index_buffer: IndexType,
}

impl Shape for Ellipse {
    open spec fn spec_fill_buffer(&self) -> Seq<ShapeVertex> {
        self.fill_buffer@
    }

    open spec fn spec_stroke_buffer(&self) -> Seq<ShapeVertex> {
        self.stroke_buffer@
    }

    open spec fn spec_fill_indices(&self) -> &IndexType {
        &self.fill_index_buffer
    }

    open spec fn spec_stroke_indices(&self) -> &IndexType {
        &self.stroke_index_buffer
    }

    open spec fn spec_texture(&self) -> Option<u32> {
        None
    }

    fn fill_buffer(&self) -> (r: &Vec<ShapeVertex>) {
        &self.fill_buffer
    }

    fn stroke_buffer(&self) -> (r: &Vec<ShapeVertex>) {
        &self.stroke_buffer
    }

    fn fill_indices(&self) -> (r: &IndexType) {
        &self.fill_index_buffer
    }

    fn stroke_indices(&self) -> (r: &IndexType) {
        &self.stroke_index_buffer
    }

    fn get_texture(&self) -> (r: Option<u32>) {
        None
    }
}

/// The cosine and sine tables for the ellipse's 201 perimeter angles.
fn build_circle_tables() -> (r: (Vec<i32>, Vec<i32>))
    ensures
        r.0@.len() == 201,
        r.1@.len() == 201,
        forall|k: int|
            0 <= k < 201 ==> r.0@[k] as int == fx_cos(spec_ellipse_angle(k)),
        forall|k: int|
            0 <= k < 201 ==> r.1@[k] as int == fx_sin(spec_ellipse_angle(k)),
{
    let step: i32 = fx_div(FX_UNIT, fx_from_int(201));
    let mut ctab: Vec<i32> = Vec::new();
    let mut stab: Vec<i32> = Vec::new();
    let mut k: usize = 0;
    while k < 201
        invariant
            0 <= k <= 201,
            step as int == spec_slice_step(),
            ctab@.len() == k,
            stab@.len() == k,
            forall|j: int| 0 <= j < k ==> ctab@[j] as int == fx_cos(spec_ellipse_angle(j)),
            forall|j: int| 0 <= j < k ==> stab@[j] as int == fx_sin(spec_ellipse_angle(j)),
        decreases 201 - k,
    {
        let ang: i32 = fx_mul(fx_mul(FX_TWO_PI, fx_from_int(k as i32)), step);
        ctab.push(fx_cos_raw(ang));
        stab.push(fx_sin_raw(ang));
        k = k + 1;
    }
    (ctab, stab)
}

impl Ellipse {
    /// Tessellate a batch of ellipses against the current screen state:
    /// per instance the aspect-corrected center followed by 201 perimeter
    /// points at extents halved in `Center` mode, a triangle-fan fill, a
    /// line-loop stroke without the center and the final vertex, and the
    /// current fill and stroke colors stamped on. Tessellation itself
    /// cannot fail; the result is always `Ok`. The z-parameter slice is
    /// accepted and ignored; ellipses lie at the per-instance
    /// depth offset.
    pub fn new(
        screen: &Screen,
        xci: &Vec<i32>,
        yci: &Vec<i32>,
        zci: &Vec<i32>,
        wi: &Vec<i32>,
        hi: &Vec<i32>,
    ) -> (r: Result<Ellipse, ProcessingErr>)
        requires
            yci@.len() == xci@.len(),
            wi@.len() == xci@.len(),
            hi@.len() == xci@.len(),
            1 <= xci@.len() <= INSTANCE_LIMIT,
        ensures
            r matches Ok(e) && {
                &&& e.fill_buffer@ == spec_load_colors(
                    spec_ellipse_vertices(
                        screen.preserve_aspect_ratio,
                        screen.aspect_ratio as int,
                        screen.ellipse_mode,
                        xci@, yci@, wi@, hi@,
                    ),
                    screen.fill_col@,
                )
                &&& e.stroke_buffer@ == spec_load_colors(
                    spec_ellipse_vertices(
                        screen.preserve_aspect_ratio,
                        screen.aspect_ratio as int,
                        screen.ellipse_mode,
                        xci@, yci@, wi@, hi@,
                    ),
                    screen.stroke_col@,
                ).subrange(1, 202 * xci@.len() - 1)
                &&& e.fill_index_buffer matches IndexType::NoBuffer {
                    ind: PrimitiveType::TriangleFan,
                }
                &&& e.stroke_index_buffer matches IndexType::NoBuffer {
                    ind: PrimitiveType::LineLoop,
                }
            },
    {
        let _ = zci;
        let pa = screen.preserve_aspect_ratio;
        let ar = screen.aspect_ratio;
        let mode = screen.ellipse_mode;
        let n: usize = xci.len();
        let ghost gspec = spec_ellipse_vertices(pa, ar as int, mode, xci@, yci@, wi@, hi@);
        let (ctab, stab) = build_circle_tables();
        let mut shape: Vec<ShapeVertex> = Vec::new();
        let mut c: usize = 0;
        while c < n
            invariant
                n == xci@.len(),
                yci@.len() == n,
                wi@.len() == n,
                hi@.len() == n,
                1 <= n <= INSTANCE_LIMIT,
                0 <= c <= n,
                gspec == spec_ellipse_vertices(pa, ar as int, mode, xci@, yci@, wi@, hi@),
                ctab@.len() == 201,
                stab@.len() == 201,
                forall|k: int| 0 <= k < 201 ==> ctab@[k] as int == fx_cos(spec_ellipse_angle(k)),
                forall|k: int| 0 <= k < 201 ==> stab@[k] as int == fx_sin(spec_ellipse_angle(k)),
                shape@.len() == 202 * c,
                forall|i: int| 0 <= i < 202 * c ==> shape@[i] == gspec[i],
            decreases n - c,
        {
            let zb = z_bias(c);
            let blank = Rgba { r: 0, g: 0, b: 0, a: 0 };
            let cx = correct_x(pa, ar, xci[c]);
            let cy = correct_y(pa, ar, yci[c]);
            let cw = correct_x(pa, ar, wi[c]);
            let ch = correct_y(pa, ar, hi[c]);
            let hw: i32 = if mode == AnchorMode::Center {
                fx_mul(cw, 32768)
            } else {
                cw
            };
            let hh: i32 = if mode == AnchorMode::Center {
                fx_mul(ch, 32768)
            } else {
                ch
            };
            let mut j: usize = 0;
            while j < 202
                invariant
                    n == xci@.len(),
                    yci@.len() == n,
                    wi@.len() == n,
                    hi@.len() == n,
                    1 <= n <= INSTANCE_LIMIT,
                    0 <= c < n,
                    0 <= j <= 202,
                    gspec == spec_ellipse_vertices(pa, ar as int, mode, xci@, yci@, wi@, hi@),
                    ctab@.len() == 201,
                    stab@.len() == 201,
                    forall|k: int|
                        0 <= k < 201 ==> ctab@[k] as int == fx_cos(spec_ellipse_angle(k)),
                    forall|k: int|
                        0 <= k < 201 ==> stab@[k] as int == fx_sin(spec_ellipse_angle(k)),
                    zb as int == spec_z_bias(c as int),
                    blank == spec_blank_color(),
                    cx as int == spec_correct_x(pa, ar as int, xci@[c as int] as int),
                    cy as int == spec_correct_y(pa, ar as int, yci@[c as int] as int),
                    hw as int == spec_ellipse_extent_w(pa, ar as int, mode, wi@[c as int] as int),
                    hh as int == spec_ellipse_extent_h(pa, ar as int, mode, hi@[c as int] as int),
                    shape@.len() == 202 * c + j,
                    forall|i: int| 0 <= i < 202 * c + j ==> shape@[i] == gspec[i],
                decreases 202 - j,
            {
                let v: ShapeVertex = if j == 0 {
                    ShapeVertex { x: cx, y: cy, z: zb, color: blank, tex_u: 0, tex_v: 0 }
                } else {
                    ShapeVertex {
                        x: fx_add(fx_mul(ctab[j - 1], hw), cx),
                        y: fx_add(fx_mul(stab[j - 1], hh), cy),
                        z: zb,
                        color: blank,
                        tex_u: 0,
                        tex_v: 0,
                    }
                };
                shape.push(v);
                proof {
                    let i = 202 * (c as int) + j;
                    assert(i / 202 == c as int) by (nonlinear_arith)
                        requires
                            202 * (c as int) <= i < 202 * (c as int) + 202,
                            i == 202 * (c as int) + j,
                            0 <= j < 202,
                    ;
                    assert(i % 202 == j as int) by (nonlinear_arith)
                        requires
                            i == 202 * (c as int) + j,
                            0 <= j < 202,
                    ;
                    assert(i < 202 * n) by (nonlinear_arith)
                        requires
                            i == 202 * (c as int) + j,
                            0 <= j < 202,
                            c < n,
                    ;
                    assert(shape@[i] == gspec[i]);
                }
                j = j + 1;
            }
            proof {
                assert(202 * (c as int) + 202 == 202 * (c as int + 1));
            }
            c = c + 1;
        }
        proof {
            assert(shape@ =~= gspec);
        }
        let mut stroke_full = copy_vertices(&shape);
        let mut fill_vec = shape;
        load_colors(&mut fill_vec, &screen.fill_col);
        load_colors(&mut stroke_full, &screen.stroke_col);
        let full_len: usize = stroke_full.len();
        let stroke_vec = copy_vertex_range(&stroke_full, 1, full_len - 1);
        Ok(Ellipse {
            fill_buffer: fill_vec,
            stroke_buffer: stroke_vec,
            fill_index_buffer: IndexType::NoBuffer { ind: PrimitiveType::TriangleFan },
            stroke_index_buffer: IndexType::NoBuffer { ind: PrimitiveType::LineLoop },
        })
    }
}

} // verus!
