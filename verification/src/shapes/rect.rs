//! Rectangles.
//!
//! A rectangle is given by its top-left corner, width and height; its
//! four corners become two triangles through the fixed index pattern
//! 0, 1, 2, 2, 3, 0 (shifted by four per batched instance), and the
//! stroke is a line loop over the same points.

use vstd::prelude::*;

use crate::constants::AnchorMode;
use crate::fixed_point::{fx_add, fx_add_spec, fx_mul, fx_mul_spec, fx_sub, fx_sub_spec};
use crate::shapes::{
    build_quad_indices, copy_vertices, correct_x, correct_y, load_colors, spec_blank_color,
    spec_correct_x, spec_correct_y, spec_load_colors, spec_quad_indices, spec_z_bias, z_bias,
    IndexType, PrimitiveType, Shape, ShapeVertex, INSTANCE_LIMIT,
};
use crate::Screen;

verus! {

/// The x of a rectangle's anchored left edge: the corrected top-left x,
/// recentered by half the corrected width in `Center` mode. The
/// `Corners` and `Radius` modes are recorded placeholders with no
/// numeric effect.
pub open spec fn spec_rect_left(pa: bool, ar: int, mode: AnchorMode, x: int, w: int) -> int {
    let cx = spec_correct_x(pa, ar, x);
    let cw = spec_correct_x(pa, ar, w);
    if mode is Center {
        fx_sub_spec(cx, fx_mul_spec(cw, 32768))
    } else {
        cx
    }
}

/// The y of a rectangle's anchored top edge, like `spec_rect_left`.
pub open spec fn spec_rect_top(pa: bool, ar: int, mode: AnchorMode, y: int, h: int) -> int {
    let cy = spec_correct_y(pa, ar, y);
    let ch = spec_correct_y(pa, ar, h);
    if mode is Center {
        fx_sub_spec(cy, fx_mul_spec(ch, 32768))
    } else {
        cy
    }
}

/// Corner `k` (0 to 3) of batch instance `c` of a rectangle: top-left,
/// top-right, bottom-right, bottom-left, wound consistently, with the
/// per-instance z-offset and the matching texture corner.
pub open spec fn spec_rect_vertex(
    pa: bool,
    ar: int,
    mode: AnchorMode,
    x: int,
    y: int,
    w: int,
    h: int,
    c: int,
    k: int,
) -> ShapeVertex {
    let bx = spec_rect_left(pa, ar, mode, x, w);
    let by = spec_rect_top(pa, ar, mode, y, h);
    let cw = spec_correct_x(pa, ar, w);
    let ch = spec_correct_y(pa, ar, h);
    if k == 0 {
        ShapeVertex {
            x: bx as i32,
            y: by as i32,
            z: spec_z_bias(c) as i32,
            color: spec_blank_color(),
            tex_u: 0,
            tex_v: 65536,
        }
    } else if k == 1 {
        ShapeVertex {
            x: fx_add_spec(bx, cw) as i32,
            y: by as i32,
            z: spec_z_bias(c) as i32,
            color: spec_blank_color(),
            tex_u: 65536,
            tex_v: 65536,
        }
    } else if k == 2 {
        ShapeVertex {
            x: fx_add_spec(bx, cw) as i32,
            y: fx_sub_spec(by, ch) as i32,
            z: spec_z_bias(c) as i32,
            color: spec_blank_color(),
            tex_u: 65536,
            tex_v: 0,
        }
    } else {
        ShapeVertex {
            x: bx as i32,
            y: fx_sub_spec(by, ch) as i32,
            z: spec_z_bias(c) as i32,
            color: spec_blank_color(),
            tex_u: 0,
            tex_v: 0,
        }
    }
}

/// The uncolored vertex list of a batch of rectangles: four corners per
/// instance, in instance order.
pub open spec fn spec_rect_vertices(
    pa: bool,
    ar: int,
    mode: AnchorMode,
    xs: Seq<i32>,
    ys: Seq<i32>,
    ws: Seq<i32>,
    hs: Seq<i32>,
) -> Seq<ShapeVertex> {
    Seq::new(
        (4 * xs.len()) as nat,
        |i: int|
            spec_rect_vertex(
                pa,
                ar,
                mode,
                xs[i / 4] as int,
                ys[i / 4] as int,
                ws[i / 4] as int,
                hs[i / 4] as int,
                i / 4,
                i % 4,
            ),
    )
}

/// A rectangle, tessellated and colored, ready for upload.
pub struct Rect {
    pub fill_buffer: Vec<ShapeVertex>,
    pub stroke_buffer: Vec<ShapeVertex>,
    pub fill_index_buffer: IndexType,
    pub stroke_index_buffer: IndexType,
    pub texture: Option<u32>,
}

impl Shape for Rect {
    open spec fn spec_fill_buffer(&self) -> Seq<ShapeVertex> {
        self.fill_buffer@
    }

    open spec fn spec_stroke_buffer(&self) -> Seq<ShapeVertex> {
        self.stroke_buffer@
    }

    open spec fn spec_fill_indices(&self) -> &IndexType {
        &self.fill_index_buffer
    }

    open spec fn spec_stroke_indices(&self) -> &IndexType {
        &self.stroke_index_buffer
    }

    open spec fn spec_texture(&self) -> Option<u32> {
        self.texture
    }

    fn fill_buffer(&self) -> (r: &Vec<ShapeVertex>) {
        &self.fill_buffer
    }

    fn stroke_buffer(&self) -> (r: &Vec<ShapeVertex>) {
        &self.stroke_buffer
    }

    fn fill_indices(&self) -> (r: &IndexType) {
        &self.fill_index_buffer
    }

    fn stroke_indices(&self) -> (r: &IndexType) {
        &self.stroke_index_buffer
    }

    fn get_texture(&self) -> (r: Option<u32>) {
        self.texture
    }
}

impl Rect {
    /// Tessellate a batch of rectangles against the current screen state:
    /// per instance the four corners from top-left, width and height
    /// (aspect-corrected, anchored by the rectangle mode), two triangles
    /// by the fixed index pattern, a line-loop stroke over the same
    /// points, and the current fill and stroke colors stamped on. The
    /// z-parameter slice is accepted and ignored; rectangles
    /// lie at the per-instance z-offset.
    pub fn new(
        screen: &Screen,
        xtoplefti: &Vec<i32>,
        ytoplefti: &Vec<i32>,
        ztoplefti: &Vec<i32>,
        widthi: &Vec<i32>,
        heighti: &Vec<i32>,
    ) -> (r: Rect)
        requires
            ytoplefti@.len() == xtoplefti@.len(),
            widthi@.len() == xtoplefti@.len(),
            heighti@.len() == xtoplefti@.len(),
            xtoplefti@.len() <= INSTANCE_LIMIT,
        ensures
            r.fill_buffer@ == spec_load_colors(
                spec_rect_vertices(
                    screen.preserve_aspect_ratio,
                    screen.aspect_ratio as int,
                    screen.rect_mode,
                    xtoplefti@,
                    ytoplefti@,
                    widthi@,
                    heighti@,
                ),
                screen.fill_col@,
            ),
            r.stroke_buffer@ == spec_load_colors(
                spec_rect_vertices(
                    screen.preserve_aspect_ratio,
                    screen.aspect_ratio as int,
                    screen.rect_mode,
                    xtoplefti@,
                    ytoplefti@,
                    widthi@,
                    heighti@,
                ),
                screen.stroke_col@,
            ),
            r.fill_index_buffer matches IndexType::Buffer { ind } && ind@ == spec_quad_indices(
                xtoplefti@.len() as int,
            ),
            r.stroke_index_buffer matches IndexType::NoBuffer { ind: PrimitiveType::LineLoop },
            r.texture is None,
    {
        let _ = ztoplefti;
        let pa = screen.preserve_aspect_ratio;
        let ar = screen.aspect_ratio;
        let mode = screen.rect_mode;
        let n: usize = xtoplefti.len();
        let ghost gspec = spec_rect_vertices(pa, ar as int, mode, xtoplefti@, ytoplefti@, widthi@, heighti@);
        let mut shape: Vec<ShapeVertex> = Vec::new();
        let mut c: usize = 0;
        while c < n
            invariant
                n == xtoplefti@.len(),
                ytoplefti@.len() == n,
                widthi@.len() == n,
                heighti@.len() == n,
                n <= INSTANCE_LIMIT,
                0 <= c <= n,
                gspec == spec_rect_vertices(pa, ar as int, mode, xtoplefti@, ytoplefti@, widthi@, heighti@),
                shape@.len() == 4 * c,
                forall|i: int| 0 <= i < 4 * c ==> shape@[i] == gspec[i],
            decreases n - c,
        {
            let cw = correct_x(pa, ar, widthi[c]);
            let ch = correct_y(pa, ar, heighti[c]);
            let cx = correct_x(pa, ar, xtoplefti[c]);
            let cy = correct_y(pa, ar, ytoplefti[c]);
            let bx: i32 = if mode == AnchorMode::Center {
                fx_sub(cx, fx_mul(cw, 32768))
            } else {
                cx
            };
            let by: i32 = if mode == AnchorMode::Center {
                fx_sub(cy, fx_mul(ch, 32768))
            } else {
                cy
            };
            let zb = z_bias(c);
            let x2 = fx_add(bx, cw);
            let y3 = fx_sub(by, ch);
            let blank = crate::shapes::Rgba { r: 0, g: 0, b: 0, a: 0 };
            shape.push(ShapeVertex { x: bx, y: by, z: zb, color: blank, tex_u: 0, tex_v: 65536 });
            shape.push(ShapeVertex { x: x2, y: by, z: zb, color: blank, tex_u: 65536, tex_v: 65536 });
            shape.push(ShapeVertex { x: x2, y: y3, z: zb, color: blank, tex_u: 65536, tex_v: 0 });
            shape.push(ShapeVertex { x: bx, y: y3, z: zb, color: blank, tex_u: 0, tex_v: 0 });
            proof {
                assert forall|i: int| 0 <= i < 4 * (c + 1) implies shape@[i] == gspec[i] by {
                    if i >= 4 * c {
                        assert(i / 4 == c as int) by (nonlinear_arith)
                            requires
                                4 * c <= i < 4 * (c + 1),
                        ;
                        assert(i % 4 == i - 4 * (c as int)) by (nonlinear_arith)
                            requires
                                4 * c <= i < 4 * (c + 1),
                        ;
                    }
                }
            }
            c = c + 1;
        }
        proof {
            assert(shape@ =~= gspec);
        }
        let mut stroke_vec = copy_vertices(&shape);
        let mut fill_vec = shape;
        load_colors(&mut fill_vec, &screen.fill_col);
        load_colors(&mut stroke_vec, &screen.stroke_col);
        let ind = build_quad_indices(n);
        Rect {
            fill_buffer: fill_vec,
            stroke_buffer: stroke_vec,
            fill_index_buffer: IndexType::Buffer { ind },
            stroke_index_buffer: IndexType::NoBuffer { ind: PrimitiveType::LineLoop },
            texture: None,
        }
    }

    /// Attach a texture handle, so the textured program draws the
    /// rectangle with it.
    pub fn attach_texture(self, tex: u32) -> (r: Rect)
        ensures
            r == (Rect { texture: Some(tex), ..self }),
    {
        Rect { texture: Some(tex), ..self }
    }
}

} // verus!
