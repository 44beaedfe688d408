//! Shape tessellation.
//!
//! A shape owns a fill vertex list, a stroke vertex list and an index
//! rule for each; tessellation is a pure function of the shape parameters
//! and a read-only snapshot of the screen state, so building the same
//! shape twice yields identical vertex data. Shapes built in one batched
//! call receive a strictly increasing tiny z-offset per instance, purely
//! to give coplanar instances a deterministic depth order.

pub mod arc;
pub mod cube;
pub mod draw;
pub mod mould;
pub mod ellipse;
pub mod line;
pub mod point;
pub mod quad;
pub mod rect;
pub mod triangle;

use vstd::prelude::*;

use crate::fixed_point::{fx_div, fx_div_spec, fx_mul, fx_mul_spec};

verus! {

/// The most instances one batched shape call accepts: keeps every index
/// and every z-offset within its machine type.
pub const INSTANCE_LIMIT: usize = 268435456;

/// A straight-alpha color, Q16.16 per channel.
#[derive(Clone, Copy, Debug, PartialEq, Eq, Structural)]
pub struct Rgba {
    pub r: i32,
    pub g: i32,
    pub b: i32,
    pub a: i32,
}

/// The transparent black every vertex starts with before colors are
/// stamped on.
pub open spec fn spec_blank_color() -> Rgba {
    Rgba { r: 0, g: 0, b: 0, a: 0 }
}

/// One vertex: position, color and texture coordinate, all Q16.16.
#[derive(Clone, Copy, Debug, PartialEq, Eq, Structural)]
pub struct ShapeVertex {
    pub x: i32,
    pub y: i32,
    pub z: i32,
    pub color: Rgba,
    pub tex_u: i32,
    pub tex_v: i32,
}

/// How vertices are assembled when no index list is supplied.
#[derive(Clone, Copy, Debug, PartialEq, Eq, Structural)]
pub enum PrimitiveType {
    TrianglesList,
    TriangleFan,
    LineLoop,
    LineStrip,
    LinesList,
    Points,
}

/// A shape's index rule: an explicit triangle index list, or a primitive
/// assembly rule applied to the vertices in order.
#[derive(Debug, PartialEq, Eq)]
pub enum IndexType {
    Buffer { ind: Vec<u32> },
    NoBuffer { ind: PrimitiveType },
}

/// Anything that can be drawn: it hands out fill and stroke vertex data,
/// an index rule for each, and possibly a texture handle.
pub trait Shape {
    /// The fill vertex data, as a mathematical sequence.
    spec fn spec_fill_buffer(&self) -> Seq<ShapeVertex>;

    /// The stroke vertex data, as a mathematical sequence.
    spec fn spec_stroke_buffer(&self) -> Seq<ShapeVertex>;

    /// The fill index rule.
    spec fn spec_fill_indices(&self) -> &IndexType;

    /// The stroke index rule.
    spec fn spec_stroke_indices(&self) -> &IndexType;

    /// The attached texture handle, if any.
    spec fn spec_texture(&self) -> Option<u32>;

    /// The fill vertex data.
    fn fill_buffer(&self) -> (r: &Vec<ShapeVertex>)
        ensures
            r@ == self.spec_fill_buffer(),
    ;

    /// The stroke vertex data.
    fn stroke_buffer(&self) -> (r: &Vec<ShapeVertex>)
        ensures
            r@ == self.spec_stroke_buffer(),
    ;

    /// The fill index rule.
    fn fill_indices(&self) -> (r: &IndexType)
        ensures
            r == self.spec_fill_indices(),
    ;

    /// The stroke index rule.
    fn stroke_indices(&self) -> (r: &IndexType)
        ensures
            r == self.spec_stroke_indices(),
    ;

    /// The attached texture handle, if any.
    fn get_texture(&self) -> (r: Option<u32>)
        ensures
            r == self.spec_texture(),
    ;
}

/// The x-coordinate correction that keeps shapes visually undistorted on
/// a non-square viewport: with aspect preservation on and a viewport
/// wider than tall, x-values shrink by the aspect ratio.
pub open spec fn spec_correct_x(pa: bool, ar: int, x: int) -> int {
    if pa && ar > 65536 {
        fx_div_spec(x, ar)
    } else {
        x
    }
}

/// The matching y-coordinate correction: with aspect preservation on and
/// a viewport at most as wide as tall, y-values shrink by the aspect
/// ratio (which is then at most one).
pub open spec fn spec_correct_y(pa: bool, ar: int, y: int) -> int {
    if pa && !(ar > 65536) {
        fx_mul_spec(y, ar)
    } else {
        y
    }
}

/// Law: with aspect preservation off, no correction is applied — shape
/// coordinates pass through exactly as given.
pub proof fn lemma_no_aspect_correction(ar: int, v: int)
    ensures
        spec_correct_x(false, ar, v) == v,
        spec_correct_y(false, ar, v) == v,
{
}

/// The x-coordinate correction on raw values.
pub(crate) fn correct_x(pa: bool, ar: i32, x: i32) -> (r: i32)
    ensures
        r as int == spec_correct_x(pa, ar as int, x as int),
{
    if pa && ar > 65536 {
        fx_div(x, ar)
    } else {
        x
    }
}

/// The y-coordinate correction on raw values.
pub(crate) fn correct_y(pa: bool, ar: i32, y: i32) -> (r: i32)
    ensures
        r as int == spec_correct_y(pa, ar as int, y as int),
{
    if pa && !(ar > 65536) {
        fx_mul(y, ar)
    } else {
        y
    }
}

/// The z-offset stamped on every vertex of batch instance `i` when no
/// explicit z applies: `i` raw quanta, the smallest representable step,
/// so that coplanar instances keep a deterministic depth order.
pub open spec fn spec_z_bias(i: int) -> int {
    i
}

/// Law: the per-instance z-offsets are strictly increasing with the
/// instance index, so later instances of one batched call always land in
/// front under the overwrite depth test.
pub proof fn lemma_z_bias_strictly_increasing(i: int, j: int)
    requires
        0 <= i < j,
    ensures
        spec_z_bias(i) < spec_z_bias(j),
{
}

/// The z-offset on raw values.
pub(crate) fn z_bias(i: usize) -> (r: i32)
    requires
        i <= INSTANCE_LIMIT,
    ensures
        r as int == spec_z_bias(i as int),
{
    i as i32
}

/// `buf` with the single color tuple of `col` stamped on every vertex;
/// with anything but exactly one tuple the buffer is left as it is
/// (per-instance color variation is a recorded, unimplemented
/// placeholder).
pub open spec fn spec_load_colors(buf: Seq<ShapeVertex>, col: Seq<i32>) -> Seq<ShapeVertex> {
    if col.len() == 4 {
        Seq::new(
            buf.len(),
            |i: int| ShapeVertex {
                color: Rgba { r: col[0], g: col[1], b: col[2], a: col[3] },
                ..buf[i]
            },
        )
    } else {
        buf
    }
}

/// Stamp the current color tuple on every vertex of the buffer.
pub(crate) fn load_colors(buffer: &mut Vec<ShapeVertex>, color_mat: &Vec<i32>)
    ensures
        final(buffer)@ == spec_load_colors(old(buffer)@, color_mat@),
{
    if color_mat.len() == 4 {
        let c = Rgba { r: color_mat[0], g: color_mat[1], b: color_mat[2], a: color_mat[3] };
        let n: usize = buffer.len();
        let mut i: usize = 0;
        while i < n
            invariant
                n == buffer@.len(),
                buffer@.len() == old(buffer)@.len(),
                0 <= i <= n,
                color_mat@.len() == 4,
                c == (Rgba { r: color_mat@[0], g: color_mat@[1], b: color_mat@[2], a: color_mat@[3] }),
                forall|j: int|
                    0 <= j < i ==> buffer@[j] == (ShapeVertex { color: c, ..old(buffer)@[j] }),
                forall|j: int| i <= j < n ==> buffer@[j] == old(buffer)@[j],
            decreases n - i,
        {
            let v = buffer[i];
            buffer.set(i, ShapeVertex { color: c, ..v });
            i = i + 1;
        }
        proof {
            assert(buffer@ =~= spec_load_colors(old(buffer)@, color_mat@));
        }
    } else {
        proof {
            assert(buffer@ =~= spec_load_colors(old(buffer)@, color_mat@));
        }
    }
}

/// A by-value copy of a vertex list, so fill and stroke buffers can be
/// stamped with different colors from one tessellation.
pub(crate) fn copy_vertices(v: &Vec<ShapeVertex>) -> (r: Vec<ShapeVertex>)
    ensures
        r@ == v@,
{
    let n: usize = v.len();
    let mut out: Vec<ShapeVertex> = Vec::new();
    let mut i: usize = 0;
    while i < n
        invariant
            n == v@.len(),
            0 <= i <= n,
            out@ == v@.subrange(0, i as int),
        decreases n - i,
    {
        out.push(v[i]);
        proof {
            assert(out@ =~= v@.subrange(0, (i + 1) as int));
        }
        i = i + 1;
    }
    proof {
        assert(v@.subrange(0, n as int) =~= v@);
    }
    out
}

/// A by-value copy of the vertices from position `from` (inclusive) to
/// `to` (exclusive), as the stroke path of a fan-shaped fill needs.
pub(crate) fn copy_vertex_range(v: &Vec<ShapeVertex>, from: usize, to: usize) -> (r: Vec<
    ShapeVertex,
>)
    requires
        from <= to <= v@.len(),
    ensures
        r@ == v@.subrange(from as int, to as int),
{
    let mut out: Vec<ShapeVertex> = Vec::new();
    let mut i: usize = from;
    while i < to
        invariant
            from <= i <= to <= v@.len(),
            out@ == v@.subrange(from as int, i as int),
        decreases to - i,
    {
        out.push(v[i]);
        proof {
            assert(out@ =~= v@.subrange(from as int, (i + 1) as int));
        }
        i = i + 1;
    }
    out
}

/// The triangle index pattern of quadrilateral instance `c`: the fixed
/// pattern 0, 1, 2, 2, 3, 0 shifted up by four per instance.
pub open spec fn spec_quad_indices(n: int) -> Seq<u32> {
    Seq::new(
        (6 * n) as nat,
        |i: int|
            ({
                let base = 4 * (i / 6);
                let k = i % 6;
                (if k == 0 {
                    base
                } else if k == 1 {
                    base + 1
                } else if k == 2 {
                    base + 2
                } else if k == 3 {
                    base + 2
                } else if k == 4 {
                    base + 3
                } else {
                    base
                }) as u32
            }),
    )
}

/// Build the triangle index list for `n` quadrilateral instances.
pub(crate) fn build_quad_indices(n: usize) -> (r: Vec<u32>)
    requires
        n <= INSTANCE_LIMIT,
    ensures
        r@ == spec_quad_indices(n as int),
{
    let mut out: Vec<u32> = Vec::new();
    let mut c: usize = 0;
    while c < n
        invariant
            0 <= c <= n,
            n <= INSTANCE_LIMIT,
            out@.len() == 6 * c,
            forall|i: int| 0 <= i < 6 * c ==> out@[i] == spec_quad_indices(n as int)[i],
        decreases n - c,
    {
        let base: u32 = (4 * c) as u32;
        out.push(base);
        out.push(base + 1);
        out.push(base + 2);
        out.push(base + 2);
        out.push(base + 3);
        out.push(base);
        proof {
            assert forall|i: int| 0 <= i < 6 * (c + 1) implies out@[i] == spec_quad_indices(
                n as int,
            )[i] by {
                if i >= 6 * c {
                    assert(i / 6 == c as int) by (nonlinear_arith)
                        requires
                            6 * c <= i < 6 * (c + 1),
                    ;
                    assert(i % 6 == i - 6 * (c as int)) by (nonlinear_arith)
                        requires
                            6 * c <= i < 6 * (c + 1),
                    ;
                }
            }
        }
        c = c + 1;
    }
    proof {
        assert(out@ =~= spec_quad_indices(n as int));
    }
    out
}

} // verus!
