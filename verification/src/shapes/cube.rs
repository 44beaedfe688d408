//! Cubes.
//!
//! A cube is a fixed 36-vertex unit-cube template (twelve triangles,
//! drawn as a plain triangle list without an index buffer), scaled per
//! batch instance by a scalar size.

use vstd::prelude::*;

use crate::fixed_point::{fx_mul, fx_mul_spec};
use crate::errors::ProcessingErr;
use crate::shapes::{
    copy_vertices, correct_x, correct_y, load_colors, spec_blank_color, spec_correct_x,
    spec_correct_y, spec_load_colors, IndexType, PrimitiveType, Rgba, Shape, ShapeVertex,
    INSTANCE_LIMIT,
};
use crate::Screen;

verus! {

/// How many vertices one cube instance holds.
pub const CUBE_VERTICES: usize = 36;

/// Corner `j` of the unit-cube template: coordinates are one unit to
/// either side of the origin, listed as the twelve triangles of the six
/// faces.
pub open spec fn spec_cube_corner(j: int) -> (int, int, int) {
    if j == 0 {
        (-65536, -65536, -65536)
    } else if j == 1 {
        (-65536, -65536, 65536)
    } else if j == 2 {
        (-65536, 65536, 65536)
    } else if j == 3 {
        (65536, 65536, -65536)
    } else if j == 4 {
        (-65536, -65536, -65536)
    } else if j == 5 {
        (-65536, 65536, -65536)
    } else if j == 6 {
        (65536, -65536, 65536)
    } else if j == 7 {
        (-65536, -65536, -65536)
    } else if j == 8 {
        (65536, -65536, -65536)
    } else if j == 9 {
        (65536, 65536, -65536)
    } else if j == 10 {
        (65536, -65536, -65536)
    } else if j == 11 {
        (-65536, -65536, -65536)
    } else if j == 12 {
        (-65536, -65536, -65536)
    } else if j == 13 {
        (-65536, 65536, 65536)
    } else if j == 14 {
        (-65536, 65536, -65536)
    } else if j == 15 {
        (65536, -65536, 65536)
    } else if j == 16 {
        (-65536, -65536, 65536)
    } else if j == 17 {
        (-65536, -65536, -65536)
    } else if j == 18 {
        (-65536, 65536, 65536)
    } else if j == 19 {
        (-65536, -65536, 65536)
    } else if j == 20 {
        (65536, -65536, 65536)
    } else if j == 21 {
        (65536, 65536, 65536)
    } else if j == 22 {
        (65536, -65536, -65536)
    } else if j == 23 {
        (65536, 65536, -65536)
    } else if j == 24 {
        (65536, -65536, -65536)
    } else if j == 25 {
        (65536, 65536, 65536)
    } else if j == 26 {
        (65536, -65536, 65536)
    } else if j == 27 {
        (65536, 65536, 65536)
    } else if j == 28 {
        (65536, 65536, -65536)
    } else if j == 29 {
        (-65536, 65536, -65536)
    } else if j == 30 {
        (65536, 65536, 65536)
    } else if j == 31 {
        (-65536, 65536, -65536)
    } else if j == 32 {
        (-65536, 65536, 65536)
    } else if j == 33 {
        (65536, 65536, 65536)
    } else if j == 34 {
        (-65536, 65536, 65536)
    } else {
        (65536, -65536, 65536)
    }
}

/// The unit-cube template corner on raw values.
fn cube_corner(j: usize) -> (r: (i32, i32, i32))
    requires
        j < 36,
    ensures
        r.0 as int == spec_cube_corner(j as int).0,
        r.1 as int == spec_cube_corner(j as int).1,
        r.2 as int == spec_cube_corner(j as int).2,
{
    match j {
        0 => (-65536, -65536, -65536),
        1 => (-65536, -65536, 65536),
        2 => (-65536, 65536, 65536),
        3 => (65536, 65536, -65536),
        4 => (-65536, -65536, -65536),
        5 => (-65536, 65536, -65536),
        6 => (65536, -65536, 65536),
        7 => (-65536, -65536, -65536),
        8 => (65536, -65536, -65536),
        9 => (65536, 65536, -65536),
        10 => (65536, -65536, -65536),
        11 => (-65536, -65536, -65536),
        12 => (-65536, -65536, -65536),
        13 => (-65536, 65536, 65536),
        14 => (-65536, 65536, -65536),
        15 => (65536, -65536, 65536),
        16 => (-65536, -65536, 65536),
        17 => (-65536, -65536, -65536),
        18 => (-65536, 65536, 65536),
        19 => (-65536, -65536, 65536),
        20 => (65536, -65536, 65536),
        21 => (65536, 65536, 65536),
        22 => (65536, -65536, -65536),
        23 => (65536, 65536, -65536),
        24 => (65536, -65536, -65536),
        25 => (65536, 65536, 65536),
        26 => (65536, -65536, 65536),
        27 => (65536, 65536, 65536),
        28 => (65536, 65536, -65536),
        29 => (-65536, 65536, -65536),
        30 => (65536, 65536, 65536),
        31 => (-65536, 65536, -65536),
        32 => (-65536, 65536, 65536),
        33 => (65536, 65536, 65536),
        34 => (-65536, 65536, 65536),
        _ => (65536, -65536, 65536),
    }
}

/// Vertex `j` of batch instance `c` of a cube: the template corner
/// scaled by the instance's size, aspect-corrected in x and y.
pub open spec fn spec_cube_vertex(pa: bool, ar: int, s: int, j: int) -> ShapeVertex {
    let t = spec_cube_corner(j);
    ShapeVertex {
        x: spec_correct_x(pa, ar, fx_mul_spec(t.0, s)) as i32,
        y: spec_correct_y(pa, ar, fx_mul_spec(t.1, s)) as i32,
        z: fx_mul_spec(t.2, s) as i32,
        color: spec_blank_color(),
        tex_u: 0,
        tex_v: 0,
    }
}

/// The uncolored vertex list of a batch of cubes: 36 template corners
/// per instance, in instance order.
pub open spec fn spec_cube_vertices(pa: bool, ar: int, ss: Seq<i32>) -> Seq<ShapeVertex> {
    Seq::new(
        (36 * ss.len()) as nat,
        |i: int| spec_cube_vertex(pa, ar, ss[i / 36] as int, i % 36),
    )
}

/// A cube batch, tessellated and colored, ready for upload.
pub struct Cube {
    pub fill_buffer: Vec<ShapeVertex>,
    pub stroke_buffer: Vec<ShapeVertex>,
    pub fill_index_buffer: IndexType,
    pub stroke_index_buffer: IndexType,
}

impl Shape for Cube {
    open spec fn spec_fill_buffer(&self) -> Seq<ShapeVertex> {
        self.fill_buffer@
    }

    open spec fn spec_stroke_buffer(&self) -> Seq<ShapeVertex> {
        self.stroke_buffer@
    }

    open spec fn spec_fill_indices(&self) -> &IndexType {
        &self.fill_index_buffer
    }

    open spec fn spec_stroke_indices(&self) -> &IndexType {
        &self.stroke_index_buffer
    }

    open spec fn spec_texture(&self) -> Option<u32> {
        None
    }

    fn fill_buffer(&self) -> (r: &Vec<ShapeVertex>) {
        &self.fill_buffer
    }

    fn stroke_buffer(&self) -> (r: &Vec<ShapeVertex>) {
        &self.stroke_buffer
    }

    fn fill_indices(&self) -> (r: &IndexType) {
        &self.fill_index_buffer
    }

    fn stroke_indices(&self) -> (r: &IndexType) {
        &self.stroke_index_buffer
    }

    fn get_texture(&self) -> (r: Option<u32>) {
        None
    }
}

impl Cube {
    /// Tessellate a batch of cubes against the current screen state: the
    /// 36-vertex unit-cube template scaled per instance by its size (one
    /// gives the standard unit cube), drawn as a plain triangle list
    /// with a line-loop stroke, and the current fill and stroke colors
    /// stamped on. Tessellation itself cannot fail; the result is always
    /// `Ok`.
    pub fn new(screen: &Screen, s: &Vec<i32>) -> (r: Result<Cube, ProcessingErr>)
        requires
            s@.len() <= INSTANCE_LIMIT,
        ensures
            r matches Ok(q) && {
                &&& q.fill_buffer@ == spec_load_colors(
                    spec_cube_vertices(
                        screen.preserve_aspect_ratio,
                        screen.aspect_ratio as int,
                        s@,
                    ),
                    screen.fill_col@,
                )
                &&& q.stroke_buffer@ == spec_load_colors(
                    spec_cube_vertices(
                        screen.preserve_aspect_ratio,
                        screen.aspect_ratio as int,
                        s@,
                    ),
                    screen.stroke_col@,
                )
                &&& q.fill_index_buffer matches IndexType::NoBuffer {
                    ind: PrimitiveType::TrianglesList,
                }
                &&& q.stroke_index_buffer matches IndexType::NoBuffer {
                    ind: PrimitiveType::LineLoop,
                }
            },
    {
        let pa = screen.preserve_aspect_ratio;
        let ar = screen.aspect_ratio;
        let n: usize = s.len();
        let ghost gspec = spec_cube_vertices(pa, ar as int, s@);
        let mut shape: Vec<ShapeVertex> = Vec::new();
        let mut c: usize = 0;
        while c < n
            invariant
                n == s@.len(),
                n <= INSTANCE_LIMIT,
                0 <= c <= n,
                gspec == spec_cube_vertices(pa, ar as int, s@),
                shape@.len() == 36 * c,
                forall|i: int| 0 <= i < 36 * c ==> shape@[i] == gspec[i],
            decreases n - c,
        {
            let sc: i32 = s[c];
            let mut j: usize = 0;
            while j < 36
                invariant
                    n == s@.len(),
                    n <= INSTANCE_LIMIT,
                    0 <= c < n,
                    0 <= j <= 36,
                    gspec == spec_cube_vertices(pa, ar as int, s@),
                    sc == s@[c as int],
                    shape@.len() == 36 * c + j,
                    forall|i: int| 0 <= i < 36 * c + j ==> shape@[i] == gspec[i],
                decreases 36 - j,
            {
                let t = cube_corner(j);
                let blank = Rgba { r: 0, g: 0, b: 0, a: 0 };
                shape.push(ShapeVertex {
                    x: correct_x(pa, ar, fx_mul(t.0, sc)),
                    y: correct_y(pa, ar, fx_mul(t.1, sc)),
                    z: fx_mul(t.2, sc),
                    color: blank,
                    tex_u: 0,
                    tex_v: 0,
                });
                proof {
                    let i = 36 * (c as int) + j;
                    assert(i / 36 == c as int) by (nonlinear_arith)
                        requires
                            i == 36 * (c as int) + j,
                            0 <= j < 36,
                    ;
                    assert(i % 36 == j as int) by (nonlinear_arith)
                        requires
                            i == 36 * (c as int) + j,
                            0 <= j < 36,
                    ;
                    assert(i < 36 * n) by (nonlinear_arith)
                        requires
                            i == 36 * (c as int) + j,
                            0 <= j < 36,
                            c < n,
                    ;
                    assert(shape@[i] == gspec[i]);
                }
                j = j + 1;
            }
            proof {
                assert(36 * (c as int) + 36 == 36 * (c as int + 1));
            }
            c = c + 1;
        }
        proof {
            assert(shape@ =~= gspec);
        }
        let mut stroke_vec = copy_vertices(&shape);
        let mut fill_vec = shape;
        load_colors(&mut fill_vec, &screen.fill_col);
        load_colors(&mut stroke_vec, &screen.stroke_col);
        Ok(Cube {
            fill_buffer: fill_vec,
            stroke_buffer: stroke_vec,
            fill_index_buffer: IndexType::NoBuffer { ind: PrimitiveType::TrianglesList },
            stroke_index_buffer: IndexType::NoBuffer { ind: PrimitiveType::LineLoop },
        })
    }
}

} // verus!
