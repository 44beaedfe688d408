//! Tessellation: vertex counts, index rules, exact coordinates, aspect
//! correction, depth ordering and determinism.

use processing::shapes::arc::Arc;
use processing::shapes::cube::Cube;
use processing::shapes::ellipse::Ellipse;
use processing::shapes::line::Line;
use processing::shapes::point::Point;
use processing::shapes::quad::Quad;
use processing::shapes::rect::Rect;
use processing::shapes::triangle::Triangle;
use processing::shapes::{IndexType, PrimitiveType, Shape};
use processing::Screen;

fn square_screen() -> Screen {
    Screen::new(100, 100, false, true, false)
}

fn plain_screen() -> Screen {
    Screen::new(100, 100, false, false, false)
}

#[test]
fn ellipse_has_202_fill_and_200_stroke_vertices() {
    let s = square_screen();
    let e = Ellipse::new(&s, &vec![0], &vec![0], &vec![0], &vec![19661], &vec![32768]).unwrap();
    assert_eq!(e.fill_buffer.len(), 202);
    assert_eq!(e.stroke_buffer.len(), 200);
    assert!(matches!(*e.fill_indices(), IndexType::NoBuffer { ind: PrimitiveType::TriangleFan }));
    assert!(matches!(*e.stroke_indices(), IndexType::NoBuffer { ind: PrimitiveType::LineLoop }));
}

#[test]
fn ellipse_center_vertex_comes_first() {
    let s = square_screen();
    let e = Ellipse::new(
        &s,
        &vec![6554],
        &vec![-6554],
        &vec![0],
        &vec![19661],
        &vec![32768],
    )
    .unwrap();
    assert_eq!(e.fill_buffer[0].x, 6554);
    assert_eq!(e.fill_buffer[0].y, -6554);
    assert_eq!(e.fill_buffer[0].z, 0);
}

fn fx_mul_ref(a: i32, b: i32) -> i32 {
    let p = a as i64 * b as i64;
    let q = if p >= 0 { p / 65536 } else { -((-p) / 65536) };
    q.clamp(i32::MIN as i64, i32::MAX as i64) as i32
}

#[test]
fn ellipse_first_perimeter_point_uses_the_cosine() {
    // centered at the origin with width 2.0 in CENTER mode: the x-extent
    // is 1.0, so the first perimeter vertex sits at cos(0) of one unit.
    let s = square_screen();
    let e = Ellipse::new(&s, &vec![0], &vec![0], &vec![0], &vec![131072], &vec![131072]).unwrap();
    let expected_cos0 = cordic::cos(fixed::types::I16F16::from_bits(0)).to_bits();
    assert_eq!(e.fill_buffer[1].x, fx_mul_ref(expected_cos0, 65536));
    assert_ne!(e.fill_buffer[1].x, 0, "the cosine of angle zero must not vanish");
    // a perimeter point a quarter of the way round
    let step = ((65536u64 * 65536) / (201 * 65536)) as i32;
    let angle = fx_mul_ref(fx_mul_ref(411775, 50 << 16), step);
    let expected = cordic::cos(fixed::types::I16F16::from_bits(angle)).to_bits();
    assert_eq!(e.fill_buffer[51].x, fx_mul_ref(expected, 65536));
}

#[test]
fn tessellation_is_deterministic() {
    let s = square_screen();
    let xs = vec![6554, -19661];
    let ys = vec![0, 13107];
    let zs = vec![0, 0];
    let ws = vec![19661, 45875];
    let hs = vec![32768, 6554];
    let a = Ellipse::new(&s, &xs, &ys, &zs, &ws, &hs).unwrap();
    let b = Ellipse::new(&s, &xs, &ys, &zs, &ws, &hs).unwrap();
    assert_eq!(a.fill_buffer, b.fill_buffer);
    assert_eq!(a.stroke_buffer, b.stroke_buffer);
    let r1 = Rect::new(&s, &xs, &ys, &zs, &ws, &hs);
    let r2 = Rect::new(&s, &xs, &ys, &zs, &ws, &hs);
    assert_eq!(r1.fill_buffer, r2.fill_buffer);
}

#[test]
fn rect_corner_mode_has_four_vertices_and_fixed_indices() {
    let s = plain_screen();
    let r = Rect::new(&s, &vec![-39322], &vec![-26214], &vec![0], &vec![13107], &vec![32768]);
    assert_eq!(r.fill_buffer.len(), 4);
    match &r.fill_index_buffer {
        IndexType::Buffer { ind } => assert_eq!(ind, &vec![0u32, 1, 2, 2, 3, 0]),
        _ => panic!("rect fill must carry an index list"),
    }
    assert!(matches!(r.stroke_index_buffer, IndexType::NoBuffer { ind: PrimitiveType::LineLoop }));
    // corners: top-left, top-right, bottom-right, bottom-left
    assert_eq!((r.fill_buffer[0].x, r.fill_buffer[0].y), (-39322, -26214));
    assert_eq!((r.fill_buffer[1].x, r.fill_buffer[1].y), (-26215, -26214));
    assert_eq!((r.fill_buffer[2].x, r.fill_buffer[2].y), (-26215, -58982));
    assert_eq!((r.fill_buffer[3].x, r.fill_buffer[3].y), (-39322, -58982));
}

#[test]
fn rect_center_mode_recenters() {
    let mut s = plain_screen();
    s.rect_mode(processing::constants::AnchorMode::Center);
    let r = Rect::new(&s, &vec![0], &vec![0], &vec![0], &vec![131072], &vec![65536]);
    assert_eq!((r.fill_buffer[0].x, r.fill_buffer[0].y), (-65536, -32768));
    assert_eq!((r.fill_buffer[1].x, r.fill_buffer[1].y), (65536, -32768));
}

#[test]
fn batched_rect_indices_shift_by_four() {
    let s = plain_screen();
    let r = Rect::new(
        &s,
        &vec![0, 65536],
        &vec![0, 0],
        &vec![0, 0],
        &vec![65536, 65536],
        &vec![65536, 65536],
    );
    match &r.fill_index_buffer {
        IndexType::Buffer { ind } => {
            assert_eq!(ind, &vec![0u32, 1, 2, 2, 3, 0, 4, 5, 6, 6, 7, 4]);
        },
        _ => panic!("rect fill must carry an index list"),
    }
}

#[test]
fn batched_z_offsets_strictly_increase() {
    let s = plain_screen();
    let r = Rect::new(
        &s,
        &vec![0, 0, 0],
        &vec![0, 0, 0],
        &vec![0, 0, 0],
        &vec![65536, 65536, 65536],
        &vec![65536, 65536, 65536],
    );
    let z0 = r.fill_buffer[0].z;
    let z1 = r.fill_buffer[4].z;
    let z2 = r.fill_buffer[8].z;
    assert!(z0 < z1 && z1 < z2);
    assert_eq!((z0, z1, z2), (0, 1, 2));
}

#[test]
fn aspect_preservation_off_passes_coordinates_through() {
    // a wide screen, but preservation off: raw coordinates come through
    let s = Screen::new(200, 100, false, false, false);
    let r = Rect::new(&s, &vec![-39322], &vec![-26214], &vec![0], &vec![13107], &vec![32768]);
    assert_eq!((r.fill_buffer[0].x, r.fill_buffer[0].y), (-39322, -26214));
    let t = Triangle::new(
        &s,
        &vec![100], &vec![200], &vec![0],
        &vec![300], &vec![400], &vec![0],
        &vec![500], &vec![600], &vec![0],
    );
    assert_eq!((t.fill_buffer[0].x, t.fill_buffer[0].y), (100, 200));
    assert_eq!((t.fill_buffer[2].x, t.fill_buffer[2].y), (500, 600));
}

#[test]
fn aspect_preservation_divides_x_on_wide_screens() {
    let s = Screen::new(200, 100, false, true, false);
    let r = Rect::new(&s, &vec![-39322], &vec![0], &vec![0], &vec![13107], &vec![32768]);
    // aspect 2.0: x and width halve, y and height stay
    assert_eq!(r.fill_buffer[0].x, -19661);
    assert_eq!(r.fill_buffer[0].y, 0);
    assert_eq!(r.fill_buffer[1].x, -19661 + 6553);
}

#[test]
fn aspect_preservation_scales_y_on_tall_screens() {
    let s = Screen::new(100, 200, false, true, false);
    let r = Rect::new(&s, &vec![0], &vec![65536], &vec![0], &vec![13107], &vec![32768]);
    // aspect 0.5: y and height halve, x and width stay
    assert_eq!(r.fill_buffer[0].x, 0);
    assert_eq!(r.fill_buffer[0].y, 32768);
}

#[test]
fn triangle_uses_plain_triangle_list() {
    let s = plain_screen();
    let t = Triangle::new(
        &s,
        &vec![0], &vec![0], &vec![0],
        &vec![65536], &vec![0], &vec![0],
        &vec![0], &vec![65536], &vec![0],
    );
    assert_eq!(t.fill_buffer.len(), 3);
    assert!(matches!(t.fill_index_buffer, IndexType::NoBuffer { ind: PrimitiveType::TrianglesList }));
    assert!(matches!(t.stroke_index_buffer, IndexType::NoBuffer { ind: PrimitiveType::LineLoop }));
}

#[test]
fn quad_keeps_nonzero_z_and_biases_zero_z() {
    let s = plain_screen();
    let q = Quad::new(
        &s,
        &vec![0, 0], &vec![0, 0], &vec![777, 0],
        &vec![65536, 65536], &vec![0, 0], &vec![0, 0],
        &vec![65536, 65536], &vec![65536, 65536], &vec![0, 0],
        &vec![0, 0], &vec![65536, 65536], &vec![0, 0],
    )
    .unwrap();
    assert_eq!(q.fill_buffer.len(), 8);
    // instance 0: corner 1 has explicit z, the others fall back to the offset 0
    assert_eq!(q.fill_buffer[0].z, 777);
    assert_eq!(q.fill_buffer[1].z, 0);
    // instance 1: all corners at offset 1
    assert_eq!(q.fill_buffer[4].z, 1);
    assert_eq!(q.fill_buffer[7].z, 1);
}

#[test]
fn line_degenerates_without_stroke() {
    let mut s = plain_screen();
    s.stroke_off();
    let l = Line::new(&s, &vec![0], &vec![0], &vec![0], &vec![65536], &vec![65536], &vec![0])
        .unwrap();
    assert_eq!(l.fill_buffer.len(), 0);
    assert_eq!(l.stroke_buffer.len(), 0);
    s.stroke_on();
    let l2 = Line::new(&s, &vec![0], &vec![0], &vec![0], &vec![65536], &vec![65536], &vec![0])
        .unwrap();
    assert_eq!(l2.fill_buffer.len(), 2);
    assert!(matches!(l2.fill_index_buffer, IndexType::NoBuffer { ind: PrimitiveType::LinesList }));
}

#[test]
fn point_batch_is_one_vertex_per_instance() {
    let mut s = plain_screen();
    let p = Point::new(&mut s, &vec![100, 200, 300], &vec![1, 2, 3], &vec![0, 0, 0]);
    assert_eq!(p.fill_buffer.len(), 3);
    assert_eq!((p.fill_buffer[1].x, p.fill_buffer[1].y, p.fill_buffer[1].z), (200, 2, 1));
    assert!(matches!(p.fill_index_buffer, IndexType::NoBuffer { ind: PrimitiveType::Points }));
}

#[test]
fn cube_has_36_vertices_per_instance() {
    let s = plain_screen();
    let c = Cube::new(&s, &vec![65536, 131072]).unwrap();
    assert_eq!(c.fill_buffer.len(), 72);
    // the first template corner of a unit cube
    assert_eq!(
        (c.fill_buffer[0].x, c.fill_buffer[0].y, c.fill_buffer[0].z),
        (-65536, -65536, -65536)
    );
    // the second instance is scaled by two
    assert_eq!(
        (c.fill_buffer[36].x, c.fill_buffer[36].y, c.fill_buffer[36].z),
        (-131072, -131072, -131072)
    );
    assert!(matches!(c.fill_index_buffer, IndexType::NoBuffer { ind: PrimitiveType::TrianglesList }));
}

#[test]
fn arc_counts_match_the_ellipse() {
    let s = square_screen();
    let a = Arc::new(
        &s,
        &vec![0],
        &vec![0],
        &vec![0],
        &vec![65536],
        &vec![65536],
        &vec![0],
        &vec![205887],
    )
    .unwrap();
    assert_eq!(a.fill_buffer.len(), 202);
    assert_eq!(a.stroke_buffer.len(), 200);
    assert!(matches!(a.fill_index_buffer, IndexType::NoBuffer { ind: PrimitiveType::TriangleFan }));
    assert!(matches!(a.stroke_index_buffer, IndexType::NoBuffer { ind: PrimitiveType::LineStrip }));
    // the first contour point lies at the start angle
    let expected_cos0 = cordic::cos(fixed::types::I16F16::from_bits(0)).to_bits();
    assert_eq!(a.fill_buffer[1].x, fx_mul_ref(expected_cos0, 32768));
}

#[test]
fn colors_are_stamped_from_the_current_state() {
    let mut s = plain_screen();
    s.fill(&vec![65536], &vec![0], &vec![0], &vec![32768]);
    s.stroke(&vec![0], &vec![65536], &vec![0], &vec![65536]);
    let r = Rect::new(&s, &vec![0], &vec![0], &vec![0], &vec![65536], &vec![65536]);
    assert_eq!(r.fill_buffer[0].color.r, 65536);
    assert_eq!(r.fill_buffer[0].color.g, 0);
    assert_eq!(r.fill_buffer[0].color.a, 32768);
    assert_eq!(r.stroke_buffer[0].color.g, 65536);
    assert_eq!(r.stroke_buffer[3].color.r, 0);
}

#[test]
fn multi_tuple_colors_leave_vertices_blank() {
    let mut s = plain_screen();
    s.fill(&vec![65536, 0], &vec![0, 65536], &vec![0, 0], &vec![65536, 65536]);
    let r = Rect::new(&s, &vec![0], &vec![0], &vec![0], &vec![65536], &vec![65536]);
    // per-instance color variation is a recorded placeholder: the stamp
    // only applies for exactly one tuple
    assert_eq!(r.fill_buffer[0].color.r, 0);
    assert_eq!(r.fill_buffer[0].color.a, 0);
}

#[test]
fn attach_texture_records_the_handle() {
    let s = plain_screen();
    let r = Rect::new(&s, &vec![0], &vec![0], &vec![0], &vec![65536], &vec![65536]);
    assert_eq!(r.get_texture(), None);
    let r = r.attach_texture(7);
    assert_eq!(r.get_texture(), Some(7));
    let mut q = Quad::new(
        &s,
        &vec![0], &vec![0], &vec![0],
        &vec![65536], &vec![0], &vec![0],
        &vec![65536], &vec![65536], &vec![0],
        &vec![0], &vec![65536], &vec![0],
    )
    .unwrap();
    q.attach_texture(9);
    assert_eq!(q.get_texture(), Some(9));
}
