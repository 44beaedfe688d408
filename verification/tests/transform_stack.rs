//! The transformation-matrix stack: push/pop balance, pre-multiplication
//! and the matrix builders.

use processing::matrix::{mat4_mul, Mat4};
use processing::Screen;

fn fresh() -> Screen {
    Screen::new(100, 100, false, false, false)
}

#[test]
fn two_pushes_one_pop_leave_one_saved_matrix() {
    let mut s = fresh();
    s.translate(65536, 0, 0);
    s.pushMatrix();
    s.rotateZ(32768);
    let at_second_push = s.matrices.curr_matrix;
    s.pushMatrix();
    s.scale(131072, 131072, 65536);
    s.popMatrix();
    assert_eq!(s.matrices.stack_len(), 1);
    assert_eq!(s.matrices.curr_matrix, at_second_push);
}

#[test]
fn balanced_sequence_restores_current() {
    let mut s = fresh();
    s.translate(500, -700, 9);
    s.shearX(10000);
    let before = s.matrices.curr_matrix;
    s.pushMatrix();
    s.rotate(20000, 0, 0, 65536);
    s.translate(1, 2, 3);
    s.popMatrix();
    assert_eq!(s.matrices.curr_matrix, before);
    assert_eq!(s.matrices.stack_len(), 0);
}

#[test]
fn popping_more_than_pushed_yields_identity() {
    let mut s = fresh();
    s.translate(65536, 131072, 0);
    s.popMatrix();
    assert_eq!(s.matrices.curr_matrix, Mat4::identity());
    // popping again stays at the identity, never errors
    s.popMatrix();
    assert_eq!(s.matrices.curr_matrix, Mat4::identity());
    assert_eq!(s.matrices.stack_len(), 0);
}

#[test]
fn translate_pre_multiplies() {
    let mut s = fresh();
    s.translate(65536, 131072, -65536);
    let m = s.matrices.curr_matrix;
    assert_eq!(m.m03, 65536);
    assert_eq!(m.m13, 131072);
    assert_eq!(m.m23, -65536);
    assert_eq!(m.m00, 65536);
    assert_eq!(m.m11, 65536);
    // newest transform lands closest to the object: T2 * (T1 * I)
    s.translate(65536, 0, 0);
    assert_eq!(s.matrices.curr_matrix.m03, 131072);
}

#[test]
fn scale_composes_as_non_uniform_scaling() {
    let mut s = fresh();
    s.translate(65536, 0, 0);
    s.scale(131072, 65536, 65536);
    let m = s.matrices.curr_matrix;
    // the x row of the translation is doubled
    assert_eq!(m.m00, 131072);
    assert_eq!(m.m03, 131072);
    assert_eq!(m.m11, 65536);
}

#[test]
fn reset_matrix_restores_identity() {
    let mut s = fresh();
    s.rotateX(9999);
    s.resetMatrix();
    assert_eq!(s.matrices.curr_matrix, Mat4::identity());
}

#[test]
fn apply_matrix_multiplies_rowwise() {
    let mut s = fresh();
    s.translate(65536, 0, 0);
    let before = s.matrices.curr_matrix;
    s.applyMatrix(
        65536, 0, 0, 327680,
        0, 65536, 0, 0,
        0, 0, 65536, 0,
        0, 0, 0, 65536,
    );
    let expected = mat4_mul(
        &Mat4 {
            m00: 65536, m01: 0, m02: 0, m03: 327680,
            m10: 0, m11: 65536, m12: 0, m13: 0,
            m20: 0, m21: 0, m22: 65536, m23: 0,
            m30: 0, m31: 0, m32: 0, m33: 65536,
        },
        &before,
    );
    assert_eq!(s.matrices.curr_matrix, expected);
    assert_eq!(s.matrices.curr_matrix.m03, 393216);
}

#[test]
fn rotate_z_quarter_turn_entries() {
    let mut s = fresh();
    // pi/2 in Q16.16
    let half_pi: i32 = 102944;
    s.rotateZ(half_pi);
    let m = s.matrices.curr_matrix;
    let c = m.m00 as f64 / 65536.0;
    let ms = m.m01 as f64 / 65536.0;
    assert!(c.abs() < 0.01, "cos(pi/2) should be near zero, was {c}");
    assert!((ms + 1.0).abs() < 0.01, "-sin(pi/2) should be near -1, was {ms}");
    // the bottom row stays untouched
    assert_eq!(m.m30, 0);
    assert_eq!(m.m33, 65536);
}

#[test]
fn shear_x_uses_tangent() {
    let mut s = fresh();
    // pi/4: tangent 1
    let quarter_pi: i32 = 51472;
    s.shearX(quarter_pi);
    let t = s.matrices.curr_matrix.m01 as f64 / 65536.0;
    assert!((t - 1.0).abs() < 0.01, "tan(pi/4) should be near one, was {t}");
}
