//! The transformation-matrix stack.
//!
//! One current matrix plus a stack of saved matrices. Every transform
//! operation pre-multiplies a newly built matrix onto the current one, so
//! the newest transform is applied closest to the object; `pushMatrix`
//! and `popMatrix` save and restore the current matrix. No operation can
//! fail: popping with nothing saved resets to the identity.

use vstd::prelude::*;

use crate::fixed_point::{fx_cos, fx_cos_raw, fx_div, fx_div_spec, fx_sin, fx_sin_raw, FX_UNIT};
use crate::matrix::{
    mat4_identity_spec, mat4_mul, mat4_mul_spec, mat4_rotation, mat4_rotation_spec, mat4_scaling,
    mat4_scaling_spec, mat4_shear_x, mat4_shear_x_spec, mat4_shear_y, mat4_shear_y_spec,
    mat4_translation, mat4_translation_spec, Mat4,
};
use crate::{same_screen_except_matrices, Screen};

verus! {

/// What `popMatrix` leaves as the current matrix: the top of the stack,
/// or the identity when nothing is saved.
pub open spec fn current_after_pop(stack: Seq<Mat4>) -> Mat4 {
    if stack.len() == 0 {
        mat4_identity_spec()
    } else {
        stack.last()
    }
}

/// What `popMatrix` leaves on the stack.
pub open spec fn stack_after_pop(stack: Seq<Mat4>) -> Seq<Mat4> {
    if stack.len() == 0 {
        stack
    } else {
        stack.drop_last()
    }
}

/// Law: a `pushMatrix` paired with one `popMatrix` restores both the
/// current matrix and the stack, whatever the current matrix was changed
/// to in between — the transform operations touch only the current
/// matrix, never the stack.
pub proof fn lemma_push_pop_balances(cur: Mat4, stack: Seq<Mat4>, scribbled: Mat4)
    ensures
        current_after_pop(stack.push(cur)) == cur,
        stack_after_pop(stack.push(cur)) == stack,
{
    assert(stack.push(cur).drop_last() =~= stack);
}

/// Law: popping with nothing saved yields the identity, never an error,
/// and leaves the stack empty.
pub proof fn lemma_pop_on_empty_yields_identity()
    ensures
        current_after_pop(Seq::<Mat4>::empty()) == mat4_identity_spec(),
        stack_after_pop(Seq::<Mat4>::empty()) == Seq::<Mat4>::empty(),
{
}


/// One operation on the matrix state, as the stack-balance law models
/// it: saving, restoring, or any transform operation — which only
/// replaces the current matrix and never touches the stack.
#[derive(Clone, Copy, Debug, PartialEq, Eq, Structural)]
pub enum MatrixOp {
    Save,
    Restore,
    Replace(Mat4),
}

/// The matrix state after one operation.
pub open spec fn spec_apply_op(cur: Mat4, stack: Seq<Mat4>, op: MatrixOp) -> (Mat4, Seq<Mat4>) {
    match op {
        MatrixOp::Save => (cur, stack.push(cur)),
        MatrixOp::Restore => (current_after_pop(stack), stack_after_pop(stack)),
        MatrixOp::Replace(m) => (m, stack),
    }
}

/// The matrix state after a sequence of operations, applied in order.
pub open spec fn spec_apply_ops(cur: Mat4, stack: Seq<Mat4>, ops: Seq<MatrixOp>) -> (
    Mat4,
    Seq<Mat4>,
)
    decreases ops.len(),
{
    if ops.len() == 0 {
        (cur, stack)
    } else {
        let s1 = spec_apply_op(cur, stack, ops.first());
        spec_apply_ops(s1.0, s1.1, ops.drop_first())
    }
}

/// How many saves a sequence holds.
pub open spec fn spec_save_count(ops: Seq<MatrixOp>) -> int
    decreases ops.len(),
{
    if ops.len() == 0 {
        0
    } else {
        (if ops.first() is Save {
            1int
        } else {
            0
        }) + spec_save_count(ops.drop_first())
    }
}

/// How many restores a sequence holds.
pub open spec fn spec_restore_count(ops: Seq<MatrixOp>) -> int
    decreases ops.len(),
{
    if ops.len() == 0 {
        0
    } else {
        (if ops.first() is Restore {
            1int
        } else {
            0
        }) + spec_restore_count(ops.drop_first())
    }
}

/// A properly nested sequence: saves and restores are equal in number
/// and no prefix restores more than it has saved.
pub open spec fn spec_balanced(ops: Seq<MatrixOp>) -> bool {
    &&& spec_save_count(ops) == spec_restore_count(ops)
    &&& forall|k: int|
        0 <= k <= ops.len() ==> spec_restore_count(#[trigger] ops.take(k)) <= spec_save_count(
            ops.take(k),
        )
}

/// Applying one further operation after a sequence is applying the
/// extended sequence.
proof fn lemma_apply_ops_snoc(cur: Mat4, stack: Seq<Mat4>, ops: Seq<MatrixOp>, op: MatrixOp)
    ensures
        spec_apply_ops(cur, stack, ops.push(op)) == ({
            let s = spec_apply_ops(cur, stack, ops);
            spec_apply_op(s.0, s.1, op)
        }),
    decreases ops.len(),
{
    if ops.len() == 0 {
        assert(ops.push(op).first() == op);
        assert(ops.push(op).drop_first() =~= ops);
        assert(spec_apply_ops(cur, stack, ops) == (cur, stack));
        let s2 = spec_apply_op(cur, stack, op);
        assert(spec_apply_ops(s2.0, s2.1, ops) == s2);
    } else {
        let s1 = spec_apply_op(cur, stack, ops.first());
        lemma_apply_ops_snoc(s1.0, s1.1, ops.drop_first(), op);
        assert(ops.push(op).first() == ops.first());
        assert(ops.push(op).drop_first() =~= ops.drop_first().push(op));
    }
}

/// The counts of a sequence with its last operation split off.
proof fn lemma_counts_snoc(ops: Seq<MatrixOp>)
    requires
        ops.len() > 0,
    ensures
        spec_save_count(ops) == spec_save_count(ops.drop_last()) + (if ops.last() is Save {
            1int
        } else {
            0
        }),
        spec_restore_count(ops) == spec_restore_count(ops.drop_last()) + (
        if ops.last() is Restore {
            1int
        } else {
            0
        }),
    decreases ops.len(),
{
    if ops.len() == 1 {
        assert(ops.drop_first() =~= ops.drop_last());
    } else {
        lemma_counts_snoc(ops.drop_first());
        assert(ops.drop_first().drop_last() =~= ops.drop_last().drop_first());
        assert(ops.drop_first().last() == ops.last());
    }
}

/// As long as no prefix restores more than it has saved, the bottom of
/// the stack is never touched: the entries present at the start are
/// still there, below exactly as many saved entries as the sequence's
/// save surplus.
proof fn lemma_prefix_safe_preserves_bottom(cur: Mat4, stack: Seq<Mat4>, ops: Seq<MatrixOp>)
    requires
        forall|k: int|
            0 <= k <= ops.len() ==> spec_restore_count(#[trigger] ops.take(k)) <= spec_save_count(
                ops.take(k),
            ),
    ensures
        ({
            let s = spec_apply_ops(cur, stack, ops);
            &&& s.1.len() == stack.len() + spec_save_count(ops) - spec_restore_count(ops)
            &&& s.1.subrange(0, stack.len() as int) == stack
        }),
    decreases ops.len(),
{
    if ops.len() == 0 {
        assert(spec_apply_ops(cur, stack, ops).1.subrange(0, stack.len() as int) =~= stack);
    } else {
        let prefix = ops.drop_last();
        assert forall|k: int|
            0 <= k <= prefix.len() implies spec_restore_count(#[trigger] prefix.take(k))
            <= spec_save_count(prefix.take(k)) by {
            assert(prefix.take(k) =~= ops.take(k));
        }
        lemma_prefix_safe_preserves_bottom(cur, stack, prefix);
        let s = spec_apply_ops(cur, stack, prefix);
        assert(ops.take(ops.len() as int) =~= ops);
        lemma_counts_snoc(ops);
        assert(prefix.take(prefix.len() as int) =~= prefix);
        lemma_apply_ops_snoc(cur, stack, prefix, ops.last());
        assert(ops.drop_last().push(ops.last()) =~= ops);
        match ops.last() {
            MatrixOp::Save => {
                assert(s.1.push(s.0).subrange(0, stack.len() as int) =~= s.1.subrange(
                    0,
                    stack.len() as int,
                ));
            },
            MatrixOp::Restore => {
                // the sequence-wide bound says this restore has a
                // matching earlier save, so the stack is strictly
                // taller than it started
                assert(spec_restore_count(ops) <= spec_save_count(ops));
                assert(s.1.len() > stack.len());
                assert(s.1.drop_last().subrange(0, stack.len() as int) =~= s.1.subrange(
                    0,
                    stack.len() as int,
                ));
            },
            MatrixOp::Replace(_) => {},
        }
    }
}

/// Law: a save, then any properly nested sequence of saves, restores
/// and transform operations, then one restore leaves both the current
/// matrix and the stack exactly as they were. A transform operation
/// standing outside any save/restore pair is not covered: one
/// `Replace` alone has equal (zero) save and restore counts and still
/// changes the current matrix.
pub proof fn lemma_stack_balance(cur: Mat4, stack: Seq<Mat4>, ops: Seq<MatrixOp>)
    requires
        spec_balanced(ops),
    ensures
        spec_apply_ops(
            cur,
            stack,
            seq![MatrixOp::Save] + ops + seq![MatrixOp::Restore],
        ) == (cur, stack),
{
    let wrapped = seq![MatrixOp::Save] + ops + seq![MatrixOp::Restore];
    assert(wrapped.first() == MatrixOp::Save);
    assert(wrapped.drop_first() =~= ops + seq![MatrixOp::Restore]);
    let saved = stack.push(cur);
    lemma_prefix_safe_preserves_bottom(cur, saved, ops);
    let s = spec_apply_ops(cur, saved, ops);
    assert(s.1.len() == saved.len());
    assert(s.1.subrange(0, saved.len() as int) =~= s.1);
    assert(s.1 == saved);
    lemma_apply_ops_snoc(cur, saved, ops, MatrixOp::Restore);
    assert((ops + seq![MatrixOp::Restore]) =~= ops.push(MatrixOp::Restore));
    assert(saved.last() == cur);
    assert(saved.drop_last() =~= stack);
    assert(spec_apply_ops(cur, saved, ops.push(MatrixOp::Restore)) == (cur, stack));
}

impl Screen {
    /// Pre-multiply the current matrix by a matrix formed from the given
    /// entries, row by row.
    #[allow(non_snake_case)]
    pub fn applyMatrix(
        &mut self,
        n00: i32, n01: i32, n02: i32, n03: i32,
        n10: i32, n11: i32, n12: i32, n13: i32,
        n20: i32, n21: i32, n22: i32, n23: i32,
        n30: i32, n31: i32, n32: i32, n33: i32,
    )
        ensures
            final(self).matrices.curr_matrix == mat4_mul_spec(
                (Mat4 {
                    m00: n00, m01: n01, m02: n02, m03: n03,
                    m10: n10, m11: n11, m12: n12, m13: n13,
                    m20: n20, m21: n21, m22: n22, m23: n23,
                    m30: n30, m31: n31, m32: n32, m33: n33,
                }),
                old(self).matrices.curr_matrix,
            ),
            final(self).matrices.matrix_stack@ == old(self).matrices.matrix_stack@,
            same_screen_except_matrices(*final(self), *old(self)),
    {
        let m = Mat4 {
            m00: n00, m01: n01, m02: n02, m03: n03,
            m10: n10, m11: n11, m12: n12, m13: n13,
            m20: n20, m21: n21, m22: n22, m23: n23,
            m30: n30, m31: n31, m32: n32, m33: n33,
        };
        self.matrices.curr_matrix = mat4_mul(&m, &self.matrices.curr_matrix);
    }

    /// Restore the most recently saved matrix as the current one; with
    /// nothing saved, reset to the identity.
    #[allow(non_snake_case)]
    pub fn popMatrix(&mut self)
        ensures
            final(self).matrices.curr_matrix == current_after_pop(old(self).matrices.matrix_stack@),
            final(self).matrices.matrix_stack@ == stack_after_pop(old(self).matrices.matrix_stack@),
            same_screen_except_matrices(*final(self), *old(self)),
    {
        match self.matrices.matrix_stack.pop() {
            Some(m) => {
                self.matrices.curr_matrix = m;
            },
            None => {
                self.matrices.curr_matrix = Mat4::identity();
            },
        }
    }

    /// Save a copy of the current matrix so a later `popMatrix` can
    /// restore it.
    #[allow(non_snake_case)]
    pub fn pushMatrix(&mut self)
        ensures
            final(self).matrices.curr_matrix == old(self).matrices.curr_matrix,
            final(self).matrices.matrix_stack@ == old(self).matrices.matrix_stack@.push(
                old(self).matrices.curr_matrix,
            ),
            same_screen_except_matrices(*final(self), *old(self)),
    {
        let m = self.matrices.curr_matrix;
        self.matrices.matrix_stack.push(m);
    }

    /// Replace the current matrix with the identity.
    #[allow(non_snake_case)]
    pub fn resetMatrix(&mut self)
        ensures
            final(self).matrices.curr_matrix == mat4_identity_spec(),
            final(self).matrices.matrix_stack@ == old(self).matrices.matrix_stack@,
            same_screen_except_matrices(*final(self), *old(self)),
    {
        self.matrices.curr_matrix = Mat4::identity();
    }

    /// Pre-multiply the current matrix by a rotation of `angle` radians
    /// about the axis (x, y, z), which is taken as given, without
    /// normalization.
    pub fn rotate(&mut self, angle: i32, x: i32, y: i32, z: i32)
        ensures
            final(self).matrices.curr_matrix == mat4_mul_spec(
                mat4_rotation_spec(fx_cos(angle as int), fx_sin(angle as int), x as int, y as int, z as int),
                old(self).matrices.curr_matrix,
            ),
            final(self).matrices.matrix_stack@ == old(self).matrices.matrix_stack@,
            same_screen_except_matrices(*final(self), *old(self)),
    {
        let c = fx_cos_raw(angle);
        let s = fx_sin_raw(angle);
        let m = mat4_rotation(c, s, x, y, z);
        self.matrices.curr_matrix = mat4_mul(&m, &self.matrices.curr_matrix);
    }

    /// Pre-multiply the current matrix by a rotation about the x-axis.
    #[allow(non_snake_case)]
    pub fn rotateX(&mut self, angle: i32)
        ensures
            final(self).matrices.curr_matrix == mat4_mul_spec(
                mat4_rotation_spec(fx_cos(angle as int), fx_sin(angle as int), 65536, 0, 0),
                old(self).matrices.curr_matrix,
            ),
            final(self).matrices.matrix_stack@ == old(self).matrices.matrix_stack@,
            same_screen_except_matrices(*final(self), *old(self)),
    {
        let c = fx_cos_raw(angle);
        let s = fx_sin_raw(angle);
        let m = mat4_rotation(c, s, FX_UNIT, 0, 0);
        self.matrices.curr_matrix = mat4_mul(&m, &self.matrices.curr_matrix);
    }

    /// Pre-multiply the current matrix by a rotation about the y-axis.
    #[allow(non_snake_case)]
    pub fn rotateY(&mut self, angle: i32)
        ensures
            final(self).matrices.curr_matrix == mat4_mul_spec(
                mat4_rotation_spec(fx_cos(angle as int), fx_sin(angle as int), 0, 65536, 0),
                old(self).matrices.curr_matrix,
            ),
            final(self).matrices.matrix_stack@ == old(self).matrices.matrix_stack@,
            same_screen_except_matrices(*final(self), *old(self)),
    {
        let c = fx_cos_raw(angle);
        let s = fx_sin_raw(angle);
        let m = mat4_rotation(c, s, 0, FX_UNIT, 0);
        self.matrices.curr_matrix = mat4_mul(&m, &self.matrices.curr_matrix);
    }

    /// Pre-multiply the current matrix by a rotation about the z-axis.
    #[allow(non_snake_case)]
    pub fn rotateZ(&mut self, angle: i32)
        ensures
            final(self).matrices.curr_matrix == mat4_mul_spec(
                mat4_rotation_spec(fx_cos(angle as int), fx_sin(angle as int), 0, 0, 65536),
                old(self).matrices.curr_matrix,
            ),
            final(self).matrices.matrix_stack@ == old(self).matrices.matrix_stack@,
            same_screen_except_matrices(*final(self), *old(self)),
    {
        let c = fx_cos_raw(angle);
        let s = fx_sin_raw(angle);
        let m = mat4_rotation(c, s, 0, 0, FX_UNIT);
        self.matrices.curr_matrix = mat4_mul(&m, &self.matrices.curr_matrix);
    }

    /// Pre-multiply the current matrix by a non-uniform scaling along the
    /// three axes.
    pub fn scale(&mut self, x: i32, y: i32, z: i32)
        ensures
            final(self).matrices.curr_matrix == mat4_mul_spec(
                mat4_scaling_spec(x as int, y as int, z as int),
                old(self).matrices.curr_matrix,
            ),
            final(self).matrices.matrix_stack@ == old(self).matrices.matrix_stack@,
            same_screen_except_matrices(*final(self), *old(self)),
    {
        let m = mat4_scaling(x, y, z);
        self.matrices.curr_matrix = mat4_mul(&m, &self.matrices.curr_matrix);
    }

    /// Pre-multiply the current matrix by a shear about the x-axis whose
    /// factor is the tangent of the given angle.
    #[allow(non_snake_case)]
    pub fn shearX(&mut self, angle: i32)
        ensures
            final(self).matrices.curr_matrix == mat4_mul_spec(
                mat4_shear_x_spec(fx_div_spec(fx_sin(angle as int), fx_cos(angle as int))),
                old(self).matrices.curr_matrix,
            ),
            final(self).matrices.matrix_stack@ == old(self).matrices.matrix_stack@,
            same_screen_except_matrices(*final(self), *old(self)),
    {
        let s = fx_sin_raw(angle);
        let c = fx_cos_raw(angle);
        let m = mat4_shear_x(fx_div(s, c));
        self.matrices.curr_matrix = mat4_mul(&m, &self.matrices.curr_matrix);
    }

    /// Pre-multiply the current matrix by a shear about the y-axis whose
    /// factor is the tangent of the given angle.
    #[allow(non_snake_case)]
    pub fn shearY(&mut self, angle: i32)
        ensures
            final(self).matrices.curr_matrix == mat4_mul_spec(
                mat4_shear_y_spec(fx_div_spec(fx_sin(angle as int), fx_cos(angle as int))),
                old(self).matrices.curr_matrix,
            ),
            final(self).matrices.matrix_stack@ == old(self).matrices.matrix_stack@,
            same_screen_except_matrices(*final(self), *old(self)),
    {
        let s = fx_sin_raw(angle);
        let c = fx_cos_raw(angle);
        let m = mat4_shear_y(fx_div(s, c));
        self.matrices.curr_matrix = mat4_mul(&m, &self.matrices.curr_matrix);
    }

    /// Pre-multiply the current matrix by a translation along (x, y, z).
    pub fn translate(&mut self, x: i32, y: i32, z: i32)
        ensures
            final(self).matrices.curr_matrix == mat4_mul_spec(
                mat4_translation_spec(x as int, y as int, z as int),
                old(self).matrices.curr_matrix,
            ),
            final(self).matrices.matrix_stack@ == old(self).matrices.matrix_stack@,
            same_screen_except_matrices(*final(self), *old(self)),
    {
        let m = mat4_translation(x, y, z);
        self.matrices.curr_matrix = mat4_mul(&m, &self.matrices.curr_matrix);
    }
}

} // verus!
