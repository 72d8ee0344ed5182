//! What holds of the operators for all tensors, proved over their models.

use vstd::prelude::*;
use vstd::std_specs::ops::NegSpec;
use std::ops::Neg;
use crate::broadcast::{combinable, combined, conformant, lhs_at, result_dims, result_len, rhs_at};
use crate::broadcast::{scaled, Operator};
use crate::ops::neg::{negatable, negated};
use crate::tensor::TensorModel;

verus! {

/// Two tensors of equal shape combine position by position: the result has
/// their shape, and its element at `i` is the operation on their elements
/// at `i`.
pub proof fn lemma_equal_shapes<T, Op: Operator<T>>(a: TensorModel<T>, b: TensorModel<T>)
    requires
        a.wf(),
        b.wf(),
        a.dims == b.dims,
    ensures
        conformant(a, b),
        combined::<T, Op>(a, b).dims == a.dims,
        combined::<T, Op>(a, b).elems.len() == a.elems.len(),
        forall|i: int|
            0 <= i < a.elems.len() ==> #[trigger] combined::<T, Op>(a, b).elems[i] == Op::apply(
                a.elems[i],
                b.elems[i],
            ),
{
}

/// A scalar tensor on the right is stretched over the left operand: the
/// result has the left operand's shape, and its element at `i` is the left
/// element at `i` combined with the scalar's one value.
pub proof fn lemma_scalar_on_right<T, Op: Operator<T>>(a: TensorModel<T>, s: TensorModel<T>)
    requires
        s.is_scalar(),
    ensures
        conformant(a, s),
        combined::<T, Op>(a, s).dims == a.dims,
        combined::<T, Op>(a, s).elems.len() == a.elems.len(),
        forall|i: int|
            0 <= i < a.elems.len() ==> #[trigger] combined::<T, Op>(a, s).elems[i] == Op::apply(
                a.elems[i],
                s.elems[0],
            ),
{
}

/// A scalar tensor on the left is stretched over a right operand that is
/// not scalar: the result has the right operand's shape, and its element
/// at `i` is the scalar's one value combined with the right element at `i`.
pub proof fn lemma_scalar_on_left<T, Op: Operator<T>>(s: TensorModel<T>, a: TensorModel<T>)
    requires
        s.is_scalar(),
        !a.is_scalar(),
    ensures
        conformant(s, a),
        combined::<T, Op>(s, a).dims == a.dims,
        combined::<T, Op>(s, a).elems.len() == a.elems.len(),
        forall|i: int|
            0 <= i < a.elems.len() ==> #[trigger] combined::<T, Op>(s, a).elems[i] == Op::apply(
                s.elems[0],
                a.elems[i],
            ),
{
}

/// Two scalar tensors combine in the shape of the left one, whatever the
/// shape of the right one.
pub proof fn lemma_both_scalar<T, Op: Operator<T>>(a: TensorModel<T>, b: TensorModel<T>)
    requires
        a.is_scalar(),
        b.is_scalar(),
    ensures
        combined::<T, Op>(a, b) == (TensorModel {
            dims: a.dims,
            elems: seq![Op::apply(a.elems[0], b.elems[0])],
        }),
{
    assert(combined::<T, Op>(a, b).elems =~= seq![Op::apply(a.elems[0], b.elems[0])]);
}

/// Combining a tensor with a bare value is combining it with a scalar
/// tensor of that value.
pub proof fn lemma_bare_value_is_scalar_tensor<T, Op: Operator<T>>(
    a: TensorModel<T>,
    s: TensorModel<T>,
)
    requires
        s.is_scalar(),
    ensures
        scaled::<T, Op>(a, s.elems[0]) == combined::<T, Op>(a, s),
{
    assert(scaled::<T, Op>(a, s.elems[0]) =~= combined::<T, Op>(a, s));
}

/// Two tensors of which neither is scalar and whose shapes differ are not
/// conformant: no operator admits them.
pub proof fn lemma_shape_mismatch<T, Op: Operator<T>>(a: TensorModel<T>, b: TensorModel<T>)
    requires
        !a.is_scalar(),
        !b.is_scalar(),
        a.dims != b.dims,
    ensures
        !conformant(a, b),
        !combinable::<T, Op>(a, b),
{
}

/// A tensor that has the shape of the combination and holds at every
/// position the operation on the operands of that position is the
/// combination. So the operator that allocates, the operator that reuses a
/// buffer and the one that writes into an output leave the same tensor.
pub proof fn lemma_combination_determined<T, Op: Operator<T>>(
    a: TensorModel<T>,
    b: TensorModel<T>,
    out: TensorModel<T>,
)
    requires
        out.dims == result_dims(a, b),
        out.elems.len() == result_len(a, b),
        forall|i: int|
            0 <= i < out.elems.len() ==> #[trigger] out.elems[i] == Op::apply(
                lhs_at(a, b, i),
                rhs_at(a, b, i),
            ),
    ensures
        out == combined::<T, Op>(a, b),
{
    assert(out =~= combined::<T, Op>(a, b));
}

/// The combination of two well-formed tensors is well-formed.
pub proof fn lemma_combination_wf<T, Op: Operator<T>>(a: TensorModel<T>, b: TensorModel<T>)
    requires
        a.wf(),
        b.wf(),
    ensures
        combined::<T, Op>(a, b).wf(),
{
}

/// Negating twice gives the tensor back, on every tensor on whose elements
/// negating twice gives the element back.
pub proof fn lemma_negation_involutive<T: Neg<Output = T>>(a: TensorModel<T>)
    requires
        forall|i: int|
            0 <= i < a.elems.len() ==> #[trigger] a.elems[i].neg_spec().neg_spec() == a.elems[i],
    ensures
        negated(negated(a)) == a,
{
    assert(negated(negated(a)) =~= a);
}

/// On `i8` tensors, what can be negated can be negated twice, and is then
/// itself again.
pub proof fn lemma_negation_involutive_i8(a: TensorModel<i8>)
    requires
        negatable(a),
    ensures
        negatable(negated(a)),
        negated(negated(a)) == a,
{
    assert forall|i: int| 0 <= i < a.elems.len() implies #[trigger] a.elems[i].neg_spec().neg_spec()
        == a.elems[i] && a.elems[i].neg_spec().neg_req() by {
        assert(a.elems[i].neg_req());
    }
    assert forall|i: int| 0 <= i < negated(a).elems.len() implies #[trigger] negated(
        a,
    ).elems[i].neg_req() by {
        assert(a.elems[i].neg_spec().neg_req());
    }
    lemma_negation_involutive(a);
}

/// On `i16` tensors, what can be negated can be negated twice, and is then
/// itself again.
pub proof fn lemma_negation_involutive_i16(a: TensorModel<i16>)
    requires
        negatable(a),
    ensures
        negatable(negated(a)),
        negated(negated(a)) == a,
{
    assert forall|i: int| 0 <= i < a.elems.len() implies #[trigger] a.elems[i].neg_spec().neg_spec()
        == a.elems[i] && a.elems[i].neg_spec().neg_req() by {
        assert(a.elems[i].neg_req());
    }
    assert forall|i: int| 0 <= i < negated(a).elems.len() implies #[trigger] negated(
        a,
    ).elems[i].neg_req() by {
        assert(a.elems[i].neg_spec().neg_req());
    }
    lemma_negation_involutive(a);
}

/// On `i32` tensors, what can be negated can be negated twice, and is then
/// itself again.
pub proof fn lemma_negation_involutive_i32(a: TensorModel<i32>)
    requires
        negatable(a),
    ensures
        negatable(negated(a)),
        negated(negated(a)) == a,
{
    assert forall|i: int| 0 <= i < a.elems.len() implies #[trigger] a.elems[i].neg_spec().neg_spec()
        == a.elems[i] && a.elems[i].neg_spec().neg_req() by {
        assert(a.elems[i].neg_req());
    }
    assert forall|i: int| 0 <= i < negated(a).elems.len() implies #[trigger] negated(
        a,
    ).elems[i].neg_req() by {
        assert(a.elems[i].neg_spec().neg_req());
    }
    lemma_negation_involutive(a);
}

/// On `i64` tensors, what can be negated can be negated twice, and is then
/// itself again.
pub proof fn lemma_negation_involutive_i64(a: TensorModel<i64>)
    requires
        negatable(a),
    ensures
        negatable(negated(a)),
        negated(negated(a)) == a,
{
    assert forall|i: int| 0 <= i < a.elems.len() implies #[trigger] a.elems[i].neg_spec().neg_spec()
        == a.elems[i] && a.elems[i].neg_spec().neg_req() by {
        assert(a.elems[i].neg_req());
    }
    assert forall|i: int| 0 <= i < negated(a).elems.len() implies #[trigger] negated(
        a,
    ).elems[i].neg_req() by {
        assert(a.elems[i].neg_spec().neg_req());
    }
    lemma_negation_involutive(a);
}

/// On `i128` tensors, what can be negated can be negated twice, and is then
/// itself again.
pub proof fn lemma_negation_involutive_i128(a: TensorModel<i128>)
    requires
        negatable(a),
    ensures
        negatable(negated(a)),
        negated(negated(a)) == a,
{
    assert forall|i: int| 0 <= i < a.elems.len() implies #[trigger] a.elems[i].neg_spec().neg_spec()
        == a.elems[i] && a.elems[i].neg_spec().neg_req() by {
        assert(a.elems[i].neg_req());
    }
    assert forall|i: int| 0 <= i < negated(a).elems.len() implies #[trigger] negated(
        a,
    ).elems[i].neg_req() by {
        assert(a.elems[i].neg_spec().neg_req());
    }
    lemma_negation_involutive(a);
}

/// On `isize` tensors, what can be negated can be negated twice, and is then
/// itself again.
pub proof fn lemma_negation_involutive_isize(a: TensorModel<isize>)
    requires
        negatable(a),
    ensures
        negatable(negated(a)),
        negated(negated(a)) == a,
{
    assert forall|i: int| 0 <= i < a.elems.len() implies #[trigger] a.elems[i].neg_spec().neg_spec()
        == a.elems[i] && a.elems[i].neg_spec().neg_req() by {
        assert(a.elems[i].neg_req());
    }
    assert forall|i: int| 0 <= i < negated(a).elems.len() implies #[trigger] negated(
        a,
    ).elems[i].neg_req() by {
        assert(a.elems[i].neg_spec().neg_req());
    }
    lemma_negation_involutive(a);
}

} // verus!
