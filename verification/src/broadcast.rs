//! The broadcasting engine: one elementwise algorithm for every binary
//! operator, over owned and borrowed operands and into a caller's output.
//!
//! Two tensors combine when their shapes are equal or when one of them is a
//! scalar tensor, which is then stretched over every position of the other.
//! The cases are told apart in a fixed order: a scalar on the right first,
//! then a scalar on the left, then equal shapes.

use vstd::prelude::*;
use crate::shape::same_dims;
use crate::tensor::{Tensor, TensorModel};

verus! {

/// A binary operation on elements, as the engine needs it: where it is
/// defined, what it yields, and the code that computes it.
pub trait Operator<T> {
    /// Whether `eval` is known to return what `apply` says.
    spec fn faithful() -> bool;

    /// The operands on which the operation finishes.
    spec fn defined(lhs: T, rhs: T) -> bool;

    /// The value of the operation.
    spec fn apply(lhs: T, rhs: T) -> T;

    /// Carries the operation out.
    fn eval(lhs: T, rhs: T) -> (out: T)
        requires
            Self::defined(lhs, rhs),
        ensures
            Self::faithful() ==> out == Self::apply(lhs, rhs),
    ;
}

/// Two tensors can be combined elementwise: one of them is a scalar tensor,
/// or their shapes are equal.
pub open spec fn conformant<T>(lhs: TensorModel<T>, rhs: TensorModel<T>) -> bool {
    rhs.is_scalar() || lhs.is_scalar() || lhs.dims == rhs.dims
}

/// The left operand is the one that is stretched. A scalar on the right
/// takes precedence: of two scalar tensors the right one is stretched, and
/// the result has the shape of the left one.
pub open spec fn left_stretched<T>(lhs: TensorModel<T>, rhs: TensorModel<T>) -> bool {
    !rhs.is_scalar() && lhs.is_scalar()
}

/// The shape of the combination: that of the operand which is not
/// stretched.
pub open spec fn result_dims<T>(lhs: TensorModel<T>, rhs: TensorModel<T>) -> Seq<usize> {
    if left_stretched(lhs, rhs) {
        rhs.dims
    } else {
        lhs.dims
    }
}

/// The number of elements of the combination.
pub open spec fn result_len<T>(lhs: TensorModel<T>, rhs: TensorModel<T>) -> nat {
    if left_stretched(lhs, rhs) {
        rhs.elems.len()
    } else {
        lhs.elems.len()
    }
}

/// The left operand of the operation at position `i` of the combination.
pub open spec fn lhs_at<T>(lhs: TensorModel<T>, rhs: TensorModel<T>, i: int) -> T {
    if left_stretched(lhs, rhs) {
        lhs.elems[0]
    } else {
        lhs.elems[i]
    }
}

/// The right operand of the operation at position `i` of the combination.
pub open spec fn rhs_at<T>(lhs: TensorModel<T>, rhs: TensorModel<T>, i: int) -> T {
    if rhs.is_scalar() {
        rhs.elems[0]
    } else {
        rhs.elems[i]
    }
}

/// The operation can be carried out on the two tensors: they are
/// conformant, and the operation is defined at every position.
pub open spec fn combinable<T, Op: Operator<T>>(lhs: TensorModel<T>, rhs: TensorModel<T>) -> bool {
    &&& conformant(lhs, rhs)
    &&& forall|i: int|
        0 <= i < result_len(lhs, rhs) ==> #[trigger] Op::defined(
            lhs_at(lhs, rhs, i),
            rhs_at(lhs, rhs, i),
        )
}

/// The elementwise combination of two tensors under broadcasting.
pub open spec fn combined<T, Op: Operator<T>>(
    lhs: TensorModel<T>,
    rhs: TensorModel<T>,
) -> TensorModel<T> {
    TensorModel {
        dims: result_dims(lhs, rhs),
        elems: Seq::new(
            result_len(lhs, rhs),
            |i: int| Op::apply(lhs_at(lhs, rhs, i), rhs_at(lhs, rhs, i)),
        ),
    }
}

/// The operation is defined between every element of the tensor and the
/// bare value on its right.
pub open spec fn scalable<T, Op: Operator<T>>(lhs: TensorModel<T>, rhs: T) -> bool {
    forall|i: int| 0 <= i < lhs.elems.len() ==> #[trigger] Op::defined(lhs.elems[i], rhs)
}

/// The tensor whose every element has been combined with the bare value on
/// its right.
pub open spec fn scaled<T, Op: Operator<T>>(lhs: TensorModel<T>, rhs: T) -> TensorModel<T> {
    TensorModel {
        dims: lhs.dims,
        elems: Seq::new(lhs.elems.len(), |i: int| Op::apply(lhs.elems[i], rhs)),
    }
}

/// The operation is defined between the bare value and every element of
/// the tensor on its right.
pub open spec fn scalable_from_left<T, Op: Operator<T>>(lhs: T, rhs: TensorModel<T>) -> bool {
    forall|i: int| 0 <= i < rhs.elems.len() ==> #[trigger] Op::defined(lhs, rhs.elems[i])
}

/// The two tensors hold equally many elements, and the operation is defined
/// between their elements at every position.
pub open spec fn pairable<T, Op: Operator<T>>(lhs: TensorModel<T>, rhs: TensorModel<T>) -> bool {
    &&& lhs.elems.len() == rhs.elems.len()
    &&& forall|i: int|
        0 <= i < lhs.elems.len() ==> #[trigger] Op::defined(lhs.elems[i], rhs.elems[i])
}

/// What the three cases of a combination ask of the elements.
pub proof fn lemma_combinable_cases<T, Op: Operator<T>>(lhs: TensorModel<T>, rhs: TensorModel<T>)
    requires
        lhs.wf(),
        rhs.wf(),
        combinable::<T, Op>(lhs, rhs),
    ensures
        rhs.is_scalar() ==> scalable::<T, Op>(lhs, rhs.elems[0]),
        left_stretched(lhs, rhs) ==> scalable_from_left::<T, Op>(lhs.elems[0], rhs),
        !rhs.is_scalar() && !lhs.is_scalar() ==> pairable::<T, Op>(lhs, rhs),
{
    if rhs.is_scalar() {
        assert forall|i: int| 0 <= i < lhs.elems.len() implies #[trigger] Op::defined(
            lhs.elems[i],
            rhs.elems[0],
        ) by {
            assert(Op::defined(lhs_at(lhs, rhs, i), rhs_at(lhs, rhs, i)));
        }
    } else if lhs.is_scalar() {
        assert forall|i: int| 0 <= i < rhs.elems.len() implies #[trigger] Op::defined(
            lhs.elems[0],
            rhs.elems[i],
        ) by {
            assert(Op::defined(lhs_at(lhs, rhs, i), rhs_at(lhs, rhs, i)));
        }
    } else {
        assert forall|i: int| 0 <= i < lhs.elems.len() implies #[trigger] Op::defined(
            lhs.elems[i],
            rhs.elems[i],
        ) by {
            assert(Op::defined(lhs_at(lhs, rhs, i), rhs_at(lhs, rhs, i)));
        }
    }
}

/// `target[i] = target[i] <op> value` at every position.
fn stretch_right_in_place<T: Copy, Op: Operator<T>>(target: &mut Tensor<T>, value: T)
    requires
        scalable::<T, Op>(old(target)@, value),
    ensures
        final(target)@.dims == old(target)@.dims,
        final(target)@.elems.len() == old(target)@.elems.len(),
        Op::faithful() ==> forall|i: int|
            0 <= i < old(target)@.elems.len() ==> final(target)@.elems[i] == Op::apply(
                old(target)@.elems[i],
                value,
            ),
{
    let ghost before = target@;
    let n: usize = target.size();
    let mut i: usize = 0;
    while i < n
        invariant
            i <= n,
            n == before.elems.len(),
            target@.dims == before.dims,
            target@.elems.len() == n,
            scalable::<T, Op>(before, value),
            forall|j: int| i <= j < n ==> target@.elems[j] == before.elems[j],
            Op::faithful() ==> forall|j: int|
                0 <= j < i ==> target@.elems[j] == Op::apply(before.elems[j], value),
        decreases n - i,
    {
        assert(Op::defined(before.elems[i as int], value));
        let x: T = Op::eval(target.get(i), value);
        target.set(i, x);
        i += 1;
    }
}

/// `target[i] = target[i] <op> rhs[i]` at every position.
fn pair_in_place<T: Copy, Op: Operator<T>>(target: &mut Tensor<T>, rhs: &Tensor<T>)
    requires
        pairable::<T, Op>(old(target)@, rhs@),
    ensures
        final(target)@.dims == old(target)@.dims,
        final(target)@.elems.len() == old(target)@.elems.len(),
        Op::faithful() ==> forall|i: int|
            0 <= i < rhs@.elems.len() ==> final(target)@.elems[i] == Op::apply(
                old(target)@.elems[i],
                rhs@.elems[i],
            ),
{
    let ghost before = target@;
    let n: usize = target.size();
    let mut i: usize = 0;
    while i < n
        invariant
            i <= n,
            n == before.elems.len(),
            target@.dims == before.dims,
            target@.elems.len() == n,
            pairable::<T, Op>(before, rhs@),
            forall|j: int| i <= j < n ==> target@.elems[j] == before.elems[j],
            Op::faithful() ==> forall|j: int|
                0 <= j < i ==> target@.elems[j] == Op::apply(before.elems[j], rhs@.elems[j]),
        decreases n - i,
    {
        assert(Op::defined(before.elems[i as int], rhs@.elems[i as int]));
        let x: T = Op::eval(target.get(i), rhs.get(i));
        target.set(i, x);
        i += 1;
    }
}

/// `out[i] = lhs[i] <op> value` at every position.
fn stretch_right_into<T: Copy, Op: Operator<T>>(lhs: &Tensor<T>, value: T, out: &mut Tensor<T>)
    requires
        old(out)@.elems.len() == lhs@.elems.len(),
        scalable::<T, Op>(lhs@, value),
    ensures
        final(out)@.dims == old(out)@.dims,
        final(out)@.elems.len() == old(out)@.elems.len(),
        Op::faithful() ==> forall|i: int|
            0 <= i < lhs@.elems.len() ==> final(out)@.elems[i] == Op::apply(
                lhs@.elems[i],
                value,
            ),
{
    let ghost shape = out@.dims;
    let n: usize = lhs.size();
    let mut i: usize = 0;
    while i < n
        invariant
            i <= n,
            n == lhs@.elems.len(),
            out@.dims == shape,
            out@.elems.len() == n,
            scalable::<T, Op>(lhs@, value),
            Op::faithful() ==> forall|j: int|
                0 <= j < i ==> out@.elems[j] == Op::apply(lhs@.elems[j], value),
        decreases n - i,
    {
        assert(Op::defined(lhs@.elems[i as int], value));
        let x: T = Op::eval(lhs.get(i), value);
        out.set(i, x);
        i += 1;
    }
}

/// `out[i] = value <op> rhs[i]` at every position.
fn stretch_left_into<T: Copy, Op: Operator<T>>(value: T, rhs: &Tensor<T>, out: &mut Tensor<T>)
    requires
        old(out)@.elems.len() == rhs@.elems.len(),
        scalable_from_left::<T, Op>(value, rhs@),
    ensures
        final(out)@.dims == old(out)@.dims,
        final(out)@.elems.len() == old(out)@.elems.len(),
        Op::faithful() ==> forall|i: int|
            0 <= i < rhs@.elems.len() ==> final(out)@.elems[i] == Op::apply(
                value,
                rhs@.elems[i],
            ),
{
    let ghost shape = out@.dims;
    let n: usize = rhs.size();
    let mut i: usize = 0;
    while i < n
        invariant
            i <= n,
            n == rhs@.elems.len(),
            out@.dims == shape,
            out@.elems.len() == n,
            scalable_from_left::<T, Op>(value, rhs@),
            Op::faithful() ==> forall|j: int|
                0 <= j < i ==> out@.elems[j] == Op::apply(value, rhs@.elems[j]),
        decreases n - i,
    {
        assert(Op::defined(value, rhs@.elems[i as int]));
        let x: T = Op::eval(value, rhs.get(i));
        out.set(i, x);
        i += 1;
    }
}

/// `out[i] = lhs[i] <op> rhs[i]` at every position.
fn pair_into<T: Copy, Op: Operator<T>>(lhs: &Tensor<T>, rhs: &Tensor<T>, out: &mut Tensor<T>)
    requires
        old(out)@.elems.len() == lhs@.elems.len(),
        pairable::<T, Op>(lhs@, rhs@),
    ensures
        final(out)@.dims == old(out)@.dims,
        final(out)@.elems.len() == old(out)@.elems.len(),
        Op::faithful() ==> forall|i: int|
            0 <= i < lhs@.elems.len() ==> final(out)@.elems[i] == Op::apply(
                lhs@.elems[i],
                rhs@.elems[i],
            ),
{
    let ghost shape = out@.dims;
    let n: usize = lhs.size();
    let mut i: usize = 0;
    while i < n
        invariant
            i <= n,
            n == lhs@.elems.len(),
            out@.dims == shape,
            out@.elems.len() == n,
            pairable::<T, Op>(lhs@, rhs@),
            Op::faithful() ==> forall|j: int|
                0 <= j < i ==> out@.elems[j] == Op::apply(lhs@.elems[j], rhs@.elems[j]),
        decreases n - i,
    {
        assert(Op::defined(lhs@.elems[i as int], rhs@.elems[i as int]));
        let x: T = Op::eval(lhs.get(i), rhs.get(i));
        out.set(i, x);
        i += 1;
    }
}

/// Whether the two tensors can be combined elementwise.
pub fn conformable<T>(lhs: &Tensor<T>, rhs: &Tensor<T>) -> (ok: bool)
    ensures
        ok == conformant(lhs@, rhs@),
{
    rhs.is_scalar() || lhs.is_scalar() || same_dims(lhs.shape(), rhs.shape())
}

/// The shape that the combination of the two tensors has. An output that
/// is to take the combination must be given this shape.
pub fn result_shape<'a, T>(lhs: &'a Tensor<T>, rhs: &'a Tensor<T>) -> (dims: &'a [usize])
    ensures
        dims@ == result_dims(lhs@, rhs@),
{
    if !rhs.is_scalar() && lhs.is_scalar() {
        rhs.shape()
    } else {
        lhs.shape()
    }
}

/// Combines an owned tensor with a bare value: every element of `lhs` is
/// replaced, in its own buffer, by its combination with `rhs`.
pub fn apply_scalar<T: Copy, Op: Operator<T>>(lhs: Tensor<T>, rhs: T) -> (out: Tensor<T>)
    requires
        scalable::<T, Op>(lhs@, rhs),
    ensures
        out@.dims == lhs@.dims,
        out@.elems.len() == lhs@.elems.len(),
        Op::faithful() ==> out@ == scaled::<T, Op>(lhs@, rhs),
{
    let ghost expected = scaled::<T, Op>(lhs@, rhs);
    let mut out = lhs;
    stretch_right_in_place::<T, Op>(&mut out, rhs);
    proof {
        if Op::faithful() {
            assert(out@ =~= expected);
        }
    }
    out
}

/// Combines two tensors of which the left one is owned. Its buffer is
/// reused for the result, unless it is the scalar that is stretched over
/// the right operand: the result then has a buffer of its own.
pub fn apply_owned<T: Copy, Op: Operator<T>>(lhs: Tensor<T>, rhs: &Tensor<T>) -> (out: Tensor<T>)
    requires
        combinable::<T, Op>(lhs@, rhs@),
    ensures
        out@.dims == result_dims(lhs@, rhs@),
        out@.elems.len() == result_len(lhs@, rhs@),
        Op::faithful() ==> out@ == combined::<T, Op>(lhs@, rhs@),
{
    let ghost expected = combined::<T, Op>(lhs@, rhs@);
    proof {
        lhs.lemma_model_wf();
        rhs.lemma_model_wf();
        lemma_combinable_cases::<T, Op>(lhs@, rhs@);
    }
    let out = if rhs.is_scalar() {
        let mut out = lhs;
        stretch_right_in_place::<T, Op>(&mut out, rhs.scalar_value());
        out
    } else if lhs.is_scalar() {
        let value: T = lhs.scalar_value();
        let mut out = Tensor::filled(rhs.shape(), value);
        stretch_left_into::<T, Op>(value, rhs, &mut out);
        out
    } else {
        let mut out = lhs;
        pair_in_place::<T, Op>(&mut out, rhs);
        out
    };
    proof {
        if Op::faithful() {
            assert(out@ =~= expected);
        }
    }
    out
}

/// Combines two borrowed tensors. Neither is touched: the result has a
/// buffer of its own.
pub fn apply_borrowed<T: Copy, Op: Operator<T>>(lhs: &Tensor<T>, rhs: &Tensor<T>) -> (out: Tensor<
    T,
>)
    requires
        combinable::<T, Op>(lhs@, rhs@),
    ensures
        out@.dims == result_dims(lhs@, rhs@),
        out@.elems.len() == result_len(lhs@, rhs@),
        Op::faithful() ==> out@ == combined::<T, Op>(lhs@, rhs@),
{
    let ghost expected = combined::<T, Op>(lhs@, rhs@);
    proof {
        lhs.lemma_model_wf();
        rhs.lemma_model_wf();
        lemma_combinable_cases::<T, Op>(lhs@, rhs@);
    }
    let out = if rhs.is_scalar() {
        let mut out = lhs.clone();
        stretch_right_in_place::<T, Op>(&mut out, rhs.scalar_value());
        out
    } else if lhs.is_scalar() {
        let value: T = lhs.scalar_value();
        let mut out = Tensor::filled(rhs.shape(), value);
        stretch_left_into::<T, Op>(value, rhs, &mut out);
        out
    } else {
        let mut out = lhs.clone();
        pair_in_place::<T, Op>(&mut out, rhs);
        out
    };
    proof {
        if Op::faithful() {
            assert(out@ =~= expected);
        }
    }
    out
}

/// Combines two borrowed tensors into `out`, to which the caller has given
/// the shape of the result. What `out` held before is overwritten, and
/// `out` is then the tensor that `apply_borrowed` returns.
pub fn apply_with_out<T: Copy, Op: Operator<T>>(
    lhs: &Tensor<T>,
    rhs: &Tensor<T>,
    out: &mut Tensor<T>,
)
    requires
        combinable::<T, Op>(lhs@, rhs@),
        old(out)@.dims == result_dims(lhs@, rhs@),
    ensures
        final(out)@.dims == old(out)@.dims,
        final(out)@.elems.len() == result_len(lhs@, rhs@),
        Op::faithful() ==> final(out)@ == combined::<T, Op>(lhs@, rhs@),
{
    let ghost expected = combined::<T, Op>(lhs@, rhs@);
    proof {
        lhs.lemma_model_wf();
        rhs.lemma_model_wf();
        out.lemma_model_wf();
        lemma_combinable_cases::<T, Op>(lhs@, rhs@);
    }
    if rhs.is_scalar() {
        stretch_right_into::<T, Op>(lhs, rhs.scalar_value(), out);
    } else if lhs.is_scalar() {
        stretch_left_into::<T, Op>(lhs.scalar_value(), rhs, out);
    } else {
        pair_into::<T, Op>(lhs, rhs, out);
    }
    proof {
        if Op::faithful() {
            assert(out@ =~= expected);
        }
    }
}

} // verus!
