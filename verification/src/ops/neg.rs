//! Elementwise negation of tensors: `-` on an owned or a borrowed tensor.
//!
//! In verified code the operator is written as the method call `.neg()`.

use vstd::prelude::*;
use vstd::std_specs::ops::{NegSpec, NegSpecImpl};
use std::ops::Neg;
use crate::tensor::{Tensor, TensorModel};

verus! {

/// Negation is defined on every element of the tensor.
pub open spec fn negatable<T: Neg<Output = T>>(t: TensorModel<T>) -> bool {
    forall|i: int| 0 <= i < t.elems.len() ==> #[trigger] t.elems[i].neg_req()
}

/// The tensor of the same shape whose every element is negated.
pub open spec fn negated<T: Neg<Output = T>>(t: TensorModel<T>) -> TensorModel<T> {
    TensorModel { dims: t.dims, elems: Seq::new(t.elems.len(), |i: int| t.elems[i].neg_spec()) }
}

/// `target[i] = -target[i]` at every position.
fn negate_in_place<T: Copy + Neg<Output = T>>(target: &mut Tensor<T>)
    requires
        negatable(old(target)@),
    ensures
        final(target)@.dims == old(target)@.dims,
        final(target)@.elems.len() == old(target)@.elems.len(),
        T::obeys_neg_spec() ==> final(target)@ == negated(old(target)@),
{
    let ghost before = target@;
    let n: usize = target.size();
    let mut i: usize = 0;
    while i < n
        invariant
            i <= n,
            n == before.elems.len(),
            target@.dims == before.dims,
            target@.elems.len() == n,
            negatable(before),
            forall|j: int| i <= j < n ==> target@.elems[j] == before.elems[j],
            T::obeys_neg_spec() ==> forall|j: int|
                0 <= j < i ==> target@.elems[j] == before.elems[j].neg_spec(),
        decreases n - i,
    {
        assert(before.elems[i as int].neg_req());
        let x: T = target.get(i).neg();
        target.set(i, x);
        i += 1;
    }
    proof {
        if T::obeys_neg_spec() {
            assert(target@ =~= negated(before));
        }
    }
}

/// `-tensor` is admitted where negation is defined on every element. No
/// spec function names the tensor that comes back: `neg` itself says what
/// it holds, through its model.
impl<T: Copy + Neg<Output = T>> NegSpecImpl for Tensor<T> {
    open spec fn obeys_neg_spec() -> bool {
        false
    }

    open spec fn neg_req(self) -> bool {
        negatable(self@)
    }

    open spec fn neg_spec(self) -> Tensor<T> {
        arbitrary()
    }
}

impl<T: Copy + Neg<Output = T>> Neg for Tensor<T> {
    type Output = Tensor<T>;

    /// Every element is negated in the buffer of `self`.
    fn neg(self) -> (out: Tensor<T>)
        ensures
            out@.dims == self@.dims,
            T::obeys_neg_spec() ==> out@ == negated(self@),
    {
        let mut out = self;
        negate_in_place(&mut out);
        out
    }
}

/// `-&tensor`: as for an owned tensor.
impl<'a, T: Copy + Neg<Output = T>> NegSpecImpl for &'a Tensor<T> {
    open spec fn obeys_neg_spec() -> bool {
        false
    }

    open spec fn neg_req(self) -> bool {
        negatable(self@)
    }

    open spec fn neg_spec(self) -> Tensor<T> {
        arbitrary()
    }
}

impl<'a, T: Copy + Neg<Output = T>> Neg for &'a Tensor<T> {
    type Output = Tensor<T>;

    /// The borrowed tensor is not touched: the result is new.
    fn neg(self) -> (out: Tensor<T>)
        ensures
            out@.dims == self@.dims,
            T::obeys_neg_spec() ==> out@ == negated(self@),
    {
        let mut out = self.clone();
        negate_in_place(&mut out);
        out
    }
}

} // verus!
