//! Elementwise remainder of tensors.
//!
//! `%` between two tensors, between a tensor and a bare element, and into
//! a caller's output.

use vstd::prelude::*;
use vstd::std_specs::ops::{RemSpec, RemSpecImpl};
use std::ops::Rem;
use crate::broadcast::{apply_borrowed, apply_owned, apply_scalar, apply_with_out};
use crate::broadcast::{combinable, combined, result_dims, scalable, scaled, Operator};
use crate::tensor::Tensor;

verus! {

/// The operation `%` on elements, as the element type defines it.
pub struct Remainder;

impl<T: Copy + Rem<Output = T>> Operator<T> for Remainder {
    open spec fn faithful() -> bool {
        T::obeys_rem_spec()
    }

    open spec fn defined(lhs: T, rhs: T) -> bool {
        lhs.rem_req(rhs)
    }

    open spec fn apply(lhs: T, rhs: T) -> T {
        lhs.rem_spec(rhs)
    }

    fn eval(lhs: T, rhs: T) -> (out: T) {
        lhs % rhs
    }
}

/// `tensor % tensor` is admitted where the operands are conformant and
/// `%` is defined on the elements at every position. No spec function
/// names the tensor that comes back: `rem` itself says what it holds,
/// through its model.
impl<T: Copy + Rem<Output = T>> RemSpecImpl for Tensor<T> {
    open spec fn obeys_rem_spec() -> bool {
        false
    }

    open spec fn rem_req(self, rhs: Tensor<T>) -> bool {
        combinable::<T, Remainder>(self@, rhs@)
    }

    open spec fn rem_spec(self, rhs: Tensor<T>) -> Tensor<T> {
        arbitrary()
    }
}

impl<T: Copy + Rem<Output = T>> Rem for Tensor<T> {
    type Output = Tensor<T>;

    /// Both operands owned. The buffer of `self` is reused unless `self`
    /// is the scalar that is stretched over `rhs`.
    fn rem(self, rhs: Tensor<T>) -> (out: Tensor<T>)
        ensures
            out@.dims == result_dims(self@, rhs@),
            T::obeys_rem_spec() ==> out@ == combined::<T, Remainder>(self@, rhs@),
    {
        apply_owned::<T, Remainder>(self, &rhs)
    }
}

/// `tensor % &tensor`: as for two owned tensors.
impl<'a, T: Copy + Rem<Output = T>> RemSpecImpl<&'a Tensor<T>> for Tensor<T> {
    open spec fn obeys_rem_spec() -> bool {
        false
    }

    open spec fn rem_req(self, rhs: &'a Tensor<T>) -> bool {
        combinable::<T, Remainder>(self@, rhs@)
    }

    open spec fn rem_spec(self, rhs: &'a Tensor<T>) -> Tensor<T> {
        arbitrary()
    }
}

impl<'a, T: Copy + Rem<Output = T>> Rem<&'a Tensor<T>> for Tensor<T> {
    type Output = Tensor<T>;

    /// Left operand owned, right operand borrowed. The buffer of `self`
    /// is reused unless `self` is the scalar that is stretched over `rhs`.
    fn rem(self, rhs: &'a Tensor<T>) -> (out: Tensor<T>)
        ensures
            out@.dims == result_dims(self@, rhs@),
            T::obeys_rem_spec() ==> out@ == combined::<T, Remainder>(self@, rhs@),
    {
        apply_owned::<T, Remainder>(self, rhs)
    }
}

/// `&tensor % &tensor`: as for two owned tensors.
impl<'a, T: Copy + Rem<Output = T>> RemSpecImpl<&'a Tensor<T>> for &'a Tensor<T> {
    open spec fn obeys_rem_spec() -> bool {
        false
    }

    open spec fn rem_req(self, rhs: &'a Tensor<T>) -> bool {
        combinable::<T, Remainder>(self@, rhs@)
    }

    open spec fn rem_spec(self, rhs: &'a Tensor<T>) -> Tensor<T> {
        arbitrary()
    }
}

impl<'a, T: Copy + Rem<Output = T>> Rem<&'a Tensor<T>> for &'a Tensor<T> {
    type Output = Tensor<T>;

    /// Both operands borrowed: neither is touched, the result is new.
    fn rem(self, rhs: &'a Tensor<T>) -> (out: Tensor<T>)
        ensures
            out@.dims == result_dims(self@, rhs@),
            T::obeys_rem_spec() ==> out@ == combined::<T, Remainder>(self@, rhs@),
    {
        apply_borrowed::<T, Remainder>(self, rhs)
    }
}

/// `tensor % element` is admitted where `%` is defined between every
/// element of the tensor and the bare one.
impl<T: Copy + Rem<Output = T>> RemSpecImpl<T> for Tensor<T> {
    open spec fn obeys_rem_spec() -> bool {
        false
    }

    open spec fn rem_req(self, rhs: T) -> bool {
        scalable::<T, Remainder>(self@, rhs)
    }

    open spec fn rem_spec(self, rhs: T) -> Tensor<T> {
        arbitrary()
    }
}

impl<T: Copy + Rem<Output = T>> Rem<T> for Tensor<T> {
    type Output = Tensor<T>;

    /// The bare element is combined with every element of `self`, in the
    /// buffer of `self`.
    fn rem(self, rhs: T) -> (out: Tensor<T>)
        ensures
            out@.dims == self@.dims,
            T::obeys_rem_spec() ==> out@ == scaled::<T, Remainder>(self@, rhs),
    {
        apply_scalar::<T, Remainder>(self, rhs)
    }
}

impl<T: Copy + Rem<Output = T>> Tensor<T> {
    /// Writes `self % rhs` into `out`, which must have the shape of the
    /// result. Afterwards `out` is the tensor that `&self % &rhs` returns.
    pub fn rem_with_out(&self, rhs: &Tensor<T>, out: &mut Tensor<T>)
        requires
            combinable::<T, Remainder>(self@, rhs@),
            old(out)@.dims == result_dims(self@, rhs@),
        ensures
            final(out)@.dims == old(out)@.dims,
            T::obeys_rem_spec() ==> final(out)@ == combined::<T, Remainder>(self@, rhs@),
    {
        apply_with_out::<T, Remainder>(self, rhs, out)
    }
}

} // verus!
