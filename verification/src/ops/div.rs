//! Elementwise division of tensors.
//!
//! `/` between two tensors, between a tensor and a bare element, and into
//! a caller's output.

use vstd::prelude::*;
use vstd::std_specs::ops::{DivSpec, DivSpecImpl};
use std::ops::Div;
use crate::broadcast::{apply_borrowed, apply_owned, apply_scalar, apply_with_out};
use crate::broadcast::{combinable, combined, result_dims, scalable, scaled, Operator};
use crate::tensor::Tensor;

verus! {

/// The operation `/` on elements, as the element type defines it.
pub struct Division;

impl<T: Copy + Div<Output = T>> Operator<T> for Division {
    open spec fn faithful() -> bool {
        T::obeys_div_spec()
    }

    open spec fn defined(lhs: T, rhs: T) -> bool {
        lhs.div_req(rhs)
    }

    open spec fn apply(lhs: T, rhs: T) -> T {
        lhs.div_spec(rhs)
    }

    fn eval(lhs: T, rhs: T) -> (out: T) {
        lhs / rhs
    }
}

/// `tensor / tensor` is admitted where the operands are conformant and
/// `/` is defined on the elements at every position. No spec function
/// names the tensor that comes back: `div` itself says what it holds,
/// through its model.
impl<T: Copy + Div<Output = T>> DivSpecImpl for Tensor<T> {
    open spec fn obeys_div_spec() -> bool {
        false
    }

    open spec fn div_req(self, rhs: Tensor<T>) -> bool {
        combinable::<T, Division>(self@, rhs@)
    }

    open spec fn div_spec(self, rhs: Tensor<T>) -> Tensor<T> {
        arbitrary()
    }
}

impl<T: Copy + Div<Output = T>> Div for Tensor<T> {
    type Output = Tensor<T>;

    /// Both operands owned. The buffer of `self` is reused unless `self`
    /// is the scalar that is stretched over `rhs`.
    fn div(self, rhs: Tensor<T>) -> (out: Tensor<T>)
        ensures
            out@.dims == result_dims(self@, rhs@),
            T::obeys_div_spec() ==> out@ == combined::<T, Division>(self@, rhs@),
    {
        apply_owned::<T, Division>(self, &rhs)
    }
}

/// `tensor / &tensor`: as for two owned tensors.
impl<'a, T: Copy + Div<Output = T>> DivSpecImpl<&'a Tensor<T>> for Tensor<T> {
    open spec fn obeys_div_spec() -> bool {
        false
    }

    open spec fn div_req(self, rhs: &'a Tensor<T>) -> bool {
        combinable::<T, Division>(self@, rhs@)
    }

    open spec fn div_spec(self, rhs: &'a Tensor<T>) -> Tensor<T> {
        arbitrary()
    }
}

impl<'a, T: Copy + Div<Output = T>> Div<&'a Tensor<T>> for Tensor<T> {
    type Output = Tensor<T>;

    /// Left operand owned, right operand borrowed. The buffer of `self`
    /// is reused unless `self` is the scalar that is stretched over `rhs`.
    fn div(self, rhs: &'a Tensor<T>) -> (out: Tensor<T>)
        ensures
            out@.dims == result_dims(self@, rhs@),
            T::obeys_div_spec() ==> out@ == combined::<T, Division>(self@, rhs@),
    {
        apply_owned::<T, Division>(self, rhs)
    }
}

/// `&tensor / &tensor`: as for two owned tensors.
impl<'a, T: Copy + Div<Output = T>> DivSpecImpl<&'a Tensor<T>> for &'a Tensor<T> {
    open spec fn obeys_div_spec() -> bool {
        false
    }

    open spec fn div_req(self, rhs: &'a Tensor<T>) -> bool {
        combinable::<T, Division>(self@, rhs@)
    }

    open spec fn div_spec(self, rhs: &'a Tensor<T>) -> Tensor<T> {
        arbitrary()
    }
}

impl<'a, T: Copy + Div<Output = T>> Div<&'a Tensor<T>> for &'a Tensor<T> {
    type Output = Tensor<T>;

    /// Both operands borrowed: neither is touched, the result is new.
    fn div(self, rhs: &'a Tensor<T>) -> (out: Tensor<T>)
        ensures
            out@.dims == result_dims(self@, rhs@),
            T::obeys_div_spec() ==> out@ == combined::<T, Division>(self@, rhs@),
    {
        apply_borrowed::<T, Division>(self, rhs)
    }
}

/// `tensor / element` is admitted where `/` is defined between every
/// element of the tensor and the bare one.
impl<T: Copy + Div<Output = T>> DivSpecImpl<T> for Tensor<T> {
    open spec fn obeys_div_spec() -> bool {
        false
    }

    open spec fn div_req(self, rhs: T) -> bool {
        scalable::<T, Division>(self@, rhs)
    }

    open spec fn div_spec(self, rhs: T) -> Tensor<T> {
        arbitrary()
    }
}

impl<T: Copy + Div<Output = T>> Div<T> for Tensor<T> {
    type Output = Tensor<T>;

    /// The bare element is combined with every element of `self`, in the
    /// buffer of `self`.
    fn div(self, rhs: T) -> (out: Tensor<T>)
        ensures
            out@.dims == self@.dims,
            T::obeys_div_spec() ==> out@ == scaled::<T, Division>(self@, rhs),
    {
        apply_scalar::<T, Division>(self, rhs)
    }
}

impl<T: Copy + Div<Output = T>> Tensor<T> {
    /// Writes `self / rhs` into `out`, which must have the shape of the
    /// result. Afterwards `out` is the tensor that `&self / &rhs` returns.
    pub fn div_with_out(&self, rhs: &Tensor<T>, out: &mut Tensor<T>)
        requires
            combinable::<T, Division>(self@, rhs@),
            old(out)@.dims == result_dims(self@, rhs@),
        ensures
            final(out)@.dims == old(out)@.dims,
            T::obeys_div_spec() ==> final(out)@ == combined::<T, Division>(self@, rhs@),
    {
        apply_with_out::<T, Division>(self, rhs, out)
    }
}

} // verus!
