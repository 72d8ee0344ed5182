//! Elementwise multiplication of tensors.
//!
//! `*` between two tensors, between a tensor and a bare element, and into
//! a caller's output.

use vstd::prelude::*;
use vstd::std_specs::ops::{MulSpec, MulSpecImpl};
use std::ops::Mul;
use crate::broadcast::{apply_borrowed, apply_owned, apply_scalar, apply_with_out};
use crate::broadcast::{combinable, combined, result_dims, scalable, scaled, Operator};
use crate::tensor::Tensor;

verus! {

/// The operation `*` on elements, as the element type defines it.
pub struct Multiplication;

impl<T: Copy + Mul<Output = T>> Operator<T> for Multiplication {
    open spec fn faithful() -> bool {
        T::obeys_mul_spec()
    }

    open spec fn defined(lhs: T, rhs: T) -> bool {
        lhs.mul_req(rhs)
    }

    open spec fn apply(lhs: T, rhs: T) -> T {
        lhs.mul_spec(rhs)
    }

    fn eval(lhs: T, rhs: T) -> (out: T) {
        lhs * rhs
    }
}

/// `tensor * tensor` is admitted where the operands are conformant and
/// `*` is defined on the elements at every position. No spec function
/// names the tensor that comes back: `mul` itself says what it holds,
/// through its model.
impl<T: Copy + Mul<Output = T>> MulSpecImpl for Tensor<T> {
    open spec fn obeys_mul_spec() -> bool {
        false
    }

    open spec fn mul_req(self, rhs: Tensor<T>) -> bool {
        combinable::<T, Multiplication>(self@, rhs@)
    }

    open spec fn mul_spec(self, rhs: Tensor<T>) -> Tensor<T> {
        arbitrary()
    }
}

impl<T: Copy + Mul<Output = T>> Mul for Tensor<T> {
    type Output = Tensor<T>;

    /// Both operands owned. The buffer of `self` is reused unless `self`
    /// is the scalar that is stretched over `rhs`.
    fn mul(self, rhs: Tensor<T>) -> (out: Tensor<T>)
        ensures
            out@.dims == result_dims(self@, rhs@),
            T::obeys_mul_spec() ==> out@ == combined::<T, Multiplication>(self@, rhs@),
    {
        apply_owned::<T, Multiplication>(self, &rhs)
    }
}

/// `tensor * &tensor`: as for two owned tensors.
impl<'a, T: Copy + Mul<Output = T>> MulSpecImpl<&'a Tensor<T>> for Tensor<T> {
    open spec fn obeys_mul_spec() -> bool {
        false
    }

    open spec fn mul_req(self, rhs: &'a Tensor<T>) -> bool {
        combinable::<T, Multiplication>(self@, rhs@)
    }

    open spec fn mul_spec(self, rhs: &'a Tensor<T>) -> Tensor<T> {
        arbitrary()
    }
}

impl<'a, T: Copy + Mul<Output = T>> Mul<&'a Tensor<T>> for Tensor<T> {
    type Output = Tensor<T>;

    /// Left operand owned, right operand borrowed. The buffer of `self`
    /// is reused unless `self` is the scalar that is stretched over `rhs`.
    fn mul(self, rhs: &'a Tensor<T>) -> (out: Tensor<T>)
        ensures
            out@.dims == result_dims(self@, rhs@),
            T::obeys_mul_spec() ==> out@ == combined::<T, Multiplication>(self@, rhs@),
    {
        apply_owned::<T, Multiplication>(self, rhs)
    }
}

/// `&tensor * &tensor`: as for two owned tensors.
impl<'a, T: Copy + Mul<Output = T>> MulSpecImpl<&'a Tensor<T>> for &'a Tensor<T> {
    open spec fn obeys_mul_spec() -> bool {
        false
    }

    open spec fn mul_req(self, rhs: &'a Tensor<T>) -> bool {
        combinable::<T, Multiplication>(self@, rhs@)
    }

    open spec fn mul_spec(self, rhs: &'a Tensor<T>) -> Tensor<T> {
        arbitrary()
    }
}

impl<'a, T: Copy + Mul<Output = T>> Mul<&'a Tensor<T>> for &'a Tensor<T> {
    type Output = Tensor<T>;

    /// Both operands borrowed: neither is touched, the result is new.
    fn mul(self, rhs: &'a Tensor<T>) -> (out: Tensor<T>)
        ensures
            out@.dims == result_dims(self@, rhs@),
            T::obeys_mul_spec() ==> out@ == combined::<T, Multiplication>(self@, rhs@),
    {
        apply_borrowed::<T, Multiplication>(self, rhs)
    }
}

/// `tensor * element` is admitted where `*` is defined between every
/// element of the tensor and the bare one.
impl<T: Copy + Mul<Output = T>> MulSpecImpl<T> for Tensor<T> {
    open spec fn obeys_mul_spec() -> bool {
        false
    }

    open spec fn mul_req(self, rhs: T) -> bool {
        scalable::<T, Multiplication>(self@, rhs)
    }

    open spec fn mul_spec(self, rhs: T) -> Tensor<T> {
        arbitrary()
    }
}

impl<T: Copy + Mul<Output = T>> Mul<T> for Tensor<T> {
    type Output = Tensor<T>;

    /// The bare element is combined with every element of `self`, in the
    /// buffer of `self`.
    fn mul(self, rhs: T) -> (out: Tensor<T>)
        ensures
            out@.dims == self@.dims,
            T::obeys_mul_spec() ==> out@ == scaled::<T, Multiplication>(self@, rhs),
    {
        apply_scalar::<T, Multiplication>(self, rhs)
    }
}

impl<T: Copy + Mul<Output = T>> Tensor<T> {
    /// Writes `self * rhs` into `out`, which must have the shape of the
    /// result. Afterwards `out` is the tensor that `&self * &rhs` returns.
    pub fn mul_with_out(&self, rhs: &Tensor<T>, out: &mut Tensor<T>)
        requires
            combinable::<T, Multiplication>(self@, rhs@),
            old(out)@.dims == result_dims(self@, rhs@),
        ensures
            final(out)@.dims == old(out)@.dims,
            T::obeys_mul_spec() ==> final(out)@ == combined::<T, Multiplication>(self@, rhs@),
    {
        apply_with_out::<T, Multiplication>(self, rhs, out)
    }
}

} // verus!
