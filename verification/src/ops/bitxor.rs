//! Elementwise bitwise exclusive disjunction of tensors.
//!
//! `^` between two tensors, between a tensor and a bare element, and into
//! a caller's output.

use vstd::prelude::*;
use vstd::std_specs::ops::{BitXorSpec, BitXorSpecImpl};
use std::ops::BitXor;
use crate::broadcast::{apply_borrowed, apply_owned, apply_scalar, apply_with_out};
use crate::broadcast::{combinable, combined, result_dims, scalable, scaled, Operator};
use crate::tensor::Tensor;

verus! {

/// The operation `^` on elements, as the element type defines it.
pub struct BitwiseXor;

impl<T: Copy + BitXor<Output = T>> Operator<T> for BitwiseXor {
    open spec fn faithful() -> bool {
        T::obeys_bitxor_spec()
    }

    open spec fn defined(lhs: T, rhs: T) -> bool {
        lhs.bitxor_req(rhs)
    }

    open spec fn apply(lhs: T, rhs: T) -> T {
        lhs.bitxor_spec(rhs)
    }

    fn eval(lhs: T, rhs: T) -> (out: T) {
        lhs ^ rhs
    }
}

/// `tensor ^ tensor` is admitted where the operands are conformant and
/// `^` is defined on the elements at every position. No spec function
/// names the tensor that comes back: `bitxor` itself says what it holds,
/// through its model.
impl<T: Copy + BitXor<Output = T>> BitXorSpecImpl for Tensor<T> {
    open spec fn obeys_bitxor_spec() -> bool {
        false
    }

    open spec fn bitxor_req(self, rhs: Tensor<T>) -> bool {
        combinable::<T, BitwiseXor>(self@, rhs@)
    }

    open spec fn bitxor_spec(self, rhs: Tensor<T>) -> Tensor<T> {
        arbitrary()
    }
}

impl<T: Copy + BitXor<Output = T>> BitXor for Tensor<T> {
    type Output = Tensor<T>;

    /// Both operands owned. The buffer of `self` is reused unless `self`
    /// is the scalar that is stretched over `rhs`.
    fn bitxor(self, rhs: Tensor<T>) -> (out: Tensor<T>)
        ensures
            out@.dims == result_dims(self@, rhs@),
            T::obeys_bitxor_spec() ==> out@ == combined::<T, BitwiseXor>(self@, rhs@),
    {
        apply_owned::<T, BitwiseXor>(self, &rhs)
    }
}

/// `tensor ^ &tensor`: as for two owned tensors.
impl<'a, T: Copy + BitXor<Output = T>> BitXorSpecImpl<&'a Tensor<T>> for Tensor<T> {
    open spec fn obeys_bitxor_spec() -> bool {
        false
    }

    open spec fn bitxor_req(self, rhs: &'a Tensor<T>) -> bool {
        combinable::<T, BitwiseXor>(self@, rhs@)
    }

    open spec fn bitxor_spec(self, rhs: &'a Tensor<T>) -> Tensor<T> {
        arbitrary()
    }
}

impl<'a, T: Copy + BitXor<Output = T>> BitXor<&'a Tensor<T>> for Tensor<T> {
    type Output = Tensor<T>;

    /// Left operand owned, right operand borrowed. The buffer of `self`
    /// is reused unless `self` is the scalar that is stretched over `rhs`.
    fn bitxor(self, rhs: &'a Tensor<T>) -> (out: Tensor<T>)
        ensures
            out@.dims == result_dims(self@, rhs@),
            T::obeys_bitxor_spec() ==> out@ == combined::<T, BitwiseXor>(self@, rhs@),
    {
        apply_owned::<T, BitwiseXor>(self, rhs)
    }
}

/// `&tensor ^ &tensor`: as for two owned tensors.
impl<'a, T: Copy + BitXor<Output = T>> BitXorSpecImpl<&'a Tensor<T>> for &'a Tensor<T> {
    open spec fn obeys_bitxor_spec() -> bool {
        false
    }

    open spec fn bitxor_req(self, rhs: &'a Tensor<T>) -> bool {
        combinable::<T, BitwiseXor>(self@, rhs@)
    }

    open spec fn bitxor_spec(self, rhs: &'a Tensor<T>) -> Tensor<T> {
        arbitrary()
    }
}

impl<'a, T: Copy + BitXor<Output = T>> BitXor<&'a Tensor<T>> for &'a Tensor<T> {
    type Output = Tensor<T>;

    /// Both operands borrowed: neither is touched, the result is new.
    fn bitxor(self, rhs: &'a Tensor<T>) -> (out: Tensor<T>)
        ensures
            out@.dims == result_dims(self@, rhs@),
            T::obeys_bitxor_spec() ==> out@ == combined::<T, BitwiseXor>(self@, rhs@),
    {
        apply_borrowed::<T, BitwiseXor>(self, rhs)
    }
}

/// `tensor ^ element` is admitted where `^` is defined between every
/// element of the tensor and the bare one.
impl<T: Copy + BitXor<Output = T>> BitXorSpecImpl<T> for Tensor<T> {
    open spec fn obeys_bitxor_spec() -> bool {
        false
    }

    open spec fn bitxor_req(self, rhs: T) -> bool {
        scalable::<T, BitwiseXor>(self@, rhs)
    }

    open spec fn bitxor_spec(self, rhs: T) -> Tensor<T> {
        arbitrary()
    }
}

impl<T: Copy + BitXor<Output = T>> BitXor<T> for Tensor<T> {
    type Output = Tensor<T>;

    /// The bare element is combined with every element of `self`, in the
    /// buffer of `self`.
    fn bitxor(self, rhs: T) -> (out: Tensor<T>)
        ensures
            out@.dims == self@.dims,
            T::obeys_bitxor_spec() ==> out@ == scaled::<T, BitwiseXor>(self@, rhs),
    {
        apply_scalar::<T, BitwiseXor>(self, rhs)
    }
}

impl<T: Copy + BitXor<Output = T>> Tensor<T> {
    /// Writes `self ^ rhs` into `out`, which must have the shape of the
    /// result. Afterwards `out` is the tensor that `&self ^ &rhs` returns.
    pub fn bitxor_with_out(&self, rhs: &Tensor<T>, out: &mut Tensor<T>)
        requires
            combinable::<T, BitwiseXor>(self@, rhs@),
            old(out)@.dims == result_dims(self@, rhs@),
        ensures
            final(out)@.dims == old(out)@.dims,
            T::obeys_bitxor_spec() ==> final(out)@ == combined::<T, BitwiseXor>(self@, rhs@),
    {
        apply_with_out::<T, BitwiseXor>(self, rhs, out)
    }
}

} // verus!
