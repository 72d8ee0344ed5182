//! Dense N-dimensional arrays with elementwise arithmetic under
//! broadcasting: two tensors combine where their shapes are equal or where
//! one of them holds a single element, which is then stretched over the
//! other.
//!
//! [`tensor`] holds the tensor value and its model, [`shape`] the arithmetic
//! of shapes, [`broadcast`] the one algorithm behind every binary operator,
//! [`ops`] the operators themselves, [`literal`] the construction of tensors
//! from written-out values, and [`laws`] what holds of the operators for all
//! tensors.

pub mod shape;
pub mod tensor;
pub mod equality;
pub mod broadcast;
pub mod ops;
pub mod literal;
pub mod laws;

pub use tensor::{Tensor, TensorModel};
