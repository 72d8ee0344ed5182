//! The operators on tensors, one module for each.

pub mod add;
pub mod sub;
pub mod mul;
pub mod div;
pub mod rem;
pub mod bitand;
pub mod bitor;
pub mod bitxor;
pub mod neg;
