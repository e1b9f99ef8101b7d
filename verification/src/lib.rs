//! A small tensor engine with hand-derived gradients: shaped numeric buffers,
//! a dense layer, a mean-squared-error loss and a sequential training loop.
//!
//! Every operation is stated over a mathematical view of its operands and is
//! proved never to fault: what would be a shape or range fault at run time is
//! a precondition here.

pub mod algebra;
pub mod layer;
pub mod loss;
pub mod model;
pub mod tensor;
pub mod types;
