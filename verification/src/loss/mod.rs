//! Losses: a score of a prediction against its target, and the gradient of
//! that score with respect to the prediction.

use crate::tensor::{Tensor, TensorView};
use vstd::prelude::*;

pub mod mse;

verus! {

/// A loss: a function of a prediction and a target that scores the one
/// against the other, together with its gradient.
///
/// An implementor says what the score and the gradient are, as functions of
/// the two tensors, and on which pairs they are defined.
pub trait Loss<T> {
    /// Whether the score of `pred` against `target` is defined.
    spec fn forward_defined(&self, pred: TensorView<T>, target: TensorView<T>) -> bool;

    /// The score of `pred` against `target`, a tensor of shape `[1]`.
    spec fn value(&self, pred: TensorView<T>, target: TensorView<T>) -> TensorView<T>;

    /// Whether the gradient at `pred` against `target` is defined.
    spec fn backward_defined(&self, pred: TensorView<T>, target: TensorView<T>) -> bool;

    /// The gradient of the score with respect to `pred`.
    spec fn gradient(&self, pred: TensorView<T>, target: TensorView<T>) -> TensorView<T>;

    /// The score of `pred` against `target`.
    fn forward(&self, pred: &Tensor<T>, target: &Tensor<T>) -> (r: Tensor<T>)
        requires
            self.forward_defined(pred@, target@),
        ensures
            r@ == self.value(pred@, target@),
            r@.shape == seq![1usize],
    ;

    /// The gradient of the score with respect to `pred`.
    fn backward(&self, pred: &Tensor<T>, target: &Tensor<T>) -> (r: Tensor<T>)
        requires
            self.backward_defined(pred@, target@),
        ensures
            r@ == self.gradient(pred@, target@),
    ;
}

} // verus!
