//! The dense layer: a linear transform of its input plus a bias.

use crate::layer::activation::{activated, activation_fits};
use crate::layer::trainable::Layer;
use crate::tensor::{
    lemma_shape_size_matrix, lemma_shape_size_vector, same_shape, Tensor, TensorView,
};
use crate::types::{default_fixed, zero, zero_value, Accuracy, Randomizable};
use vstd::prelude::*;

verus! {

/// The parameters of a dense layer.
pub struct DenseView<T> {
    pub weights: TensorView<T>,
    pub bias: TensorView<T>,
}

impl<T> DenseView<T> {
    /// The weights are a matrix, and the bias is a vector as long as the
    /// matrix's rows.
    pub open spec fn wf(self) -> bool {
        &&& self.weights.wf()
        &&& self.bias.wf()
        &&& self.weights.rank() == 2
        &&& self.bias.shape == seq![self.weights.shape[1]]
    }

    /// `input` is a matrix with as many columns as the weights have rows,
    /// input, weights and bias have one representation, and the output has a
    /// size that fits.
    pub open spec fn forward_fits(self, input: TensorView<T>) -> bool {
        &&& input.rank() == 2
        &&& input.shape[1] == self.weights.shape[0]
        &&& input.accuracy == self.weights.accuracy
        &&& input.accuracy == self.bias.accuracy
        &&& input.shape[0] * self.weights.shape[1] <= usize::MAX
    }

    /// The layer takes `input`, and `target` has the shape and the
    /// representation of the layer's output on it.
    pub open spec fn sample_fits(self, input: TensorView<T>, target: TensorView<T>) -> bool {
        &&& self.forward_fits(input)
        &&& target.shape == seq![input.shape[0], self.weights.shape[1]]
        &&& target.accuracy == input.accuracy
    }

    /// Input and arriving gradient are matrices with as many rows as each
    /// other, the gradient has as many columns as the weights, all three have
    /// one representation, and the results have sizes that fit.
    pub open spec fn backward_fits(self, input: TensorView<T>, grad: TensorView<T>) -> bool {
        &&& input.rank() == 2
        &&& grad.rank() == 2
        &&& input.shape[0] == grad.shape[0]
        &&& grad.shape[1] == self.weights.shape[1]
        &&& input.accuracy == grad.accuracy
        &&& grad.accuracy == self.weights.accuracy
        &&& input.shape[1] * grad.shape[1] <= usize::MAX
        &&& grad.shape[0] * self.weights.shape[0] <= usize::MAX
    }

    /// Each gradient has the shape and the representation of its parameter.
    pub open spec fn update_fits(self, grad_w: TensorView<T>, grad_b: TensorView<T>) -> bool {
        &&& grad_w.shape == self.weights.shape
        &&& grad_b.shape == self.bias.shape
        &&& grad_w.accuracy == self.weights.accuracy
        &&& grad_b.accuracy == self.bias.accuracy
    }
}

impl<T: Copy + core::ops::Add<Output = T> + core::ops::Mul<Output = T> + Default + core::ops::Sub<
    Output = T,
>> DenseView<T> {
    /// `input` is a matrix with as many columns as the weights have rows.
    pub open spec fn admits(self, input: TensorView<T>) -> bool {
        input.rank() == 2 && input.shape[1] == self.weights.shape[0]
    }

    /// The input times the weights, plus the bias on every row.
    pub open spec fn linear(self, input: TensorView<T>) -> TensorView<T> {
        input.matmul(self.weights).added(self.bias)
    }

    /// Input, weights and bias have one representation, the output has a size
    /// that fits, and `T` permits every operation of the forward pass.
    pub open spec fn forward_in_range(self, input: TensorView<T>) -> bool {
        &&& input.accuracy == self.weights.accuracy
        &&& input.accuracy == self.bias.accuracy
        &&& input.shape[0] * self.weights.shape[1] <= usize::MAX
        &&& input.matmul_in_range(self.weights)
        &&& input.matmul(self.weights).add_in_range(self.bias)
    }

    /// The gradient with respect to the weights: the transposed input times
    /// the gradient that arrives.
    pub open spec fn weight_gradient(self, input: TensorView<T>, grad: TensorView<T>) -> TensorView<
        T,
    > {
        input.transposed().matmul(grad)
    }

    /// The gradient with respect to the bias: the arriving gradient's column
    /// totals.
    pub open spec fn bias_gradient(self, input: TensorView<T>, grad: TensorView<T>) -> TensorView<
        T,
    > {
        grad.summed(0)
    }

    /// The gradient with respect to the input: the arriving gradient times
    /// the transposed weights.
    pub open spec fn input_gradient(self, input: TensorView<T>, grad: TensorView<T>) -> TensorView<
        T,
    > {
        grad.matmul(self.weights.transposed())
    }

    /// Input and arriving gradient fit the layer and each other, and `T`
    /// permits every operation of the backward pass.
    pub open spec fn backward_defined(self, input: TensorView<T>, grad: TensorView<T>) -> bool {
        &&& self.backward_fits(input, grad)
        &&& input.transposed().matmul_in_range(grad)
        &&& grad.sum_in_range(0)
        &&& grad.matmul_in_range(self.weights.transposed())
    }

    /// The parameters less `learning_rate` times their gradients.
    pub open spec fn updated(self, grad_w: TensorView<T>, grad_b: TensorView<T>, learning_rate: T)
        -> DenseView<T> {
        DenseView {
            weights: self.weights.subtracted(grad_w.scaled(learning_rate)),
            bias: self.bias.subtracted(grad_b.scaled(learning_rate)),
        }
    }

    /// Each gradient has the shape and the representation of its parameter,
    /// and `T` permits every operation of the update.
    pub open spec fn update_defined(
        self,
        grad_w: TensorView<T>,
        grad_b: TensorView<T>,
        learning_rate: T,
    ) -> bool {
        &&& self.update_fits(grad_w, grad_b)
        &&& grad_w.scale_in_range(learning_rate)
        &&& grad_b.scale_in_range(learning_rate)
        &&& self.weights.sub_in_range(grad_w.scaled(learning_rate))
        &&& self.bias.sub_in_range(grad_b.scaled(learning_rate))
    }
}

/// The output of a layer on an input that fits has the input's rows, the
/// weights' columns and the input's representation, with or without an
/// activation.
pub proof fn lemma_output_shape<T, F>(state: DenseView<T>, input: TensorView<T>, activation: Option<F>) where
    T: Copy + core::ops::Add<Output = T> + core::ops::Mul<Output = T> + Default + core::ops::Sub<
        Output = T,
    >,
    F: Fn(T) -> T,

    requires
        state.forward_fits(input),
    ensures
        state.admits(input),
        activated(state.linear(input), activation).shape == seq![
            input.shape[0],
            state.weights.shape[1],
        ],
        activated(state.linear(input), activation).accuracy == input.accuracy,
{
}

/// A layer that multiplies its input by a weight matrix and adds a bias to
/// every row of the product.
pub struct DenseLayer<T> {
    weights: Tensor<T>,
    bias: Tensor<T>,
}

impl<T> View for DenseLayer<T> {
    type V = DenseView<T>;

    closed spec fn view(&self) -> DenseView<T> {
        DenseView { weights: self.weights@, bias: self.bias@ }
    }
}

impl<T> DenseLayer<T> {
    /// Holds of every dense layer: the weights are a matrix, and the bias is
    /// a vector as long as the matrix's rows.
    #[verifier::type_invariant]
    pub open spec fn inv(&self) -> bool {
        self@.wf()
    }
}

impl<T> DenseLayer<T> where
    T: Randomizable + Copy + core::ops::Add<Output = T> + core::ops::Mul<Output = T> + Default
        + core::ops::Sub<Output = T>,
 {
    /// A layer from `input_size` inputs to `output_size` outputs: the weights
    /// are whatever `T::random_weight()` supplies, one call per weight, and
    /// the bias is zero.
    pub fn new(input_size: usize, output_size: usize, accuracy: Accuracy) -> (r: DenseLayer<T>)
        requires
            input_size * output_size <= usize::MAX,
        ensures
            r@.wf(),
            r@.weights.shape == seq![input_size, output_size],
            r@.weights.accuracy == accuracy,
            forall|i: int|
                0 <= i < input_size * output_size ==> call_ensures(
                    T::random_weight,
                    (),
                    #[trigger] r@.weights.data[i],
                ),
            r@.bias.shape == seq![output_size],
            r@.bias.accuracy == accuracy,
            forall|i: int|
                0 <= i < output_size ==> call_ensures(T::default, (), #[trigger] r@.bias.data[i]),
            default_fixed::<T>() ==> forall|i: int|
                0 <= i < output_size ==> #[trigger] r@.bias.data[i] == zero::<T>(),
    {
        let count = input_size * output_size;
        let mut weight_data: Vec<T> = Vec::new();
        let mut i: usize = 0;
        while i < count
            invariant
                i <= count,
                weight_data@.len() == i,
                forall|k: int|
                    0 <= k < i ==> call_ensures(T::random_weight, (), #[trigger] weight_data@[k]),
            decreases count - i,
        {
            weight_data.push(T::random_weight());
            i += 1;
        }
        let mut bias_data: Vec<T> = Vec::new();
        let mut j: usize = 0;
        while j < output_size
            invariant
                j <= output_size,
                bias_data@.len() == j,
                forall|k: int| 0 <= k < j ==> call_ensures(T::default, (), #[trigger] bias_data@[k]),
                default_fixed::<T>() ==> forall|k: int|
                    0 <= k < j ==> #[trigger] bias_data@[k] == zero::<T>(),
            decreases output_size - j,
        {
            bias_data.push(zero_value::<T>());
            j += 1;
        }
        let mut weight_shape: Vec<usize> = Vec::with_capacity(2);
        weight_shape.push(input_size);
        weight_shape.push(output_size);
        let mut bias_shape: Vec<usize> = Vec::with_capacity(1);
        bias_shape.push(output_size);
        proof {
            lemma_shape_size_matrix(weight_shape@);
            lemma_shape_size_vector(bias_shape@);
        }
        let weights = Tensor::new(accuracy, weight_data, weight_shape);
        let bias = Tensor::new(accuracy, bias_data, bias_shape);
        DenseLayer { weights, bias }
    }

    /// The layer's output on `input`: the input times the weights, plus the
    /// bias on every row, with `activation` applied to every element where
    /// there is one.
    ///
    /// An input that is no matrix, or whose rows are not as long as the
    /// weights have rows, is reported as an error.
    pub fn forward<F: Fn(T) -> T>(&self, input: &Tensor<T>, activation: Option<F>) -> (r: Result<
        Tensor<T>,
        String,
    >)
        requires
            self@.admits(input@) ==> self@.forward_in_range(input@) && activation_fits(
                self@.linear(input@),
                activation,
            ),
        ensures
            self@.wf(),
            match r {
                Ok(out) => self@.admits(input@) && out@ == activated(
                    self@.linear(input@),
                    activation,
                ),
                Err(msg) => !self@.admits(input@) && msg@ == (if input@.rank() != 2 {
                    "Input tensor must be 2D"@
                } else {
                    "Input tensor size does not match weight matrix"@
                }),
            },
    {
        proof {
            use_type_invariant(self);
        }
        if input.get_shape().len() != 2 {
            return Err("Input tensor must be 2D".to_owned());
        }
        if input.get_shape()[1] != self.weights.get_shape()[0] {
            return Err("Input tensor size does not match weight matrix".to_owned());
        }
        // Never taken: every layer keeps its bias as long as its weights' rows.
        if self.bias.get_shape().len() != 1 || self.bias.get_shape()[0]
            != self.weights.get_shape()[1] {
            return Err("Bias shape is not compatible with output shape".to_owned());
        }
        let linear_output = input.matmul(&self.weights);
        let output = linear_output.add(&self.bias);
        match activation {
            Some(activation_fn) => {
                let activated_output = output.map(activation_fn);
                Ok(activated_output)
            },
            None => Ok(output),
        }
    }

    /// The gradients with respect to the input, the weights and the bias, in
    /// that order, given the input of the forward pass and the gradient
    /// `dl_dy` with respect to its output.
    pub fn backward(&self, input: &Tensor<T>, dl_dy: &Tensor<T>) -> (r: (
        Tensor<T>,
        Tensor<T>,
        Tensor<T>,
    ))
        requires
            self@.backward_defined(input@, dl_dy@),
        ensures
            r.0@ == self@.input_gradient(input@, dl_dy@),
            r.1@ == self@.weight_gradient(input@, dl_dy@),
            r.2@ == self@.bias_gradient(input@, dl_dy@),
    {
        proof {
            use_type_invariant(self);
        }
        let input_t = input.transpose();
        let grad_weights = input_t.matmul(dl_dy);
        let grad_bias = dl_dy.sum(0);
        let weights_t = self.weights.transpose();
        let grad_input = dl_dy.matmul(&weights_t);
        (grad_input, grad_weights, grad_bias)
    }

    /// Whether the layer takes `input` and the forward pass can run on it, as
    /// far as shapes, representations and sizes go.
    pub fn can_forward(&self, input: &Tensor<T>) -> (r: bool)
        ensures
            r == self@.forward_fits(input@),
    {
        proof {
            use_type_invariant(self);
        }
        let shape = input.get_shape();
        let weights = self.weights.get_shape();
        if shape.len() != 2 || shape[1] != weights[0] {
            return false;
        }
        if *input.get_accuracy() != *self.weights.get_accuracy() || *input.get_accuracy()
            != *self.bias.get_accuracy() {
            return false;
        }
        shape[0].checked_mul(weights[1]).is_some()
    }

    /// Whether the layer can take a training step on `input` against
    /// `target`, as far as shapes, representations and sizes go.
    pub fn can_train_on(&self, input: &Tensor<T>, target: &Tensor<T>) -> (r: bool)
        ensures
            r == self@.sample_fits(input@, target@),
    {
        proof {
            use_type_invariant(self);
        }
        if !self.can_forward(input) {
            return false;
        }
        let shape = target.get_shape();
        if *target.get_accuracy() != *input.get_accuracy() || shape.len() != 2 {
            return false;
        }
        let r = shape[0] == input.get_shape()[0] && shape[1] == self.weights.get_shape()[1];
        assert(r == (shape@ =~= seq![input@.shape[0], self@.weights.shape[1]]));
        r
    }

    /// Whether the backward pass can run on `input` and the gradient
    /// `dl_dy`, as far as shapes, representations and sizes go.
    pub fn can_backward(&self, input: &Tensor<T>, dl_dy: &Tensor<T>) -> (r: bool)
        ensures
            r == self@.backward_fits(input@, dl_dy@),
    {
        proof {
            use_type_invariant(self);
        }
        let shape = input.get_shape();
        let grad = dl_dy.get_shape();
        let weights = self.weights.get_shape();
        if shape.len() != 2 || grad.len() != 2 {
            return false;
        }
        if shape[0] != grad[0] || grad[1] != weights[1] {
            return false;
        }
        if *input.get_accuracy() != *dl_dy.get_accuracy() || *dl_dy.get_accuracy()
            != *self.weights.get_accuracy() {
            return false;
        }
        shape[1].checked_mul(grad[1]).is_some() && grad[0].checked_mul(weights[0]).is_some()
    }

    /// Whether the two gradients can update the parameters, as far as shapes
    /// and representations go.
    pub fn can_update(&self, grad_w: &Tensor<T>, grad_b: &Tensor<T>) -> (r: bool)
        ensures
            r == self@.update_fits(grad_w@, grad_b@),
    {
        same_shape(grad_w.get_shape(), self.weights.get_shape()) && same_shape(
            grad_b.get_shape(),
            self.bias.get_shape(),
        ) && *grad_w.get_accuracy() == *self.weights.get_accuracy() && *grad_b.get_accuracy()
            == *self.bias.get_accuracy()
    }

    /// The weight matrix.
    pub fn get_weights(&self) -> (r: &Tensor<T>)
        ensures
            r@ == self@.weights,
            self@.wf(),
    {
        proof {
            use_type_invariant(self);
        }
        &self.weights
    }

    /// The bias vector.
    pub fn get_bias(&self) -> (r: &Tensor<T>)
        ensures
            r@ == self@.bias,
            self@.wf(),
    {
        proof {
            use_type_invariant(self);
        }
        &self.bias
    }

    /// Replaces the weights by a tensor of the same shape.
    pub fn set_weights(&mut self, new_weights: &Tensor<T>)
        requires
            new_weights@.shape == old(self)@.weights.shape,
        ensures
            final(self)@ == (DenseView { weights: new_weights@, bias: old(self)@.bias }),
    {
        proof {
            use_type_invariant(&*self);
            use_type_invariant(new_weights);
        }
        self.weights = new_weights.clone();
    }

    /// Replaces the bias by a tensor of the same shape.
    pub fn update_bias(&mut self, new_bias: &Tensor<T>)
        requires
            new_bias@.shape == old(self)@.bias.shape,
        ensures
            final(self)@ == (DenseView { weights: old(self)@.weights, bias: new_bias@ }),
    {
        proof {
            use_type_invariant(&*self);
            use_type_invariant(new_bias);
        }
        self.bias = new_bias.clone();
    }
}

impl<T> Layer<T> for DenseLayer<T> where
    T: Randomizable + Copy + core::ops::Add<Output = T> + core::ops::Mul<Output = T> + Default
        + core::ops::Sub<Output = T>,
 {
    open spec fn admits(state: DenseView<T>, input: TensorView<T>) -> bool {
        state.admits(input)
    }

    open spec fn forward_in_range(state: DenseView<T>, input: TensorView<T>) -> bool {
        state.forward_in_range(input)
    }

    open spec fn linear(state: DenseView<T>, input: TensorView<T>) -> TensorView<T> {
        state.linear(input)
    }

    open spec fn backward_defined(
        state: DenseView<T>,
        input: TensorView<T>,
        grad_output: TensorView<T>,
    ) -> bool {
        state.backward_defined(input, grad_output)
    }

    open spec fn input_gradient(
        state: DenseView<T>,
        input: TensorView<T>,
        grad_output: TensorView<T>,
    ) -> TensorView<T> {
        state.input_gradient(input, grad_output)
    }

    open spec fn weight_gradient(
        state: DenseView<T>,
        input: TensorView<T>,
        grad_output: TensorView<T>,
    ) -> TensorView<T> {
        state.weight_gradient(input, grad_output)
    }

    open spec fn bias_gradient(
        state: DenseView<T>,
        input: TensorView<T>,
        grad_output: TensorView<T>,
    ) -> TensorView<T> {
        state.bias_gradient(input, grad_output)
    }

    open spec fn update_defined(
        state: DenseView<T>,
        grad_w: TensorView<T>,
        grad_b: TensorView<T>,
        learning_rate: T,
    ) -> bool {
        state.update_defined(grad_w, grad_b, learning_rate)
    }

    open spec fn updated(
        state: DenseView<T>,
        grad_w: TensorView<T>,
        grad_b: TensorView<T>,
        learning_rate: T,
    ) -> DenseView<T> {
        state.updated(grad_w, grad_b, learning_rate)
    }

    fn forward<F: Fn(T) -> T>(&self, input: &Tensor<T>, activation: Option<F>) -> (r: Result<
        Tensor<T>,
        String,
    >) {
        DenseLayer::forward(self, input, activation)
    }

    fn backward(&self, input: &Tensor<T>, grad_output: &Tensor<T>) -> (r: (
        Tensor<T>,
        Tensor<T>,
        Tensor<T>,
    )) {
        DenseLayer::backward(self, input, grad_output)
    }

    /// Replaces the weights by the weights less `learning_rate` times
    /// `grad_w`, and the bias by the bias less `learning_rate` times `grad_b`.
    fn update_params(&mut self, grad_w: &Tensor<T>, grad_b: &Tensor<T>, learning_rate: T) {
        let new_weights = self.weights.sub(&grad_w.scale(learning_rate));
        let new_bias = self.bias.sub(&grad_b.scale(learning_rate));
        self.set_weights(&new_weights);
        self.update_bias(&new_bias);
    }
}

} // verus!
