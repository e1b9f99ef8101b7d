//! What every layer offers: a forward pass, a backward pass and a parameter
//! update, and the training loop built on them.

use crate::layer::activation::{activated, activation_fits};
use crate::loss::Loss;
use crate::tensor::{lemma_shape_size_vector, Tensor, TensorView};
use crate::types::{additive, zero, zero_value};
use vstd::prelude::*;
use vstd::std_specs::ops::AddSpec;

verus! {

/// The views of a sequence of tensors.
pub open spec fn views<T>(tensors: Seq<Tensor<T>>) -> Seq<TensorView<T>> {
    Seq::new(tensors.len(), |i: int| tensors[i]@)
}

/// What a layer is trained on, and how: the samples, paired by position, the
/// loss, the learning rate and the activation.
pub struct Course<T, Lo, F> {
    pub inputs: Seq<TensorView<T>>,
    pub targets: Seq<TensorView<T>>,
    pub loss: Lo,
    pub learning_rate: T,
    pub activation: Option<F>,
}

impl<T, Lo, F> Course<T, Lo, F> {
    /// The number of samples: inputs and targets are paired by position, as
    /// far as both reach.
    pub open spec fn samples(self) -> nat {
        if self.inputs.len() <= self.targets.len() {
            self.inputs.len()
        } else {
            self.targets.len()
        }
    }
}

/// A layer's prediction on `input`: its output with the activation applied.
pub open spec fn predicted<T, Ly, F>(
    state: Ly::V,
    input: TensorView<T>,
    activation: Option<F>,
) -> TensorView<T> where
    T: Copy + Default + core::ops::Add<Output = T> + core::ops::Sub<Output = T> + core::ops::Mul<
        Output = T,
    >,
    Ly: Layer<T>,
    F: Fn(T) -> T,
 {
    activated(Ly::linear(state, input), activation)
}

/// The layer takes `input`, and its prediction on it is defined.
pub open spec fn predict_defined<T, Ly, F>(
    state: Ly::V,
    input: TensorView<T>,
    activation: Option<F>,
) -> bool where
    T: Copy + Default + core::ops::Add<Output = T> + core::ops::Sub<Output = T> + core::ops::Mul<
        Output = T,
    >,
    Ly: Layer<T>,
    F: Fn(T) -> T,
 {
    &&& Ly::admits(state, input)
    &&& Ly::forward_in_range(state, input)
    &&& activation_fits(Ly::linear(state, input), activation)
}

/// The gradient of the loss at the layer's prediction on sample `k`.
pub open spec fn step_gradient<T, Ly, Lo, F>(
    state: Ly::V,
    course: Course<T, Lo, F>,
    k: int,
) -> TensorView<T> where
    T: Copy + Default + core::ops::Add<Output = T> + core::ops::Sub<Output = T> + core::ops::Mul<
        Output = T,
    >,
    Ly: Layer<T>,
    Lo: Loss<T>,
    F: Fn(T) -> T,
 {
    course.loss.gradient(
        predicted::<T, Ly, F>(state, course.inputs[k], course.activation),
        course.targets[k],
    )
}

/// The loss of the layer's prediction on sample `k`, as a scalar.
pub open spec fn step_loss<T, Ly, Lo, F>(state: Ly::V, course: Course<T, Lo, F>, k: int) -> T where
    T: Copy + Default + core::ops::Add<Output = T> + core::ops::Sub<Output = T> + core::ops::Mul<
        Output = T,
    >,
    Ly: Layer<T>,
    Lo: Loss<T>,
    F: Fn(T) -> T,
 {
    course.loss.value(
        predicted::<T, Ly, F>(state, course.inputs[k], course.activation),
        course.targets[k],
    ).data[0]
}

/// The parameters after one step of gradient descent on sample `k`: the
/// layer predicts, the loss gives the gradient at the prediction, the layer
/// turns it into gradients of its parameters, and these update it.
pub open spec fn step_state<T, Ly, Lo, F>(
    state: Ly::V,
    course: Course<T, Lo, F>,
    k: int,
) -> Ly::V where
    T: Copy + Default + core::ops::Add<Output = T> + core::ops::Sub<Output = T> + core::ops::Mul<
        Output = T,
    >,
    Ly: Layer<T>,
    Lo: Loss<T>,
    F: Fn(T) -> T,
 {
    let grad = step_gradient::<T, Ly, Lo, F>(state, course, k);
    Ly::updated(
        state,
        Ly::weight_gradient(state, course.inputs[k], grad),
        Ly::bias_gradient(state, course.inputs[k], grad),
        course.learning_rate,
    )
}

/// Every part of a step on sample `k` is defined.
pub open spec fn step_defined<T, Ly, Lo, F>(
    state: Ly::V,
    course: Course<T, Lo, F>,
    k: int,
) -> bool where
    T: Copy + Default + core::ops::Add<Output = T> + core::ops::Sub<Output = T> + core::ops::Mul<
        Output = T,
    >,
    Ly: Layer<T>,
    Lo: Loss<T>,
    F: Fn(T) -> T,
 {
    let input = course.inputs[k];
    let pred = predicted::<T, Ly, F>(state, input, course.activation);
    let grad = step_gradient::<T, Ly, Lo, F>(state, course, k);
    &&& predict_defined::<T, Ly, F>(state, input, course.activation)
    &&& course.loss.forward_defined(pred, course.targets[k])
    &&& course.loss.backward_defined(pred, course.targets[k])
    &&& Ly::backward_defined(state, input, grad)
    &&& Ly::update_defined(
        state,
        Ly::weight_gradient(state, input, grad),
        Ly::bias_gradient(state, input, grad),
        course.learning_rate,
    )
}

/// The parameters after a step on each of the first `k` samples, in order.
pub open spec fn epoch_state<T, Ly, Lo, F>(
    state: Ly::V,
    course: Course<T, Lo, F>,
    k: nat,
) -> Ly::V where
    T: Copy + Default + core::ops::Add<Output = T> + core::ops::Sub<Output = T> + core::ops::Mul<
        Output = T,
    >,
    Ly: Layer<T>,
    Lo: Loss<T>,
    F: Fn(T) -> T,

    decreases k,
{
    if k == 0 {
        state
    } else {
        step_state::<T, Ly, Lo, F>(
            epoch_state::<T, Ly, Lo, F>(state, course, (k - 1) as nat),
            course,
            k - 1,
        )
    }
}

/// The losses of the first `k` samples, each at the parameters that the
/// steps before it left, added up in order from zero.
pub open spec fn epoch_loss<T, Ly, Lo, F>(state: Ly::V, course: Course<T, Lo, F>, k: nat) -> T where
    T: Copy + Default + core::ops::Add<Output = T> + core::ops::Sub<Output = T> + core::ops::Mul<
        Output = T,
    >,
    Ly: Layer<T>,
    Lo: Loss<T>,
    F: Fn(T) -> T,

    decreases k,
{
    if k == 0 {
        zero::<T>()
    } else {
        epoch_loss::<T, Ly, Lo, F>(state, course, (k - 1) as nat).add_spec(
            step_loss::<T, Ly, Lo, F>(
                epoch_state::<T, Ly, Lo, F>(state, course, (k - 1) as nat),
                course,
                k - 1,
            ),
        )
    }
}

/// Each of the first `k` steps is defined, and `T` permits adding up their
/// losses.
pub open spec fn epoch_defined<T, Ly, Lo, F>(
    state: Ly::V,
    course: Course<T, Lo, F>,
    k: nat,
) -> bool where
    T: Copy + Default + core::ops::Add<Output = T> + core::ops::Sub<Output = T> + core::ops::Mul<
        Output = T,
    >,
    Ly: Layer<T>,
    Lo: Loss<T>,
    F: Fn(T) -> T,

    decreases k,
{
    if k == 0 {
        additive::<T>()
    } else {
        let before = epoch_state::<T, Ly, Lo, F>(state, course, (k - 1) as nat);
        &&& epoch_defined::<T, Ly, Lo, F>(state, course, (k - 1) as nat)
        &&& step_defined::<T, Ly, Lo, F>(before, course, k - 1)
        &&& epoch_loss::<T, Ly, Lo, F>(state, course, (k - 1) as nat).add_req(
            step_loss::<T, Ly, Lo, F>(before, course, k - 1),
        )
    }
}

/// The parameters after `epochs` passes over all samples.
pub open spec fn run_state<T, Ly, Lo, F>(
    state: Ly::V,
    course: Course<T, Lo, F>,
    epochs: nat,
) -> Ly::V where
    T: Copy + Default + core::ops::Add<Output = T> + core::ops::Sub<Output = T> + core::ops::Mul<
        Output = T,
    >,
    Ly: Layer<T>,
    Lo: Loss<T>,
    F: Fn(T) -> T,

    decreases epochs,
{
    if epochs == 0 {
        state
    } else {
        epoch_state::<T, Ly, Lo, F>(
            run_state::<T, Ly, Lo, F>(state, course, (epochs - 1) as nat),
            course,
            course.samples(),
        )
    }
}

/// The loss of each of `epochs` passes, in order: each pass's loss is taken
/// at the parameters that the passes before it left.
pub open spec fn run_history<T, Ly, Lo, F>(
    state: Ly::V,
    course: Course<T, Lo, F>,
    epochs: nat,
) -> Seq<T> where
    T: Copy + Default + core::ops::Add<Output = T> + core::ops::Sub<Output = T> + core::ops::Mul<
        Output = T,
    >,
    Ly: Layer<T>,
    Lo: Loss<T>,
    F: Fn(T) -> T,

    decreases epochs,
{
    if epochs == 0 {
        Seq::empty()
    } else {
        run_history::<T, Ly, Lo, F>(state, course, (epochs - 1) as nat).push(
            epoch_loss::<T, Ly, Lo, F>(
                run_state::<T, Ly, Lo, F>(state, course, (epochs - 1) as nat),
                course,
                course.samples(),
            ),
        )
    }
}

/// Each of `epochs` passes is defined.
pub open spec fn run_defined<T, Ly, Lo, F>(
    state: Ly::V,
    course: Course<T, Lo, F>,
    epochs: nat,
) -> bool where
    T: Copy + Default + core::ops::Add<Output = T> + core::ops::Sub<Output = T> + core::ops::Mul<
        Output = T,
    >,
    Ly: Layer<T>,
    Lo: Loss<T>,
    F: Fn(T) -> T,

    decreases epochs,
{
    epochs == 0 || {
        &&& run_defined::<T, Ly, Lo, F>(state, course, (epochs - 1) as nat)
        &&& epoch_defined::<T, Ly, Lo, F>(
            run_state::<T, Ly, Lo, F>(state, course, (epochs - 1) as nat),
            course,
            course.samples(),
        )
    }
}

/// A pass that is defined over `k` samples is defined over fewer.
pub proof fn lemma_epoch_defined_prefix<T, Ly, Lo, F>(
    state: Ly::V,
    course: Course<T, Lo, F>,
    j: nat,
    k: nat,
) where
    T: Copy + Default + core::ops::Add<Output = T> + core::ops::Sub<Output = T> + core::ops::Mul<
        Output = T,
    >,
    Ly: Layer<T>,
    Lo: Loss<T>,
    F: Fn(T) -> T,

    requires
        j <= k,
        epoch_defined::<T, Ly, Lo, F>(state, course, k),
    ensures
        epoch_defined::<T, Ly, Lo, F>(state, course, j),
    decreases k,
{
    if j < k {
        lemma_epoch_defined_prefix::<T, Ly, Lo, F>(state, course, j, (k - 1) as nat);
    }
}

/// A run that is defined over `k` passes is defined over fewer.
pub proof fn lemma_run_defined_prefix<T, Ly, Lo, F>(
    state: Ly::V,
    course: Course<T, Lo, F>,
    j: nat,
    k: nat,
) where
    T: Copy + Default + core::ops::Add<Output = T> + core::ops::Sub<Output = T> + core::ops::Mul<
        Output = T,
    >,
    Ly: Layer<T>,
    Lo: Loss<T>,
    F: Fn(T) -> T,

    requires
        j <= k,
        run_defined::<T, Ly, Lo, F>(state, course, k),
    ensures
        run_defined::<T, Ly, Lo, F>(state, course, j),
    decreases k,
{
    if j < k {
        lemma_run_defined_prefix::<T, Ly, Lo, F>(state, course, j, (k - 1) as nat);
    }
}

/// A layer with parameters that gradient descent can adjust: a forward pass,
/// a backward pass and a parameter update.
///
/// The view of a layer is its parameters. An implementor says, as functions
/// of the parameters, what the layer computes forwards and backwards and what
/// an update makes of them.
pub trait Layer<T>: View + Sized where
    T: Copy + Default + core::ops::Add<Output = T> + core::ops::Sub<Output = T> + core::ops::Mul<
        Output = T,
    >,
 {
    /// Whether `input` has a shape that the layer takes.
    spec fn admits(state: Self::V, input: TensorView<T>) -> bool;

    /// Whether `T` permits every operation of the forward pass on `input`.
    spec fn forward_in_range(state: Self::V, input: TensorView<T>) -> bool;

    /// The layer's output on `input`, before any activation.
    spec fn linear(state: Self::V, input: TensorView<T>) -> TensorView<T>;

    /// Whether the backward pass is defined on `input` and the gradient
    /// `grad_output` that arrives from the following layer or the loss.
    spec fn backward_defined(
        state: Self::V,
        input: TensorView<T>,
        grad_output: TensorView<T>,
    ) -> bool;

    /// The gradient with respect to the layer's input.
    spec fn input_gradient(
        state: Self::V,
        input: TensorView<T>,
        grad_output: TensorView<T>,
    ) -> TensorView<T>;

    /// The gradient with respect to the layer's weights.
    spec fn weight_gradient(
        state: Self::V,
        input: TensorView<T>,
        grad_output: TensorView<T>,
    ) -> TensorView<T>;

    /// The gradient with respect to the layer's bias.
    spec fn bias_gradient(
        state: Self::V,
        input: TensorView<T>,
        grad_output: TensorView<T>,
    ) -> TensorView<T>;

    /// Whether an update by the two gradients at rate `learning_rate` is
    /// defined.
    spec fn update_defined(
        state: Self::V,
        grad_w: TensorView<T>,
        grad_b: TensorView<T>,
        learning_rate: T,
    ) -> bool;

    /// The parameters after an update by the two gradients at rate
    /// `learning_rate`.
    spec fn updated(
        state: Self::V,
        grad_w: TensorView<T>,
        grad_b: TensorView<T>,
        learning_rate: T,
    ) -> Self::V;

    /// The layer's output on `input`, with `activation` applied where there
    /// is one; an error where the layer does not take the input's shape.
    fn forward<F: Fn(T) -> T>(&self, input: &Tensor<T>, activation: Option<F>) -> (r: Result<
        Tensor<T>,
        String,
    >)
        requires
            Self::admits(self@, input@) ==> Self::forward_in_range(self@, input@)
                && activation_fits(Self::linear(self@, input@), activation),
        ensures
            r is Ok <==> Self::admits(self@, input@),
            r matches Ok(out) ==> out@ == activated(Self::linear(self@, input@), activation),
    ;

    /// The gradients with respect to the input, the weights and the bias, in
    /// that order, given the input of the forward pass and the gradient with
    /// respect to its output.
    fn backward(&self, input: &Tensor<T>, grad_output: &Tensor<T>) -> (r: (
        Tensor<T>,
        Tensor<T>,
        Tensor<T>,
    ))
        requires
            Self::backward_defined(self@, input@, grad_output@),
        ensures
            r.0@ == Self::input_gradient(self@, input@, grad_output@),
            r.1@ == Self::weight_gradient(self@, input@, grad_output@),
            r.2@ == Self::bias_gradient(self@, input@, grad_output@),
    ;

    /// One step of gradient descent on the parameters.
    fn update_params(&mut self, grad_w: &Tensor<T>, grad_b: &Tensor<T>, learning_rate: T)
        requires
            Self::update_defined(old(self)@, grad_w@, grad_b@, learning_rate),
        ensures
            final(self)@ == Self::updated(old(self)@, grad_w@, grad_b@, learning_rate),
    ;
}

/// What every layer can do once it has the three capabilities of `Layer`:
/// train on a set of samples, and predict.
pub trait TrainableLayer<T>: Layer<T> where
    T: Copy + Default + core::ops::Add<Output = T> + core::ops::Sub<Output = T> + core::ops::Mul<
        Output = T,
    >,
 {
    /// Trains the layer by gradient descent, one sample at a time, in
    /// `epochs` passes over the samples, and returns the loss of each pass.
    ///
    /// Inputs and targets are paired by position. In each step the layer
    /// predicts, the loss is added to the pass's total, and the gradient of
    /// the loss at the prediction updates the parameters.
    fn train<L: Loss<T>, F: Fn(T) -> T + Copy>(
        &mut self,
        inputs: &[Tensor<T>],
        targets: &[Tensor<T>],
        loss_fn: &L,
        epochs: usize,
        learning_rate: T,
        activation: Option<F>,
    ) -> (history: Vec<T>)
        requires
            run_defined::<T, Self, L, F>(
                old(self)@,
                Course {
                    inputs: views(inputs@),
                    targets: views(targets@),
                    loss: *loss_fn,
                    learning_rate,
                    activation,
                },
                epochs as nat,
            ),
        ensures
            final(self)@ == run_state::<T, Self, L, F>(
                old(self)@,
                Course {
                    inputs: views(inputs@),
                    targets: views(targets@),
                    loss: *loss_fn,
                    learning_rate,
                    activation,
                },
                epochs as nat,
            ),
            history@ == run_history::<T, Self, L, F>(
                old(self)@,
                Course {
                    inputs: views(inputs@),
                    targets: views(targets@),
                    loss: *loss_fn,
                    learning_rate,
                    activation,
                },
                epochs as nat,
            ),
    {
        let ghost course = Course {
            inputs: views(inputs@),
            targets: views(targets@),
            loss: *loss_fn,
            learning_rate,
            activation,
        };
        let ghost start = self@;
        let samples = if inputs.len() <= targets.len() {
            inputs.len()
        } else {
            targets.len()
        };
        let mut history: Vec<T> = Vec::new();
        let mut epoch: usize = 0;
        while epoch < epochs
            invariant
                epoch <= epochs,
                samples == course.samples(),
                course.inputs == views(inputs@),
                course.targets == views(targets@),
                course.loss == *loss_fn,
                course.learning_rate == learning_rate,
                course.activation == activation,
                run_defined::<T, Self, L, F>(start, course, epochs as nat),
                self@ == run_state::<T, Self, L, F>(start, course, epoch as nat),
                history@ == run_history::<T, Self, L, F>(start, course, epoch as nat),
            decreases epochs - epoch,
        {
            let ghost before = self@;
            proof {
                lemma_run_defined_prefix::<T, Self, L, F>(
                    start,
                    course,
                    (epoch + 1) as nat,
                    epochs as nat,
                );
                lemma_epoch_defined_prefix::<T, Self, L, F>(before, course, 0, samples as nat);
            }
            let mut total_loss = zero_value::<T>();
            let mut k: usize = 0;
            while k < samples
                invariant
                    k <= samples,
                    samples == course.samples(),
                    course.inputs == views(inputs@),
                    course.targets == views(targets@),
                    course.loss == *loss_fn,
                    course.learning_rate == learning_rate,
                    course.activation == activation,
                    additive::<T>(),
                    epoch_defined::<T, Self, L, F>(before, course, samples as nat),
                    self@ == epoch_state::<T, Self, L, F>(before, course, k as nat),
                    total_loss == epoch_loss::<T, Self, L, F>(before, course, k as nat),
                decreases samples - k,
            {
                proof {
                    lemma_epoch_defined_prefix::<T, Self, L, F>(
                        before,
                        course,
                        (k + 1) as nat,
                        samples as nat,
                    );
                }
                let input = &inputs[k];
                let target = &targets[k];
                let pred = self.forward(input, activation).unwrap();
                let loss = loss_fn.forward(&pred, target);
                let grad = loss_fn.backward(&pred, target);
                let (_, grad_weights, grad_bias) = self.backward(input, &grad);
                self.update_params(&grad_weights, &grad_bias, learning_rate);
                let loss_data = loss.get_data();
                proof {
                    lemma_shape_size_vector(loss@.shape);
                }
                total_loss = total_loss + loss_data[0];
                k += 1;
            }
            history.push(total_loss);
            epoch += 1;
        }
        history
    }

    /// The layer's prediction on each of `inputs`, in order.
    fn predict_all<F: Fn(T) -> T + Copy>(&self, inputs: &[Tensor<T>], activation: Option<F>) -> (r:
        Vec<Tensor<T>>)
        requires
            forall|i: int|
                0 <= i < inputs@.len() ==> predict_defined::<T, Self, F>(
                    self@,
                    (#[trigger] inputs@[i])@,
                    activation,
                ),
        ensures
            r@.len() == inputs@.len(),
            forall|i: int|
                0 <= i < inputs@.len() ==> (#[trigger] r@[i])@ == predicted::<T, Self, F>(
                    self@,
                    inputs@[i]@,
                    activation,
                ),
    {
        let mut predictions: Vec<Tensor<T>> = Vec::new();
        let mut k: usize = 0;
        while k < inputs.len()
            invariant
                k <= inputs.len(),
                forall|i: int|
                    0 <= i < inputs@.len() ==> predict_defined::<T, Self, F>(
                        self@,
                        (#[trigger] inputs@[i])@,
                        activation,
                    ),
                predictions@.len() == k,
                forall|i: int|
                    0 <= i < k ==> (#[trigger] predictions@[i])@ == predicted::<T, Self, F>(
                        self@,
                        inputs@[i]@,
                        activation,
                    ),
            decreases inputs.len() - k,
        {
            predictions.push(self.forward(&inputs[k], activation).unwrap());
            k += 1;
        }
        predictions
    }

    /// The layer's prediction on `input`; an error where the layer does not
    /// take the input's shape.
    fn predict<F: Fn(T) -> T>(&self, input: &Tensor<T>, activation: Option<F>) -> (r: Result<
        Tensor<T>,
        String,
    >)
        requires
            Self::admits(self@, input@) ==> Self::forward_in_range(self@, input@)
                && activation_fits(Self::linear(self@, input@), activation),
        ensures
            r is Ok <==> Self::admits(self@, input@),
            r matches Ok(out) ==> out@ == predicted::<T, Self, F>(self@, input@, activation),
    {
        self.forward(input, activation)
    }
}

impl<T, Ly> TrainableLayer<T> for Ly where
    T: Copy + Default + core::ops::Add<Output = T> + core::ops::Sub<Output = T> + core::ops::Mul<
        Output = T,
    >,
    Ly: Layer<T>,
 {

}

} // verus!
