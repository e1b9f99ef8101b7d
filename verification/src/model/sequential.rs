//! The sequential model: layers in a row, each fed the output of the one
//! before it, trained by gradient descent one sample at a time.

use crate::layer::activation::activated;
use crate::layer::dense::{lemma_output_shape, DenseLayer, DenseView};
use crate::layer::trainable::{
    epoch_defined, epoch_loss, epoch_state, predict_defined, predicted, run_defined, run_history,
    run_state, step_defined, step_loss, step_state, views, Course, Layer,
};
use crate::loss::Loss;
use crate::tensor::{lemma_shape_size_vector, Tensor, TensorView};
use crate::types::{additive, zero, zero_value, Accuracy, Randomizable};
use vstd::prelude::*;
use vstd::std_specs::ops::AddSpec;

verus! {

/// The output of the first `k` layers on `input`: each layer's prediction is
/// the next layer's input, and each layer has the activation at its own
/// position.
pub open spec fn passed<T, Ly, F>(
    states: Seq<Ly::V>,
    input: TensorView<T>,
    activations: Seq<Option<F>>,
    k: nat,
) -> TensorView<T> where
    T: Copy + Default + core::ops::Add<Output = T> + core::ops::Sub<Output = T> + core::ops::Mul<
        Output = T,
    >,
    Ly: Layer<T>,
    F: Fn(T) -> T,

    decreases k,
{
    if k == 0 {
        input
    } else {
        predicted::<T, Ly, F>(
            states[k - 1],
            passed::<T, Ly, F>(states, input, activations, (k - 1) as nat),
            activations[k - 1],
        )
    }
}

/// Each of the first `k` layers takes what the layer before it gives, and its
/// prediction on it is defined.
pub open spec fn pass_defined<T, Ly, F>(
    states: Seq<Ly::V>,
    input: TensorView<T>,
    activations: Seq<Option<F>>,
    k: nat,
) -> bool where
    T: Copy + Default + core::ops::Add<Output = T> + core::ops::Sub<Output = T> + core::ops::Mul<
        Output = T,
    >,
    Ly: Layer<T>,
    F: Fn(T) -> T,

    decreases k,
{
    k == 0 || {
        &&& pass_defined::<T, Ly, F>(states, input, activations, (k - 1) as nat)
        &&& predict_defined::<T, Ly, F>(
            states[k - 1],
            passed::<T, Ly, F>(states, input, activations, (k - 1) as nat),
            activations[k - 1],
        )
    }
}

/// A pass that is defined through `k` layers is defined through fewer.
pub proof fn lemma_pass_defined_prefix<T, Ly, F>(
    states: Seq<Ly::V>,
    input: TensorView<T>,
    activations: Seq<Option<F>>,
    j: nat,
    k: nat,
) where
    T: Copy + Default + core::ops::Add<Output = T> + core::ops::Sub<Output = T> + core::ops::Mul<
        Output = T,
    >,
    Ly: Layer<T>,
    F: Fn(T) -> T,

    requires
        j <= k,
        pass_defined::<T, Ly, F>(states, input, activations, k),
    ensures
        pass_defined::<T, Ly, F>(states, input, activations, j),
    decreases k,
{
    if j < k {
        lemma_pass_defined_prefix::<T, Ly, F>(states, input, activations, j, (k - 1) as nat);
    }
}

/// What a model is trained on, and how: the samples, paired by position, the
/// loss, the learning rate and one optional activation for each layer.
pub struct Plan<T, Lo, F> {
    pub inputs: Seq<TensorView<T>>,
    pub targets: Seq<TensorView<T>>,
    pub loss: Lo,
    pub learning_rate: T,
    pub activations: Seq<Option<F>>,
}

impl<T, Lo, F> Plan<T, Lo, F> {
    /// The number of samples: inputs and targets are paired by position, as
    /// far as both reach.
    pub open spec fn samples(self) -> nat {
        if self.inputs.len() <= self.targets.len() {
            self.inputs.len()
        } else {
            self.targets.len()
        }
    }
}

/// The gradient that reaches the layers below the last `j`, when
/// `grad_output` arrives at the last layer: each layer hands down the
/// gradient with respect to its own input, which the forward pass recorded.
///
/// What arrives at a layer is taken as the gradient with respect to that
/// layer's output as it is: no derivative of an activation enters.
pub open spec fn back_gradient<T, Ly, F>(
    states: Seq<Ly::V>,
    input: TensorView<T>,
    activations: Seq<Option<F>>,
    grad_output: TensorView<T>,
    j: nat,
) -> TensorView<T> where
    T: Copy + Default + core::ops::Add<Output = T> + core::ops::Sub<Output = T> + core::ops::Mul<
        Output = T,
    >,
    Ly: Layer<T>,
    F: Fn(T) -> T,

    decreases j,
{
    if j == 0 {
        grad_output
    } else {
        let i = states.len() - j;
        Ly::input_gradient(
            states[i],
            passed::<T, Ly, F>(states, input, activations, i as nat),
            back_gradient::<T, Ly, F>(states, input, activations, grad_output, (j - 1) as nat),
        )
    }
}

/// The parameters of all layers after the backward pass has updated the last
/// `j` of them, from the last one down. Each layer computes its gradients
/// from its parameters before its own update.
pub open spec fn back_state<T, Ly, F>(
    states: Seq<Ly::V>,
    input: TensorView<T>,
    activations: Seq<Option<F>>,
    grad_output: TensorView<T>,
    learning_rate: T,
    j: nat,
) -> Seq<Ly::V> where
    T: Copy + Default + core::ops::Add<Output = T> + core::ops::Sub<Output = T> + core::ops::Mul<
        Output = T,
    >,
    Ly: Layer<T>,
    F: Fn(T) -> T,

    decreases j,
{
    if j == 0 {
        states
    } else {
        let i = states.len() - j;
        let seen = passed::<T, Ly, F>(states, input, activations, i as nat);
        let grad = back_gradient::<T, Ly, F>(
            states,
            input,
            activations,
            grad_output,
            (j - 1) as nat,
        );
        back_state::<T, Ly, F>(
            states,
            input,
            activations,
            grad_output,
            learning_rate,
            (j - 1) as nat,
        ).update(
            i,
            Ly::updated(
                states[i],
                Ly::weight_gradient(states[i], seen, grad),
                Ly::bias_gradient(states[i], seen, grad),
                learning_rate,
            ),
        )
    }
}

/// The backward pass and the update are defined for each of the last `j`
/// layers.
pub open spec fn back_defined<T, Ly, F>(
    states: Seq<Ly::V>,
    input: TensorView<T>,
    activations: Seq<Option<F>>,
    grad_output: TensorView<T>,
    learning_rate: T,
    j: nat,
) -> bool where
    T: Copy + Default + core::ops::Add<Output = T> + core::ops::Sub<Output = T> + core::ops::Mul<
        Output = T,
    >,
    Ly: Layer<T>,
    F: Fn(T) -> T,

    decreases j,
{
    j == 0 || {
        let i = states.len() - j;
        let seen = passed::<T, Ly, F>(states, input, activations, i as nat);
        let grad = back_gradient::<T, Ly, F>(
            states,
            input,
            activations,
            grad_output,
            (j - 1) as nat,
        );
        &&& back_defined::<T, Ly, F>(
            states,
            input,
            activations,
            grad_output,
            learning_rate,
            (j - 1) as nat,
        )
        &&& Ly::backward_defined(states[i], seen, grad)
        &&& Ly::update_defined(
            states[i],
            Ly::weight_gradient(states[i], seen, grad),
            Ly::bias_gradient(states[i], seen, grad),
            learning_rate,
        )
    }
}

/// A backward pass that is defined for the last `k` layers is defined for
/// fewer.
pub proof fn lemma_back_defined_prefix<T, Ly, F>(
    states: Seq<Ly::V>,
    input: TensorView<T>,
    activations: Seq<Option<F>>,
    grad_output: TensorView<T>,
    learning_rate: T,
    j: nat,
    k: nat,
) where
    T: Copy + Default + core::ops::Add<Output = T> + core::ops::Sub<Output = T> + core::ops::Mul<
        Output = T,
    >,
    Ly: Layer<T>,
    F: Fn(T) -> T,

    requires
        j <= k,
        back_defined::<T, Ly, F>(states, input, activations, grad_output, learning_rate, k),
    ensures
        back_defined::<T, Ly, F>(states, input, activations, grad_output, learning_rate, j),
    decreases k,
{
    if j < k {
        lemma_back_defined_prefix::<T, Ly, F>(
            states,
            input,
            activations,
            grad_output,
            learning_rate,
            j,
            (k - 1) as nat,
        );
    }
}

/// The model's output on sample `k`.
pub open spec fn model_output<T, Ly, Lo, F>(
    states: Seq<Ly::V>,
    plan: Plan<T, Lo, F>,
    k: int,
) -> TensorView<T> where
    T: Copy + Default + core::ops::Add<Output = T> + core::ops::Sub<Output = T> + core::ops::Mul<
        Output = T,
    >,
    Ly: Layer<T>,
    Lo: Loss<T>,
    F: Fn(T) -> T,
 {
    passed::<T, Ly, F>(states, plan.inputs[k], plan.activations, states.len())
}

/// The loss of the model's output on sample `k`, as a scalar.
pub open spec fn model_step_loss<T, Ly, Lo, F>(
    states: Seq<Ly::V>,
    plan: Plan<T, Lo, F>,
    k: int,
) -> T where
    T: Copy + Default + core::ops::Add<Output = T> + core::ops::Sub<Output = T> + core::ops::Mul<
        Output = T,
    >,
    Ly: Layer<T>,
    Lo: Loss<T>,
    F: Fn(T) -> T,
 {
    plan.loss.value(model_output::<T, Ly, Lo, F>(states, plan, k), plan.targets[k]).data[0]
}

/// The parameters of all layers after one step of gradient descent on sample
/// `k`: a forward pass, the gradient of the loss at its output, and a
/// backward pass that updates every layer from the last one down.
pub open spec fn model_step_state<T, Ly, Lo, F>(
    states: Seq<Ly::V>,
    plan: Plan<T, Lo, F>,
    k: int,
) -> Seq<Ly::V> where
    T: Copy + Default + core::ops::Add<Output = T> + core::ops::Sub<Output = T> + core::ops::Mul<
        Output = T,
    >,
    Ly: Layer<T>,
    Lo: Loss<T>,
    F: Fn(T) -> T,
 {
    back_state::<T, Ly, F>(
        states,
        plan.inputs[k],
        plan.activations,
        plan.loss.gradient(model_output::<T, Ly, Lo, F>(states, plan, k), plan.targets[k]),
        plan.learning_rate,
        states.len(),
    )
}

/// There is an activation entry for every layer, and every part of a step
/// on sample `k` is defined.
pub open spec fn model_step_defined<T, Ly, Lo, F>(
    states: Seq<Ly::V>,
    plan: Plan<T, Lo, F>,
    k: int,
) -> bool where
    T: Copy + Default + core::ops::Add<Output = T> + core::ops::Sub<Output = T> + core::ops::Mul<
        Output = T,
    >,
    Ly: Layer<T>,
    Lo: Loss<T>,
    F: Fn(T) -> T,
 {
    let output = model_output::<T, Ly, Lo, F>(states, plan, k);
    &&& plan.activations.len() >= states.len()
    &&& pass_defined::<T, Ly, F>(states, plan.inputs[k], plan.activations, states.len())
    &&& plan.loss.forward_defined(output, plan.targets[k])
    &&& plan.loss.backward_defined(output, plan.targets[k])
    &&& back_defined::<T, Ly, F>(
        states,
        plan.inputs[k],
        plan.activations,
        plan.loss.gradient(output, plan.targets[k]),
        plan.learning_rate,
        states.len(),
    )
}

/// The parameters after a step on each of the first `k` samples, in order.
pub open spec fn model_epoch_state<T, Ly, Lo, F>(
    states: Seq<Ly::V>,
    plan: Plan<T, Lo, F>,
    k: nat,
) -> Seq<Ly::V> where
    T: Copy + Default + core::ops::Add<Output = T> + core::ops::Sub<Output = T> + core::ops::Mul<
        Output = T,
    >,
    Ly: Layer<T>,
    Lo: Loss<T>,
    F: Fn(T) -> T,

    decreases k,
{
    if k == 0 {
        states
    } else {
        model_step_state::<T, Ly, Lo, F>(
            model_epoch_state::<T, Ly, Lo, F>(states, plan, (k - 1) as nat),
            plan,
            k - 1,
        )
    }
}

/// The losses of the first `k` samples, each at the parameters that the
/// steps before it left, added up in order from zero.
pub open spec fn model_epoch_loss<T, Ly, Lo, F>(
    states: Seq<Ly::V>,
    plan: Plan<T, Lo, F>,
    k: nat,
) -> T where
    T: Copy + Default + core::ops::Add<Output = T> + core::ops::Sub<Output = T> + core::ops::Mul<
        Output = T,
    >,
    Ly: Layer<T>,
    Lo: Loss<T>,
    F: Fn(T) -> T,

    decreases k,
{
    if k == 0 {
        zero::<T>()
    } else {
        model_epoch_loss::<T, Ly, Lo, F>(states, plan, (k - 1) as nat).add_spec(
            model_step_loss::<T, Ly, Lo, F>(
                model_epoch_state::<T, Ly, Lo, F>(states, plan, (k - 1) as nat),
                plan,
                k - 1,
            ),
        )
    }
}

/// Each of the first `k` steps is defined, and `T` permits adding up their
/// losses.
pub open spec fn model_epoch_defined<T, Ly, Lo, F>(
    states: Seq<Ly::V>,
    plan: Plan<T, Lo, F>,
    k: nat,
) -> bool where
    T: Copy + Default + core::ops::Add<Output = T> + core::ops::Sub<Output = T> + core::ops::Mul<
        Output = T,
    >,
    Ly: Layer<T>,
    Lo: Loss<T>,
    F: Fn(T) -> T,

    decreases k,
{
    if k == 0 {
        additive::<T>()
    } else {
        let before = model_epoch_state::<T, Ly, Lo, F>(states, plan, (k - 1) as nat);
        &&& model_epoch_defined::<T, Ly, Lo, F>(states, plan, (k - 1) as nat)
        &&& model_step_defined::<T, Ly, Lo, F>(before, plan, k - 1)
        &&& model_epoch_loss::<T, Ly, Lo, F>(states, plan, (k - 1) as nat).add_req(
            model_step_loss::<T, Ly, Lo, F>(before, plan, k - 1),
        )
    }
}

/// The parameters after `epochs` passes over all samples.
pub open spec fn model_run_state<T, Ly, Lo, F>(
    states: Seq<Ly::V>,
    plan: Plan<T, Lo, F>,
    epochs: nat,
) -> Seq<Ly::V> where
    T: Copy + Default + core::ops::Add<Output = T> + core::ops::Sub<Output = T> + core::ops::Mul<
        Output = T,
    >,
    Ly: Layer<T>,
    Lo: Loss<T>,
    F: Fn(T) -> T,

    decreases epochs,
{
    if epochs == 0 {
        states
    } else {
        model_epoch_state::<T, Ly, Lo, F>(
            model_run_state::<T, Ly, Lo, F>(states, plan, (epochs - 1) as nat),
            plan,
            plan.samples(),
        )
    }
}

/// The loss of each of `epochs` passes, in order: each pass's loss is taken
/// at the parameters that the passes before it left.
pub open spec fn model_run_history<T, Ly, Lo, F>(
    states: Seq<Ly::V>,
    plan: Plan<T, Lo, F>,
    epochs: nat,
) -> Seq<T> where
    T: Copy + Default + core::ops::Add<Output = T> + core::ops::Sub<Output = T> + core::ops::Mul<
        Output = T,
    >,
    Ly: Layer<T>,
    Lo: Loss<T>,
    F: Fn(T) -> T,

    decreases epochs,
{
    if epochs == 0 {
        Seq::empty()
    } else {
        model_run_history::<T, Ly, Lo, F>(states, plan, (epochs - 1) as nat).push(
            model_epoch_loss::<T, Ly, Lo, F>(
                model_run_state::<T, Ly, Lo, F>(states, plan, (epochs - 1) as nat),
                plan,
                plan.samples(),
            ),
        )
    }
}

/// Each of `epochs` passes is defined.
pub open spec fn model_run_defined<T, Ly, Lo, F>(
    states: Seq<Ly::V>,
    plan: Plan<T, Lo, F>,
    epochs: nat,
) -> bool where
    T: Copy + Default + core::ops::Add<Output = T> + core::ops::Sub<Output = T> + core::ops::Mul<
        Output = T,
    >,
    Ly: Layer<T>,
    Lo: Loss<T>,
    F: Fn(T) -> T,

    decreases epochs,
{
    epochs == 0 || {
        &&& model_run_defined::<T, Ly, Lo, F>(states, plan, (epochs - 1) as nat)
        &&& model_epoch_defined::<T, Ly, Lo, F>(
            model_run_state::<T, Ly, Lo, F>(states, plan, (epochs - 1) as nat),
            plan,
            plan.samples(),
        )
    }
}

/// A pass that is defined over `k` samples is defined over fewer.
pub proof fn lemma_model_epoch_defined_prefix<T, Ly, Lo, F>(
    states: Seq<Ly::V>,
    plan: Plan<T, Lo, F>,
    j: nat,
    k: nat,
) where
    T: Copy + Default + core::ops::Add<Output = T> + core::ops::Sub<Output = T> + core::ops::Mul<
        Output = T,
    >,
    Ly: Layer<T>,
    Lo: Loss<T>,
    F: Fn(T) -> T,

    requires
        j <= k,
        model_epoch_defined::<T, Ly, Lo, F>(states, plan, k),
    ensures
        model_epoch_defined::<T, Ly, Lo, F>(states, plan, j),
    decreases k,
{
    if j < k {
        lemma_model_epoch_defined_prefix::<T, Ly, Lo, F>(states, plan, j, (k - 1) as nat);
    }
}

/// A run that is defined over `k` passes is defined over fewer.
pub proof fn lemma_model_run_defined_prefix<T, Ly, Lo, F>(
    states: Seq<Ly::V>,
    plan: Plan<T, Lo, F>,
    j: nat,
    k: nat,
) where
    T: Copy + Default + core::ops::Add<Output = T> + core::ops::Sub<Output = T> + core::ops::Mul<
        Output = T,
    >,
    Ly: Layer<T>,
    Lo: Loss<T>,
    F: Fn(T) -> T,

    requires
        j <= k,
        model_run_defined::<T, Ly, Lo, F>(states, plan, k),
    ensures
        model_run_defined::<T, Ly, Lo, F>(states, plan, j),
    decreases k,
{
    if j < k {
        lemma_model_run_defined_prefix::<T, Ly, Lo, F>(states, plan, j, (k - 1) as nat);
    }
}

impl<T, Lo, F> Plan<T, Lo, F> {
    /// The same samples, loss and learning rate for a single layer, with the
    /// first activation.
    pub open spec fn for_first_layer(self) -> Course<T, Lo, F> {
        Course {
            inputs: self.inputs,
            targets: self.targets,
            loss: self.loss,
            learning_rate: self.learning_rate,
            activation: self.activations[0],
        }
    }
}

/// On a model of one layer, a step is the layer's own step: defined on the
/// same samples, with the same loss and the same parameters after it.
pub proof fn lemma_single_layer_step<T, Ly, Lo, F>(state: Ly::V, plan: Plan<T, Lo, F>, k: int) where
    T: Copy + Default + core::ops::Add<Output = T> + core::ops::Sub<Output = T> + core::ops::Mul<
        Output = T,
    >,
    Ly: Layer<T>,
    Lo: Loss<T>,
    F: Fn(T) -> T,

    requires
        plan.activations.len() >= 1,
    ensures
        model_step_defined::<T, Ly, Lo, F>(seq![state], plan, k) == step_defined::<T, Ly, Lo, F>(
            state,
            plan.for_first_layer(),
            k,
        ),
        model_step_loss::<T, Ly, Lo, F>(seq![state], plan, k) == step_loss::<T, Ly, Lo, F>(
            state,
            plan.for_first_layer(),
            k,
        ),
        model_step_state::<T, Ly, Lo, F>(seq![state], plan, k) == seq![
            step_state::<T, Ly, Lo, F>(state, plan.for_first_layer(), k),
        ],
{
    let states = seq![state];
    let input = plan.inputs[k];
    let acts = plan.activations;
    assert(passed::<T, Ly, F>(states, input, acts, 0) == input);
    assert(passed::<T, Ly, F>(states, input, acts, 1) == predicted::<T, Ly, F>(
        state,
        input,
        acts[0],
    ));
    assert(pass_defined::<T, Ly, F>(states, input, acts, 0));
    assert(pass_defined::<T, Ly, F>(states, input, acts, 1) == predict_defined::<T, Ly, F>(
        state,
        input,
        acts[0],
    ));
    let output = model_output::<T, Ly, Lo, F>(states, plan, k);
    let grad = plan.loss.gradient(output, plan.targets[k]);
    let rate = plan.learning_rate;
    assert(back_state::<T, Ly, F>(states, input, acts, grad, rate, 0) == states);
    assert(back_defined::<T, Ly, F>(states, input, acts, grad, rate, 0));
    assert(back_defined::<T, Ly, F>(states, input, acts, grad, rate, 1) == (Ly::backward_defined(
        state,
        input,
        grad,
    ) && Ly::update_defined(
        state,
        Ly::weight_gradient(state, input, grad),
        Ly::bias_gradient(state, input, grad),
        rate,
    )));
}

/// On a model of one layer, a pass over the first `k` samples is the layer's
/// own pass.
pub proof fn lemma_single_layer_epoch<T, Ly, Lo, F>(state: Ly::V, plan: Plan<T, Lo, F>, k: nat) where
    T: Copy + Default + core::ops::Add<Output = T> + core::ops::Sub<Output = T> + core::ops::Mul<
        Output = T,
    >,
    Ly: Layer<T>,
    Lo: Loss<T>,
    F: Fn(T) -> T,

    requires
        plan.activations.len() >= 1,
    ensures
        model_epoch_defined::<T, Ly, Lo, F>(seq![state], plan, k) == epoch_defined::<T, Ly, Lo, F>(
            state,
            plan.for_first_layer(),
            k,
        ),
        model_epoch_loss::<T, Ly, Lo, F>(seq![state], plan, k) == epoch_loss::<T, Ly, Lo, F>(
            state,
            plan.for_first_layer(),
            k,
        ),
        model_epoch_state::<T, Ly, Lo, F>(seq![state], plan, k) == seq![
            epoch_state::<T, Ly, Lo, F>(state, plan.for_first_layer(), k),
        ],
    decreases k,
{
    if k > 0 {
        lemma_single_layer_epoch::<T, Ly, Lo, F>(state, plan, (k - 1) as nat);
        lemma_single_layer_step::<T, Ly, Lo, F>(
            epoch_state::<T, Ly, Lo, F>(state, plan.for_first_layer(), (k - 1) as nat),
            plan,
            k - 1,
        );
    }
}

/// A model of one layer trains as the layer itself does: the run is defined
/// on the same samples, leaves the same parameters, and returns the same
/// losses.
pub proof fn lemma_single_layer_run<T, Ly, Lo, F>(state: Ly::V, plan: Plan<T, Lo, F>, epochs: nat) where
    T: Copy + Default + core::ops::Add<Output = T> + core::ops::Sub<Output = T> + core::ops::Mul<
        Output = T,
    >,
    Ly: Layer<T>,
    Lo: Loss<T>,
    F: Fn(T) -> T,

    requires
        plan.activations.len() >= 1,
    ensures
        model_run_defined::<T, Ly, Lo, F>(seq![state], plan, epochs) == run_defined::<T, Ly, Lo, F>(
            state,
            plan.for_first_layer(),
            epochs,
        ),
        model_run_history::<T, Ly, Lo, F>(seq![state], plan, epochs) == run_history::<T, Ly, Lo, F>(
            state,
            plan.for_first_layer(),
            epochs,
        ),
        model_run_state::<T, Ly, Lo, F>(seq![state], plan, epochs) == seq![
            run_state::<T, Ly, Lo, F>(state, plan.for_first_layer(), epochs),
        ],
    decreases epochs,
{
    if epochs > 0 {
        lemma_single_layer_run::<T, Ly, Lo, F>(state, plan, (epochs - 1) as nat);
        lemma_single_layer_epoch::<T, Ly, Lo, F>(
            run_state::<T, Ly, Lo, F>(state, plan.for_first_layer(), (epochs - 1) as nat),
            plan,
            plan.samples(),
        );
    }
}

/// Layers in a row. The order in which they were added is the order of the
/// forward pass; the backward pass runs the other way.
#[verifier::reject_recursive_types(T)]
pub struct Sequential<T, L> where
    T: Copy + Default + core::ops::Add<Output = T> + core::ops::Sub<Output = T> + core::ops::Mul<
        Output = T,
    >,
    L: Layer<T>,
 {
    layers: Vec<L>,
    element: core::marker::PhantomData<T>,
}

impl<T, L> View for Sequential<T, L> where
    T: Copy + Default + core::ops::Add<Output = T> + core::ops::Sub<Output = T> + core::ops::Mul<
        Output = T,
    >,
    L: Layer<T>,
 {
    type V = Seq<L::V>;

    /// The parameters of each layer, in order.
    closed spec fn view(&self) -> Seq<L::V> {
        Seq::new(self.layers@.len(), |i: int| self.layers@[i]@)
    }
}

impl<T, L> Sequential<T, L> where
    T: Copy + Default + core::ops::Add<Output = T> + core::ops::Sub<Output = T> + core::ops::Mul<
        Output = T,
    >,
    L: Layer<T>,
 {
    /// A model without layers.
    pub fn new() -> (r: Self)
        ensures
            r@ == Seq::<L::V>::empty(),
    {
        let r = Sequential { layers: Vec::new(), element: core::marker::PhantomData };
        r
    }

    /// Appends `layer` as the new last layer.
    pub fn add(&mut self, layer: L)
        ensures
            final(self)@ == old(self)@.push(layer@),
    {
        self.layers.push(layer);
    }

    /// The model's output on `input`: the input handed through every layer
    /// in order, each with the activation at its own position.
    pub fn forward<F: Fn(T) -> T + Copy>(&self, input: &Tensor<T>, activations: &[Option<F>]) -> (r:
        Tensor<T>)
        requires
            activations@.len() >= self@.len(),
            pass_defined::<T, L, F>(self@, input@, activations@, self@.len()),
        ensures
            r@ == passed::<T, L, F>(self@, input@, activations@, self@.len()),
    {
        let mut out = input.clone();
        let mut i: usize = 0;
        while i < self.layers.len()
            invariant
                i <= self.layers.len(),
                self@.len() == self.layers@.len(),
                activations@.len() >= self@.len(),
                pass_defined::<T, L, F>(self@, input@, activations@, self@.len()),
                out@ == passed::<T, L, F>(self@, input@, activations@, i as nat),
            decreases self.layers.len() - i,
        {
            proof {
                lemma_pass_defined_prefix::<T, L, F>(
                    self@,
                    input@,
                    activations@,
                    (i + 1) as nat,
                    self@.len(),
                );
            }
            out = self.layers[i].forward(&out, activations[i]).unwrap();
            i += 1;
        }
        out
    }

    /// The model's output on each of `inputs`, in order.
    pub fn predict_all<F: Fn(T) -> T + Copy>(
        &self,
        inputs: &[Tensor<T>],
        activations: &[Option<F>],
    ) -> (r: Vec<Tensor<T>>)
        requires
            activations@.len() >= self@.len(),
            forall|i: int|
                0 <= i < inputs@.len() ==> pass_defined::<T, L, F>(
                    self@,
                    (#[trigger] inputs@[i])@,
                    activations@,
                    self@.len(),
                ),
        ensures
            r@.len() == inputs@.len(),
            forall|i: int|
                0 <= i < inputs@.len() ==> (#[trigger] r@[i])@ == passed::<T, L, F>(
                    self@,
                    inputs@[i]@,
                    activations@,
                    self@.len(),
                ),
    {
        let mut outputs: Vec<Tensor<T>> = Vec::new();
        let mut k: usize = 0;
        while k < inputs.len()
            invariant
                k <= inputs.len(),
                activations@.len() >= self@.len(),
                forall|i: int|
                    0 <= i < inputs@.len() ==> pass_defined::<T, L, F>(
                        self@,
                        (#[trigger] inputs@[i])@,
                        activations@,
                        self@.len(),
                    ),
                outputs@.len() == k,
                forall|i: int|
                    0 <= i < k ==> (#[trigger] outputs@[i])@ == passed::<T, L, F>(
                        self@,
                        inputs@[i]@,
                        activations@,
                        self@.len(),
                    ),
            decreases inputs.len() - k,
        {
            outputs.push(self.forward(&inputs[k], activations));
            k += 1;
        }
        outputs
    }

    /// Trains the model by gradient descent, one sample at a time, in
    /// `epochs` passes over the samples, and returns the loss of each pass.
    ///
    /// Inputs and targets are paired by position. In each step the forward
    /// pass records what every layer was given, the loss of the output is
    /// added to the pass's total, and the backward pass hands the gradient of
    /// the loss from the last layer to the first; each layer computes its
    /// gradients from what it was given and is updated at once.
    pub fn train<Lo: Loss<T>, F: Fn(T) -> T + Copy>(
        &mut self,
        inputs: &[Tensor<T>],
        targets: &[Tensor<T>],
        loss_fn: &Lo,
        epochs: usize,
        learning_rate: T,
        activations: &[Option<F>],
    ) -> (history: Vec<T>)
        requires
            model_run_defined::<T, L, Lo, F>(
                old(self)@,
                Plan {
                    inputs: views(inputs@),
                    targets: views(targets@),
                    loss: *loss_fn,
                    learning_rate,
                    activations: activations@,
                },
                epochs as nat,
            ),
        ensures
            final(self)@ == model_run_state::<T, L, Lo, F>(
                old(self)@,
                Plan {
                    inputs: views(inputs@),
                    targets: views(targets@),
                    loss: *loss_fn,
                    learning_rate,
                    activations: activations@,
                },
                epochs as nat,
            ),
            history@ == model_run_history::<T, L, Lo, F>(
                old(self)@,
                Plan {
                    inputs: views(inputs@),
                    targets: views(targets@),
                    loss: *loss_fn,
                    learning_rate,
                    activations: activations@,
                },
                epochs as nat,
            ),
    {
        let ghost plan = Plan {
            inputs: views(inputs@),
            targets: views(targets@),
            loss: *loss_fn,
            learning_rate,
            activations: activations@,
        };
        let ghost start = self@;
        let samples = if inputs.len() <= targets.len() {
            inputs.len()
        } else {
            targets.len()
        };
        let mut history: Vec<T> = Vec::new();
        let mut epoch: usize = 0;
        while epoch < epochs
            invariant
                epoch <= epochs,
                samples == plan.samples(),
                plan.inputs == views(inputs@),
                plan.targets == views(targets@),
                plan.loss == *loss_fn,
                plan.learning_rate == learning_rate,
                plan.activations == activations@,
                model_run_defined::<T, L, Lo, F>(start, plan, epochs as nat),
                self@ == model_run_state::<T, L, Lo, F>(start, plan, epoch as nat),
                history@ == model_run_history::<T, L, Lo, F>(start, plan, epoch as nat),
            decreases epochs - epoch,
        {
            let ghost before = self@;
            proof {
                lemma_model_run_defined_prefix::<T, L, Lo, F>(
                    start,
                    plan,
                    (epoch + 1) as nat,
                    epochs as nat,
                );
                lemma_model_epoch_defined_prefix::<T, L, Lo, F>(before, plan, 0, samples as nat);
            }
            let mut total_loss = zero_value::<T>();
            let mut k: usize = 0;
            while k < samples
                invariant
                    k <= samples,
                    samples == plan.samples(),
                    plan.inputs == views(inputs@),
                    plan.targets == views(targets@),
                    plan.loss == *loss_fn,
                    plan.learning_rate == learning_rate,
                    plan.activations == activations@,
                    additive::<T>(),
                    model_epoch_defined::<T, L, Lo, F>(before, plan, samples as nat),
                    self@ == model_epoch_state::<T, L, Lo, F>(before, plan, k as nat),
                    total_loss == model_epoch_loss::<T, L, Lo, F>(before, plan, k as nat),
                decreases samples - k,
            {
                proof {
                    lemma_model_epoch_defined_prefix::<T, L, Lo, F>(
                        before,
                        plan,
                        (k + 1) as nat,
                        samples as nat,
                    );
                }
                let loss = self.step(&inputs[k], &targets[k], loss_fn, learning_rate, activations);
                total_loss = total_loss + loss;
                k += 1;
            }
            history.push(total_loss);
            epoch += 1;
        }
        history
    }

    /// One step of gradient descent on one sample: returns the loss of the
    /// model's output, and updates every layer from the last one down.
    fn step<Lo: Loss<T>, F: Fn(T) -> T + Copy>(
        &mut self,
        input: &Tensor<T>,
        target: &Tensor<T>,
        loss_fn: &Lo,
        learning_rate: T,
        activations: &[Option<F>],
    ) -> (loss: T)
        requires
            activations@.len() >= old(self)@.len(),
            pass_defined::<T, L, F>(old(self)@, input@, activations@, old(self)@.len()),
            loss_fn.forward_defined(
                passed::<T, L, F>(old(self)@, input@, activations@, old(self)@.len()),
                target@,
            ),
            loss_fn.backward_defined(
                passed::<T, L, F>(old(self)@, input@, activations@, old(self)@.len()),
                target@,
            ),
            back_defined::<T, L, F>(
                old(self)@,
                input@,
                activations@,
                loss_fn.gradient(
                    passed::<T, L, F>(old(self)@, input@, activations@, old(self)@.len()),
                    target@,
                ),
                learning_rate,
                old(self)@.len(),
            ),
        ensures
            loss == loss_fn.value(
                passed::<T, L, F>(old(self)@, input@, activations@, old(self)@.len()),
                target@,
            ).data[0],
            final(self)@ == back_state::<T, L, F>(
                old(self)@,
                input@,
                activations@,
                loss_fn.gradient(
                    passed::<T, L, F>(old(self)@, input@, activations@, old(self)@.len()),
                    target@,
                ),
                learning_rate,
                old(self)@.len(),
            ),
    {
        let ghost states = self@;
        let n = self.layers.len();
        let mut cache: Vec<Tensor<T>> = Vec::new();
        cache.push(input.clone());
        let mut output = input.clone();
        let mut i: usize = 0;
        while i < n
            invariant
                i <= n,
                n == self.layers@.len(),
                self@ == states,
                states.len() == n,
                activations@.len() >= n,
                pass_defined::<T, L, F>(states, input@, activations@, n as nat),
                output@ == passed::<T, L, F>(states, input@, activations@, i as nat),
                cache@.len() == i + 1,
                forall|l: int|
                    0 <= l <= i ==> (#[trigger] cache@[l])@ == passed::<T, L, F>(
                        states,
                        input@,
                        activations@,
                        l as nat,
                    ),
            decreases n - i,
        {
            proof {
                lemma_pass_defined_prefix::<T, L, F>(
                    states,
                    input@,
                    activations@,
                    (i + 1) as nat,
                    n as nat,
                );
            }
            output = self.layers[i].forward(&output, activations[i]).unwrap();
            cache.push(output.clone());
            i += 1;
        }
        let loss = loss_fn.forward(&output, target);
        let loss_data = loss.get_data();
        proof {
            lemma_shape_size_vector(loss@.shape);
        }
        let loss_value = loss_data[0];
        let mut grad = loss_fn.backward(&output, target);
        let ghost grad_output = grad@;
        let mut at: usize = n;
        while at > 0
            invariant
                at <= n,
                n == self.layers@.len(),
                states.len() == n,
                self@.len() == n,
                cache@.len() == n + 1,
                forall|l: int|
                    0 <= l <= n ==> (#[trigger] cache@[l])@ == passed::<T, L, F>(
                        states,
                        input@,
                        activations@,
                        l as nat,
                    ),
                back_defined::<T, L, F>(
                    states,
                    input@,
                    activations@,
                    grad_output,
                    learning_rate,
                    n as nat,
                ),
                grad@ == back_gradient::<T, L, F>(
                    states,
                    input@,
                    activations@,
                    grad_output,
                    (n - at) as nat,
                ),
                self@ == back_state::<T, L, F>(
                    states,
                    input@,
                    activations@,
                    grad_output,
                    learning_rate,
                    (n - at) as nat,
                ),
                forall|l: int| 0 <= l < at ==> self@[l] == #[trigger] states[l],
            decreases at,
        {
            at -= 1;
            let ghost done = (n - at) as nat;
            proof {
                lemma_back_defined_prefix::<T, L, F>(
                    states,
                    input@,
                    activations@,
                    grad_output,
                    learning_rate,
                    done,
                    n as nat,
                );
            }
            let (grad_input, grad_w, grad_b) = self.layers[at].backward(&cache[at], &grad);
            self.layers[at].update_params(&grad_w, &grad_b, learning_rate);
            grad = grad_input;
        }
        loss_value
    }
}

/// The number of columns of what the first `k` dense layers hand on, given
/// an input of `cols` columns.
pub open spec fn chain_width<T>(states: Seq<DenseView<T>>, cols: usize, k: nat) -> usize {
    if k == 0 {
        cols
    } else {
        states[k - 1].weights.shape[1]
    }
}

/// Each of the first `k` dense layers takes what the layer before it hands
/// on, given an input of `rows` rows, `cols` columns and the representation
/// `accuracy`: the columns that arrive are the rows of its weights, its
/// parameters have the input's representation, and its output has a size
/// that fits.
pub open spec fn chain_fits<T>(
    states: Seq<DenseView<T>>,
    rows: usize,
    cols: usize,
    accuracy: Accuracy,
    k: nat,
) -> bool
    decreases k,
{
    k == 0 || {
        let layer = states[k - 1];
        &&& chain_fits(states, rows, cols, accuracy, (k - 1) as nat)
        &&& chain_width(states, cols, (k - 1) as nat) == layer.weights.shape[0]
        &&& accuracy == layer.weights.accuracy
        &&& accuracy == layer.bias.accuracy
        &&& rows * layer.weights.shape[1] <= usize::MAX
    }
}

/// A chain that fits through `k` layers fits through fewer.
pub proof fn lemma_chain_fits_prefix<T>(
    states: Seq<DenseView<T>>,
    rows: usize,
    cols: usize,
    accuracy: Accuracy,
    j: nat,
    k: nat,
)
    requires
        j <= k,
        chain_fits(states, rows, cols, accuracy, k),
    ensures
        chain_fits(states, rows, cols, accuracy, j),
    decreases k,
{
    if j < k {
        lemma_chain_fits_prefix(states, rows, cols, accuracy, j, (k - 1) as nat);
    }
}

/// Where the chain fits, what the first `k` dense layers hand on in the
/// forward pass has the input's rows, the last weights' columns and the
/// input's representation, and the last of them takes what arrives at it.
pub proof fn lemma_chain_fits_pass<T, F>(
    states: Seq<DenseView<T>>,
    input: TensorView<T>,
    activations: Seq<Option<F>>,
    k: nat,
) where
    T: Randomizable + Copy + Default + core::ops::Add<Output = T> + core::ops::Sub<Output = T>
        + core::ops::Mul<Output = T>,
    F: Fn(T) -> T,

    requires
        input.rank() == 2,
        k <= states.len(),
        chain_fits(states, input.shape[0], input.shape[1], input.accuracy, k),
    ensures
        passed::<T, DenseLayer<T>, F>(states, input, activations, k).shape == seq![
            input.shape[0],
            chain_width(states, input.shape[1], k),
        ],
        passed::<T, DenseLayer<T>, F>(states, input, activations, k).accuracy == input.accuracy,
        k > 0 ==> states[k - 1].forward_fits(
            passed::<T, DenseLayer<T>, F>(states, input, activations, (k - 1) as nat),
        ),
    decreases k,
{
    if k == 0 {
        assert(input.shape =~= seq![input.shape[0], input.shape[1]]);
    } else {
        lemma_chain_fits_pass::<T, F>(states, input, activations, (k - 1) as nat);
        let before = passed::<T, DenseLayer<T>, F>(states, input, activations, (k - 1) as nat);
        let layer = states[k - 1];
        assert(before.shape.len() == 2);
        assert(before.shape[0] == input.shape[0]);
        assert(before.shape[1] == chain_width(states, input.shape[1], (k - 1) as nat));
        assert(layer.forward_fits(before));
        lemma_output_shape(layer, before, activations[k - 1]);
        assert(passed::<T, DenseLayer<T>, F>(states, input, activations, k) == activated(
            layer.linear(before),
            activations[k - 1],
        ));
    }
}

impl<T> Sequential<T, DenseLayer<T>> where
    T: Randomizable + Copy + Default + core::ops::Add<Output = T> + core::ops::Sub<Output = T>
        + core::ops::Mul<Output = T>,
 {
    /// Whether the forward pass can run on `input` with `activations`
    /// activation entries, as far as shapes, representations and sizes go.
    pub fn can_forward(&self, input: &Tensor<T>, activations: usize) -> (r: bool)
        ensures
            r == (activations >= self@.len() && input@.rank() == 2 && chain_fits(
                self@,
                input@.shape[0],
                input@.shape[1],
                input@.accuracy,
                self@.len(),
            )),
    {
        let shape = input.get_shape();
        if activations < self.layers.len() || shape.len() != 2 {
            return false;
        }
        let rows = shape[0];
        let mut width = shape[1];
        let mut i: usize = 0;
        while i < self.layers.len()
            invariant
                i <= self.layers.len(),
                self@.len() == self.layers@.len(),
                shape@ == input@.shape,
                shape@.len() == 2,
                rows == shape@[0],
                width == chain_width(self@, shape@[1], i as nat),
                chain_fits(self@, rows, shape@[1], input@.accuracy, i as nat),
            decreases self.layers.len() - i,
        {
            let layer = &self.layers[i];
            let weights = layer.get_weights();
            let bias = layer.get_bias();
            let fits = weights.get_shape()[0] == width && *weights.get_accuracy()
                == *input.get_accuracy() && *bias.get_accuracy() == *input.get_accuracy()
                && rows.checked_mul(weights.get_shape()[1]).is_some();
            if !fits {
                proof {
                    if chain_fits(self@, rows, shape@[1], input@.accuracy, self@.len()) {
                        lemma_chain_fits_prefix(
                            self@,
                            rows,
                            shape@[1],
                            input@.accuracy,
                            (i + 1) as nat,
                            self@.len(),
                        );
                    }
                }
                return false;
            }
            width = weights.get_shape()[1];
            i += 1;
        }
        true
    }

    /// Whether the model can take a training step on `input` against
    /// `target` with `activations` activation entries, as far as shapes,
    /// representations and sizes go: the forward pass can run, and `target`
    /// has the shape and the representation of its output.
    pub fn can_train_on(&self, input: &Tensor<T>, target: &Tensor<T>, activations: usize) -> (r:
        bool)
        ensures
            r == (activations >= self@.len() && input@.rank() == 2 && chain_fits(
                self@,
                input@.shape[0],
                input@.shape[1],
                input@.accuracy,
                self@.len(),
            ) && target@.shape == seq![
                input@.shape[0],
                chain_width(self@, input@.shape[1], self@.len()),
            ] && target@.accuracy == input@.accuracy),
    {
        if !self.can_forward(input, activations) {
            return false;
        }
        let n = self.layers.len();
        let width = if n == 0 {
            input.get_shape()[1]
        } else {
            self.layers[n - 1].get_weights().get_shape()[1]
        };
        let shape = target.get_shape();
        if *target.get_accuracy() != *input.get_accuracy() || shape.len() != 2 {
            return false;
        }
        let r = shape[0] == input.get_shape()[0] && shape[1] == width;
        assert(r == (shape@ =~= seq![
            input@.shape[0],
            chain_width(self@, input@.shape[1], self@.len()),
        ]));
        r
    }
}

} // verus!
