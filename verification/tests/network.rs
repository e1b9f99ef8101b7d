use littleflow::layer::activation::relu;
use littleflow::layer::dense::DenseLayer;
use littleflow::layer::trainable::{Layer, TrainableLayer};
use littleflow::loss::mse::MeanSquaredError;
use littleflow::loss::Loss;
use littleflow::model::sequential::Sequential;
use littleflow::tensor::Tensor;
use littleflow::types::{Accuracy, FromCount, Randomizable};
use num_traits::Float;
use rand::Rng;
use std::ops::{Add, Div, Mul, Sub};

/// A 32-bit floating-point element.
#[derive(Clone, Copy, Debug, Default, PartialEq, PartialOrd)]
struct Real(f32);

impl Add for Real {
    type Output = Real;
    fn add(self, rhs: Real) -> Real {
        Real(self.0 + rhs.0)
    }
}

impl Sub for Real {
    type Output = Real;
    fn sub(self, rhs: Real) -> Real {
        Real(self.0 - rhs.0)
    }
}

impl Mul for Real {
    type Output = Real;
    fn mul(self, rhs: Real) -> Real {
        Real(self.0 * rhs.0)
    }
}

impl Div for Real {
    type Output = Real;
    fn div(self, rhs: Real) -> Real {
        Real(self.0 / rhs.0)
    }
}

impl Randomizable for Real {
    fn random_weight() -> Self {
        let mut rng = rand::rng();
        Real(rng.random_range(-0.1..=0.1))
    }
}

impl FromCount for Real {
    fn can_count(_n: usize) -> bool {
        true
    }

    fn from_count(n: usize) -> Self {
        Real(n as f32)
    }
}

type Activation = fn(Real) -> Real;

fn sigmoid_of<T: Float>(x: T) -> T {
    let one: T = T::one();
    one / (one + (-x).exp())
}

fn sigmoid(x: Real) -> Real {
    Real(sigmoid_of(x.0))
}

fn reals(values: &[f32]) -> Vec<Real> {
    values.iter().map(|&x| Real(x)).collect()
}

fn plain(t: &Tensor<Real>) -> Vec<f32> {
    t.get_data().iter().map(|x| x.0).collect()
}

fn tensor(values: &[f32], shape: &[usize]) -> Tensor<Real> {
    Tensor::new(Accuracy::F32, reals(values), shape.to_vec())
}

fn dense(weights: &[f32], bias: &[f32], inputs: usize, outputs: usize) -> DenseLayer<Real> {
    let mut layer = DenseLayer::<Real>::new(inputs, outputs, Accuracy::F32);
    layer.set_weights(&tensor(weights, &[inputs, outputs]));
    layer.update_bias(&tensor(bias, &[outputs]));
    layer
}

fn sum_dataset() -> (Vec<Tensor<Real>>, Vec<Tensor<Real>>) {
    let inputs = vec![
        tensor(&[1.0, 0.0], &[1, 2]),
        tensor(&[0.0, 1.0], &[1, 2]),
        tensor(&[1.0, 1.0], &[1, 2]),
        tensor(&[0.0, 0.0], &[1, 2]),
    ];
    let targets = vec![
        tensor(&[1.0], &[1, 1]),
        tensor(&[1.0], &[1, 1]),
        tensor(&[2.0], &[1, 1]),
        tensor(&[0.0], &[1, 1]),
    ];
    (inputs, targets)
}

#[test]
fn binary_sum_main() {
    let inputs = vec![
        vec![0, 0, 0, 0],
        vec![0, 0, 0, 1],
        vec![0, 0, 1, 0],
        vec![0, 0, 1, 1],
        vec![0, 1, 0, 0],
        vec![0, 1, 0, 1],
        vec![0, 1, 1, 0],
        vec![0, 1, 1, 1],
        vec![1, 0, 0, 1],
        vec![1, 1, 1, 1],
    ];
    let targets = vec![
        vec![0, 0, 0],
        vec![0, 0, 1],
        vec![0, 1, 0],
        vec![0, 1, 1],
        vec![0, 0, 1],
        vec![0, 1, 0],
        vec![0, 1, 1],
        vec![1, 0, 0],
        vec![0, 1, 1],
        vec![1, 1, 0],
    ];

    let input_tensors: Vec<Tensor<Real>> = inputs
        .iter()
        .map(|v| Tensor::new(Accuracy::F32, v.iter().map(|&x| Real(x as f32)).collect(), vec![1, 4]))
        .collect();

    let target_tensors: Vec<Tensor<Real>> = targets
        .iter()
        .map(|v| Tensor::new(Accuracy::F32, v.iter().map(|&x| Real(x as f32)).collect(), vec![1, 3]))
        .collect();

    let mut model = Sequential::<Real, DenseLayer<Real>>::new();
    model.add(DenseLayer::new(4, 8, Accuracy::F32));
    model.add(DenseLayer::new(8, 3, Accuracy::F32));

    let loss = MeanSquaredError;
    let activations: Vec<Option<Activation>> = vec![Some(sigmoid), Some(sigmoid)];

    model.train(&input_tensors, &target_tensors, &loss, 20000, Real(0.1), &activations);

    println!("\n--- Predicciones finales ---");
    for (i, input) in input_tensors.iter().enumerate() {
        let pred = model.forward(input, &activations);
        let data = pred.get_data().iter().map(|x| if x.0 > 0.5 { 1 } else { 0 }).collect::<Vec<_>>();
        println!("Input {:?} → Predicción: {:?} (Esperado: {:?})", inputs[i], data, targets[i]);
    }
}

#[test]
fn dense_layer_forward_with_relu() {
    let layer = DenseLayer::<Real>::new(3, 2, Accuracy::F32);
    let input_data = reals(&[1.0, -2.0, 0.5]);
    let input = Tensor::new(Accuracy::F32, input_data, vec![1, 3]);

    let result = layer.forward(&input, Some(relu)).unwrap();

    assert_eq!(result.get_shape(), &[1, 2]);
    for &x in result.get_data() {
        assert!(x.0 >= 0.0);
    }
}

#[test]
fn train_and_predict_main() {
    let (inputs, targets) = sum_dataset();

    let mut layer = DenseLayer::<Real>::new(2, 1, Accuracy::F32);
    let loss_fn = MeanSquaredError;

    let losses = layer.train(&inputs, &targets, &loss_fn, 100, Real(0.1), None::<Activation>);

    println!("\nHistorial de pérdida:");
    for (epoch, loss) in losses.iter().enumerate() {
        println!("Epoch {} → Loss: {:.4}", epoch + 1, loss.0);
    }

    let predictions = layer.predict_all(&inputs, None::<Activation>);
    println!("\nPredicciones finales:");
    for (i, pred) in predictions.iter().enumerate() {
        println!("Input {:?} → Predicción: {:?}", inputs[i].get_data(), pred.get_data());
    }
    assert_eq!(losses.len(), 100);
    assert_eq!(predictions.len(), 4);
}

#[test]
fn train_dense_layer() {
    let (inputs, targets) = sum_dataset();

    let mut layer = DenseLayer::<Real>::new(2, 1, Accuracy::F32);
    let loss_fn = MeanSquaredError;

    let learning_rate = Real(0.1);
    let epochs = 100;

    for epoch in 0..epochs {
        let mut total_loss = 0.0;

        for (input, target) in inputs.iter().zip(targets.iter()) {
            let pred = layer.forward(input, None::<Activation>).unwrap();
            let loss = loss_fn.forward(&pred, target);
            total_loss += loss.get_data()[0].0;

            let dl_dy = loss_fn.backward(&pred, target);
            let (_grad_input, grad_weights, grad_bias) = layer.backward(input, &dl_dy);

            let new_weights = layer.get_weights().sub(&grad_weights.scale(learning_rate));
            layer.set_weights(&new_weights);
            let new_bias = layer.get_bias().sub(&grad_bias.scale(learning_rate));
            layer.update_bias(&new_bias);
        }

        println!("Epoch {} - Loss: {:.5}", epoch + 1, total_loss / inputs.len() as f32);
    }

    let test = tensor(&[1.0, 1.0], &[1, 2]);
    let prediction = layer.forward(&test, None::<Activation>).unwrap();
    println!("Final prediction for [1.0, 1.0]: {:?}", prediction.get_data());
    assert!((prediction.get_data()[0].0 - 2.0).abs() < 0.1);
}

#[test]
fn new_layer_has_weights_in_range_and_zero_bias() {
    let layer = DenseLayer::<Real>::new(3, 2, Accuracy::F32);
    assert_eq!(layer.get_weights().get_shape(), &vec![3usize, 2]);
    assert_eq!(layer.get_weights().get_size(), 6);
    assert!(*layer.get_weights().get_accuracy() == Accuracy::F32);
    for w in layer.get_weights().get_data() {
        assert!(w.0 >= -0.1 && w.0 <= 0.1);
    }
    assert_eq!(layer.get_bias().get_shape(), &vec![2usize]);
    assert_eq!(plain(layer.get_bias()), vec![0.0, 0.0]);
    assert!(*layer.get_bias().get_accuracy() == Accuracy::F32);
}

#[test]
fn zero_layer_forwards_to_zero() {
    let layer = dense(&[0.0, 0.0], &[0.0], 2, 1);
    let input = tensor(&[1.0, 1.0], &[1, 2]);
    let out = layer.forward(&input, None::<Activation>).unwrap();
    assert_eq!(out.get_shape(), &vec![1usize, 1]);
    assert_eq!(plain(&out), vec![0.0]);
}

#[test]
fn forward_is_input_times_weights_plus_bias() {
    let layer = dense(&[1.0, 2.0, 3.0, 4.0, 5.0, 6.0], &[0.5, -0.5], 3, 2);
    let input = tensor(&[1.0, 0.0, -1.0, 2.0, 1.0, 0.0], &[2, 3]);
    let out = layer.forward(&input, None::<Activation>).unwrap();
    assert_eq!(out.get_shape(), &vec![2usize, 2]);
    assert_eq!(plain(&out), vec![-3.5, -4.5, 5.5, 7.5]);
    let rectified = layer.forward(&input, Some(relu)).unwrap();
    assert_eq!(plain(&rectified), vec![0.0, 0.0, 5.5, 7.5]);
}

#[test]
fn forward_reports_an_input_that_is_no_matrix() {
    let layer = dense(&[0.0, 0.0], &[0.0], 2, 1);
    let input = tensor(&[1.0, 1.0], &[2]);
    let r = layer.forward(&input, None::<Activation>);
    assert_eq!(r.err(), Some("Input tensor must be 2D".to_string()));
    let cube = tensor(&[1.0, 1.0], &[1, 1, 2]);
    let r = layer.forward(&cube, None::<Activation>);
    assert_eq!(r.err(), Some("Input tensor must be 2D".to_string()));
}

#[test]
fn forward_reports_rows_of_the_wrong_length() {
    let layer = dense(&[0.0, 0.0], &[0.0], 2, 1);
    let input = tensor(&[1.0, 1.0, 1.0], &[1, 3]);
    let r = layer.forward(&input, None::<Activation>);
    assert_eq!(r.err(), Some("Input tensor size does not match weight matrix".to_string()));
    let r = layer.predict(&input, None::<Activation>);
    assert!(r.is_err());
}

#[test]
fn backward_gives_the_three_gradients() {
    let layer = dense(&[1.0, 2.0, 3.0, 4.0, 5.0, 6.0], &[0.0, 0.0], 3, 2);
    let input = tensor(&[1.0, 2.0, 3.0], &[1, 3]);
    let grad = tensor(&[0.5, -1.0], &[1, 2]);
    let (grad_input, grad_weights, grad_bias) = layer.backward(&input, &grad);
    assert_eq!(grad_weights.get_shape(), &vec![3usize, 2]);
    assert_eq!(plain(&grad_weights), vec![0.5, -1.0, 1.0, -2.0, 1.5, -3.0]);
    assert_eq!(grad_bias.get_shape(), &vec![2usize]);
    assert_eq!(plain(&grad_bias), vec![0.5, -1.0]);
    assert_eq!(grad_input.get_shape(), &vec![1usize, 3]);
    assert_eq!(plain(&grad_input), vec![-1.5, -2.5, -3.5]);
}

#[test]
fn backward_sums_the_bias_gradient_over_the_batch() {
    let layer = dense(&[1.0, 1.0], &[0.0], 2, 1);
    let input = tensor(&[1.0, 2.0, 3.0, 4.0], &[2, 2]);
    let grad = tensor(&[1.0, 10.0], &[2, 1]);
    let (grad_input, grad_weights, grad_bias) = layer.backward(&input, &grad);
    assert_eq!(plain(&grad_bias), vec![11.0]);
    assert_eq!(plain(&grad_weights), vec![31.0, 42.0]);
    assert_eq!(plain(&grad_input), vec![1.0, 1.0, 10.0, 10.0]);
}

#[test]
fn update_params_steps_against_the_gradient() {
    let mut layer = dense(&[1.0, 2.0], &[3.0], 2, 1);
    let grad_w = tensor(&[2.0, -4.0], &[2, 1]);
    let grad_b = tensor(&[8.0], &[1]);
    layer.update_params(&grad_w, &grad_b, Real(0.5));
    assert_eq!(plain(layer.get_weights()), vec![0.0, 4.0]);
    assert_eq!(plain(layer.get_bias()), vec![-1.0]);
    assert_eq!(layer.get_weights().get_shape(), &vec![2usize, 1]);
    assert_eq!(layer.get_bias().get_shape(), &vec![1usize]);
}

#[test]
fn set_weights_and_update_bias_replace_the_parameters() {
    let mut layer = DenseLayer::<Real>::new(2, 2, Accuracy::F32);
    layer.set_weights(&tensor(&[1.0, 2.0, 3.0, 4.0], &[2, 2]));
    assert_eq!(plain(layer.get_weights()), vec![1.0, 2.0, 3.0, 4.0]);
    assert_eq!(plain(layer.get_bias()), vec![0.0, 0.0]);
    layer.update_bias(&tensor(&[5.0, 6.0], &[2]));
    assert_eq!(plain(layer.get_bias()), vec![5.0, 6.0]);
    assert_eq!(plain(layer.get_weights()), vec![1.0, 2.0, 3.0, 4.0]);
}

#[test]
fn mse_is_the_mean_of_the_squared_differences() {
    let pred = tensor(&[1.0, 2.0, 3.0, 5.0], &[2, 2]);
    let target = tensor(&[0.0, 0.0, 4.0, 1.0], &[2, 2]);
    let loss = MeanSquaredError.forward(&pred, &target);
    assert_eq!(loss.get_shape(), &vec![1usize]);
    assert_eq!(plain(&loss), vec![5.5]);
    assert!(*loss.get_accuracy() == Accuracy::F32);
}

#[test]
fn mse_gradient_is_twice_the_difference_over_the_count() {
    let pred = tensor(&[1.0, 2.0, 3.0, 5.0], &[2, 2]);
    let target = tensor(&[0.0, 0.0, 4.0, 1.0], &[2, 2]);
    let grad = MeanSquaredError.backward(&pred, &target);
    assert_eq!(grad.get_shape(), &vec![2usize, 2]);
    assert_eq!(plain(&grad), vec![0.5, 1.0, -0.5, 2.0]);
}

#[test]
fn mse_of_a_prediction_that_equals_its_target() {
    let pred = tensor(&[1.0, -2.0, 3.5, 0.0, 7.0, 9.0], &[2, 3]);
    let target = tensor(&[1.0, -2.0, 3.5, 0.0, 7.0, 9.0], &[2, 3]);
    let loss = MeanSquaredError.forward(&pred, &target);
    assert_eq!(loss.get_shape(), &vec![1usize]);
    assert_eq!(plain(&loss), vec![0.0]);
    let grad = MeanSquaredError.backward(&pred, &target);
    assert_eq!(grad.get_shape(), pred.get_shape());
    assert_eq!(plain(&grad), vec![0.0; 6]);
}

#[test]
fn mse_divides_the_sum_by_the_count() {
    let pred = tensor(&[1.0, 1.0, 1.0], &[3]);
    let target = tensor(&[0.0, 0.0, 0.0], &[3]);
    let loss = MeanSquaredError.forward(&pred, &target);
    assert_eq!(plain(&loss), vec![3.0f32 / 3.0]);
    assert_eq!(plain(&loss), vec![1.0]);
    let grad = MeanSquaredError.backward(&pred, &target);
    assert_eq!(plain(&grad), vec![2.0f32 / 3.0; 3]);
}

#[test]
fn mse_on_signed_integers() {
    let pred = Tensor::new(Accuracy::I8, vec![2i8, 2], vec![2]);
    let target = Tensor::new(Accuracy::I8, vec![0i8, 0], vec![2]);
    let loss = MeanSquaredError.forward(&pred, &target);
    assert_eq!(loss.get_shape(), &vec![1usize]);
    assert_eq!(loss.get_data(), &vec![4]);
    assert!(*loss.get_accuracy() == Accuracy::I8);
    let grad = MeanSquaredError.backward(&pred, &target);
    assert_eq!(grad.get_shape(), &vec![2usize]);
    assert_eq!(grad.get_data(), &vec![2, 2]);
}

#[test]
fn mse_on_signed_integers_with_more_than_two_elements() {
    let pred = Tensor::new(Accuracy::I8, vec![3i8, 1, 4, 1, -5, 1], vec![2, 3]);
    let target = Tensor::new(Accuracy::I8, vec![1i8, 1, 1, 1, 1, 1], vec![2, 3]);
    let loss = MeanSquaredError.forward(&pred, &target);
    assert_eq!(loss.get_shape(), &vec![1usize]);
    assert_eq!(loss.get_data(), &vec![8]);
    let grad = MeanSquaredError.backward(&pred, &target);
    assert_eq!(grad.get_shape(), &vec![2usize, 3]);
    assert_eq!(grad.get_data(), &vec![0, 0, 1, 0, -2, 0]);
    assert!(*grad.get_accuracy() == Accuracy::I8);
}

#[test]
fn mse_on_unsigned_integers_with_more_than_two_elements() {
    let pred = Tensor::new(Accuracy::U8, vec![9u8, 7, 5, 3], vec![4]);
    let target = Tensor::new(Accuracy::U8, vec![3u8, 3, 3, 3], vec![4]);
    let loss = MeanSquaredError.forward(&pred, &target);
    assert_eq!(loss.get_data(), &vec![14]);
    let grad = MeanSquaredError.backward(&pred, &target);
    assert_eq!(grad.get_data(), &vec![3, 2, 1, 0]);
}

#[test]
fn mse_of_integers_that_equal_their_target() {
    let pred = Tensor::new(Accuracy::I8, vec![3i8, -1, 4], vec![3]);
    let target = Tensor::new(Accuracy::I8, vec![3i8, -1, 4], vec![3]);
    assert_eq!(MeanSquaredError.forward(&pred, &target).get_data(), &vec![0]);
    assert_eq!(MeanSquaredError.backward(&pred, &target).get_data(), &vec![0, 0, 0]);
}

#[test]
fn one_step_of_training_on_a_zero_layer() {
    let mut layer = dense(&[0.0, 0.0], &[0.0], 2, 1);
    let inputs = vec![tensor(&[1.0, 0.0], &[1, 2])];
    let targets = vec![tensor(&[1.0], &[1, 1])];
    let history = layer.train(&inputs, &targets, &MeanSquaredError, 1, Real(0.1), None::<Activation>);
    assert_eq!(history, vec![Real(1.0)]);
    assert_eq!(plain(layer.get_weights()), vec![0.2, 0.0]);
    assert_eq!(plain(layer.get_bias()), vec![0.2]);
}

#[test]
fn training_without_epochs_changes_nothing() {
    let mut layer = dense(&[0.25, -0.5], &[1.0], 2, 1);
    let (inputs, targets) = sum_dataset();
    let history = layer.train(&inputs, &targets, &MeanSquaredError, 0, Real(0.1), None::<Activation>);
    assert!(history.is_empty());
    assert_eq!(plain(layer.get_weights()), vec![0.25, -0.5]);
    assert_eq!(plain(layer.get_bias()), vec![1.0]);
}

#[test]
fn training_pairs_samples_as_far_as_both_reach() {
    let mut layer = dense(&[0.0, 0.0], &[0.0], 2, 1);
    let (inputs, _) = sum_dataset();
    let targets = vec![tensor(&[1.0], &[1, 1])];
    let history = layer.train(&inputs, &targets, &MeanSquaredError, 1, Real(0.1), None::<Activation>);
    assert_eq!(history, vec![Real(1.0)]);
    assert_eq!(plain(layer.get_weights()), vec![0.2, 0.0]);
}

#[test]
fn training_loss_does_not_increase_after_the_first_epochs() {
    let mut layer = dense(&[0.0, 0.0], &[0.0], 2, 1);
    let (inputs, targets) = sum_dataset();
    let history = layer.train(&inputs, &targets, &MeanSquaredError, 100, Real(0.1), None::<Activation>);
    assert_eq!(history.len(), 100);
    for epoch in 5..history.len() {
        assert!(history[epoch].0 <= history[epoch - 1].0 + 1e-6);
    }
    assert!(history[99].0 < history[0].0);
    assert!(history[99].0 < 0.01);
}

#[test]
fn a_model_of_one_layer_trains_as_the_layer_does() {
    let (inputs, targets) = sum_dataset();
    let mut layer = dense(&[0.1, -0.2], &[0.05], 2, 1);
    let alone = layer.train(&inputs, &targets, &MeanSquaredError, 20, Real(0.1), None::<Activation>);

    let mut model = Sequential::<Real, DenseLayer<Real>>::new();
    model.add(dense(&[0.1, -0.2], &[0.05], 2, 1));
    let activations: Vec<Option<Activation>> = vec![None];
    let together = model.train(&inputs, &targets, &MeanSquaredError, 20, Real(0.1), &activations);

    assert_eq!(alone, together);
    let probe = tensor(&[1.0, 1.0], &[1, 2]);
    let from_layer = layer.forward(&probe, None::<Activation>).unwrap();
    let from_model = model.forward(&probe, &activations);
    assert_eq!(plain(&from_layer), plain(&from_model));
}

#[test]
fn a_model_hands_each_output_to_the_next_layer() {
    let mut model = Sequential::<Real, DenseLayer<Real>>::new();
    model.add(dense(&[1.0, -1.0, 2.0, 0.5], &[0.0, 1.0], 2, 2));
    model.add(dense(&[3.0, -2.0], &[0.5], 2, 1));
    let input = tensor(&[1.0, 2.0], &[1, 2]);
    let none: Vec<Option<Activation>> = vec![None, None];
    let out = model.forward(&input, &none);
    assert_eq!(out.get_shape(), &vec![1usize, 1]);
    assert_eq!(plain(&out), vec![13.5]);
    let rectified: Vec<Option<Activation>> = vec![Some(relu), None];
    let input = tensor(&[-1.0, 0.0], &[1, 2]);
    let out = model.forward(&input, &rectified);
    assert_eq!(plain(&out), vec![-3.5]);
}

#[test]
fn a_model_without_layers_returns_its_input() {
    let model = Sequential::<Real, DenseLayer<Real>>::new();
    let input = tensor(&[1.0, 2.0], &[1, 2]);
    let none: Vec<Option<Activation>> = vec![];
    let out = model.forward(&input, &none);
    assert_eq!(out.get_shape(), input.get_shape());
    assert_eq!(plain(&out), vec![1.0, 2.0]);
}

#[test]
fn a_model_predicts_every_input_in_order() {
    let mut model = Sequential::<Real, DenseLayer<Real>>::new();
    model.add(dense(&[1.0, 1.0], &[0.0], 2, 1));
    let (inputs, _) = sum_dataset();
    let none: Vec<Option<Activation>> = vec![None];
    let outputs = model.predict_all(&inputs, &none);
    assert_eq!(outputs.len(), 4);
    let values: Vec<f32> = outputs.iter().map(|t| t.get_data()[0].0).collect();
    assert_eq!(values, vec![1.0, 1.0, 2.0, 0.0]);
}

#[test]
fn a_layer_predicts_every_input_in_order() {
    let layer = dense(&[1.0, 1.0], &[0.5], 2, 1);
    let (inputs, _) = sum_dataset();
    let outputs = layer.predict_all(&inputs, None::<Activation>);
    let values: Vec<f32> = outputs.iter().map(|t| t.get_data()[0].0).collect();
    assert_eq!(values, vec![1.5, 1.5, 2.5, 0.5]);
    let one = layer.predict(&inputs[2], None::<Activation>).unwrap();
    assert_eq!(plain(&one), vec![2.5]);
}

#[test]
fn one_step_of_training_on_a_model_of_two_layers() {
    let mut model = Sequential::<Real, DenseLayer<Real>>::new();
    model.add(dense(&[1.0, 0.0, 0.0, 1.0], &[0.0, 0.0], 2, 2));
    model.add(dense(&[1.0, 1.0], &[0.0], 2, 1));
    let inputs = vec![tensor(&[1.0, 2.0], &[1, 2])];
    let targets = vec![tensor(&[1.0], &[1, 1])];
    let none: Vec<Option<Activation>> = vec![None, None];
    let history = model.train(&inputs, &targets, &MeanSquaredError, 1, Real(0.5), &none);
    assert_eq!(history, vec![Real(4.0)]);
    let probe = tensor(&[1.0, 0.0], &[1, 2]);
    let out = model.forward(&probe, &none);
    assert_eq!(plain(&out), vec![13.0]);
}

#[test]
fn sigmoid_model_learns_to_separate() {
    let inputs = vec![tensor(&[0.0], &[1, 1]), tensor(&[1.0], &[1, 1])];
    let targets = vec![tensor(&[0.0], &[1, 1]), tensor(&[1.0], &[1, 1])];
    let mut model = Sequential::<Real, DenseLayer<Real>>::new();
    model.add(dense(&[0.0], &[0.0], 1, 1));
    let activations: Vec<Option<Activation>> = vec![Some(sigmoid)];
    let history = model.train(&inputs, &targets, &MeanSquaredError, 200, Real(0.5), &activations);
    assert_eq!(history.len(), 200);
    assert!(history[199].0 < history[0].0);
}

#[test]
fn a_layer_tells_which_inputs_it_takes() {
    let layer = dense(&[1.0, 2.0, 3.0, 4.0, 5.0, 6.0], &[0.0, 0.0], 3, 2);
    assert!(layer.can_forward(&tensor(&[1.0, 2.0, 3.0], &[1, 3])));
    assert!(layer.can_forward(&tensor(&[0.0; 6], &[2, 3])));
    assert!(!layer.can_forward(&tensor(&[1.0, 2.0], &[1, 2])));
    assert!(!layer.can_forward(&tensor(&[1.0, 2.0, 3.0], &[3])));
    let other_tag = Tensor::new(Accuracy::F16, reals(&[1.0, 2.0, 3.0]), vec![1, 3]);
    assert!(!layer.can_forward(&other_tag));
}

#[test]
fn a_layer_tells_which_samples_it_can_train_on() {
    let layer = dense(&[1.0, 2.0, 3.0, 4.0, 5.0, 6.0], &[0.0, 0.0], 3, 2);
    let input = tensor(&[1.0, 2.0, 3.0], &[1, 3]);
    assert!(layer.can_train_on(&input, &tensor(&[0.0, 0.0], &[1, 2])));
    assert!(!layer.can_train_on(&input, &tensor(&[0.0, 0.0], &[2])));
    assert!(!layer.can_train_on(&input, &tensor(&[0.0, 0.0], &[2, 1])));
    assert!(!layer.can_train_on(&input, &tensor(&[0.0], &[1, 1])));
    let other_tag = Tensor::new(Accuracy::U8, reals(&[0.0, 0.0]), vec![1, 2]);
    assert!(!layer.can_train_on(&input, &other_tag));
    assert!(!layer.can_train_on(&tensor(&[1.0, 2.0], &[1, 2]), &tensor(&[0.0, 0.0], &[1, 2])));
}

#[test]
fn a_layer_tells_which_gradients_it_takes() {
    let layer = dense(&[1.0, 2.0, 3.0, 4.0, 5.0, 6.0], &[0.0, 0.0], 3, 2);
    let input = tensor(&[1.0, 2.0, 3.0], &[1, 3]);
    assert!(layer.can_backward(&input, &tensor(&[0.5, -1.0], &[1, 2])));
    assert!(!layer.can_backward(&input, &tensor(&[0.5, -1.0], &[2, 1])));
    assert!(!layer.can_backward(&input, &tensor(&[0.5, -1.0], &[2])));
    assert!(!layer.can_backward(&input, &tensor(&[0.5, -1.0, 0.0], &[1, 3])));
    assert!(layer.can_update(&tensor(&[0.0; 6], &[3, 2]), &tensor(&[0.0; 2], &[2])));
    assert!(!layer.can_update(&tensor(&[0.0; 6], &[2, 3]), &tensor(&[0.0; 2], &[2])));
    assert!(!layer.can_update(&tensor(&[0.0; 6], &[3, 2]), &tensor(&[0.0; 2], &[1, 2])));
    let other_tag = Tensor::new(Accuracy::I8, reals(&[0.0; 6]), vec![3, 2]);
    assert!(!layer.can_update(&other_tag, &tensor(&[0.0; 2], &[2])));
}

#[test]
fn a_model_tells_which_inputs_and_samples_it_takes() {
    let mut model = Sequential::<Real, DenseLayer<Real>>::new();
    model.add(dense(&[0.0; 8], &[0.0; 2], 4, 2));
    model.add(dense(&[0.0; 6], &[0.0; 3], 2, 3));
    let input = tensor(&[0.0; 4], &[1, 4]);
    assert!(model.can_forward(&input, 2));
    assert!(model.can_forward(&input, 3));
    assert!(!model.can_forward(&input, 1));
    assert!(!model.can_forward(&tensor(&[0.0; 3], &[1, 3]), 2));
    assert!(!model.can_forward(&tensor(&[0.0; 4], &[4]), 2));
    assert!(model.can_train_on(&input, &tensor(&[0.0; 3], &[1, 3]), 2));
    assert!(!model.can_train_on(&input, &tensor(&[0.0; 2], &[1, 2]), 2));
    assert!(!model.can_train_on(&input, &tensor(&[0.0; 3], &[3]), 2));

    let mut broken = Sequential::<Real, DenseLayer<Real>>::new();
    broken.add(dense(&[0.0; 8], &[0.0; 2], 4, 2));
    broken.add(dense(&[0.0; 9], &[0.0; 3], 3, 3));
    assert!(!broken.can_forward(&input, 2));

    let empty = Sequential::<Real, DenseLayer<Real>>::new();
    assert!(empty.can_forward(&input, 0));
    assert!(empty.can_train_on(&input, &tensor(&[0.0; 4], &[1, 4]), 0));
    assert!(!empty.can_train_on(&input, &tensor(&[0.0; 3], &[1, 3]), 0));
}

#[test]
fn layer_training_loss_does_not_increase_from_a_random_start() {
    let mut layer = DenseLayer::<Real>::new(2, 1, Accuracy::F32);
    let (inputs, targets) = sum_dataset();
    let losses = layer.train(&inputs, &targets, &MeanSquaredError, 100, Real(0.1), None::<Activation>);
    assert_eq!(losses.len(), 100);
    for epoch in 5..99 {
        assert!(losses[epoch + 1].0 <= losses[epoch].0 + 1e-6);
    }
}

#[test]
fn model_training_loss_does_not_increase_from_a_random_start() {
    let mut model = Sequential::<Real, DenseLayer<Real>>::new();
    model.add(DenseLayer::<Real>::new(2, 1, Accuracy::F32));
    let (inputs, targets) = sum_dataset();
    let activations: Vec<Option<Activation>> = vec![None];
    let history = model.train(&inputs, &targets, &MeanSquaredError, 100, Real(0.1), &activations);
    assert_eq!(history.len(), 100);
    for epoch in 5..99 {
        assert!(history[epoch + 1].0 <= history[epoch].0 + 1e-6);
    }
    assert!(history[99].0 < history[0].0);
}
