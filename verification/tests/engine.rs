use neural_net::batch::{Batch, Sample};
use neural_net::functions::{Activation, ActivationFunction, Cost, CostFunction, ReLU, SoftPlus, SquaredResiduals};
use neural_net::matrix::Matrix;
use neural_net::neural_network::NeuralNetwork;

fn bits_of(values: &[f32]) -> Vec<u32> {
    values.iter().map(|v| v.to_bits()).collect()
}

fn values_of(bits: &[u32]) -> Vec<f32> {
    bits.iter().map(|b| f32::from_bits(*b)).collect()
}

fn matrix_of(rows: &[&[f32]]) -> Matrix {
    Matrix { rows: rows.iter().map(|r| bits_of(r)).collect() }
}

#[test]
fn construction_shapes_match_layer_sizes() {
    let net = NeuralNetwork::new(&[2, 3, 1]);
    assert_eq!(net.weights.len(), 2);
    assert_eq!(net.biases.len(), 2);
    assert_eq!(net.activations.len(), 2);
    assert_eq!(net.weights[0].rows.len(), 3);
    assert_eq!(net.weights[0].rows[0].len(), 2);
    assert_eq!(net.weights[1].rows.len(), 1);
    assert_eq!(net.weights[1].rows[0].len(), 3);
    assert_eq!(net.biases[0].len(), 3);
    assert_eq!(net.biases[1].len(), 1);
    assert_eq!(net.input_size, 2);
    assert_eq!(net.output_size, 1);
    assert!(matches!(net.cost, Cost::SquaredResiduals));
    for a in &net.activations {
        assert!(matches!(a, Activation::Inactive));
    }
}

#[test]
fn initial_parameters_lie_in_unit_interval() {
    let net = NeuralNetwork::new(&[4, 5, 2]);
    for w in &net.weights {
        for row in &w.rows {
            for &b in row {
                let v = f32::from_bits(b);
                assert!((0.0..1.0).contains(&v));
            }
        }
    }
    for bias in &net.biases {
        for &b in bias {
            let v = f32::from_bits(b);
            assert!((0.0..1.0).contains(&v));
        }
    }
}

#[test]
fn forward_output_length_equals_output_size() {
    let net = NeuralNetwork::new(&[3, 4, 4, 2]);
    let out = net.forward(bits_of(&[0.25, 0.5, 0.75]));
    assert_eq!(out.len(), 2);
}

#[test]
fn forward_layers_counts_and_first_element() {
    let net = NeuralNetwork::new(&[2, 3, 1]);
    let input = bits_of(&[0.5, -0.25]);
    let layers = net.forward_layers(input.clone());
    assert_eq!(layers.len(), 3);
    assert_eq!(layers[0], input);
    assert_eq!(layers[1].len(), 3);
    assert_eq!(layers[2].len(), 1);
}

#[test]
fn forward_layers_is_pure() {
    let net = NeuralNetwork::new(&[2, 3, 2]);
    let input = bits_of(&[0.125, 0.625]);
    let first = net.forward_layers(input.clone());
    let second = net.forward_layers(input);
    assert_eq!(first, second);
}

#[test]
fn inactive_forward_is_identity() {
    let v = bits_of(&[-2.5, 0.0, 3.75, 100.0]);
    let out = Activation::Inactive.forward(v.clone());
    assert_eq!(out, v);
}

#[test]
fn inactive_backward_is_all_ones() {
    let v = bits_of(&[-2.5, 0.0, 3.75]);
    let out = Activation::Inactive.backward(v);
    assert_eq!(values_of(&out), vec![1.0, 1.0, 1.0]);
}

#[test]
fn relu_forward_clamps_negatives() {
    let out = ReLU.forward(bits_of(&[-1.0, 0.0, 2.0]));
    assert_eq!(values_of(&out), vec![0.0, 0.0, 2.0]);
}

#[test]
fn relu_backward_uses_midpoint_at_zero() {
    let out = ReLU.backward(bits_of(&[-1.0, 0.0, 2.0]));
    assert_eq!(values_of(&out), vec![0.0, 0.5, 1.0]);
}

#[test]
fn relu_through_activation_selector() {
    let out = Activation::ReLU.forward(bits_of(&[-3.5, 1.5]));
    assert_eq!(values_of(&out), vec![0.0, 1.5]);
    let out = Activation::ReLU.backward(bits_of(&[-3.5, 1.5]));
    assert_eq!(values_of(&out), vec![0.0, 1.0]);
}

#[test]
fn softplus_forward_at_zero_is_ln_two() {
    let out = SoftPlus.forward(bits_of(&[0.0]));
    assert_eq!(values_of(&out), vec![2.0f32.ln()]);
}

#[test]
fn softplus_backward_at_zero_is_one_half() {
    let out = SoftPlus.backward(bits_of(&[0.0]));
    assert_eq!(values_of(&out), vec![0.5]);
}

#[test]
fn squared_residuals_forward_squares_the_difference() {
    let out = SquaredResiduals.forward(bits_of(&[3.0]), bits_of(&[1.0]));
    assert_eq!(values_of(&out), vec![4.0]);
}

#[test]
fn squared_residuals_backward_doubles_the_difference() {
    let out = SquaredResiduals.backward(bits_of(&[3.0]), bits_of(&[1.0]));
    assert_eq!(values_of(&out), vec![4.0]);
}

#[test]
fn cost_selector_dispatches_squared_residuals() {
    let cost = Cost::SquaredResiduals;
    let out = cost.forward(bits_of(&[1.0, -1.0]), bits_of(&[0.5, 1.0]));
    assert_eq!(values_of(&out), vec![0.25, 4.0]);
    let out = cost.backward(bits_of(&[1.0, -1.0]), bits_of(&[0.5, 1.0]));
    assert_eq!(values_of(&out), vec![1.0, -4.0]);
}

#[test]
fn zeroed_network_collapses_every_input_to_zero() {
    let mut net = NeuralNetwork::new(&[2, 3, 1]);
    net.weights[0] = Matrix::zeros(3, 2);
    net.weights[1] = Matrix::zeros(1, 3);
    net.biases[0] = bits_of(&[0.0, 0.0, 0.0]);
    net.biases[1] = bits_of(&[0.0]);
    for (a, b) in [(0.7f32, -0.3f32), (5.0, 2.5), (-1.0, -1.0)] {
        let out = net.forward(bits_of(&[a, b]));
        assert_eq!(values_of(&out), vec![0.0]);
    }
}

#[test]
fn set_activations_replaces_the_selection() {
    let mut net = NeuralNetwork::new(&[2, 3, 1]);
    net.set_activations(vec![Activation::ReLU, Activation::SoftPlus]);
    assert!(matches!(net.activations[0], Activation::ReLU));
    assert!(matches!(net.activations[1], Activation::SoftPlus));
}

#[test]
fn xor_batch_gradients_match_parameter_shapes() {
    let net = NeuralNetwork::new(&[2, 3, 1]);
    let batch = Batch::new(vec![
        Sample::new(bits_of(&[0.0, 0.0]), bits_of(&[0.0])),
        Sample::new(bits_of(&[0.0, 1.0]), bits_of(&[1.0])),
        Sample::new(bits_of(&[1.0, 0.0]), bits_of(&[1.0])),
        Sample::new(bits_of(&[1.0, 1.0]), bits_of(&[0.0])),
    ]);
    let g = net.backward(&batch);
    assert_eq!(g.weight_gradients.len(), 2);
    assert_eq!(g.bias_gradients.len(), 2);
    assert_eq!(g.weight_gradients[0].rows.len(), 3);
    assert_eq!(g.weight_gradients[0].rows[0].len(), 2);
    assert_eq!(g.weight_gradients[1].rows.len(), 1);
    assert_eq!(g.weight_gradients[1].rows[0].len(), 3);
    assert_eq!(g.bias_gradients[0].len(), 3);
    assert_eq!(g.bias_gradients[1].len(), 1);
}

#[test]
fn single_transition_gradients_match_the_analytic_formula() {
    // A 1-1 identity-activated network: output = w * x + b, so for one sample
    // the cost derivative is 2 * (w * x + b - y), the bias gradient equals it,
    // and the weight gradient is that times x.
    let mut net = NeuralNetwork::new(&[1, 1]);
    let w = 0.5f32;
    let b = 0.25f32;
    net.weights[0] = matrix_of(&[&[w]]);
    net.biases[0] = bits_of(&[b]);
    let x = 2.0f32;
    let y = 1.0f32;
    let batch = Batch::new(vec![Sample::new(bits_of(&[x]), bits_of(&[y]))]);
    let g = net.backward(&batch);
    let err = 2.0 * (w * x + b - y);
    assert_eq!(values_of(&g.bias_gradients[0]), vec![err]);
    assert_eq!(values_of(&g.weight_gradients[0].rows[0]), vec![err * x]);
}

#[test]
fn two_transition_gradients_follow_the_chain_rule() {
    // A 1-1-1 identity-activated network with fixed parameters; the hidden
    // error is the output error pulled back through the second weight.
    let mut net = NeuralNetwork::new(&[1, 1, 1]);
    let (w0, b0, w1, b1) = (0.5f32, 0.0f32, 2.0f32, 0.25f32);
    net.weights[0] = matrix_of(&[&[w0]]);
    net.weights[1] = matrix_of(&[&[w1]]);
    net.biases[0] = bits_of(&[b0]);
    net.biases[1] = bits_of(&[b1]);
    let x = 1.5f32;
    let y = 2.0f32;
    let batch = Batch::new(vec![Sample::new(bits_of(&[x]), bits_of(&[y]))]);
    let g = net.backward(&batch);
    let hidden = w0 * x + b0;
    let out = w1 * hidden + b1;
    let out_err = 2.0 * (out - y);
    let hidden_err = w1 * out_err;
    assert_eq!(values_of(&g.bias_gradients[1]), vec![out_err]);
    assert_eq!(values_of(&g.weight_gradients[1].rows[0]), vec![out_err * hidden]);
    assert_eq!(values_of(&g.bias_gradients[0]), vec![hidden_err]);
    assert_eq!(values_of(&g.weight_gradients[0].rows[0]), vec![hidden_err * x]);
}

#[test]
fn batch_gradients_sum_over_samples() {
    let mut net = NeuralNetwork::new(&[1, 1]);
    net.weights[0] = matrix_of(&[&[1.0]]);
    net.biases[0] = bits_of(&[0.0]);
    let batch = Batch::new(vec![
        Sample::new(bits_of(&[1.0]), bits_of(&[0.0])),
        Sample::new(bits_of(&[2.0]), bits_of(&[0.0])),
    ]);
    let g = net.backward(&batch);
    // Sample errors are 2*1 and 2*2; the bias gradient is their sum and the
    // weight gradient is 2*1*1 + 2*2*2.
    assert_eq!(values_of(&g.bias_gradients[0]), vec![6.0]);
    assert_eq!(values_of(&g.weight_gradients[0].rows[0]), vec![10.0]);
}

struct NegateAll;

impl ActivationFunction for NegateAll {
    fn forward(&self, l: Vec<u32>) -> Vec<u32> {
        l.iter().map(|b| f32::from_bits(*b)).map(|v| (-v).to_bits()).collect()
    }

    fn backward(&self, l: Vec<u32>) -> Vec<u32> {
        l.iter().map(|_| (-1.0f32).to_bits()).collect()
    }
}

#[test]
fn custom_activation_is_dispatched() {
    let custom = Activation::Custom(Box::new(NegateAll));
    let out = custom.forward(bits_of(&[1.0, -2.0]));
    assert_eq!(values_of(&out), vec![-1.0, 2.0]);
    let out = custom.backward(bits_of(&[1.0, -2.0]));
    assert_eq!(values_of(&out), vec![-1.0, -1.0]);
}

struct AbsoluteError;

impl CostFunction for AbsoluteError {
    fn forward(&self, observed: Vec<u32>, training: Vec<u32>) -> Vec<u32> {
        observed
            .iter()
            .zip(training.iter())
            .map(|(o, t)| (f32::from_bits(*o) - f32::from_bits(*t)).abs().to_bits())
            .collect()
    }

    fn backward(&self, observed: Vec<u32>, training: Vec<u32>) -> Vec<u32> {
        observed
            .iter()
            .zip(training.iter())
            .map(|(o, t)| (f32::from_bits(*o) - f32::from_bits(*t)).signum().to_bits())
            .collect()
    }
}

#[test]
fn custom_cost_is_dispatched() {
    let mut net = NeuralNetwork::new(&[1, 1]);
    net.weights[0] = matrix_of(&[&[1.0]]);
    net.biases[0] = bits_of(&[0.0]);
    net.set_cost(Cost::Custom(Box::new(AbsoluteError)));
    let batch = Batch::new(vec![Sample::new(bits_of(&[3.0]), bits_of(&[1.0]))]);
    let g = net.backward(&batch);
    // The custom cost derivative is the sign of the difference, here 1.
    assert_eq!(values_of(&g.bias_gradients[0]), vec![1.0]);
    assert_eq!(values_of(&g.weight_gradients[0].rows[0]), vec![3.0]);
}

#[test]
fn sample_keeps_its_two_vectors() {
    let s = Sample::new(bits_of(&[1.0, 2.0]), bits_of(&[3.0]));
    assert_eq!(values_of(&s.0), vec![1.0, 2.0]);
    assert_eq!(values_of(&s.1), vec![3.0]);
    let b = Batch::new(vec![s]);
    assert_eq!(b.samples.len(), 1);
}
