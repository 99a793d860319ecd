//! The network: per-transition weight matrices and bias vectors, an
//! activation per transition, and a cost for the output layer, with forward
//! propagation and batch backpropagation.
use vstd::prelude::*;

use crate::batch::{Batch, Sample};
use crate::functions::{
    Activation, Cost, spec_act_forward, spec_act_backward, vec_sq_residuals_deriv,
};
use crate::matrix::{
    Matrix, vec_sum, vec_hadamard, mat_vec, tmat_vec, outer, mat_sum, zero_vec, zero_mat,
    vec_plus, vec_hadamard_mul, outer_product, zero_vector,
};
use crate::scalar::{random_unit_bits, ONE_BITS};

verus! {

/// The accumulated gradients of a batch: one matrix per weight matrix and one
/// vector per bias vector, in the same shapes as the parameters themselves.
pub struct Gradients {
    pub weight_gradients: Vec<Matrix>,
    pub bias_gradients: Vec<Vec<u32>>,
}

/// A feedforward neural network.  Transition `i` maps layer `i` to layer
/// `i + 1` through `weights[i]`, `biases[i]` and `activations[i]`.
pub struct NeuralNetwork {
    pub weights: Vec<Matrix>,
    pub biases: Vec<Vec<u32>>,
    pub input_size: usize,
    pub output_size: usize,
    pub activations: Vec<Activation>,
    pub cost: Cost,
}

impl NeuralNetwork {
    /// The number of layer transitions.
    pub open spec fn transitions(&self) -> int {
        self.weights@.len() as int
    }

    /// The dimension invariant: one weight matrix, bias vector and activation
    /// per transition; each matrix has one row per unit of the following
    /// layer and one column per unit of the preceding layer; each bias vector
    /// is as long as its layer; all layers are nonempty.
    pub open spec fn wf(&self) -> bool {
        &&& self.transitions() >= 1
        &&& self.biases@.len() == self.transitions()
        &&& self.activations@.len() == self.transitions()
        &&& self.input_size > 0
        &&& self.output_size > 0
        &&& forall|i: int| 0 <= i < self.transitions() ==> (#[trigger] self.weights@[i]).wf()
        &&& forall|i: int|
            0 <= i < self.transitions() ==> (#[trigger] self.biases@[i])@.len()
                == self.weights@[i]@.len()
        &&& self.weights@[0].cols() == self.input_size
        &&& self.weights@[self.transitions() - 1]@.len() == self.output_size
        &&& forall|i: int|
            1 <= i < self.transitions() ==> (#[trigger] self.weights@[i]).cols()
                == self.weights@[i - 1]@.len()
    }

    /// The size of layer `i`: the input layer for `i == 0`, and the layer a
    /// transition feeds for `i >= 1`.
    pub open spec fn layer_size(&self, i: int) -> int {
        if i == 0 {
            self.input_size as int
        } else {
            self.biases@[i - 1]@.len() as int
        }
    }

    /// True when every activation and the cost are built-in choices, so that
    /// every elementwise result is pinned by a spec function.
    pub open spec fn is_builtin(&self) -> bool {
        &&& self.cost.is_builtin()
        &&& forall|i: int|
            0 <= i < self.activations@.len() ==> (#[trigger] self.activations@[i]).is_builtin()
    }

    /// The post-activation vector entering transition `n`: the input for
    /// `n == 0`, and otherwise the previous transition's pre-activation
    /// vector passed through its activation.
    pub open spec fn spec_post(&self, input: Seq<u32>, n: int) -> Seq<u32>
        decreases n, 0int,
    {
        if n <= 0 {
            input
        } else {
            spec_act_forward(
                &self.activations@[n - 1],
                self.spec_pre(input, n - 1),
            )
        }
    }

    /// The pre-activation vector produced by transition `i`:
    /// `weights[i] * post(i) + biases[i]`.
    pub open spec fn spec_pre(&self, input: Seq<u32>, i: int) -> Seq<u32>
        decreases i, 1int,
    {
        vec_sum(mat_vec(self.weights@[i]@, self.spec_post(input, i)), self.biases@[i]@)
    }

    /// The finished output: the last pre-activation vector passed through the
    /// last transition's activation.
    pub open spec fn spec_forward(&self, input: Seq<u32>) -> Seq<u32> {
        self.spec_post(input, self.transitions())
    }

    /// The error signal carried into transition `i` before the chain-rule
    /// step: at the last transition, the cost derivative of the activated
    /// output against the target; earlier, the next transition's error pulled
    /// back through the transpose of its weight matrix.
    pub open spec fn spec_carried(&self, input: Seq<u32>, target: Seq<u32>, i: int) -> Seq<u32>
        decreases self.transitions() - i, 0int,
    {
        if i >= self.transitions() - 1 {
            vec_sq_residuals_deriv(self.spec_forward(input), target)
        } else {
            tmat_vec(
                self.weights@[i + 1]@,
                self.spec_err(input, target, i + 1),
                self.weights@[i + 1].cols(),
            )
        }
    }

    /// The backpropagated error at transition `i` for one sample: the carried
    /// signal multiplied elementwise by the activation derivative evaluated
    /// at that transition's own pre-activation vector.  By the chain rule
    /// this is exactly the gradient of the sample's cost with respect to
    /// `biases[i]`.
    pub open spec fn spec_err(&self, input: Seq<u32>, target: Seq<u32>, i: int) -> Seq<u32>
        decreases self.transitions() - i, 1int,
    {
        vec_hadamard(
            self.spec_carried(input, target, i),
            spec_act_backward(&self.activations@[i], self.spec_pre(input, i)),
        )
    }

    /// The gradient of the batch cost with respect to `biases[i]`, summed
    /// over the first `k` samples.
    pub open spec fn spec_bias_grad_total(&self, samples: Seq<Sample>, k: int, i: int) -> Seq<u32>
        decreases k,
    {
        if k <= 0 {
            zero_vec(self.biases@[i]@.len() as int)
        } else {
            vec_sum(
                self.spec_bias_grad_total(samples, k - 1, i),
                self.spec_err(samples[k - 1].0@, samples[k - 1].1@, i),
            )
        }
    }

    /// The gradient of the batch cost with respect to `weights[i]`, summed
    /// over the first `k` samples: each sample contributes the outer product
    /// of its error at transition `i` with the post-activation vector that
    /// entered the transition.
    pub open spec fn spec_weight_grad_total(
        &self,
        samples: Seq<Sample>,
        k: int,
        i: int,
    ) -> Seq<Seq<u32>>
        decreases k,
    {
        if k <= 0 {
            zero_mat(self.weights@[i]@.len() as int, self.weights@[i].cols())
        } else {
            mat_sum(
                self.spec_weight_grad_total(samples, k - 1, i),
                outer(
                    self.spec_err(samples[k - 1].0@, samples[k - 1].1@, i),
                    self.spec_post(samples[k - 1].0@, i),
                ),
            )
        }
    }

    /// Defines the size of each layer of the new network.  The first and last
    /// values of `layers` are the input and output layer sizes respectively.
    /// Weights and biases start from fresh random values in [0, 1); every
    /// activation starts as `Inactive` and the cost as `SquaredResiduals`.
    pub fn new(layers: &[usize]) -> (net: NeuralNetwork)
        requires
            layers@.len() >= 2,
            forall|i: int| 0 <= i < layers@.len() ==> layers@[i] > 0,
        ensures
            net.wf(),
            net.transitions() == layers@.len() - 1,
            net.input_size == layers@[0],
            net.output_size == layers@[layers@.len() - 1],
            forall|i: int|
                0 <= i < net.transitions() ==> (#[trigger] net.weights@[i])@.len() == layers@[i
                    + 1] && net.weights@[i].cols() == layers@[i],
            forall|i: int|
                0 <= i < net.transitions() ==> (#[trigger] net.biases@[i])@.len() == layers@[i + 1],
            forall|i: int|
                0 <= i < net.transitions() ==> (#[trigger] net.activations@[i]) is Inactive,
            net.cost is SquaredResiduals,
            forall|i: int, p: int, q: int|
                0 <= i < net.transitions() && 0 <= p < net.weights@[i]@.len() && 0 <= q
                    < net.weights@[i].cols() ==> #[trigger] net.weights@[i]@[p][q] < ONE_BITS,
            forall|i: int, p: int|
                0 <= i < net.transitions() && 0 <= p < net.biases@[i]@.len()
                    ==> #[trigger] net.biases@[i]@[p] < ONE_BITS,
    {
        let t = layers.len() - 1;
        let mut weights: Vec<Matrix> = Vec::new();
        let mut biases: Vec<Vec<u32>> = Vec::new();
        let mut activations: Vec<Activation> = Vec::new();
        for i in 0..t
            invariant
                layers@.len() >= 2,
                t == layers@.len() - 1,
                forall|k: int| 0 <= k < layers@.len() ==> layers@[k] > 0,
                weights@.len() == i,
                biases@.len() == i,
                activations@.len() == i,
                forall|k: int|
                    0 <= k < i ==> (#[trigger] weights@[k]).wf() && weights@[k]@.len() == layers@[k
                        + 1] && weights@[k].cols() == layers@[k],
                forall|k: int| 0 <= k < i ==> (#[trigger] biases@[k])@.len() == layers@[k + 1],
                forall|k: int| 0 <= k < i ==> (#[trigger] activations@[k]) is Inactive,
                forall|k: int, p: int, q: int|
                    0 <= k < i && 0 <= p < weights@[k]@.len() && 0 <= q < weights@[k].cols()
                        ==> #[trigger] weights@[k]@[p][q] < ONE_BITS,
                forall|k: int, p: int|
                    0 <= k < i && 0 <= p < biases@[k]@.len() ==> #[trigger] biases@[k]@[p]
                        < ONE_BITS,
        {
            weights.push(Matrix::random(layers[i + 1], layers[i]));
            biases.push(random_vector(layers[i + 1]));
            activations.push(Activation::Inactive);
        }
        NeuralNetwork {
            weights,
            biases,
            input_size: layers[0],
            output_size: layers[layers.len() - 1],
            activations,
            cost: Cost::SquaredResiduals,
        }
    }

    /// Replaces the activation selection, one activation per layer
    /// transition; everything else is untouched.
    pub fn set_activations(&mut self, activations: Vec<Activation>)
        requires
            old(self).wf(),
            activations@.len() == old(self).transitions(),
        ensures
            final(self).wf(),
            final(self).activations == activations,
            final(self).weights == old(self).weights,
            final(self).biases == old(self).biases,
            final(self).input_size == old(self).input_size,
            final(self).output_size == old(self).output_size,
            final(self).cost == old(self).cost,
    {
        self.activations = activations;
    }

    /// Replaces the cost selection; everything else is untouched.
    pub fn set_cost(&mut self, cost: Cost)
        requires
            old(self).wf(),
        ensures
            final(self).wf(),
            final(self).cost == cost,
            final(self).weights == old(self).weights,
            final(self).biases == old(self).biases,
            final(self).input_size == old(self).input_size,
            final(self).output_size == old(self).output_size,
            final(self).activations == old(self).activations,
    {
        self.cost = cost;
    }

    /// Feeds forward `n` transitions after the input layer.
    fn forward_n(&self, input: Vec<u32>, n: usize) -> (r: Vec<u32>)
        requires
            self.wf(),
            n <= self.transitions(),
            input@.len() == self.input_size,
        ensures
            r@.len() == self.layer_size(n as int),
            self.is_builtin() ==> r@ == self.spec_post(input@, n as int),
    {
        let ghost input0 = input@;
        let mut current = input;
        for i in 0..n
            invariant
                self.wf(),
                n <= self.transitions(),
                current@.len() == self.layer_size(i as int),
                self.is_builtin() ==> current@ == self.spec_post(input0, i as int),
        {
            let pre = vec_plus(&self.weights[i].mul_vec(&current), &self.biases[i]);
            current = self.activations[i].forward(pre);
        }
        current
    }

    /// Feeds the input all the way through and returns the finished,
    /// activated output vector, whose length is always the output size.
    pub fn forward(&self, input: Vec<u32>) -> (r: Vec<u32>)
        requires
            self.wf(),
            input@.len() == self.input_size,
        ensures
            r@.len() == self.output_size,
            self.is_builtin() ==> r@ == self.spec_forward(input@),
    {
        let n = self.weights.len();
        self.forward_n(input, n)
    }

    /// What a layer-by-layer forward pass returns: the input itself, then the
    /// pre-activation vector of each transition in order.
    pub open spec fn is_forward_layers_result(&self, input: Seq<u32>, r: Seq<Seq<u32>>) -> bool {
        &&& r.len() == self.transitions() + 1
        &&& r[0] == input
        &&& forall|i: int| 0 <= i < self.transitions() ==> r[i + 1] == self.spec_pre(input, i)
    }

    /// Returns all (unactivated) layers instead of just the output layer:
    /// the input itself, then one pre-activation vector per transition, so
    /// exactly `transitions + 1` vectors in all.
    #[verifier::rlimit(100)]
    pub fn forward_layers(&self, input: Vec<u32>) -> (r: Vec<Vec<u32>>)
        requires
            self.wf(),
            input@.len() == self.input_size,
        ensures
            r@.len() == self.transitions() + 1,
            r@[0]@ == input@,
            forall|i: int|
                0 <= i < self.transitions() ==> (#[trigger] r@[i + 1])@.len() == self.layer_size(
                    i + 1),
            self.is_builtin() ==> forall|i: int|
                0 <= i < self.transitions() ==> (#[trigger] r@[i + 1])@ == self.spec_pre(
                    input@, i),
            self.is_builtin() ==> self.is_forward_layers_result(input@, r.deep_view()),
    {
        let ghost input0 = input@;
        let t = self.weights.len();
        let mut current = input.clone();
        let mut layers: Vec<Vec<u32>> = Vec::new();
        layers.push(input);
        for i in 0..t
            invariant
                self.wf(),
                t == self.transitions(),
                layers@.len() == i + 1,
                layers@[0]@ == input0,
                current@.len() == self.layer_size(i as int),
                input0.len() == self.input_size,
                forall|k: int|
                    0 <= k < i ==> (#[trigger] layers@[k + 1])@.len() == self.layer_size(k + 1),
                self.is_builtin() ==> current@ == self.spec_post(input0, i as int),
                self.is_builtin() ==> forall|k: int|
                    0 <= k < i ==> (#[trigger] layers@[k + 1])@ == self.spec_pre(input0, k),
        {
            let pre = vec_plus(&self.weights[i].mul_vec(&current), &self.biases[i]);
            layers.push(pre.clone());
            current = self.activations[i].forward(pre);
        }
        proof {
            assert forall|j: int| 0 <= j < layers@.len() implies layers.deep_view()[j]
                == layers@[j]@ by {
                assert(layers.deep_view()[j] =~= layers@[j]@);
            }
        }
        layers
    }

    /// Computes the gradients of the batch cost with respect to every weight
    /// matrix and bias vector, summed (not averaged) over all samples, in the
    /// same shapes as the parameters themselves; the network is not changed.
    /// For built-in activations and cost the result is pinned exactly to the
    /// backpropagation equations.
    #[verifier::rlimit(100)]
    pub fn backward(&self, data: &Batch) -> (g: Gradients)
        requires
            self.wf(),
            forall|k: int|
                0 <= k < data.samples@.len() ==> (#[trigger] data.samples@[k]).0@.len()
                    == self.input_size && data.samples@[k].1@.len() == self.output_size,
        ensures
            g.weight_gradients@.len() == self.transitions(),
            g.bias_gradients@.len() == self.transitions(),
            forall|i: int|
                0 <= i < self.transitions() ==> (#[trigger] g.weight_gradients@[i]).wf()
                    && g.weight_gradients@[i]@.len() == self.weights@[i]@.len()
                    && g.weight_gradients@[i].cols() == self.weights@[i].cols(),
            forall|i: int|
                0 <= i < self.transitions() ==> (#[trigger] g.bias_gradients@[i])@.len()
                    == self.biases@[i]@.len(),
            self.is_builtin() ==> forall|i: int|
                0 <= i < self.transitions() ==> (#[trigger] g.bias_gradients@[i])@
                    == self.spec_bias_grad_total(data.samples@, data.samples@.len() as int, i),
            self.is_builtin() ==> forall|i: int|
                0 <= i < self.transitions() ==> (#[trigger] g.weight_gradients@[i])@
                    == self.spec_weight_grad_total(data.samples@, data.samples@.len() as int, i),
    {
        let t = self.weights.len();
        let mut weight_gradients: Vec<Matrix> = Vec::new();
        let mut bias_gradients: Vec<Vec<u32>> = Vec::new();
        for i in 0..t
            invariant
                self.wf(),
                t == self.transitions(),
                weight_gradients@.len() == i,
                bias_gradients@.len() == i,
                forall|n: int|
                    0 <= n < i ==> (#[trigger] weight_gradients@[n]).wf()
                        && weight_gradients@[n]@.len() == self.weights@[n]@.len()
                        && weight_gradients@[n].cols() == self.weights@[n].cols()
                        && weight_gradients@[n]@ == zero_mat(
                        self.weights@[n]@.len() as int,
                        self.weights@[n].cols(),
                    ),
                forall|n: int|
                    0 <= n < i ==> (#[trigger] bias_gradients@[n])@ == zero_vec(
                        self.biases@[n]@.len() as int,
                    ),
        {
            let w = &self.weights[i];
            weight_gradients.push(Matrix::zeros(w.nrows(), w.ncols()));
            bias_gradients.push(zero_vector(self.biases[i].len()));
        }
        let s = data.samples.len();
        for k in 0..s
            invariant
                self.wf(),
                t == self.transitions(),
                s == data.samples@.len(),
                forall|n: int|
                    0 <= n < s ==> (#[trigger] data.samples@[n]).0@.len() == self.input_size
                        && data.samples@[n].1@.len() == self.output_size,
                weight_gradients@.len() == t,
                bias_gradients@.len() == t,
                forall|n: int|
                    0 <= n < t ==> (#[trigger] weight_gradients@[n]).wf()
                        && weight_gradients@[n]@.len() == self.weights@[n]@.len()
                        && weight_gradients@[n].cols() == self.weights@[n].cols(),
                forall|n: int|
                    0 <= n < t ==> (#[trigger] bias_gradients@[n])@.len()
                        == self.biases@[n]@.len(),
                self.is_builtin() ==> forall|n: int|
                    0 <= n < t ==> (#[trigger] bias_gradients@[n])@ == self.spec_bias_grad_total(
                        data.samples@,
                        k as int,
                        n,
                    ),
                self.is_builtin() ==> forall|n: int|
                    0 <= n < t ==> (#[trigger] weight_gradients@[n])@
                        == self.spec_weight_grad_total(data.samples@, k as int, n),
        {
            let sample = &data.samples[k];
            let ghost input0 = sample.0@;
            let ghost target0 = sample.1@;
            let layers = self.forward_layers(sample.0.clone());
            let mut posts: Vec<Vec<u32>> = Vec::new();
            posts.push(sample.0.clone());
            for i in 0..t
                invariant
                    self.wf(),
                    t == self.transitions(),
                    input0.len() == self.input_size,
                    layers@.len() == t + 1,
                    layers@[0]@ == input0,
                    forall|n: int|
                        0 <= n < t ==> (#[trigger] layers@[n + 1])@.len() == self.layer_size(
                            n + 1),
                    self.is_builtin() ==> forall|n: int|
                        0 <= n < t ==> (#[trigger] layers@[n + 1])@ == self.spec_pre(input0, n),
                    posts@.len() == i + 1,
                    forall|n: int|
                        0 <= n <= i ==> (#[trigger] posts@[n])@.len() == self.layer_size(n),
                    posts@[0]@ == input0,
                    self.is_builtin() ==> forall|n: int|
                        0 <= n <= i ==> (#[trigger] posts@[n])@ == self.spec_post(input0, n),
            {
                posts.push(self.activations[i].forward(layers[i + 1].clone()));
            }
            let observed = posts[t].clone();
            let mut err = self.cost.backward(observed, sample.1.clone());
            let mut errs: Vec<Vec<u32>> = Vec::new();
            let mut i = t;
            while i > 0
                invariant
                    self.wf(),
                    t == self.transitions(),
                    input0.len() == self.input_size,
                    target0.len() == self.output_size,
                    layers@.len() == t + 1,
                    layers@[0]@ == input0,
                    forall|n: int|
                        0 <= n < t ==> (#[trigger] layers@[n + 1])@.len() == self.layer_size(
                            n + 1),
                    self.is_builtin() ==> forall|n: int|
                        0 <= n < t ==> (#[trigger] layers@[n + 1])@ == self.spec_pre(input0, n),
                    0 <= i <= t,
                    i > 0 ==> err@.len() == self.layer_size(i as int),
                    self.is_builtin() && i > 0 ==> err@ == self.spec_carried(
                        input0,
                        target0,
                        i - 1,
                    ),
                    errs@.len() == t - i,
                    forall|j: int|
                        0 <= j < t - i ==> (#[trigger] errs@[j])@.len() == self.layer_size(
                            t - j),
                    self.is_builtin() ==> forall|j: int|
                        0 <= j < t - i ==> (#[trigger] errs@[j])@ == self.spec_err(
                            input0,
                            target0,
                            t - 1 - j,
                        ),
                decreases i,
            {
                i = i - 1;
                let deriv = self.activations[i].backward(layers[i + 1].clone());
                err = vec_hadamard_mul(&err, &deriv);
                errs.push(err.clone());
                if i > 0 {
                    err = self.weights[i].transpose_mul_vec(&err);
                }
            }
            for i in 0..t
                invariant
                    self.wf(),
                    t == self.transitions(),
                    s == data.samples@.len(),
                    0 <= k < s,
                    data.samples@[k as int].0@ == input0,
                    data.samples@[k as int].1@ == target0,
                    errs@.len() == t,
                    forall|j: int|
                        0 <= j < t ==> (#[trigger] errs@[j])@.len() == self.layer_size(t - j),
                    self.is_builtin() ==> forall|j: int|
                        0 <= j < t ==> (#[trigger] errs@[j])@ == self.spec_err(
                            input0,
                            target0,
                            t - 1 - j,
                        ),
                    posts@.len() == t + 1,
                    forall|n: int|
                        0 <= n <= t ==> (#[trigger] posts@[n])@.len() == self.layer_size(n),
                    self.is_builtin() ==> forall|n: int|
                        0 <= n <= t ==> (#[trigger] posts@[n])@ == self.spec_post(input0, n),
                    weight_gradients@.len() == t,
                    bias_gradients@.len() == t,
                    forall|n: int|
                        0 <= n < t ==> (#[trigger] weight_gradients@[n]).wf()
                            && weight_gradients@[n]@.len() == self.weights@[n]@.len()
                            && weight_gradients@[n].cols() == self.weights@[n].cols(),
                    forall|n: int|
                        0 <= n < t ==> (#[trigger] bias_gradients@[n])@.len()
                            == self.biases@[n]@.len(),
                    self.is_builtin() ==> forall|n: int|
                        0 <= n < i ==> (#[trigger] bias_gradients@[n])@
                            == self.spec_bias_grad_total(data.samples@, k + 1, n),
                    self.is_builtin() ==> forall|n: int|
                        i <= n < t ==> (#[trigger] bias_gradients@[n])@
                            == self.spec_bias_grad_total(data.samples@, k as int, n),
                    self.is_builtin() ==> forall|n: int|
                        0 <= n < i ==> (#[trigger] weight_gradients@[n])@
                            == self.spec_weight_grad_total(data.samples@, k + 1, n),
                    self.is_builtin() ==> forall|n: int|
                        i <= n < t ==> (#[trigger] weight_gradients@[n])@
                            == self.spec_weight_grad_total(data.samples@, k as int, n),
            {
                let e = &errs[t - 1 - i];
                proof {
                    if self.is_builtin() {
                        assert(errs@[t - 1 - i]@ == self.spec_err(input0, target0, i as int));
                        assert(self.spec_bias_grad_total(data.samples@, k + 1, i as int)
                            == vec_sum(
                            self.spec_bias_grad_total(data.samples@, k as int, i as int),
                            self.spec_err(input0, target0, i as int),
                        ));
                        assert(self.spec_weight_grad_total(data.samples@, k + 1, i as int)
                            == mat_sum(
                            self.spec_weight_grad_total(data.samples@, k as int, i as int),
                            outer(
                                self.spec_err(input0, target0, i as int),
                                self.spec_post(input0, i as int),
                            ),
                        ));
                    }
                }
                let nb = vec_plus(&bias_gradients[i], e);
                bias_gradients[i] = nb;
                let nw = weight_gradients[i].plus(&outer_product(e, &posts[i]));
                weight_gradients[i] = nw;
            }
        }
        Gradients { weight_gradients, bias_gradients }
    }
}

/// Forward propagation is pure: the layer sequence depends on the network's
/// parameters and the input alone, so running `forward_layers` twice over an
/// unchanged network with the same input yields identical results.
pub proof fn lemma_forward_layers_idempotent(
    net: &NeuralNetwork,
    input: Seq<u32>,
    first: Seq<Seq<u32>>,
    second: Seq<Seq<u32>>,
)
    requires
        net.wf(),
        net.is_builtin(),
        net.is_forward_layers_result(input, first),
        net.is_forward_layers_result(input, second),
    ensures
        first == second,
{
    assert forall|j: int| 0 <= j < first.len() implies first[j] == second[j] by {
        if j > 0 {
            assert(first[j] == net.spec_pre(input, j - 1));
            assert(second[j] == net.spec_pre(input, j - 1));
        }
    }
    assert(first =~= second);
}

/// A vector of the given length filled with fresh random values, each in
/// [0, 1) — as bit patterns, strictly below the pattern of one.
fn random_vector(n: usize) -> (out: Vec<u32>)
    ensures
        out@.len() == n,
        forall|k: int| 0 <= k < n ==> #[trigger] out@[k] < ONE_BITS,
{
    let mut out: Vec<u32> = Vec::new();
    for i in 0..n
        invariant
            out@.len() == i,
            forall|k: int| 0 <= k < i ==> #[trigger] out@[k] < ONE_BITS,
    {
        out.push(random_unit_bits());
    }
    out
}

} // verus!
