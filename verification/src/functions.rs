//! Activation and cost functions.
//!
//! Both come as a closed set of built-in choices plus an escape hatch for a
//! caller-supplied implementation.  For the built-in choices every method is
//! pinned elementwise to a spec-level counterpart; for a custom implementation
//! only the length of the result is promised, by the capability trait itself.
use vstd::prelude::*;

use crate::scalar::{
    spec_sum, spec_diff, spec_prod, spec_quot, spec_exp, spec_ln, spec_neg, spec_is_nan,
    add_bits, sub_bits, mul_bits, div_bits, exp_bits, ln_bits, neg_bits,
    ZERO_BITS, HALF_BITS, ONE_BITS, TWO_BITS, SIGN_MASK,
};

verus! {

/// The rectified value: negative numbers (and either zero) collapse to
/// positive zero, as does NaN; everything else is kept.
pub open spec fn spec_relu(b: u32) -> u32 {
    if b >= SIGN_MASK || spec_is_nan(b) {
        ZERO_BITS
    } else {
        b
    }
}

/// The rectifier's derivative: one right of zero, zero left of zero, and one
/// half exactly at zero, so that it is defined at the kink.
pub open spec fn spec_relu_deriv(b: u32) -> u32 {
    if b & 0x7FFF_FFFF == 0 {
        HALF_BITS
    } else if b < SIGN_MASK {
        ONE_BITS
    } else {
        ZERO_BITS
    }
}

/// SoftPlus, computed as written: ln(1 + e^v) in single precision.
pub open spec fn spec_softplus(b: u32) -> u32 {
    spec_ln(spec_sum(ONE_BITS, spec_exp(b)))
}

/// The logistic sigmoid 1 / (1 + e^-v), the true derivative of SoftPlus.
pub open spec fn spec_sigmoid(b: u32) -> u32 {
    spec_quot(ONE_BITS, spec_sum(ONE_BITS, spec_exp(spec_neg(b))))
}

/// The vector of all ones of the given length.
pub open spec fn ones_vec(n: nat) -> Seq<u32> {
    Seq::new(n, |i: int| ONE_BITS)
}

/// The rectifier applied elementwise.
pub open spec fn vec_relu(v: Seq<u32>) -> Seq<u32> {
    v.map_values(|b: u32| spec_relu(b))
}

/// The rectifier's derivative applied elementwise.
pub open spec fn vec_relu_deriv(v: Seq<u32>) -> Seq<u32> {
    v.map_values(|b: u32| spec_relu_deriv(b))
}

/// SoftPlus applied elementwise.
pub open spec fn vec_softplus(v: Seq<u32>) -> Seq<u32> {
    v.map_values(|b: u32| spec_softplus(b))
}

/// The sigmoid applied elementwise.
pub open spec fn vec_sigmoid(v: Seq<u32>) -> Seq<u32> {
    v.map_values(|b: u32| spec_sigmoid(b))
}

/// One squared-error term per output unit: (observed - training)^2
/// elementwise, each operation rounded to single precision.
pub open spec fn vec_sq_residuals(o: Seq<u32>, t: Seq<u32>) -> Seq<u32> {
    Seq::new(o.len(), |i: int| spec_prod(spec_diff(o[i], t[i]), spec_diff(o[i], t[i])))
}

/// The derivative of the squared residuals: 2 * (observed - training)
/// elementwise.
pub open spec fn vec_sq_residuals_deriv(o: Seq<u32>, t: Seq<u32>) -> Seq<u32> {
    Seq::new(o.len(), |i: int| spec_prod(TWO_BITS, spec_diff(o[i], t[i])))
}

/// The capability a cost function offers: an error term per output unit, and
/// its derivative with respect to the observed vector.
pub trait CostFunction {
    /// Used to determine how accurate the network is with respect to the
    /// training data.
    fn forward(&self, observed: Vec<u32>, training: Vec<u32>) -> (r: Vec<u32>)
        requires
            observed@.len() == training@.len(),
        ensures
            r@.len() == observed@.len(),
    ;

    /// The derived `forward` implementation used during backpropagation.
    fn backward(&self, observed: Vec<u32>, training: Vec<u32>) -> (r: Vec<u32>)
        requires
            observed@.len() == training@.len(),
        ensures
            r@.len() == observed@.len(),
    ;
}

/// The cost selection: the built-in squared residuals, or a caller-supplied
/// implementation of the same capability.
pub enum Cost {
    SquaredResiduals,
    Custom(Box<dyn CostFunction>),
}

impl Cost {
    /// True of every choice but a caller-supplied one.
    pub open spec fn is_builtin(&self) -> bool {
        match self {
            Cost::Custom(_) => false,
            _ => true,
        }
    }

    /// The error vector of the chosen cost.  For the built-in choice the
    /// result is pinned exactly; for a custom one only its length.
    pub fn forward(&self, observed: Vec<u32>, training: Vec<u32>) -> (r: Vec<u32>)
        requires
            observed@.len() == training@.len(),
        ensures
            r@.len() == observed@.len(),
            self.is_builtin() ==> r@ == vec_sq_residuals(observed@, training@),
    {
        match self {
            Cost::SquaredResiduals => sq_residuals_forward(&observed, &training),
            Cost::Custom(f) => f.forward(observed, training),
        }
    }

    /// The derivative of the chosen cost with respect to the observed vector.
    pub fn backward(&self, observed: Vec<u32>, training: Vec<u32>) -> (r: Vec<u32>)
        requires
            observed@.len() == training@.len(),
        ensures
            r@.len() == observed@.len(),
            self.is_builtin() ==> r@ == vec_sq_residuals_deriv(observed@, training@),
    {
        match self {
            Cost::SquaredResiduals => sq_residuals_backward(&observed, &training),
            Cost::Custom(f) => f.backward(observed, training),
        }
    }
}

/// The built-in cost: one squared residual per output unit.
pub struct SquaredResiduals;

impl CostFunction for SquaredResiduals {
    fn forward(&self, observed: Vec<u32>, training: Vec<u32>) -> (r: Vec<u32>)
        ensures
            r@ == vec_sq_residuals(observed@, training@),
    {
        sq_residuals_forward(&observed, &training)
    }

    fn backward(&self, observed: Vec<u32>, training: Vec<u32>) -> (r: Vec<u32>)
        ensures
            r@ == vec_sq_residuals_deriv(observed@, training@),
    {
        sq_residuals_backward(&observed, &training)
    }
}

/// The capability an activation offers: an elementwise transformation of a
/// pre-activation vector, and the elementwise derivative of that
/// transformation evaluated at a pre-activation point.
pub trait ActivationFunction {
    /// Used to activate neurons during forward propagation.
    fn forward(&self, l: Vec<u32>) -> (r: Vec<u32>)
        ensures
            r@.len() == l@.len(),
    ;

    /// The derived `forward` implementation used during backpropagation.
    fn backward(&self, l: Vec<u32>) -> (r: Vec<u32>)
        ensures
            r@.len() == l@.len(),
    ;
}

/// The activation selection for one layer transition.
pub enum Activation {
    /// Does not activate the layer.
    Inactive,
    /// Rectified linear unit.
    ReLU,
    /// SoftPlus, ln(1 + e^v).
    SoftPlus,
    /// A caller-supplied activation.
    Custom(Box<dyn ActivationFunction>),
}

/// What the built-in activations compute, elementwise.  For a caller-supplied
/// activation the engine promises nothing elementwise, and no contract
/// consults this function there; its `Custom` arm is an arbitrary placeholder.
pub open spec fn spec_act_forward(a: &Activation, v: Seq<u32>) -> Seq<u32> {
    match a {
        Activation::Inactive => v,
        Activation::ReLU => vec_relu(v),
        Activation::SoftPlus => vec_softplus(v),
        Activation::Custom(_) => v,
    }
}

/// What the built-in activations' derivatives compute, elementwise; as with
/// `spec_act_forward`, the `Custom` arm is an arbitrary placeholder.
pub open spec fn spec_act_backward(a: &Activation, v: Seq<u32>) -> Seq<u32> {
    match a {
        Activation::Inactive => ones_vec(v.len()),
        Activation::ReLU => vec_relu_deriv(v),
        Activation::SoftPlus => vec_sigmoid(v),
        Activation::Custom(_) => v,
    }
}

impl Activation {
    /// True of every choice but a caller-supplied one.
    pub open spec fn is_builtin(&self) -> bool {
        match self {
            Activation::Custom(_) => false,
            _ => true,
        }
    }

    /// The activated vector.  For a built-in choice the result is pinned
    /// elementwise; for a custom one only its length.
    pub fn forward(&self, l: Vec<u32>) -> (r: Vec<u32>)
        ensures
            r@.len() == l@.len(),
            self.is_builtin() ==> r@ == spec_act_forward(self, l@),
    {
        match self {
            Activation::Inactive => l,
            Activation::ReLU => relu_forward(&l),
            Activation::SoftPlus => softplus_forward(&l),
            Activation::Custom(f) => f.forward(l),
        }
    }

    /// The elementwise derivative evaluated at the given pre-activation
    /// vector.  For a built-in choice the result is pinned elementwise; for a
    /// custom one only its length.
    pub fn backward(&self, l: Vec<u32>) -> (r: Vec<u32>)
        ensures
            r@.len() == l@.len(),
            self.is_builtin() ==> r@ == spec_act_backward(self, l@),
    {
        match self {
            Activation::Inactive => ones_forward(&l),
            Activation::ReLU => relu_backward(&l),
            Activation::SoftPlus => softplus_backward(&l),
            Activation::Custom(f) => f.backward(l),
        }
    }
}

/// A rectified linear unit implementation.
pub struct ReLU;

impl ActivationFunction for ReLU {
    fn forward(&self, l: Vec<u32>) -> (r: Vec<u32>)
        ensures
            r@ == vec_relu(l@),
    {
        relu_forward(&l)
    }

    fn backward(&self, l: Vec<u32>) -> (r: Vec<u32>)
        ensures
            r@ == vec_relu_deriv(l@),
    {
        relu_backward(&l)
    }
}

/// A SoftPlus implementation.
pub struct SoftPlus;

impl ActivationFunction for SoftPlus {
    fn forward(&self, l: Vec<u32>) -> (r: Vec<u32>)
        ensures
            r@ == vec_softplus(l@),
    {
        softplus_forward(&l)
    }

    fn backward(&self, l: Vec<u32>) -> (r: Vec<u32>)
        ensures
            r@ == vec_sigmoid(l@),
    {
        softplus_backward(&l)
    }
}

fn sq_residuals_forward(observed: &Vec<u32>, training: &Vec<u32>) -> (r: Vec<u32>)
    requires
        observed@.len() == training@.len(),
    ensures
        r@ == vec_sq_residuals(observed@, training@),
{
    let n = observed.len();
    let mut out: Vec<u32> = Vec::new();
    for i in 0..n
        invariant
            observed@.len() == training@.len(),
            n == observed@.len(),
            out@.len() == i,
            forall|k: int| 0 <= k < i ==> out@[k] == spec_prod(
                spec_diff(observed@[k], training@[k]),
                spec_diff(observed@[k], training@[k]),
            ),
    {
        let d = sub_bits(observed[i], training[i]);
        out.push(mul_bits(d, d));
    }
    proof {
        assert(out@ =~= vec_sq_residuals(observed@, training@));
    }
    out
}

fn sq_residuals_backward(observed: &Vec<u32>, training: &Vec<u32>) -> (r: Vec<u32>)
    requires
        observed@.len() == training@.len(),
    ensures
        r@ == vec_sq_residuals_deriv(observed@, training@),
{
    let n = observed.len();
    let mut out: Vec<u32> = Vec::new();
    for i in 0..n
        invariant
            observed@.len() == training@.len(),
            n == observed@.len(),
            out@.len() == i,
            forall|k: int| 0 <= k < i ==> out@[k] == spec_prod(TWO_BITS, spec_diff(observed@[k], training@[k])),
    {
        out.push(mul_bits(TWO_BITS, sub_bits(observed[i], training[i])));
    }
    proof {
        assert(out@ =~= vec_sq_residuals_deriv(observed@, training@));
    }
    out
}

fn ones_forward(l: &Vec<u32>) -> (r: Vec<u32>)
    ensures
        r@ == ones_vec(l@.len()),
{
    let n = l.len();
    let mut out: Vec<u32> = Vec::new();
    for i in 0..n
        invariant
            out@.len() == i,
            forall|k: int| 0 <= k < i ==> out@[k] == ONE_BITS,
    {
        out.push(ONE_BITS);
    }
    proof {
        assert(out@ =~= ones_vec(l@.len()));
    }
    out
}

fn relu_forward(l: &Vec<u32>) -> (r: Vec<u32>)
    ensures
        r@ == vec_relu(l@),
{
    let n = l.len();
    let mut out: Vec<u32> = Vec::new();
    for i in 0..n
        invariant
            n == l@.len(),
            out@.len() == i,
            forall|k: int| 0 <= k < i ==> out@[k] == spec_relu(l@[k]),
    {
        let b = l[i];
        if b >= SIGN_MASK || (b & 0x7FFF_FFFF) > 0x7F80_0000 {
            out.push(ZERO_BITS);
        } else {
            out.push(b);
        }
    }
    proof {
        assert(out@ =~= vec_relu(l@));
    }
    out
}

fn relu_backward(l: &Vec<u32>) -> (r: Vec<u32>)
    ensures
        r@ == vec_relu_deriv(l@),
{
    let n = l.len();
    let mut out: Vec<u32> = Vec::new();
    for i in 0..n
        invariant
            n == l@.len(),
            out@.len() == i,
            forall|k: int| 0 <= k < i ==> out@[k] == spec_relu_deriv(l@[k]),
    {
        let b = l[i];
        if b & 0x7FFF_FFFF == 0 {
            out.push(HALF_BITS);
        } else if b < SIGN_MASK {
            out.push(ONE_BITS);
        } else {
            out.push(ZERO_BITS);
        }
    }
    proof {
        assert(out@ =~= vec_relu_deriv(l@));
    }
    out
}

fn softplus_forward(l: &Vec<u32>) -> (r: Vec<u32>)
    ensures
        r@ == vec_softplus(l@),
{
    let n = l.len();
    let mut out: Vec<u32> = Vec::new();
    for i in 0..n
        invariant
            n == l@.len(),
            out@.len() == i,
            forall|k: int| 0 <= k < i ==> out@[k] == spec_softplus(l@[k]),
    {
        out.push(ln_bits(add_bits(ONE_BITS, exp_bits(l[i]))));
    }
    proof {
        assert(out@ =~= vec_softplus(l@));
    }
    out
}

fn softplus_backward(l: &Vec<u32>) -> (r: Vec<u32>)
    ensures
        r@ == vec_sigmoid(l@),
{
    let n = l.len();
    let mut out: Vec<u32> = Vec::new();
    for i in 0..n
        invariant
            n == l@.len(),
            out@.len() == i,
            forall|k: int| 0 <= k < i ==> out@[k] == spec_sigmoid(l@[k]),
    {
        out.push(div_bits(ONE_BITS, add_bits(ONE_BITS, exp_bits(neg_bits(l[i])))));
    }
    proof {
        assert(out@ =~= vec_sigmoid(l@));
    }
    out
}

} // verus!
