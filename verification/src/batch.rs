//! Training data containers: a sample pairs an input vector with its target
//! vector, and a batch is an ordered list of samples.  Vectors hold
//! single-precision bit patterns; lengths are checked against the network's
//! layer sizes only where the data is consumed.
use vstd::prelude::*;

verus! {

/// An (input, target) pair of single-precision vectors.
pub struct Sample(pub Vec<u32>, pub Vec<u32>);

impl Sample {
    /// Pairs an input vector with the output it should produce.
    pub fn new(input: Vec<u32>, output: Vec<u32>) -> (s: Sample)
        ensures
            s.0 == input,
            s.1 == output,
    {
        Sample(input, output)
    }
}

/// Batches store data that is used to train the neural network.
pub struct Batch {
    pub samples: Vec<Sample>,
}

impl Batch {
    /// Wraps an ordered list of samples.
    pub fn new(samples: Vec<Sample>) -> (b: Batch)
        ensures
            b.samples == samples,
    {
        Batch { samples }
    }
}

} // verus!
