//! A minimal feedforward neural-network engine.
//!
//! A network is built from a list of layer sizes, propagates input vectors
//! forward through weighted, biased, activated layers, and computes parameter
//! gradients by backpropagation over a batch of labeled samples.  All numbers
//! are IEEE 754 single-precision values carried as their 32-bit patterns.
pub mod batch;
pub mod functions;
pub mod matrix;
pub mod neural_network;
pub mod scalar;
